use pqseal::aead::generate_nonce;
use pqseal::codec::{deserialize_inner, deserialize_outer, serialize_inner, serialize_outer};
use pqseal::errors::SealError;
use pqseal::kdf::derive_symmetric_key;
use pqseal::kem::generate_kem_keypair;
use pqseal::pipeline::{open, seal};

#[test]
fn round_trip_hello_world() {
    let keys = generate_kem_keypair();
    let plaintext = b"hello world".to_vec();
    let sealed = seal(&plaintext, &keys.public_key).unwrap();
    assert!(!sealed.envelope.is_empty());
    let opened = open(&sealed.envelope, &keys.secret_key, &sealed.verify_key).unwrap();
    assert_eq!(opened, plaintext);
}

#[test]
fn scenario_payload_decompresses_to_well_formed_inner() {
    let keys = generate_kem_keypair();
    let plaintext = b"hello world".to_vec();
    let sealed = seal(&plaintext, &keys.public_key).unwrap();
    let outer = deserialize_outer(&sealed.envelope).unwrap();
    assert!(!outer.payload.is_empty());
    // The compressed payload is a real zstd stream, not the raw bytes.
    let magic = [0x28u8, 0xB5, 0x2F, 0xFD];
    assert_eq!(&outer.payload[..4], &magic);
    let inner_bytes = zstd::stream::decode_all(&outer.payload[..]).unwrap();
    let inner = deserialize_inner(&inner_bytes).unwrap();
    assert_eq!(inner.nonce.len(), 12);
    assert_eq!(inner.kem_ciphertext.len(), 1088);
    // AEAD appends a 16-byte tag, so the ciphertext is longer than the
    // plaintext and cannot be the plaintext handed back unchanged.
    assert_eq!(inner.encrypted_payload.len(), plaintext.len() + 16);
    assert_ne!(&inner.encrypted_payload[..plaintext.len()], &plaintext[..]);
}

#[test]
fn round_trip_empty_plaintext() {
    let keys = generate_kem_keypair();
    let plaintext = Vec::new();
    let sealed = seal(&plaintext, &keys.public_key).unwrap();
    let opened = open(&sealed.envelope, &keys.secret_key, &sealed.verify_key).unwrap();
    assert_eq!(opened, plaintext);
}

#[test]
fn round_trip_larger_plaintext() {
    let keys = generate_kem_keypair();
    let mut plaintext = Vec::new();
    for i in 0..10_000u32 {
        plaintext.push((i % 251) as u8);
    }
    let sealed = seal(&plaintext, &keys.public_key).unwrap();
    let opened = open(&sealed.envelope, &keys.secret_key, &sealed.verify_key).unwrap();
    assert_eq!(opened, plaintext);
}

#[test]
fn tampered_signature_is_rejected_before_decryption() {
    let keys = generate_kem_keypair();
    let plaintext = b"attack at dawn".to_vec();
    let sealed = seal(&plaintext, &keys.public_key).unwrap();
    let outer = deserialize_outer(&sealed.envelope).unwrap();
    for position in [0usize, 1000, outer.signature.len() - 1] {
        for bit in [0u8, 3, 7] {
            let mut tampered = deserialize_outer(&sealed.envelope).unwrap();
            tampered.signature[position] ^= 1 << bit;
            let bytes = serialize_outer(&tampered);
            let r = open(&bytes, &keys.secret_key, &sealed.verify_key);
            assert_eq!(r, Err(SealError::SignatureInvalid));
        }
    }
}

#[test]
fn tampered_payload_is_rejected_before_decryption() {
    let keys = generate_kem_keypair();
    let plaintext = b"attack at dawn".to_vec();
    let sealed = seal(&plaintext, &keys.public_key).unwrap();
    let outer = deserialize_outer(&sealed.envelope).unwrap();
    for position in [0usize, outer.payload.len() / 2, outer.payload.len() - 1] {
        for bit in [0u8, 4] {
            let mut tampered = deserialize_outer(&sealed.envelope).unwrap();
            tampered.payload[position] ^= 1 << bit;
            let bytes = serialize_outer(&tampered);
            let r = open(&bytes, &keys.secret_key, &sealed.verify_key);
            assert_eq!(r, Err(SealError::SignatureInvalid));
        }
    }
}

#[test]
fn corrupted_ciphertext_with_valid_signature_fails_authentication() {
    let keys = generate_kem_keypair();
    let plaintext = b"the inner layer must defend itself".to_vec();
    let sealed = seal(&plaintext, &keys.public_key).unwrap();
    let outer = deserialize_outer(&sealed.envelope).unwrap();
    let inner_bytes = zstd::stream::decode_all(&outer.payload[..]).unwrap();
    let mut inner = deserialize_inner(&inner_bytes).unwrap();
    // Corrupt the AEAD ciphertext, then re-sign the corrupted payload with a
    // fresh sender keypair so that only the AEAD check can catch it.
    let mid = inner.encrypted_payload.len() / 2;
    inner.encrypted_payload[mid] ^= 0x10;
    let corrupted_inner_bytes = serialize_inner(&inner);
    let corrupted_payload = zstd::bulk::compress(&corrupted_inner_bytes[..], 22).unwrap();
    let signer = pqc_dilithium::Keypair::generate();
    let signature = signer.sign(&corrupted_payload).to_vec();
    let outer2 = pqseal::codec::OuterEnvelope { payload: corrupted_payload, signature };
    let bytes = serialize_outer(&outer2);
    let r = open(&bytes, &keys.secret_key, &signer.public.to_vec());
    assert_eq!(r, Err(SealError::Authentication));
}

#[test]
fn wrong_recipient_key_fails_authentication_never_wrong_plaintext() {
    let keys1 = generate_kem_keypair();
    let keys2 = generate_kem_keypair();
    let plaintext = b"for recipient one only".to_vec();
    let sealed = seal(&plaintext, &keys1.public_key).unwrap();
    let r = open(&sealed.envelope, &keys2.secret_key, &sealed.verify_key);
    assert_eq!(r, Err(SealError::Authentication));
}

#[test]
fn wrong_verify_key_fails_signature_check() {
    let keys = generate_kem_keypair();
    let plaintext = b"who signed this?".to_vec();
    let sealed = seal(&plaintext, &keys.public_key).unwrap();
    let other = seal(&plaintext, &keys.public_key).unwrap();
    let r = open(&sealed.envelope, &keys.secret_key, &other.verify_key);
    assert_eq!(r, Err(SealError::SignatureInvalid));
}

#[test]
fn derivation_is_deterministic_and_matches_hkdf() {
    let secret: Vec<u8> = (0u8..32).collect();
    let k1 = derive_symmetric_key(&secret);
    let k2 = derive_symmetric_key(&secret);
    assert_eq!(k1, k2);
    assert_eq!(k1.len(), 32);
    // Independently recompute the expansion with the hkdf crate.
    let hk = hkdf::Hkdf::<sha2::Sha256>::new(None, &secret);
    let mut expected = [0u8; 32];
    hk.expand(b"info", &mut expected).unwrap();
    assert_eq!(k1, expected.to_vec());
    // A different secret yields a different key.
    let other_secret: Vec<u8> = (1u8..33).collect();
    let k3 = derive_symmetric_key(&other_secret);
    assert_ne!(k1, k3);
}

#[test]
fn nonces_are_unique_across_many_calls() {
    let mut seen = std::collections::HashSet::new();
    for _ in 0..1000 {
        let nonce = generate_nonce();
        assert_eq!(nonce.len(), 12);
        assert!(seen.insert(nonce), "nonce collision");
    }
}

#[test]
fn seal_rejects_wrong_length_recipient_key() {
    let plaintext = b"x".to_vec();
    let short_key = vec![0u8; 100];
    let r = seal(&plaintext, &short_key);
    assert!(matches!(r, Err(SealError::KeyFormat)));
}

#[test]
fn open_rejects_wrong_length_verify_key() {
    let keys = generate_kem_keypair();
    let sealed = seal(&b"vk length".to_vec(), &keys.public_key).unwrap();
    let bad_vk = vec![0u8; 64];
    let r = open(&sealed.envelope, &keys.secret_key, &bad_vk);
    assert_eq!(r, Err(SealError::KeyFormat));
}

#[test]
fn open_rejects_wrong_length_secret_key() {
    let keys = generate_kem_keypair();
    let sealed = seal(&b"sk length".to_vec(), &keys.public_key).unwrap();
    let bad_sk = vec![0u8; 17];
    let r = open(&sealed.envelope, &bad_sk, &sealed.verify_key);
    assert_eq!(r, Err(SealError::KeyFormat));
}

#[test]
fn open_rejects_garbage_envelope() {
    let keys = generate_kem_keypair();
    let sealed = seal(&b"framing".to_vec(), &keys.public_key).unwrap();
    let garbage = b"not an envelope at all".to_vec();
    let r = open(&garbage, &keys.secret_key, &sealed.verify_key);
    assert_eq!(r, Err(SealError::MalformedEnvelope));
}

#[test]
fn corrupted_compressed_stream_fails_decompression() {
    let keys = generate_kem_keypair();
    // A validly signed payload that is not a zstd stream: the signature
    // passes, decompression cannot.
    let payload = b"junk that is not compressed".to_vec();
    let signer = pqc_dilithium::Keypair::generate();
    let signature = signer.sign(&payload).to_vec();
    let outer = pqseal::codec::OuterEnvelope { payload, signature };
    let bytes = serialize_outer(&outer);
    let r = open(&bytes, &keys.secret_key, &signer.public.to_vec());
    assert_eq!(r, Err(SealError::Decompression));
}

#[test]
fn error_messages_are_distinct() {
    let errors = [
        SealError::KeyFormat,
        SealError::CryptoOperation,
        SealError::Authentication,
        SealError::SignatureInvalid,
        SealError::MalformedEnvelope,
        SealError::Decompression,
    ];
    let mut seen = std::collections::HashSet::new();
    for e in errors {
        assert!(seen.insert(e.message()));
    }
}
