use vstd::prelude::*;

use crate::aead::{aead_decrypt, aead_encrypt, aead_open_of, generate_nonce};
use crate::codec::{
    deserialize_inner, deserialize_outer, lemma_parse_inner_of_encode, lemma_parse_outer_of_encode,
    serialize_inner, serialize_outer, spec_encode_inner, spec_inner_fields_ok, spec_parse_inner,
    spec_parse_outer, InnerEnvelope, OuterEnvelope,
};
use crate::compress::{decompress_of, zstd_compress, zstd_decompress};
use crate::errors::SealError;
use crate::kdf::{derive_symmetric_key, kdf_expand_of};
use crate::kem::{kem_decap_of, kem_key_match, kyber_decapsulate, kyber_encapsulate};
use crate::params::{
    spec_protocol_label, COMPRESSION_LEVEL, KEM_CIPHERTEXT_LEN, KEM_PUBLIC_KEY_LEN,
    KEM_SECRET_KEY_LEN, MAX_PLAINTEXT_LEN, NONCE_LEN, SHARED_SECRET_LEN, SIGNATURE_LEN,
    SYMMETRIC_KEY_LEN, TAG_LEN, VERIFY_KEY_LEN,
};
use crate::sign::{dilithium_verify, sign_with_fresh_keypair, signature_valid};
use vstd::arithmetic::div_mod::lemma_div_is_ordered;
use vstd::bytes::lemma_auto_spec_u32_to_from_le_bytes;

verus! {

/// What one seal run produces: the serialized outer envelope to persist, and
/// the one-time verification key the recipient must receive out of band.
pub struct SealedMessage {
    pub envelope: Vec<u8>,
    pub verify_key: Vec<u8>,
}

/// The intermediate values of one seal run, named so the contract of `seal`
/// can bind them together.
pub ghost struct SealWitness {
    pub kem_ciphertext: Seq<u8>,
    pub shared_secret: Seq<u8>,
    pub nonce: Seq<u8>,
    pub encrypted_payload: Seq<u8>,
    pub payload: Seq<u8>,
    pub signature: Seq<u8>,
}

/// `env` is a sealed envelope carrying `plaintext` for the holder of the
/// secret key matching `pk`, verifiable under `vk`, with `w` naming the
/// intermediate values of the run that produced it.
pub open spec fn sealed_with(
    env: Seq<u8>,
    vk: Seq<u8>,
    plaintext: Seq<u8>,
    pk: Seq<u8>,
    w: SealWitness,
) -> bool {
    &&& spec_parse_outer(env) == Some((w.payload, w.signature))
    &&& w.signature.len() == SIGNATURE_LEN
    &&& signature_valid(w.signature, w.payload, vk)
    &&& decompress_of(w.payload) == Some(
        spec_encode_inner(w.kem_ciphertext, w.encrypted_payload, w.nonce),
    )
    &&& w.kem_ciphertext.len() == KEM_CIPHERTEXT_LEN
    &&& w.nonce.len() == NONCE_LEN
    &&& w.shared_secret.len() == SHARED_SECRET_LEN
    &&& w.encrypted_payload.len() == plaintext.len() + TAG_LEN
    &&& w.encrypted_payload.len() <= u32::MAX
    &&& (forall|sk: Seq<u8>| #[trigger] kem_key_match(pk, sk) ==> kem_decap_of(
        w.kem_ciphertext,
        sk,
    ) == w.shared_secret)
    &&& aead_open_of(
        kdf_expand_of(w.shared_secret, spec_protocol_label(), SYMMETRIC_KEY_LEN as nat),
        w.nonce,
        w.encrypted_payload,
    ) == Some(plaintext)
}

/// `env` is a sealed envelope for `plaintext`, addressed to `pk` and
/// verifiable under `vk`.
pub open spec fn sealed_for(env: Seq<u8>, vk: Seq<u8>, plaintext: Seq<u8>, pk: Seq<u8>) -> bool {
    exists|w: SealWitness| sealed_with(env, vk, plaintext, pk, w)
}

/// What `open` returns, step by step: parse, verify, decompress, parse,
/// decapsulate, derive, decrypt. Every step's failure is terminal and
/// tagged with the step that failed; the signature gates everything
/// downstream.
pub open spec fn spec_open(env: Seq<u8>, sk: Seq<u8>, vk: Seq<u8>) -> Result<Seq<u8>, SealError> {
    if vk.len() != VERIFY_KEY_LEN {
        Err(SealError::KeyFormat)
    } else {
        match spec_parse_outer(env) {
            None => Err(SealError::MalformedEnvelope),
            Some((payload, signature)) => if signature.len() != SIGNATURE_LEN {
                Err(SealError::MalformedEnvelope)
            } else if !signature_valid(signature, payload, vk) {
                Err(SealError::SignatureInvalid)
            } else {
                match decompress_of(payload) {
                    None => Err(SealError::Decompression),
                    Some(inner_bytes) => match spec_parse_inner(inner_bytes) {
                        None => Err(SealError::MalformedEnvelope),
                        Some((kem_ct, enc, nonce)) => if !spec_inner_fields_ok(
                            kem_ct,
                            enc,
                            nonce,
                        ) {
                            Err(SealError::MalformedEnvelope)
                        } else if sk.len() != KEM_SECRET_KEY_LEN {
                            Err(SealError::KeyFormat)
                        } else {
                            match aead_open_of(
                                kdf_expand_of(
                                    kem_decap_of(kem_ct, sk),
                                    spec_protocol_label(),
                                    SYMMETRIC_KEY_LEN as nat,
                                ),
                                nonce,
                                enc,
                            ) {
                                None => Err(SealError::Authentication),
                                Some(pt) => Ok(pt),
                            }
                        },
                    },
                }
            },
        }
    }
}

/// Encrypt-then-sign. Establishes a fresh shared secret against the
/// recipient's public key, derives the symmetric key, encrypts the
/// plaintext under a fresh nonce, serializes and compresses the inner
/// envelope, and signs the compressed bytes with a fresh one-time keypair
/// whose public half is returned alongside the envelope.
pub fn seal(plaintext: &Vec<u8>, recipient_public_key: &Vec<u8>) -> (r: Result<
    SealedMessage,
    SealError,
>)
    requires
        plaintext@.len() <= MAX_PLAINTEXT_LEN,
    ensures
        r matches Ok(m) ==> {
            &&& sealed_for(m.envelope@, m.verify_key@, plaintext@, recipient_public_key@)
            &&& m.verify_key@.len() == VERIFY_KEY_LEN
        },
        recipient_public_key@.len() == KEM_PUBLIC_KEY_LEN <==> r is Ok,
        r matches Err(e) ==> e == SealError::KeyFormat,
{
    if recipient_public_key.len() != KEM_PUBLIC_KEY_LEN {
        return Err(SealError::KeyFormat);
    }
    let (kem_ct, secret) = kyber_encapsulate(recipient_public_key);
    let key = derive_symmetric_key(&secret);
    let nonce = generate_nonce();
    let enc = aead_encrypt(&key, &nonce, plaintext);
    let inner = InnerEnvelope { kem_ciphertext: kem_ct, encrypted_payload: enc, nonce };
    let inner_bytes = serialize_inner(&inner);
    let payload = zstd_compress(&inner_bytes, COMPRESSION_LEVEL);
    proof {
        lemma_auto_spec_u32_to_from_le_bytes();
        assert(inner_bytes@.len() == plaintext@.len() + 1128);
        lemma_div_is_ordered(inner_bytes@.len() as int, MAX_PLAINTEXT_LEN + 1128, 256);
        assert(payload@.len() <= u32::MAX);
    }
    let (verify_key, signature) = sign_with_fresh_keypair(&payload);
    let outer = OuterEnvelope { payload, signature };
    let envelope = serialize_outer(&outer);
    proof {
        lemma_parse_outer_of_encode(outer.payload@, outer.signature@);
        let w = SealWitness {
            kem_ciphertext: inner.kem_ciphertext@,
            shared_secret: secret@,
            nonce: inner.nonce@,
            encrypted_payload: inner.encrypted_payload@,
            payload: outer.payload@,
            signature: outer.signature@,
        };
        assert(sealed_with(envelope@, verify_key@, plaintext@, recipient_public_key@, w));
    }
    Ok(SealedMessage { envelope, verify_key })
}

/// Verify-then-decrypt, exactly reversing `seal` and failing closed: the
/// signature is checked over the whole compressed payload before any
/// decompression or decryption is attempted, and each later step's failure
/// is terminal.
pub fn open(
    envelope_bytes: &Vec<u8>,
    recipient_secret_key: &Vec<u8>,
    sender_verify_key: &Vec<u8>,
) -> (r: Result<Vec<u8>, SealError>)
    ensures
        r matches Ok(pt) ==> spec_open(envelope_bytes@, recipient_secret_key@, sender_verify_key@)
            == Ok::<Seq<u8>, SealError>(pt@),
        r matches Err(e) ==> spec_open(envelope_bytes@, recipient_secret_key@, sender_verify_key@)
            == Err::<Seq<u8>, SealError>(e),
{
    if sender_verify_key.len() != VERIFY_KEY_LEN {
        return Err(SealError::KeyFormat);
    }
    let outer = match deserialize_outer(envelope_bytes) {
        Ok(o) => o,
        Err(e) => {
            return Err(e);
        },
    };
    if !dilithium_verify(&outer.signature, &outer.payload, sender_verify_key) {
        return Err(SealError::SignatureInvalid);
    }
    let inner_bytes = match zstd_decompress(&outer.payload) {
        Ok(d) => d,
        Err(e) => {
            return Err(e);
        },
    };
    let inner = match deserialize_inner(&inner_bytes) {
        Ok(i) => i,
        Err(e) => {
            return Err(e);
        },
    };
    if recipient_secret_key.len() != KEM_SECRET_KEY_LEN {
        return Err(SealError::KeyFormat);
    }
    let secret = kyber_decapsulate(&inner.kem_ciphertext, recipient_secret_key);
    let key = derive_symmetric_key(&secret);
    aead_decrypt(&key, &inner.nonce, &inner.encrypted_payload)
}

/// Law (round trip): opening a sealed envelope with the recipient secret
/// key that matches the public key it was sealed against, under the
/// signer's verification key, returns exactly the sealed plaintext.
pub proof fn lemma_round_trip(
    env: Seq<u8>,
    vk: Seq<u8>,
    plaintext: Seq<u8>,
    pk: Seq<u8>,
    sk: Seq<u8>,
)
    requires
        sealed_for(env, vk, plaintext, pk),
        kem_key_match(pk, sk),
        vk.len() == VERIFY_KEY_LEN,
        sk.len() == KEM_SECRET_KEY_LEN,
    ensures
        spec_open(env, sk, vk) == Ok::<Seq<u8>, SealError>(plaintext),
{
    let w = choose|w: SealWitness| sealed_with(env, vk, plaintext, pk, w);
    lemma_parse_inner_of_encode(w.kem_ciphertext, w.encrypted_payload, w.nonce);
    assert(kem_key_match(pk, sk));
    assert(kem_decap_of(w.kem_ciphertext, sk) == w.shared_secret);
}

/// Law (fail closed): when the signature over the payload does not verify,
/// `open` reports an invalid signature; no downstream step — in particular
/// no decryption — contributes to the result.
pub proof fn lemma_tamper_stops_open(env: Seq<u8>, sk: Seq<u8>, vk: Seq<u8>)
    requires
        vk.len() == VERIFY_KEY_LEN,
        spec_parse_outer(env) is Some,
        spec_parse_outer(env)->Some_0.1.len() == SIGNATURE_LEN,
        !signature_valid(spec_parse_outer(env)->Some_0.1, spec_parse_outer(env)->Some_0.0, vk),
    ensures
        spec_open(env, sk, vk) == Err::<Seq<u8>, SealError>(SealError::SignatureInvalid),
{
}

/// Law (no unauthenticated plaintext): whenever `open` succeeds, the
/// signature over the compressed payload verified, and the plaintext is
/// exactly what the AEAD authenticated under the key derived from
/// decapsulation with the supplied secret key — a non-matching recipient
/// key can make authentication fail, never yield silent wrong plaintext.
pub proof fn lemma_open_only_authenticated(env: Seq<u8>, sk: Seq<u8>, vk: Seq<u8>)
    requires
        spec_open(env, sk, vk) is Ok,
    ensures
        spec_parse_outer(env) is Some,
        signature_valid(spec_parse_outer(env)->Some_0.1, spec_parse_outer(env)->Some_0.0, vk),
        decompress_of(spec_parse_outer(env)->Some_0.0) is Some,
        ({
            let inner = spec_parse_inner(decompress_of(spec_parse_outer(env)->Some_0.0)->Some_0);
            &&& inner is Some
            &&& aead_open_of(
                kdf_expand_of(
                    kem_decap_of(inner->Some_0.0, sk),
                    spec_protocol_label(),
                    SYMMETRIC_KEY_LEN as nat,
                ),
                inner->Some_0.2,
                inner->Some_0.1,
            ) == Some(spec_open(env, sk, vk)->Ok_0)
        }),
{
}

} // verus!

