use vstd::prelude::*;

verus! {

/// Kyber-768 public key length in bytes.
pub const KEM_PUBLIC_KEY_LEN: usize = 1184;

/// Kyber-768 secret key length in bytes.
pub const KEM_SECRET_KEY_LEN: usize = 2400;

/// Kyber-768 ciphertext length in bytes.
pub const KEM_CIPHERTEXT_LEN: usize = 1088;

/// Length of the shared secret a Kyber encapsulation establishes.
pub const SHARED_SECRET_LEN: usize = 32;

/// AES-256 key length in bytes; the key derivation step always produces this.
pub const SYMMETRIC_KEY_LEN: usize = 32;

/// AES-GCM nonce length in bytes (96 bits).
pub const NONCE_LEN: usize = 12;

/// AES-GCM authentication tag length; the cipher appends it to the ciphertext.
pub const TAG_LEN: usize = 16;

/// Dilithium3 public (verification) key length in bytes.
pub const VERIFY_KEY_LEN: usize = 1952;

/// Dilithium3 signature length in bytes.
pub const SIGNATURE_LEN: usize = 3293;

/// Zstd compression level applied to the serialized inner envelope.
pub const COMPRESSION_LEVEL: i32 = 22;

/// The most bytes HKDF-SHA-256 can expand a secret into: 255 hash outputs.
pub const MAX_KDF_OUTPUT_LEN: usize = 8160;

/// The most plaintext bytes one seal call accepts. Leaves room inside the
/// wire format's 32-bit length prefixes for the AEAD tag, the other envelope
/// fields, and zstd's worst-case compression overhead, so that sealing is
/// guaranteed to succeed for every well-formed recipient key.
pub const MAX_PLAINTEXT_LEN: usize = 4_250_000_000;

/// The fixed application-context label handed to the key derivation step.
pub open spec fn spec_protocol_label() -> Seq<u8> {
    seq![105u8, 110u8, 102u8, 111u8]
}

/// The context label as bytes: "info" in ASCII.
pub fn protocol_label() -> (r: Vec<u8>)
    ensures
        r@ == spec_protocol_label(),
{
    let mut v: Vec<u8> = Vec::new();
    v.push(105);
    v.push(110);
    v.push(102);
    v.push(111);
    proof {
        assert(v@ =~= spec_protocol_label());
    }
    v
}

} // verus!
