use vstd::prelude::*;

use crate::errors::SealError;
use crate::params::{NONCE_LEN, SYMMETRIC_KEY_LEN, TAG_LEN};

verus! {

/// What AES-256-GCM authenticated decryption yields for a key, nonce, and
/// ciphertext-with-tag: the plaintext when the tag authenticates, nothing
/// otherwise. Names the result of aes_gcm::Aes256Gcm's decrypt, which is
/// deterministic in its three inputs.
pub uninterp spec fn aead_open_of(key: Seq<u8>, nonce: Seq<u8>, ct: Seq<u8>) -> Option<Seq<u8>>;

/// Relies on aes_gcm::Aes256Gcm::generate_nonce with the operating system's
/// randomness source (OsRng): twelve fresh random bytes.
#[verifier::external_body]
fn generate_nonce_bytes() -> (r: Vec<u8>)
    ensures
        r@.len() == NONCE_LEN,
{
    let nonce = <aes_gcm::Aes256Gcm as aes_gcm::AeadCore>::generate_nonce(
        &mut aes_gcm::aead::OsRng,
    );
    nonce.to_vec()
}

/// Generate a fresh AEAD nonce from the system's cryptographically secure
/// randomness source. Each seal call draws exactly one.
pub fn generate_nonce() -> (r: Vec<u8>)
    ensures
        r@.len() == NONCE_LEN,
{
    generate_nonce_bytes()
}

/// Relies on aes_gcm::Aes256Gcm (aead::Aead::encrypt): the ciphertext is the
/// plaintext plus the appended 16-byte tag, and decrypting it under the same
/// key and nonce returns the plaintext. Its source returns Err exactly when
/// the plaintext exceeds AES-GCM's length bound P_MAX of 2^36 bytes —
/// excluded here, so encryption always succeeds.
#[verifier::external_body]
pub(crate) fn aead_encrypt(key: &Vec<u8>, nonce: &Vec<u8>, plaintext: &Vec<u8>) -> (r: Vec<u8>)
    requires
        key@.len() == SYMMETRIC_KEY_LEN,
        nonce@.len() == NONCE_LEN,
        plaintext@.len() <= 0x10_0000_0000,
    ensures
        r@.len() == plaintext@.len() + TAG_LEN,
        aead_open_of(key@, nonce@, r@) == Some(plaintext@),
{
    let cipher = <aes_gcm::Aes256Gcm as aes_gcm::KeyInit>::new(
        aes_gcm::Key::<aes_gcm::Aes256Gcm>::from_slice(key.as_slice()),
    );
    let nonce = aes_gcm::Nonce::from_slice(nonce.as_slice());
    aes_gcm::aead::Aead::encrypt(&cipher, nonce, plaintext.as_slice()).unwrap()
}

/// Relies on aes_gcm::Aes256Gcm (aead::Aead::decrypt): deterministic in key,
/// nonce, and ciphertext; returns the plaintext exactly when the
/// authentication tag validates, and never a partial plaintext.
#[verifier::external_body]
pub(crate) fn aead_decrypt(key: &Vec<u8>, nonce: &Vec<u8>, ct: &Vec<u8>) -> (r: Result<
    Vec<u8>,
    SealError,
>)
    requires
        key@.len() == SYMMETRIC_KEY_LEN,
        nonce@.len() == NONCE_LEN,
    ensures
        r matches Ok(pt) ==> aead_open_of(key@, nonce@, ct@) == Some(pt@),
        r is Ok <==> aead_open_of(key@, nonce@, ct@) is Some,
        r matches Err(e) ==> e == SealError::Authentication,
{
    let cipher = <aes_gcm::Aes256Gcm as aes_gcm::KeyInit>::new(
        aes_gcm::Key::<aes_gcm::Aes256Gcm>::from_slice(key.as_slice()),
    );
    let nonce = aes_gcm::Nonce::from_slice(nonce.as_slice());
    match aes_gcm::aead::Aead::decrypt(&cipher, nonce, ct.as_slice()) {
        Ok(pt) => Ok(pt),
        Err(_) => Err(SealError::Authentication),
    }
}

} // verus!
