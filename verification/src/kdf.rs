use vstd::prelude::*;

use crate::params::{protocol_label, spec_protocol_label, MAX_KDF_OUTPUT_LEN, SYMMETRIC_KEY_LEN};

verus! {

/// The byte string HKDF-SHA-256 (extract with empty salt, then expand under
/// `label`) derives from `secret` at length `len`. Names the result of
/// hkdf::Hkdf::<sha2::Sha256>::expand, which is deterministic in its inputs.
pub uninterp spec fn kdf_expand_of(secret: Seq<u8>, label: Seq<u8>, len: nat) -> Seq<u8>;

/// Relies on hkdf::Hkdf::<sha2::Sha256>: new(None, secret) followed by
/// expand(label, okm) fills `okm` completely, fails only when more than 255
/// hash outputs are requested — excluded here — and is a pure function of
/// secret, label, and output length.
#[verifier::external_body]
fn hkdf_expand(secret: &Vec<u8>, label: &Vec<u8>, out_len: usize) -> (r: Vec<u8>)
    requires
        out_len <= MAX_KDF_OUTPUT_LEN,
    ensures
        r@ == kdf_expand_of(secret@, label@, out_len as nat),
        r@.len() == out_len,
{
    let hk = hkdf::Hkdf::<sha2::Sha256>::new(None, secret.as_slice());
    let mut okm = vec![0u8; out_len];
    hk.expand(label.as_slice(), &mut okm).unwrap();
    okm
}

/// Expand a KEM shared secret into the AES-256 key under the protocol's
/// fixed context label.
pub fn derive_symmetric_key(secret: &Vec<u8>) -> (r: Vec<u8>)
    ensures
        r@ == kdf_expand_of(secret@, spec_protocol_label(), SYMMETRIC_KEY_LEN as nat),
        r@.len() == SYMMETRIC_KEY_LEN,
{
    let label = protocol_label();
    hkdf_expand(secret, &label, SYMMETRIC_KEY_LEN)
}

/// Law: key derivation is deterministic — the same secret and label always
/// expand to the same key, which is what lets the recipient reconstruct the
/// key the sender used.
pub proof fn lemma_derivation_deterministic(
    k1: Seq<u8>,
    k2: Seq<u8>,
    secret: Seq<u8>,
    label: Seq<u8>,
    len: nat,
)
    requires
        k1 == kdf_expand_of(secret, label, len),
        k2 == kdf_expand_of(secret, label, len),
    ensures
        k1 == k2,
{
}

} // verus!
