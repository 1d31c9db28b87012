use vstd::prelude::*;

use crate::params::{SIGNATURE_LEN, VERIFY_KEY_LEN};

verus! {

/// Whether pqc_dilithium::verify accepts `sig` over `msg` under the
/// verification key `vk`; verification is deterministic in its three
/// inputs.
pub uninterp spec fn signature_valid(sig: Seq<u8>, msg: Seq<u8>, vk: Seq<u8>) -> bool;

/// Relies on pqc_dilithium::Keypair::generate and Keypair::sign: a fresh
/// one-time signing keypair is drawn, the message is signed with it, and by
/// the scheme's correctness the signature verifies under the keypair's
/// public key; key and signature have the fixed Dilithium3 sizes.
#[verifier::external_body]
pub(crate) fn sign_with_fresh_keypair(msg: &Vec<u8>) -> (r: (Vec<u8>, Vec<u8>))
    ensures
        r.0@.len() == VERIFY_KEY_LEN,
        r.1@.len() == SIGNATURE_LEN,
        signature_valid(r.1@, msg@, r.0@),
{
    let keys = pqc_dilithium::Keypair::generate();
    let sig = keys.sign(msg.as_slice());
    (keys.public.to_vec(), sig.to_vec())
}

/// Relies on pqc_dilithium::verify: deterministic, and Ok exactly when the
/// signature validates. Its source indexes into the public key without a
/// length check, so the fixed key length is required here.
#[verifier::external_body]
pub(crate) fn dilithium_verify(sig: &Vec<u8>, msg: &Vec<u8>, vk: &Vec<u8>) -> (r: bool)
    requires
        vk@.len() == VERIFY_KEY_LEN,
    ensures
        r == signature_valid(sig@, msg@, vk@),
{
    pqc_dilithium::verify(sig.as_slice(), msg.as_slice(), vk.as_slice()).is_ok()
}

} // verus!
