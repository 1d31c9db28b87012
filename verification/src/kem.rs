use vstd::prelude::*;

use crate::params::{
    KEM_CIPHERTEXT_LEN, KEM_PUBLIC_KEY_LEN, KEM_SECRET_KEY_LEN, SHARED_SECRET_LEN,
};

verus! {

/// Whether `sk` is the Kyber secret key generated together with `pk`.
/// Names the relationship safe_pqc_kyber::keypair establishes between the
/// two halves of the pair it returns.
pub uninterp spec fn kem_key_match(pk: Seq<u8>, sk: Seq<u8>) -> bool;

/// The shared secret safe_pqc_kyber::decapsulate computes from a ciphertext
/// and a secret key; decapsulation is deterministic in those two arguments.
pub uninterp spec fn kem_decap_of(ct: Seq<u8>, sk: Seq<u8>) -> Seq<u8>;

/// A Kyber keypair held as raw bytes. The recipient publishes the public
/// half; the secret half opens envelopes sealed against it.
pub struct KemKeyPair {
    pub public_key: Vec<u8>,
    pub secret_key: Vec<u8>,
}

impl KemKeyPair {
    pub open spec fn wf(self) -> bool {
        &&& self.public_key@.len() == KEM_PUBLIC_KEY_LEN
        &&& self.secret_key@.len() == KEM_SECRET_KEY_LEN
        &&& kem_key_match(self.public_key@, self.secret_key@)
    }
}

/// Relies on safe_pqc_kyber::keypair, with rand::thread_rng as the
/// randomness source: it returns a fresh pair of the fixed Kyber-768 sizes,
/// and decapsulating with the secret half inverts any encapsulation made
/// against the public half.
#[verifier::external_body]
fn kyber_generate() -> (r: (Vec<u8>, Vec<u8>))
    ensures
        r.0@.len() == KEM_PUBLIC_KEY_LEN,
        r.1@.len() == KEM_SECRET_KEY_LEN,
        kem_key_match(r.0@, r.1@),
{
    let mut rng = rand::thread_rng();
    let keys = safe_pqc_kyber::keypair(&mut rng);
    (keys.public.to_vec(), keys.secret.to_vec())
}

/// Relies on safe_pqc_kyber::encapsulate, with rand::thread_rng as the
/// randomness source. Its source returns Err exactly when the public key
/// length is wrong — excluded here — and otherwise produces a ciphertext
/// and shared secret of the fixed sizes such that decapsulating the
/// ciphertext with the secret key matching `pk` recovers that same secret.
#[verifier::external_body]
pub(crate) fn kyber_encapsulate(pk: &Vec<u8>) -> (r: (Vec<u8>, Vec<u8>))
    requires
        pk@.len() == KEM_PUBLIC_KEY_LEN,
    ensures
        r.0@.len() == KEM_CIPHERTEXT_LEN,
        r.1@.len() == SHARED_SECRET_LEN,
        forall|sk: Seq<u8>| #[trigger] kem_key_match(pk@, sk) ==> kem_decap_of(r.0@, sk)
            == r.1@,
{
    let mut rng = rand::thread_rng();
    let (ct, ss) = safe_pqc_kyber::encapsulate(pk.as_slice(), &mut rng).unwrap();
    (ct.to_vec(), ss.to_vec())
}

/// Relies on safe_pqc_kyber::decapsulate: its source returns Err exactly
/// when a length is wrong — excluded here — and otherwise computes the
/// shared secret as a pure function of ciphertext and secret key (implicit
/// rejection: a mismatched pair still yields a secret, just not the
/// sender's).
#[verifier::external_body]
pub(crate) fn kyber_decapsulate(ct: &Vec<u8>, sk: &Vec<u8>) -> (r: Vec<u8>)
    requires
        ct@.len() == KEM_CIPHERTEXT_LEN,
        sk@.len() == KEM_SECRET_KEY_LEN,
    ensures
        r@ == kem_decap_of(ct@, sk@),
        r@.len() == SHARED_SECRET_LEN,
{
    let ss = safe_pqc_kyber::decapsulate(ct.as_slice(), sk.as_slice()).unwrap();
    ss.to_vec()
}

/// Generate a fresh Kyber keypair for a recipient.
pub fn generate_kem_keypair() -> (r: KemKeyPair)
    ensures
        r.wf(),
{
    let (public_key, secret_key) = kyber_generate();
    KemKeyPair { public_key, secret_key }
}

} // verus!
