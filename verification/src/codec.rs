use vstd::prelude::*;
use vstd::bytes::*;
use vstd::slice::*;

use crate::errors::SealError;
use crate::params::{KEM_CIPHERTEXT_LEN, NONCE_LEN, SIGNATURE_LEN, TAG_LEN};

verus! {

/// Confidentiality layer: the KEM ciphertext that transports the shared
/// secret, the AEAD ciphertext (authentication tag included), and the AEAD
/// nonce.
pub struct InnerEnvelope {
    pub kem_ciphertext: Vec<u8>,
    pub encrypted_payload: Vec<u8>,
    pub nonce: Vec<u8>,
}

impl InnerEnvelope {
    /// Field lengths demanded by the configured primitive parameter sets.
    pub open spec fn wf(self) -> bool {
        &&& self.kem_ciphertext@.len() == KEM_CIPHERTEXT_LEN
        &&& self.nonce@.len() == NONCE_LEN
        &&& TAG_LEN <= self.encrypted_payload@.len() <= u32::MAX
    }
}

/// Authenticity layer: the compressed serialized inner envelope and the
/// signature computed over exactly those compressed bytes.
pub struct OuterEnvelope {
    pub payload: Vec<u8>,
    pub signature: Vec<u8>,
}

impl OuterEnvelope {
    pub open spec fn wf(self) -> bool {
        &&& self.payload@.len() <= u32::MAX
        &&& self.signature@.len() == SIGNATURE_LEN
    }
}

/// A field on the wire: a four-byte little-endian length prefix, then the
/// field's bytes, unmodified.
pub open spec fn spec_field(b: Seq<u8>) -> Seq<u8> {
    spec_u32_to_le_bytes(b.len() as u32) + b
}

/// The serialized inner envelope: its three fields in a fixed order.
pub open spec fn spec_encode_inner(kem_ct: Seq<u8>, enc: Seq<u8>, nonce: Seq<u8>) -> Seq<u8> {
    spec_field(kem_ct) + spec_field(enc) + spec_field(nonce)
}

/// The serialized outer envelope: payload, then signature.
pub open spec fn spec_encode_outer(payload: Seq<u8>, signature: Seq<u8>) -> Seq<u8> {
    spec_field(payload) + spec_field(signature)
}

/// Split one length-prefixed field off the front, or nothing if the bytes
/// are too short for the prefix or for the length it announces.
pub open spec fn spec_take_field(b: Seq<u8>) -> Option<(Seq<u8>, Seq<u8>)> {
    if b.len() < 4 {
        None
    } else {
        let n = spec_u32_from_le_bytes(b.subrange(0, 4)) as int;
        if b.len() - 4 < n {
            None
        } else {
            Some((b.subrange(4, 4 + n), b.subrange(4 + n, b.len() as int)))
        }
    }
}

/// The unique field triple that `b` encodes, if `b` is exactly three fields.
pub open spec fn spec_parse_inner(b: Seq<u8>) -> Option<(Seq<u8>, Seq<u8>, Seq<u8>)> {
    match spec_take_field(b) {
        None => None,
        Some((kem_ct, r1)) => match spec_take_field(r1) {
            None => None,
            Some((enc, r2)) => match spec_take_field(r2) {
                None => None,
                Some((nonce, r3)) => if r3.len() == 0 {
                    Some((kem_ct, enc, nonce))
                } else {
                    None
                },
            },
        },
    }
}

/// The unique field pair that `b` encodes, if `b` is exactly two fields.
pub open spec fn spec_parse_outer(b: Seq<u8>) -> Option<(Seq<u8>, Seq<u8>)> {
    match spec_take_field(b) {
        None => None,
        Some((payload, r1)) => match spec_take_field(r1) {
            None => None,
            Some((signature, r2)) => if r2.len() == 0 {
                Some((payload, signature))
            } else {
                None
            },
        },
    }
}

/// The length checks a parsed inner envelope must pass before it is accepted.
pub open spec fn spec_inner_fields_ok(kem_ct: Seq<u8>, enc: Seq<u8>, nonce: Seq<u8>) -> bool {
    &&& kem_ct.len() == KEM_CIPHERTEXT_LEN
    &&& TAG_LEN <= enc.len()
    &&& nonce.len() == NONCE_LEN
}

/// Taking a field off a field encoding recovers the field and the rest.
pub proof fn lemma_take_field_of_encoding(b: Seq<u8>, rest: Seq<u8>)
    requires
        b.len() <= u32::MAX,
    ensures
        spec_take_field(spec_field(b) + rest) == Some((b, rest)),
{
    lemma_auto_spec_u32_to_from_le_bytes();
    let whole = spec_field(b) + rest;
    assert(whole.subrange(0, 4) =~= spec_u32_to_le_bytes(b.len() as u32));
    assert(spec_u32_from_le_bytes(whole.subrange(0, 4)) == b.len() as u32);
    assert(whole.subrange(4, 4 + b.len() as int) =~= b);
    assert(whole.subrange(4 + b.len() as int, whole.len() as int) =~= rest);
}

/// A successful take is the inverse statement: the input was one encoded
/// field followed by the rest.
pub proof fn lemma_take_field_lossless(b: Seq<u8>)
    requires
        spec_take_field(b) is Some,
    ensures
        spec_take_field(b)->Some_0.0.len() <= u32::MAX,
        b == spec_field(spec_take_field(b)->Some_0.0) + spec_take_field(b)->Some_0.1,
{
    lemma_auto_spec_u32_to_from_le_bytes();
    let f = spec_take_field(b)->Some_0.0;
    let rest = spec_take_field(b)->Some_0.1;
    assert(b.subrange(0, 4).len() == 4);
    assert(spec_u32_to_le_bytes(spec_u32_from_le_bytes(b.subrange(0, 4))) == b.subrange(0, 4));
    assert(b =~= spec_field(f) + rest);
}

/// Round trip of the inner codec: parsing an encoding yields the fields.
pub proof fn lemma_parse_inner_of_encode(kem_ct: Seq<u8>, enc: Seq<u8>, nonce: Seq<u8>)
    requires
        kem_ct.len() <= u32::MAX,
        enc.len() <= u32::MAX,
        nonce.len() <= u32::MAX,
    ensures
        spec_parse_inner(spec_encode_inner(kem_ct, enc, nonce)) == Some((kem_ct, enc, nonce)),
{
    let whole = spec_encode_inner(kem_ct, enc, nonce);
    assert(whole =~= spec_field(kem_ct) + (spec_field(enc) + spec_field(nonce)));
    lemma_take_field_of_encoding(kem_ct, spec_field(enc) + spec_field(nonce));
    lemma_take_field_of_encoding(enc, spec_field(nonce));
    assert(spec_field(nonce) =~= spec_field(nonce) + Seq::<u8>::empty());
    lemma_take_field_of_encoding(nonce, Seq::<u8>::empty());
}

/// Round trip of the outer codec: parsing an encoding yields the fields.
pub proof fn lemma_parse_outer_of_encode(payload: Seq<u8>, signature: Seq<u8>)
    requires
        payload.len() <= u32::MAX,
        signature.len() <= u32::MAX,
    ensures
        spec_parse_outer(spec_encode_outer(payload, signature)) == Some((payload, signature)),
{
    let whole = spec_encode_outer(payload, signature);
    assert(whole =~= spec_field(payload) + spec_field(signature));
    lemma_take_field_of_encoding(payload, spec_field(signature));
    assert(spec_field(signature) =~= spec_field(signature) + Seq::<u8>::empty());
    lemma_take_field_of_encoding(signature, Seq::<u8>::empty());
}

/// The inner encoding is canonical: a byte string that parses is exactly the
/// encoding of what it parsed to.
pub proof fn lemma_parse_inner_lossless(b: Seq<u8>)
    requires
        spec_parse_inner(b) is Some,
    ensures
        b == spec_encode_inner(
            spec_parse_inner(b)->Some_0.0,
            spec_parse_inner(b)->Some_0.1,
            spec_parse_inner(b)->Some_0.2,
        ),
{
    let (kem_ct, r1) = spec_take_field(b)->Some_0;
    let (enc, r2) = spec_take_field(r1)->Some_0;
    let (nonce, r3) = spec_take_field(r2)->Some_0;
    lemma_take_field_lossless(b);
    lemma_take_field_lossless(r1);
    lemma_take_field_lossless(r2);
    assert(r3 =~= Seq::<u8>::empty());
    assert(b =~= spec_encode_inner(kem_ct, enc, nonce));
}

/// The outer encoding is canonical in the same sense.
pub proof fn lemma_parse_outer_lossless(b: Seq<u8>)
    requires
        spec_parse_outer(b) is Some,
    ensures
        b == spec_encode_outer(spec_parse_outer(b)->Some_0.0, spec_parse_outer(b)->Some_0.1),
{
    let (payload, r1) = spec_take_field(b)->Some_0;
    let (signature, r2) = spec_take_field(r1)->Some_0;
    lemma_take_field_lossless(b);
    lemma_take_field_lossless(r1);
    assert(r2 =~= Seq::<u8>::empty());
    assert(b =~= spec_encode_outer(payload, signature));
}

/// Append `data` to `out` byte for byte.
fn append_bytes(out: &mut Vec<u8>, data: &[u8])
    ensures
        final(out)@ == old(out)@ + data@,
{
    let mut i: usize = 0;
    while i < data.len()
        invariant
            i <= data@.len(),
            out@ == old(out)@ + data@.subrange(0, i as int),
        decreases data@.len() - i,
    {
        let x = *slice_index_get(data, i);
        out.push(x);
        i = i + 1;
        proof {
            assert(out@ =~= old(out)@ + data@.subrange(0, i as int));
        }
    }
    proof {
        assert(data@.subrange(0, data@.len() as int) =~= data@);
    }
}

/// Append one length-prefixed field to `out`.
fn append_field(out: &mut Vec<u8>, field: &Vec<u8>)
    requires
        field@.len() <= u32::MAX,
    ensures
        final(out)@ == old(out)@ + spec_field(field@),
{
    let len_bytes = u32_to_le_bytes(field.len() as u32);
    append_bytes(out, len_bytes.as_slice());
    append_bytes(out, field.as_slice());
    proof {
        assert(final(out)@ =~= old(out)@ + spec_field(field@));
    }
}

/// Serialize an inner envelope into its canonical byte encoding.
pub fn serialize_inner(env: &InnerEnvelope) -> (out: Vec<u8>)
    requires
        env.wf(),
    ensures
        out@ == spec_encode_inner(env.kem_ciphertext@, env.encrypted_payload@, env.nonce@),
{
    let mut out: Vec<u8> = Vec::new();
    append_field(&mut out, &env.kem_ciphertext);
    append_field(&mut out, &env.encrypted_payload);
    append_field(&mut out, &env.nonce);
    proof {
        assert(out@ =~= spec_encode_inner(
            env.kem_ciphertext@,
            env.encrypted_payload@,
            env.nonce@,
        ));
    }
    out
}

/// Serialize an outer envelope into its canonical byte encoding.
pub fn serialize_outer(env: &OuterEnvelope) -> (out: Vec<u8>)
    requires
        env.wf(),
    ensures
        out@ == spec_encode_outer(env.payload@, env.signature@),
{
    let mut out: Vec<u8> = Vec::new();
    append_field(&mut out, &env.payload);
    append_field(&mut out, &env.signature);
    proof {
        assert(out@ =~= spec_encode_outer(env.payload@, env.signature@));
    }
    out
}

/// Split one length-prefixed field off the front of `b`.
fn take_field<'a>(b: &'a [u8]) -> (r: Option<(&'a [u8], &'a [u8])>)
    ensures
        r matches Some(p) ==> spec_take_field(b@) == Some((p.0@, p.1@)),
        r is None ==> spec_take_field(b@) is None,
{
    if b.len() < 4 {
        return None;
    }
    let len_bytes = slice_subrange(b, 0, 4);
    let n = u32_from_le_bytes(len_bytes);
    let rest_len = b.len() - 4;
    if (n as u64) > (rest_len as u64) {
        return None;
    }
    let n = n as usize;
    let field = slice_subrange(b, 4, 4 + n);
    let rest = slice_subrange(b, 4 + n, b.len());
    Some((field, rest))
}

/// Deserialize an inner envelope, rejecting anything that is not a canonical
/// encoding of three fields with the expected lengths.
pub fn deserialize_inner(bytes: &Vec<u8>) -> (r: Result<InnerEnvelope, SealError>)
    ensures
        r matches Ok(env) ==> {
            &&& env.wf()
            &&& spec_parse_inner(bytes@) == Some(
                (env.kem_ciphertext@, env.encrypted_payload@, env.nonce@),
            )
        },
        r matches Err(e) ==> {
            &&& e == SealError::MalformedEnvelope
            &&& match spec_parse_inner(bytes@) {
                None => true,
                Some(t) => !spec_inner_fields_ok(t.0, t.1, t.2),
            }
        },
{
    let s = bytes.as_slice();
    let (f1, s1) = match take_field(s) {
        Some(p) => p,
        None => {
            return Err(SealError::MalformedEnvelope);
        },
    };
    let (f2, s2) = match take_field(s1) {
        Some(p) => p,
        None => {
            return Err(SealError::MalformedEnvelope);
        },
    };
    let (f3, s3) = match take_field(s2) {
        Some(p) => p,
        None => {
            return Err(SealError::MalformedEnvelope);
        },
    };
    if s3.len() != 0 {
        return Err(SealError::MalformedEnvelope);
    }
    if f1.len() != KEM_CIPHERTEXT_LEN || f2.len() < TAG_LEN || f3.len() != NONCE_LEN {
        return Err(SealError::MalformedEnvelope);
    }
    Ok(InnerEnvelope {
        kem_ciphertext: slice_to_vec(f1),
        encrypted_payload: slice_to_vec(f2),
        nonce: slice_to_vec(f3),
    })
}

/// Deserialize an outer envelope, rejecting anything that is not a canonical
/// encoding of a payload and a signature of the expected length.
pub fn deserialize_outer(bytes: &Vec<u8>) -> (r: Result<OuterEnvelope, SealError>)
    ensures
        r matches Ok(env) ==> {
            &&& env.wf()
            &&& spec_parse_outer(bytes@) == Some((env.payload@, env.signature@))
        },
        r matches Err(e) ==> {
            &&& e == SealError::MalformedEnvelope
            &&& match spec_parse_outer(bytes@) {
                None => true,
                Some(t) => t.1.len() != SIGNATURE_LEN,
            }
        },
{
    let s = bytes.as_slice();
    let (f1, s1) = match take_field(s) {
        Some(p) => p,
        None => {
            return Err(SealError::MalformedEnvelope);
        },
    };
    let (f2, s2) = match take_field(s1) {
        Some(p) => p,
        None => {
            return Err(SealError::MalformedEnvelope);
        },
    };
    if s2.len() != 0 {
        return Err(SealError::MalformedEnvelope);
    }
    if f2.len() != SIGNATURE_LEN {
        return Err(SealError::MalformedEnvelope);
    }
    Ok(OuterEnvelope { payload: slice_to_vec(f1), signature: slice_to_vec(f2) })
}

} // verus!
