use vstd::prelude::*;

use crate::errors::SealError;

verus! {

/// What zstd decompression yields from a byte string: the original data if
/// the string is a well-formed zstd stream, nothing otherwise. Names the
/// result of zstd::stream::decode_all, which is deterministic in its input.
pub uninterp spec fn decompress_of(b: Seq<u8>) -> Option<Seq<u8>>;

/// Relies on zstd::bulk::compress (single-pass, source size known up
/// front): with a valid compression level it succeeds on in-memory data
/// (an allocation failure aborts, as anywhere), the output is a zstd frame
/// that decode_all inverts to exactly the input, and its size stays under
/// zstd's worst-case single-pass bound ZSTD_compressBound — input plus
/// input/256 plus a small constant, stated here with slack.
#[verifier::external_body]
pub(crate) fn zstd_compress(data: &Vec<u8>, level: i32) -> (r: Vec<u8>)
    requires
        1 <= level <= 22,
    ensures
        decompress_of(r@) == Some(data@),
        r@.len() <= data@.len() + data@.len() / 256 + 1024,
{
    zstd::bulk::compress(data.as_slice(), level).unwrap()
}

/// Relies on zstd::stream::decode_all: deterministic in its input, and
/// fails exactly on byte strings that are not well-formed zstd streams.
#[verifier::external_body]
pub(crate) fn zstd_decompress(data: &Vec<u8>) -> (r: Result<Vec<u8>, SealError>)
    ensures
        r matches Ok(d) ==> decompress_of(data@) == Some(d@),
        r is Ok <==> decompress_of(data@) is Some,
        r matches Err(e) ==> e == SealError::Decompression,
{
    match zstd::stream::decode_all(data.as_slice()) {
        Ok(d) => Ok(d),
        Err(_) => Err(SealError::Decompression),
    }
}

} // verus!
