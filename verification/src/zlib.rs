//! zlib compression of packet bodies, through the `flate2` crate.

use std::io::{Read, Write};
use vstd::prelude::*;

verus! {

/// The zlib stream that `flate2` produces for `data` at the default
/// compression level, or `None` when its encoder reports an error. The
/// encoder is deterministic and writes into memory, so both depend on
/// `data` alone.
pub uninterp spec fn zlib_compressed(data: Seq<u8>) -> Option<Seq<u8>>;

/// What `flate2` decodes from the zlib stream `data`, or `None` when it
/// reports the stream as invalid.
pub uninterp spec fn zlib_decompressed(data: Seq<u8>) -> Option<Seq<u8>>;

/// Compresses `data` with `flate2::write::ZlibEncoder` at
/// `Compression::default()`, writing into a `Vec`: the result is the
/// encoder's stream for `data`, or its error, as [`zlib_compressed`]
/// names them.
#[verifier::external_body]
pub fn zlib_compress(data: &[u8]) -> (r: Result<Vec<u8>, std::io::Error>)
    ensures
        match zlib_compressed(data@) {
            Some(out) => r matches Ok(v) && v@ == out,
            None => r is Err,
        },
{
    let mut encoder = flate2::write::ZlibEncoder::new(Vec::new(), flate2::Compression::default());
    encoder.write_all(data)?;
    encoder.finish()
}

/// Decompresses the zlib stream `data` with `flate2::read::ZlibDecoder`,
/// reading to the end of the stream.
#[verifier::external_body]
pub fn zlib_decompress(data: &[u8]) -> (r: Result<Vec<u8>, std::io::Error>)
    ensures
        r matches Ok(v) ==> zlib_decompressed(data@) == Some(v@),
        r is Err ==> zlib_decompressed(data@) is None,
{
    let mut decoder = flate2::read::ZlibDecoder::new(data);
    let mut out = Vec::new();
    decoder.read_to_end(&mut out)?;
    Ok(out)
}

} // verus!
