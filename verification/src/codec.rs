//! The codecs of compressed blobs.
use std::io::Read;
use vstd::prelude::*;

verus! {

/// What the zlib stream in `data` holds when it is inflated, or `None` where
/// `data` is no complete zlib stream.
pub uninterp spec fn zlib_inflated(data: Seq<u8>) -> Option<Seq<u8>>;

/// What the xz stream in `data` holds when it is decompressed, or `None`
/// where `data` is no complete xz stream.
pub uninterp spec fn xz_inflated(data: Seq<u8>) -> Option<Seq<u8>>;

/// Reads a `flate2::bufread::ZlibDecoder` over `data` to its end
/// (`read_to_end`), into the empty buffer `buf`. The bytes that come out,
/// and whether the decoder fails, depend on `data` alone.
#[verifier::external_body]
pub(crate) fn zlib_decode(data: &[u8], buf: Vec<u8>) -> (r: Result<Vec<u8>, std::io::Error>)
    requires
        buf@.len() == 0,
    ensures
        match r {
            Ok(out) => zlib_inflated(data@) == Some(out@),
            Err(_) => zlib_inflated(data@) is None,
        },
{
    let mut out = buf;
    flate2::bufread::ZlibDecoder::new(data).read_to_end(&mut out)?;
    Ok(out)
}

/// Reads an `xz2::bufread::XzDecoder` over `data` to its end
/// (`read_to_end`), into the empty buffer `buf`. The bytes that come out,
/// and whether the decoder fails, depend on `data` alone.
#[verifier::external_body]
pub(crate) fn xz_decode(data: &[u8], buf: Vec<u8>) -> (r: Result<Vec<u8>, std::io::Error>)
    requires
        buf@.len() == 0,
    ensures
        match r {
            Ok(out) => xz_inflated(data@) == Some(out@),
            Err(_) => xz_inflated(data@) is None,
        },
{
    let mut out = buf;
    xz2::bufread::XzDecoder::new(data).read_to_end(&mut out)?;
    Ok(out)
}

} // verus!
