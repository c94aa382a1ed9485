//! The compression adapter: zlib at its highest effort, with a fallback to
//! the bytes as they are.

use crate::error::DecodeError;
use crate::views::bytes_of;
use crate::views::bytes_result;
use flate2::bufread::ZlibDecoder;
use flate2::bufread::ZlibEncoder;
use flate2::Compression;
use std::io::Read;
use vstd::prelude::*;
use vstd::slice::slice_to_vec;

verus! {

/// The zlib stream that `flate2` makes of `data` at its highest compression
/// level, or `None` where it reports an error.
pub uninterp spec fn zlib_deflated(data: Seq<u8>) -> Option<Seq<u8>>;

/// The bytes that `flate2` reads out of the zlib stream at the start of
/// `data`, or `None` where it reports the stream as cut short or corrupt.
pub uninterp spec fn zlib_inflated(data: Seq<u8>) -> Option<Seq<u8>>;

/// Reads `flate2::bufread::ZlibEncoder` over `data`, at
/// `flate2::Compression::best()`, to its end.
///
/// Not proved, but taken from `flate2`: the outcome depends on `data`
/// alone, and a stream that the encoder made decompresses to the bytes it
/// was made of.
#[verifier::external_body]
fn zlib_compress(data: &[u8]) -> (out: Option<Vec<u8>>)
    ensures
        out matches Some(bytes) ==> zlib_deflated(data@) == Some(bytes@) && zlib_inflated(bytes@)
            == Some(data@),
        out is None ==> zlib_deflated(data@) is None,
{
    let mut out = Vec::new();
    match ZlibEncoder::new(data, Compression::best()).read_to_end(&mut out) {
        Ok(_) => Some(out),
        Err(_) => None,
    }
}

/// Reads `flate2::bufread::ZlibDecoder` over `data` to its end.
///
/// Not proved, but taken from `flate2`: the outcome depends on `data`
/// alone.
#[verifier::external_body]
fn zlib_decompress(data: &[u8]) -> (out: Option<Vec<u8>>)
    ensures
        out matches Some(bytes) ==> zlib_inflated(data@) == Some(bytes@),
        out is None ==> zlib_inflated(data@) is None,
{
    let mut out = Vec::new();
    match ZlibDecoder::new(data).read_to_end(&mut out) {
        Ok(_) => Some(out),
        Err(_) => None,
    }
}

/// What is stored for a payload, given what the compressor made of it: the
/// compressed bytes, flagged, or else the payload itself, unflagged.
pub open spec fn stored_form(payload: Seq<u8>, compressed: Option<Seq<u8>>) -> (bool, Seq<u8>) {
    match compressed {
        Some(bytes) => (true, bytes),
        None => (false, payload),
    }
}

/// What a flagged body yields, given what the decompressor made of it.
pub open spec fn inflated_form(inflated: Option<Seq<u8>>) -> Result<Seq<u8>, DecodeError> {
    match inflated {
        Some(bytes) => Ok(bytes),
        None => Err(DecodeError::Decompression),
    }
}

/// Chooses what to store for `payload`, given the compressor's outcome.
///
/// Compressed bytes are taken whenever there are any, also where they are
/// longer than the payload; without them the payload is stored as it is.
pub fn select_stored(payload: &[u8], compressed: Option<Vec<u8>>) -> (r: (bool, Vec<u8>))
    ensures
        (r.0, r.1@) == stored_form(payload@, bytes_of(compressed)),
{
    match compressed {
        Some(bytes) => (true, bytes),
        None => (false, slice_to_vec(payload)),
    }
}

/// Compresses `payload` at the highest effort, and falls back to the
/// payload itself where the compressor fails.
///
/// The flag says whether the bytes are compressed. Compressed bytes
/// decompress to the payload.
pub fn try_compress(payload: &[u8]) -> (r: (bool, Vec<u8>))
    ensures
        (r.0, r.1@) == stored_form(payload@, zlib_deflated(payload@)),
        r.0 ==> zlib_inflated(r.1@) == Some(payload@),
        !r.0 ==> r.1@ == payload@,
{
    let compressed = zlib_compress(payload);
    select_stored(payload, compressed)
}

/// Turns the decompressor's outcome into the payload or the error.
pub fn inflated_payload(inflated: Option<Vec<u8>>) -> (r: Result<Vec<u8>, DecodeError>)
    ensures
        bytes_result(r) == inflated_form(bytes_of(inflated)),
{
    match inflated {
        Some(bytes) => Ok(bytes),
        None => Err(DecodeError::Decompression),
    }
}

/// Decompresses a zlib stream; bytes behind the stream's end are ignored.
pub fn decompress(stored: &[u8]) -> (r: Result<Vec<u8>, DecodeError>)
    ensures
        bytes_result(r) == inflated_form(zlib_inflated(stored@)),
{
    inflated_payload(zlib_decompress(stored))
}

} // verus!
