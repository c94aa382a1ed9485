//! The frame of the four-channel layout: a flag byte, the length of the
//! stored bytes as eight little-endian bytes, and the stored bytes.

use crate::error::DecodeError;
use crate::length::le_bytes;
use crate::length::le_value;
use crate::length::lemma_le_value_of_le_bytes;
use crate::length::push_le_u64;
use crate::length::read_le_u64;
use crate::views::bytes_result;
use crate::views::split_result;
use crate::zlib::decompress;
use crate::zlib::inflated_form;
use crate::zlib::zlib_inflated;
use vstd::prelude::*;
use vstd::slice::slice_subrange;
use vstd::slice::slice_to_vec;

verus! {

/// Bytes of the header: the flag and the length.
pub const HEADER_BYTES: usize = 9;

/// The flag byte that the builder writes.
pub open spec fn flag_byte(is_compressed: bool) -> u8 {
    if is_compressed {
        1
    } else {
        0
    }
}

/// The frame of `stored`: flag, length, then the bytes themselves.
pub open spec fn frame_bytes(is_compressed: bool, stored: Seq<u8>) -> Seq<u8> {
    seq![flag_byte(is_compressed)] + le_bytes(stored.len() as u64) + stored
}

/// The flag and the stored bytes that the header of `buffer` describes, or
/// why it describes none. Any byte but zero flags compression; bytes behind
/// the declared length are passed over.
pub open spec fn frame_split(buffer: Seq<u8>) -> Result<(bool, Seq<u8>), DecodeError> {
    if buffer.len() == 0 {
        Err(DecodeError::EmptyInput)
    } else if buffer.len() < 9 {
        Err(DecodeError::HeaderTooShort)
    } else {
        let declared = le_value(buffer.subrange(1, 9));
        if declared > usize::MAX {
            Err(DecodeError::LengthNotAddressable)
        } else if declared > buffer.len() - 9 {
            Err(DecodeError::Truncated)
        } else {
            Ok((buffer[0] != 0, buffer.subrange(9, 9 + declared as int)))
        }
    }
}

/// The payload of a split frame: the stored bytes, decompressed where they
/// are flagged.
pub open spec fn frame_payload(is_compressed: bool, stored: Seq<u8>) -> Result<
    Seq<u8>,
    DecodeError,
> {
    if is_compressed {
        inflated_form(zlib_inflated(stored))
    } else {
        Ok(stored)
    }
}

/// The payload that `buffer` holds, or why it holds none.
pub open spec fn parsed_frame(buffer: Seq<u8>) -> Result<Seq<u8>, DecodeError> {
    match frame_split(buffer) {
        Ok((is_compressed, stored)) => frame_payload(is_compressed, stored),
        Err(e) => Err(e),
    }
}

/// A frame, whatever follows it, splits into its flag and its stored bytes.
pub proof fn lemma_split_of_frame(is_compressed: bool, stored: Seq<u8>, padding: Seq<u8>)
    requires
        stored.len() <= usize::MAX,
    ensures
        frame_split(frame_bytes(is_compressed, stored) + padding) == Ok::<
            (bool, Seq<u8>),
            DecodeError,
        >((is_compressed, stored)),
{
    let n = stored.len() as u64;
    let buffer = frame_bytes(is_compressed, stored) + padding;
    lemma_le_value_of_le_bytes(n);
    assert(buffer.subrange(1, 9) =~= le_bytes(n));
    assert(buffer.subrange(9, 9 + stored.len() as int) =~= stored);
    assert(buffer[0] == flag_byte(is_compressed));
}

/// Builds the frame of `payload`: one flag byte, `0x01` for compressed
/// bytes and `0x00` otherwise, the payload's length as eight little-endian
/// bytes, and the payload.
pub fn build_frame(is_compressed: bool, payload: &[u8]) -> (frame: Vec<u8>)
    ensures
        frame@ == frame_bytes(is_compressed, payload@),
{
    let mut frame: Vec<u8> = Vec::new();
    frame.push(if is_compressed { 1u8 } else { 0u8 });
    push_le_u64(&mut frame, payload.len() as u64);
    frame.extend_from_slice(payload);
    assert(frame@ =~= frame_bytes(is_compressed, payload@));
    frame
}

/// Reads the header of `channel_buffer` and cuts out the bytes it declares.
///
/// The errors, in this order: `EmptyInput` for no bytes at all,
/// `HeaderTooShort` for fewer than nine, `LengthNotAddressable` for a
/// declared length beyond the platform's size type, and `Truncated` for one
/// beyond the bytes that follow the header.
pub fn split_frame<'a>(channel_buffer: &'a [u8]) -> (r: Result<(bool, &'a [u8]), DecodeError>)
    ensures
        split_result(r) == frame_split(channel_buffer@),
{
    if channel_buffer.len() == 0 {
        return Err(DecodeError::EmptyInput);
    }
    let is_compressed: bool = channel_buffer[0] != 0;
    if channel_buffer.len() < HEADER_BYTES {
        return Err(DecodeError::HeaderTooShort);
    }
    let declared: u64 = read_le_u64(channel_buffer, 1);
    if declared > usize::MAX as u64 {
        return Err(DecodeError::LengthNotAddressable);
    }
    let length: usize = declared as usize;
    if length > channel_buffer.len() - HEADER_BYTES {
        return Err(DecodeError::Truncated);
    }
    let stored = slice_subrange(channel_buffer, HEADER_BYTES, HEADER_BYTES + length);
    Ok((is_compressed, stored))
}

/// Recovers the payload from a channel buffer: reads the header, cuts out
/// the declared bytes, and decompresses them where the flag says so. What
/// follows the declared bytes is never looked at.
pub fn parse_frame(channel_buffer: &[u8]) -> (r: Result<Vec<u8>, DecodeError>)
    ensures
        bytes_result(r) == parsed_frame(channel_buffer@),
{
    match split_frame(channel_buffer) {
        Ok((is_compressed, stored)) => {
            if is_compressed {
                decompress(stored)
            } else {
                Ok(slice_to_vec(stored))
            }
        },
        Err(e) => Err(e),
    }
}

} // verus!
