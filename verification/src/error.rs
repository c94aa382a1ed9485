//! Error values of the encoder and of the decoder.

use vstd::prelude::*;
use vstd::string::StringExecFns;

verus! {

/// Why a byte buffer could not be laid out as a pixel grid.
#[derive(Clone, Copy, Debug, PartialEq, Eq, Structural)]
pub enum EncodeError {
    /// The buffer is longer than an unsigned 32-bit length can express.
    LengthOutOfRange,
    /// The solved grid would hold more bytes than an unsigned 32-bit size
    /// can express.
    DimensionOverflow,
    /// The buffer is longer than the grid that was solved for it, so it
    /// cannot be padded to the grid's size.
    BufferTooLong,
    /// The image container refused the grid.
    Image,
}

/// Why a channel buffer could not be read back as a payload.
#[derive(Clone, Copy, Debug, PartialEq, Eq, Structural)]
pub enum DecodeError {
    /// The channel buffer holds no byte at all.
    EmptyInput,
    /// Fewer than eight bytes follow the flag byte.
    HeaderTooShort,
    /// The declared length does not fit the platform's size type.
    LengthNotAddressable,
    /// The declared length exceeds the bytes that follow the header.
    Truncated,
    /// The stored bytes are flagged as compressed but do not decompress.
    Decompression,
    /// The image container refused the file.
    Image,
    /// The pixels read from the file are not one byte per channel of each
    /// pixel.
    BufferMismatch,
}

impl EncodeError {
    /// The text of this error.
    pub open spec fn message_text(self) -> Seq<char> {
        match self {
            EncodeError::LengthOutOfRange => "buffer length exceeds the 32-bit range"@,
            EncodeError::DimensionOverflow => "image dimensions exceed the 32-bit range"@,
            EncodeError::BufferTooLong => "buffer exceeds the solved image"@,
            EncodeError::Image => "image could not be written"@,
        }
    }

    /// A one-line description for the user.
    pub fn message(&self) -> (text: String)
        ensures
            text@ == self.message_text(),
    {
        match self {
            EncodeError::LengthOutOfRange => String::from_str(
                "buffer length exceeds the 32-bit range",
            ),
            EncodeError::DimensionOverflow => String::from_str(
                "image dimensions exceed the 32-bit range",
            ),
            EncodeError::BufferTooLong => String::from_str("buffer exceeds the solved image"),
            EncodeError::Image => String::from_str("image could not be written"),
        }
    }
}

impl DecodeError {
    /// The text of this error.
    pub open spec fn message_text(self) -> Seq<char> {
        match self {
            DecodeError::EmptyInput => "input file is empty"@,
            DecodeError::HeaderTooShort => "input file is invalid"@,
            DecodeError::LengthNotAddressable => "declared length is not addressable"@,
            DecodeError::Truncated => "input file is truncated"@,
            DecodeError::Decompression => "stored data does not decompress"@,
            DecodeError::Image => "image could not be read"@,
            DecodeError::BufferMismatch => "buffer too small"@,
        }
    }

    /// A one-line description for the user.
    pub fn message(&self) -> (text: String)
        ensures
            text@ == self.message_text(),
    {
        match self {
            DecodeError::EmptyInput => String::from_str("input file is empty"),
            DecodeError::HeaderTooShort => String::from_str("input file is invalid"),
            DecodeError::LengthNotAddressable => String::from_str(
                "declared length is not addressable",
            ),
            DecodeError::Truncated => String::from_str("input file is truncated"),
            DecodeError::Decompression => String::from_str("stored data does not decompress"),
            DecodeError::Image => String::from_str("image could not be read"),
            DecodeError::BufferMismatch => String::from_str("buffer too small"),
        }
    }
}

} // verus!
