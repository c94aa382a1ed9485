//! Encoding a payload as a pixel grid and decoding a grid back, for both
//! layouts.

use crate::container::read_image;
use crate::container::read_image_grid;
use crate::container::write_image;
use crate::container::written_image;
use crate::dims::ceil_sqrt;
use crate::dims::largest_length;
use crate::dims::lemma_solved_shape;
use crate::dims::solve_dimensions;
use crate::dims::solved_capacity;
use crate::dims::solved_dimensions;
use crate::dims::solved_height;
use crate::dims::solved_width;
use crate::error::DecodeError;
use crate::error::EncodeError;
use crate::frame::build_frame;
use crate::frame::frame_bytes;
use crate::frame::frame_payload;
use crate::frame::lemma_split_of_frame;
use crate::frame::parse_frame;
use crate::frame::parsed_frame;
use crate::grid::grid_capacity;
use crate::grid::pack;
use crate::grid::unpack;
use crate::grid::zeros;
use crate::grid::GridView;
use crate::grid::PixelGrid;
use crate::variant::Variant;
use crate::views::bytes_result;
use crate::views::grid_result;
use crate::zlib::stored_form;
use crate::zlib::try_compress;
use crate::zlib::zlib_deflated;
use crate::zlib::zlib_inflated;
use vstd::prelude::*;
use vstd::slice::slice_to_vec;

verus! {

/// The width of the grid for a root. The four-channel grid is half as wide
/// and twice as high as solved, which leaves its capacity as it is; the
/// three-channel grid is as solved.
pub open spec fn image_width(root: nat, variant: Variant) -> nat {
    match variant {
        Variant::Rgba => solved_width(root, variant) / 2,
        Variant::Rgb => solved_width(root, variant),
    }
}

/// The height of the grid for a root.
pub open spec fn image_height(root: nat, variant: Variant) -> nat {
    match variant {
        Variant::Rgba => solved_height(root, variant) * 2,
        Variant::Rgb => solved_height(root, variant),
    }
}

/// The grid that a channel buffer is laid out in: the buffer, padded with
/// zero bytes to the capacity solved for its length. There is none for a
/// buffer that the solver refuses, nor for one that is longer than the
/// solved capacity. `lemma_solved_at_root` names the root and the capacity
/// for a given length.
pub open spec fn laid_out(buffer: Seq<u8>, variant: Variant) -> Result<GridView, EncodeError> {
    let len = buffer.len();
    let root = ceil_sqrt(len);
    let capacity = solved_capacity(len, variant);
    if len > u32::MAX {
        Err(EncodeError::LengthOutOfRange)
    } else if len > largest_length(variant) {
        Err(EncodeError::DimensionOverflow)
    } else if len > capacity {
        Err(EncodeError::BufferTooLong)
    } else {
        Ok(
            GridView {
                width: image_width(root, variant),
                height: image_height(root, variant),
                variant,
                bytes: buffer + zeros((capacity - len) as nat),
            },
        )
    }
}

/// The grid that a payload is encoded as.
pub open spec fn encoded(payload: Seq<u8>, variant: Variant) -> Result<GridView, EncodeError> {
    match variant {
        Variant::Rgba => {
            let (is_compressed, stored) = stored_form(payload, zlib_deflated(payload));
            laid_out(frame_bytes(is_compressed, stored), Variant::Rgba)
        },
        Variant::Rgb => laid_out(payload, Variant::Rgb),
    }
}

/// The payload that a grid decodes to: what its frame holds for the
/// four-channel layout, all of its bytes for the three-channel layout.
pub open spec fn decoded(grid: GridView) -> Result<Seq<u8>, DecodeError> {
    match grid.variant {
        Variant::Rgba => parsed_frame(grid.bytes),
        Variant::Rgb => Ok(grid.bytes),
    }
}

/// The PNG file that a payload is encoded as.
pub open spec fn encoded_png(payload: Seq<u8>, variant: Variant) -> Result<Seq<u8>, EncodeError> {
    match encoded(payload, variant) {
        Ok(grid) => written_image(grid),
        Err(e) => Err(e),
    }
}

/// The payload that a PNG file decodes to.
pub open spec fn decoded_png(file: Seq<u8>, variant: Variant) -> Result<Seq<u8>, DecodeError> {
    match read_image_grid(file, variant) {
        Ok(grid) => decoded(grid),
        Err(e) => Err(e),
    }
}

/// What holds of a grid that a payload was encoded as: the four-channel
/// grid decodes to the payload; the three-channel grid is at least as long
/// as the payload and decodes to the payload followed by zero bytes up to
/// the grid's length.
pub open spec fn payload_round_trip(payload: Seq<u8>, grid: GridView) -> bool {
    match grid.variant {
        Variant::Rgba => decoded(grid) == Ok::<Seq<u8>, DecodeError>(payload),
        Variant::Rgb => payload.len() <= grid.bytes.len() && decoded(grid) == Ok::<
            Seq<u8>,
            DecodeError,
        >(payload + zeros((grid.bytes.len() - payload.len()) as nat)),
    }
}

/// Halving an even width and doubling the height keeps the capacity.
proof fn lemma_reshape_keeps_capacity(width: nat, height: nat)
    requires
        width % 2 == 0,
    ensures
        grid_capacity(width / 2, height * 2, Variant::Rgba) == grid_capacity(
            width,
            height,
            Variant::Rgba,
        ),
{
    assert((width / 2) * (height * 2) * 4 == width * height * 4) by (nonlinear_arith)
        requires
            width % 2 == 0,
    ;
}

/// A buffer that is laid out fills its grid: the grid holds exactly the
/// solved capacity, which is the buffer and then zero bytes, and nothing of
/// the buffer is cut off.
pub proof fn lemma_laid_out_is_full(buffer: Seq<u8>, variant: Variant)
    requires
        laid_out(buffer, variant) is Ok,
    ensures
        ({
            let grid = laid_out(buffer, variant)->Ok_0;
            &&& grid.is_full()
            &&& grid.capacity() == solved_capacity(buffer.len(), variant)
            &&& buffer.len() <= grid.bytes.len() <= u32::MAX
            &&& grid.bytes.subrange(0, buffer.len() as int) == buffer
            &&& forall|i: int| buffer.len() <= i < grid.bytes.len() ==> grid.bytes[i] == 0
        }),
{
    lemma_solved_shape(buffer.len(), variant);
    let grid = laid_out(buffer, variant)->Ok_0;
    let (width, height) = solved_dimensions(buffer.len(), variant)->Ok_0;
    if variant == Variant::Rgba {
        lemma_reshape_keeps_capacity(width as nat, height as nat);
    }
    assert(grid.bytes.subrange(0, buffer.len() as int) =~= buffer);
}

/// A laid-out frame decodes to the payload of the frame, whatever the flag
/// and the stored bytes are. Stored bytes that are not flagged come back as
/// they are.
pub proof fn lemma_framed_round_trip(is_compressed: bool, stored: Seq<u8>)
    requires
        laid_out(frame_bytes(is_compressed, stored), Variant::Rgba) is Ok,
    ensures
        decoded(laid_out(frame_bytes(is_compressed, stored), Variant::Rgba)->Ok_0)
            == frame_payload(is_compressed, stored),
        !is_compressed ==> decoded(
            laid_out(frame_bytes(is_compressed, stored), Variant::Rgba)->Ok_0,
        ) == Ok::<Seq<u8>, DecodeError>(stored),
{
    let frame = frame_bytes(is_compressed, stored);
    let capacity = solved_capacity(frame.len(), Variant::Rgba);
    lemma_split_of_frame(is_compressed, stored, zeros((capacity - frame.len()) as nat));
}

/// The round trip of the four-channel layout: a grid that a payload is
/// encoded as decodes to that payload, bit for bit.
///
/// It rests on the compressor being lossless for this payload, which
/// `try_compress` reports of every stream that it hands out.
pub proof fn lemma_round_trip(payload: Seq<u8>)
    requires
        encoded(payload, Variant::Rgba) is Ok,
        zlib_deflated(payload) matches Some(stream) ==> zlib_inflated(stream) == Some(payload),
    ensures
        decoded(encoded(payload, Variant::Rgba)->Ok_0) == Ok::<Seq<u8>, DecodeError>(payload),
{
    let (is_compressed, stored) = stored_form(payload, zlib_deflated(payload));
    lemma_framed_round_trip(is_compressed, stored);
}

/// A payload encoded without a header decodes to itself followed by the
/// zero bytes of the padding, and to itself alone exactly when the grid
/// had no room for padding.
pub proof fn lemma_headerless_round_trip(payload: Seq<u8>)
    requires
        laid_out(payload, Variant::Rgb) is Ok,
    ensures
        ({
            let grid = laid_out(payload, Variant::Rgb)->Ok_0;
            let padding = (grid.capacity() - payload.len()) as nat;
            &&& payload.len() <= grid.capacity()
            &&& decoded(grid) == Ok::<Seq<u8>, DecodeError>(payload + zeros(padding))
            &&& decoded(grid) == Ok::<Seq<u8>, DecodeError>(payload) <==> padding == 0
        }),
{
    lemma_laid_out_is_full(payload, Variant::Rgb);
    let grid = laid_out(payload, Variant::Rgb)->Ok_0;
    let padding = (grid.capacity() - payload.len()) as nat;
    if padding == 0 {
        assert(payload + zeros(padding) =~= payload);
    } else {
        assert((payload + zeros(padding)).len() != payload.len());
    }
}

/// Lays a channel buffer out as a grid: solves the dimensions for its
/// length and pads it to the grid's capacity.
///
/// `LengthOutOfRange` and `DimensionOverflow` come from the solver;
/// `BufferTooLong` says that the solved grid is smaller than the buffer.
pub fn lay_out(buffer: Vec<u8>, variant: Variant) -> (r: Result<PixelGrid, EncodeError>)
    ensures
        grid_result(r) == laid_out(buffer@, variant),
        r matches Ok(grid) ==> grid@.is_full(),
{
    let (width, height) = match solve_dimensions(buffer.len(), variant) {
        Ok(solved) => solved,
        Err(e) => {
            return Err(e);
        },
    };
    proof {
        lemma_solved_shape(buffer@.len(), variant);
        if variant == Variant::Rgba {
            lemma_reshape_keeps_capacity(width as nat, height as nat);
        }
    }
    match variant {
        Variant::Rgba => pack(buffer, width / 2, height * 2, variant),
        Variant::Rgb => pack(buffer, width, height, variant),
    }
}

/// Frames stored bytes and lays the frame out as a four-channel grid.
///
/// The grid decodes to the payload of the frame; stored bytes that are not
/// flagged as compressed come back as they are.
pub fn encode_stored(is_compressed: bool, stored: &[u8]) -> (r: Result<PixelGrid, EncodeError>)
    ensures
        grid_result(r) == laid_out(frame_bytes(is_compressed, stored@), Variant::Rgba),
        r matches Ok(grid) ==> grid@.is_full() && decoded(grid@) == frame_payload(
            is_compressed,
            stored@,
        ),
{
    let frame = build_frame(is_compressed, stored);
    let r = lay_out(frame, Variant::Rgba);
    proof {
        if r is Ok {
            lemma_framed_round_trip(is_compressed, stored@);
        }
    }
    r
}

/// Encodes a payload as a pixel grid.
///
/// The four-channel layout compresses the payload where the compressor
/// succeeds, frames what is stored, and pads the frame; its grid decodes to
/// the payload exactly. The three-channel layout pads the payload as it
/// is; its grid decodes to the payload followed by the padding. What the
/// solved grid cannot hold is refused with `BufferTooLong`, never cut.
pub fn encode(payload: &[u8], variant: Variant) -> (r: Result<PixelGrid, EncodeError>)
    ensures
        grid_result(r) == encoded(payload@, variant),
        r matches Ok(grid) ==> grid@.is_full() && payload_round_trip(payload@, grid@),
{
    match variant {
        Variant::Rgba => {
            let (is_compressed, stored) = try_compress(payload);
            let r = encode_stored(is_compressed, stored.as_slice());
            proof {
                if r is Ok {
                    lemma_round_trip(payload@);
                }
            }
            r
        },
        Variant::Rgb => {
            let r = lay_out(slice_to_vec(payload), Variant::Rgb);
            proof {
                if r is Ok {
                    lemma_headerless_round_trip(payload@);
                }
            }
            r
        },
    }
}

/// Encodes a payload as the bytes of a PNG file: the grid that the payload
/// is encoded as, written by the image container.
pub fn encode_png(payload: &[u8], variant: Variant) -> (r: Result<Vec<u8>, EncodeError>)
    ensures
        bytes_result(r) == encoded_png(payload@, variant),
{
    match encode(payload, variant) {
        Ok(grid) => write_image(&grid),
        Err(e) => Err(e),
    }
}

/// Decodes the bytes of a PNG file: reads the pixels in the given layout
/// and decodes the grid.
pub fn decode_png(file: &[u8], variant: Variant) -> (r: Result<Vec<u8>, DecodeError>)
    ensures
        bytes_result(r) == decoded_png(file@, variant),
{
    match read_image(file, variant) {
        Ok(grid) => decode(&grid),
        Err(e) => Err(e),
    }
}

/// Decodes a pixel grid: flattens it row by row and, for the four-channel
/// layout, parses the frame at its start. The three-channel layout has no
/// frame, so all of its bytes, padding included, are the answer.
pub fn decode(grid: &PixelGrid) -> (r: Result<Vec<u8>, DecodeError>)
    ensures
        bytes_result(r) == decoded(grid@),
{
    let channel_buffer = unpack(grid);
    match grid.variant() {
        Variant::Rgba => parse_frame(channel_buffer.as_slice()),
        Variant::Rgb => Ok(channel_buffer),
    }
}

} // verus!
