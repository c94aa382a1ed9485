//! The image container: a grid as the bytes of a PNG file, and back.

use crate::error::DecodeError;
use crate::error::EncodeError;
use crate::grid::grid_capacity;
use crate::grid::GridView;
use crate::grid::PixelGrid;
use crate::variant::Variant;
use crate::views::bytes_of;
use crate::views::bytes_result;
use crate::views::grid_result;
use crate::views::pixels_of;
use image::GenericImageView;
use image::ImageFormat;
use image::RgbImage;
use image::Rgba;
use image::RgbaImage;
use std::io::Cursor;
use vstd::prelude::*;

verus! {

/// The PNG file that `image` writes for `width` x `height` pixels of
/// `channels` bytes each, or `None` where it refuses them.
pub uninterp spec fn png_written(width: u32, height: u32, channels: nat, bytes: Seq<u8>) -> Option<
    Seq<u8>,
>;

/// The width, the height and the bytes of the pixels, `channels` bytes
/// each and row by row, that `image` reads out of a PNG file, or `None`
/// where it refuses the file.
pub uninterp spec fn png_pixels(file: Seq<u8>, channels: nat) -> Option<(u32, u32, Seq<u8>)>;

/// Makes an `image::ImageBuffer` of the pixels with `from_vec` and writes
/// it with `write_to` as `image::ImageFormat::Png` into memory.
///
/// Not proved, but taken from `image`: the outcome depends on the pixels
/// alone.
#[verifier::external_body]
fn png_write(width: u32, height: u32, variant: Variant, bytes: &[u8]) -> (out: Option<Vec<u8>>)
    ensures
        out matches Some(file) ==> png_written(width, height, variant.spec_channels(), bytes@)
            == Some(file@),
        out is None ==> png_written(width, height, variant.spec_channels(), bytes@) is None,
{
    let mut out = Cursor::new(Vec::new());
    let written = match variant {
        Variant::Rgba => RgbaImage::from_vec(width, height, bytes.to_vec())?
            .write_to(&mut out, ImageFormat::Png),
        Variant::Rgb => RgbImage::from_vec(width, height, bytes.to_vec())?
            .write_to(&mut out, ImageFormat::Png),
    };
    match written {
        Ok(()) => Some(out.into_inner()),
        Err(_) => None,
    }
}

/// Reads a PNG file with `image::load_from_memory_with_format` and hands
/// out its pixels row by row, each as four or as three bytes.
///
/// Not proved, but taken from `image`: the outcome depends on the file and
/// the channel count alone.
#[verifier::external_body]
fn png_read(file: &[u8], variant: Variant) -> (out: Option<(u32, u32, Vec<u8>)>)
    ensures
        out matches Some((width, height, bytes)) ==> png_pixels(file@, variant.spec_channels())
            == Some((width, height, bytes@)),
        out is None ==> png_pixels(file@, variant.spec_channels()) is None,
{
    let img = image::load_from_memory_with_format(file, ImageFormat::Png).ok()?;
    let (width, height) = img.dimensions();
    let bytes: Vec<u8> = match variant {
        Variant::Rgba => img.pixels().flat_map(|(_, _, Rgba(c))| c).collect(),
        Variant::Rgb => img.into_rgb8().into_raw(),
    };
    Some((width, height, bytes))
}

/// What writing a grid gives, given what the container made of it.
pub open spec fn written_form(out: Option<Seq<u8>>) -> Result<Seq<u8>, EncodeError> {
    match out {
        Some(file) => Ok(file),
        None => Err(EncodeError::Image),
    }
}

/// What reading a file gives, given what the container read out of it: the
/// grid of those pixels, if they are one byte per channel of each pixel.
pub open spec fn read_form(out: Option<(u32, u32, Seq<u8>)>, variant: Variant) -> Result<
    GridView,
    DecodeError,
> {
    match out {
        None => Err(DecodeError::Image),
        Some((width, height, bytes)) => if bytes.len() == grid_capacity(
            width as nat,
            height as nat,
            variant,
        ) {
            Ok(GridView { width: width as nat, height: height as nat, variant, bytes })
        } else {
            Err(DecodeError::BufferMismatch)
        },
    }
}

/// The file that a grid is written as.
pub open spec fn written_image(grid: GridView) -> Result<Seq<u8>, EncodeError> {
    written_form(
        png_written(grid.width as u32, grid.height as u32, grid.variant.spec_channels(), grid.bytes),
    )
}

/// The grid that a file is read as.
pub open spec fn read_image_grid(file: Seq<u8>, variant: Variant) -> Result<GridView, DecodeError> {
    read_form(png_pixels(file, variant.spec_channels()), variant)
}

/// Turns the container's outcome of writing into the file or the error.
pub fn written_file(out: Option<Vec<u8>>) -> (r: Result<Vec<u8>, EncodeError>)
    ensures
        bytes_result(r) == written_form(bytes_of(out)),
{
    match out {
        Some(file) => Ok(file),
        None => Err(EncodeError::Image),
    }
}

/// Turns the container's outcome of reading into a grid or the error:
/// `Image` where nothing was read, `BufferMismatch` where the bytes are not
/// one per channel of each pixel.
pub fn grid_from_pixels(out: Option<(u32, u32, Vec<u8>)>, variant: Variant) -> (r: Result<
    PixelGrid,
    DecodeError,
>)
    ensures
        grid_result(r) == read_form(pixels_of(out), variant),
{
    match out {
        None => Err(DecodeError::Image),
        Some((width, height, bytes)) => match PixelGrid::from_raw(width, height, variant, bytes) {
            Some(grid) => Ok(grid),
            None => Err(DecodeError::BufferMismatch),
        },
    }
}

/// Writes a grid as a PNG file in memory.
pub fn write_image(grid: &PixelGrid) -> (r: Result<Vec<u8>, EncodeError>)
    ensures
        bytes_result(r) == written_image(grid@),
{
    written_file(png_write(grid.width(), grid.height(), grid.variant(), grid.as_bytes()))
}

/// Reads a PNG file from memory as a grid of the given layout.
pub fn read_image(file: &[u8], variant: Variant) -> (r: Result<PixelGrid, DecodeError>)
    ensures
        grid_result(r) == read_image_grid(file@, variant),
{
    grid_from_pixels(png_read(file, variant), variant)
}

} // verus!
