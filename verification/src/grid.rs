//! The pixel grid, and packing a channel buffer into one.

use crate::error::EncodeError;
use crate::variant::Variant;
use crate::views::grid_result;
use vstd::prelude::*;
use vstd::slice::slice_to_vec;

verus! {

/// What a pixel grid is: its size in pixels, its layout, and its bytes in
/// row-major order, the channels of one pixel side by side.
pub struct GridView {
    pub width: nat,
    pub height: nat,
    pub variant: Variant,
    pub bytes: Seq<u8>,
}

/// The bytes that a grid of `width` x `height` pixels holds: one per channel
/// of each pixel.
pub open spec fn grid_capacity(width: nat, height: nat, variant: Variant) -> nat {
    match variant {
        Variant::Rgba => width * height * 4,
        Variant::Rgb => width * height * 3,
    }
}

impl GridView {
    /// The bytes that a grid of this size holds.
    pub open spec fn capacity(self) -> nat {
        grid_capacity(self.width, self.height, self.variant)
    }

    /// The grid holds exactly one byte per channel of each pixel.
    pub open spec fn is_full(self) -> bool {
        self.bytes.len() == self.capacity()
    }

    /// Where channel `c` of the pixel in column `x` of row `y` lies in the
    /// bytes.
    pub open spec fn offset(self, x: nat, y: nat, c: nat) -> nat {
        match self.variant {
            Variant::Rgba => (y * self.width + x) * 4 + c,
            Variant::Rgb => (y * self.width + x) * 3 + c,
        }
    }

    /// Whether the grid has a channel `c` of a pixel in column `x` of row `y`.
    pub open spec fn has_sample(self, x: nat, y: nat, c: nat) -> bool {
        x < self.width && y < self.height && c < self.variant.spec_channels()
    }

    /// Channel `c` of the pixel in column `x` of row `y`.
    pub open spec fn sample(self, x: nat, y: nat, c: nat) -> u8 {
        self.bytes[self.offset(x, y, c) as int]
    }
}

/// `n` zero bytes.
pub open spec fn zeros(n: nat) -> Seq<u8> {
    Seq::new(n, |i: int| 0u8)
}

/// What packing a buffer into a grid of the given size gives: the buffer
/// followed by zero bytes up to the grid's capacity, or the reason why the
/// grid cannot hold it.
pub open spec fn packed(buffer: Seq<u8>, width: nat, height: nat, variant: Variant) -> Result<
    GridView,
    EncodeError,
> {
    let capacity = grid_capacity(width, height, variant);
    if capacity > usize::MAX {
        Err(EncodeError::DimensionOverflow)
    } else if buffer.len() > capacity {
        Err(EncodeError::BufferTooLong)
    } else {
        Ok(
            GridView {
                width,
                height,
                variant,
                bytes: buffer + zeros((capacity - buffer.len()) as nat),
            },
        )
    }
}

/// A width x height grid of pixels, each of as many bytes as its layout has
/// channels. It always holds exactly `width * height * channels` bytes.
pub struct PixelGrid {
    width: u32,
    height: u32,
    variant: Variant,
    data: Vec<u8>,
}

impl View for PixelGrid {
    type V = GridView;

    closed spec fn view(&self) -> GridView {
        GridView {
            width: self.width as nat,
            height: self.height as nat,
            variant: self.variant,
            bytes: self.data@,
        }
    }
}

/// Products of three bounded factors stay below the product of the bounds.
proof fn lemma_capacity_bound(width: nat, height: nat, d: nat)
    requires
        width <= u32::MAX,
        height <= u32::MAX,
        d <= 4,
    ensures
        width * height <= 0xffff_ffff * 0xffff_ffff,
        width * height * d <= 0xffff_ffff * 0xffff_ffff * 4,
{
    assert(width * height <= 0xffff_ffff * 0xffff_ffff && width * height * d <= 0xffff_ffff
        * 0xffff_ffff * 4) by (nonlinear_arith)
        requires
            width <= 0xffff_ffff,
            height <= 0xffff_ffff,
            d <= 4,
    ;
}

/// A sample inside the grid lies inside its bytes.
proof fn lemma_offset_in_capacity(width: nat, height: nat, d: nat, x: nat, y: nat, c: nat)
    requires
        x < width,
        y < height,
        c < d,
    ensures
        y * width + x <= (y * width + x) * d,
        (y * width + x) * d + c < width * height * d,
{
    assert(y * width + x <= (y * width + x) * d && (y * width + x) * d + c < width * height * d)
        by (nonlinear_arith)
        requires
            x < width,
            y < height,
            c < d,
    ;
}

impl PixelGrid {
    #[verifier::type_invariant]
    spec fn full(&self) -> bool {
        self@.is_full()
    }

    /// Takes `data` as the bytes of a grid of the given size. The answer is
    /// a grid exactly when `data` holds one byte per channel of each pixel.
    pub fn from_raw(width: u32, height: u32, variant: Variant, data: Vec<u8>) -> (r: Option<
        PixelGrid,
    >)
        ensures
            r.is_some() <==> data@.len() == grid_capacity(width as nat, height as nat, variant),
            r matches Some(grid) ==> grid@ == (GridView {
                width: width as nat,
                height: height as nat,
                variant,
                bytes: data@,
            }),
    {
        let d: u32 = variant.channels();
        proof {
            lemma_capacity_bound(width as nat, height as nat, d as nat);
        }
        let capacity: u128 = width as u128 * height as u128 * d as u128;
        if data.len() as u128 == capacity {
            Some(PixelGrid { width, height, variant, data })
        } else {
            None
        }
    }

    /// Pixels per row.
    pub fn width(&self) -> (w: u32)
        ensures
            w == self@.width,
    {
        self.width
    }

    /// Number of rows.
    pub fn height(&self) -> (h: u32)
        ensures
            h == self@.height,
    {
        self.height
    }

    /// The layout of the pixels.
    pub fn variant(&self) -> (v: Variant)
        ensures
            v == self@.variant,
    {
        self.variant
    }

    /// The bytes of the grid in row-major order: one byte per channel of
    /// each pixel, no more and no less.
    pub fn as_bytes(&self) -> (bytes: &[u8])
        ensures
            bytes@ == self@.bytes,
            self@.is_full(),
    {
        proof {
            use_type_invariant(self);
        }
        self.data.as_slice()
    }

    /// Gives up the grid for its bytes.
    pub fn into_raw(self) -> (bytes: Vec<u8>)
        ensures
            bytes@ == self@.bytes,
            self@.is_full(),
    {
        proof {
            use_type_invariant(&self);
        }
        self.data
    }

    /// Channel `c` of the pixel in column `x` of row `y`, if the grid has
    /// one.
    pub fn sample(&self, x: u32, y: u32, c: u32) -> (r: Option<u8>)
        ensures
            r.is_some() <==> self@.has_sample(x as nat, y as nat, c as nat),
            r matches Some(value) ==> value == self@.sample(x as nat, y as nat, c as nat),
    {
        let d: u32 = self.variant.channels();
        if x < self.width && y < self.height && c < d {
            let len: usize = self.data.len();
            proof {
                use_type_invariant(self);
                lemma_offset_in_capacity(
                    self.width as nat,
                    self.height as nat,
                    d as nat,
                    x as nat,
                    y as nat,
                    c as nat,
                );
                assert((y * self.width + x) * d + c < len);
            }
            let pixel: usize = y as usize * self.width as usize + x as usize;
            let at: usize = pixel * d as usize + c as usize;
            Some(self.data[at])
        } else {
            None
        }
    }
}

/// Pads `channel_buffer` with zero bytes to `width * height * channels`
/// bytes and takes it as the row-major bytes of a grid of that size.
///
/// Nothing is ever cut off: a buffer that is longer than the grid is
/// answered with `BufferTooLong`, and a grid whose size no buffer on this
/// platform can have with `DimensionOverflow`.
pub fn pack(channel_buffer: Vec<u8>, width: u32, height: u32, variant: Variant) -> (r: Result<
    PixelGrid,
    EncodeError,
>)
    ensures
        grid_result(r) == packed(channel_buffer@, width as nat, height as nat, variant),
        r matches Ok(grid) ==> grid@.is_full(),
{
    let d: u32 = variant.channels();
    proof {
        lemma_capacity_bound(width as nat, height as nat, d as nat);
    }
    let capacity: u128 = width as u128 * height as u128 * d as u128;
    if capacity > usize::MAX as u128 {
        return Err(EncodeError::DimensionOverflow);
    }
    if channel_buffer.len() as u128 > capacity {
        return Err(EncodeError::BufferTooLong);
    }
    let mut data = channel_buffer;
    data.resize(capacity as usize, 0u8);
    assert(data@ =~= channel_buffer@ + zeros((capacity - channel_buffer@.len()) as nat));
    Ok(PixelGrid { width, height, variant, data })
}

/// The bytes of a grid as one channel buffer: the pixels row by row, the
/// channels of each pixel in their order.
pub fn unpack(grid: &PixelGrid) -> (channel_buffer: Vec<u8>)
    ensures
        channel_buffer@ == grid@.bytes,
{
    slice_to_vec(grid.as_bytes())
}

} // verus!
