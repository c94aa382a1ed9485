//! The two pixel layouts.

use vstd::prelude::*;

verus! {

/// Which pixel layout a grid uses.
///
/// The two differ in more than the channel count: only the four-channel
/// layout carries a frame header, so only that one gives the payload back
/// without its padding.
#[derive(Clone, Copy, Debug, PartialEq, Eq, Structural)]
pub enum Variant {
    /// Four channels per pixel; the payload is stored behind a header of a
    /// flag byte and a length, possibly compressed.
    Rgba,
    /// Three channels per pixel; the payload is stored as it is, with no
    /// header, and never compressed.
    Rgb,
}

impl Variant {
    /// Channels per pixel, which is also the divisor of the dimension
    /// formula.
    pub open spec fn spec_channels(self) -> nat {
        match self {
            Variant::Rgba => 4,
            Variant::Rgb => 3,
        }
    }

    /// Channels per pixel.
    pub fn channels(self) -> (c: u32)
        ensures
            c == self.spec_channels(),
    {
        match self {
            Variant::Rgba => 4,
            Variant::Rgb => 3,
        }
    }
}

} // verus!
