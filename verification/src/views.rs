//! What results and options of buffers and grids hold, as mathematical
//! values for the contracts.

use crate::grid::GridView;
use crate::grid::PixelGrid;
use vstd::prelude::*;

verus! {

/// The bytes of an optional buffer.
pub open spec fn bytes_of(buffer: Option<Vec<u8>>) -> Option<Seq<u8>> {
    match buffer {
        Some(bytes) => Some(bytes@),
        None => None,
    }
}

/// The bytes of a buffer inside a result.
pub open spec fn bytes_result<E>(r: Result<Vec<u8>, E>) -> Result<Seq<u8>, E> {
    match r {
        Ok(bytes) => Ok(bytes@),
        Err(e) => Err(e),
    }
}

/// The view of a grid inside a result.
pub open spec fn grid_result<E>(r: Result<PixelGrid, E>) -> Result<GridView, E> {
    match r {
        Ok(grid) => Ok(grid@),
        Err(e) => Err(e),
    }
}

/// The flag and the bytes of a split frame inside a result.
pub open spec fn split_result<E>(r: Result<(bool, &[u8]), E>) -> Result<(bool, Seq<u8>), E> {
    match r {
        Ok((is_compressed, stored)) => Ok((is_compressed, stored@)),
        Err(e) => Err(e),
    }
}

/// The size and the bytes of pixels that were read, if any.
pub open spec fn pixels_of(out: Option<(u32, u32, Vec<u8>)>) -> Option<(u32, u32, Seq<u8>)> {
    match out {
        Some((width, height, bytes)) => Some((width, height, bytes@)),
        None => None,
    }
}

} // verus!
