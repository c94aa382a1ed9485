//! Packing arbitrary bytes into a rectangular grid of pixels and recovering
//! them again.
//!
//! A payload is compressed where the compressor succeeds, framed (flag
//! byte, little-endian length, stored bytes), padded with zero bytes to the
//! size of a solved grid, and handed out as a [`grid::PixelGrid`] or as the
//! bytes of a PNG file. Reading a grid back yields the payload bit for bit
//! for the four-channel variant; the three-channel variant has no header
//! and yields the payload followed by its padding.
//!
//! Two things are taken from other crates and not proved here: what zlib
//! makes of bytes (`zlib`), and what the PNG container makes of pixels
//! (`container`). Everything around them is verified.

pub mod cli;
pub mod codec;
pub mod container;
pub mod dims;
pub mod error;
pub mod frame;
pub mod grid;
pub mod length;
pub mod variant;
pub mod views;
pub mod zlib;
