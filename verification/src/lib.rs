//! A verified decoder for uncompressed BMP images.
//!
//! The decoder has two stages. [`header::parse_header`] reads the fixed
//! 54-byte region at the start of a buffer (the BMP file header followed by a
//! `BITMAPINFOHEADER`), decodes every field little-endian, and checks the
//! "BM" signature. [`pixels::extract_pixels`] then uses the parsed header to
//! locate the pixel region, computes the 4-byte-aligned row stride, and
//! returns the pixel bytes with the stored bottom-up rows reordered into
//! top-down order. [`bmp::Bmp`] packages both stages over an owned byte
//! buffer.

use vstd::prelude::*;

pub mod bmp;
pub mod bytes;
pub mod header;
pub mod pixels;

verus! {

/// Why a decode attempt failed.
#[derive(Clone, Copy, Debug, PartialEq, Eq, Structural)]
pub enum BmpError {
    /// The signature bytes are not "BM", or no header has been parsed yet.
    InvalidFormat,
    /// Fewer bytes are available than the header or the pixel region needs.
    TruncatedInput,
    /// The file uses a variant this decoder does not handle
    /// (compressed pixel data, or top-down storage flagged by a negative height).
    UnsupportedVariant,
    /// The header declares a non-positive width or a zero height.
    InvalidDimensions,
}

} // verus!
