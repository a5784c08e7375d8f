//! The fixed 54-byte BMP header: record type, byte-exact layout, and parser.

use vstd::prelude::*;

use crate::BmpError;
use crate::bytes::le_i32_at;
use crate::bytes::le_u16_at;
use crate::bytes::le_u32_at;
use crate::bytes::read_i32_at;
use crate::bytes::read_u16_at;
use crate::bytes::read_u32_at;

verus! {

/// Combined size in bytes of the BMP file header (14) and the
/// `BITMAPINFOHEADER` (40).
pub const HEADER_SIZE: usize = 54;

/// The "BM" signature read little-endian: 'B' (0x42) at offset 0,
/// 'M' (0x4D) at offset 1.
pub const BMP_SIGNATURE: u16 = 0x4D42;

/// The decoded 54-byte BMP header, one field per wire field, in wire order.
#[derive(Clone, Copy, Debug, PartialEq, Eq, Structural)]
pub struct BmpHeader {
    /// File type; "BM" (0x42, 0x4D) for a BMP file.
    pub bf_type: u16,
    /// Total file size in bytes (informational).
    pub bf_size: u32,
    /// Reserved; conventionally 0, ignored on read.
    pub bf_reserved1: u16,
    /// Reserved; conventionally 0, ignored on read.
    pub bf_reserved2: u16,
    /// Byte offset from the start of the file to the pixel data.
    pub bf_off_bits: u32,
    /// Size of the info header; 40 for a `BITMAPINFOHEADER`.
    pub bi_size: u32,
    /// Image width in pixels; must be positive to decode.
    pub bi_width: i32,
    /// Image height in pixels; positive means bottom-up row storage.
    pub bi_height: i32,
    /// Number of color planes; 1 in well-formed files.
    pub bi_planes: u16,
    /// Bits per pixel: 1, 4, 8, 16, 24, or 32 in well-formed files.
    pub bi_bit_count: u16,
    /// Compression method; 0 means uncompressed, the only variant decoded here.
    pub bi_compression: u32,
    /// Size of the pixel data in bytes; 0 means "compute from the stride".
    pub bi_size_image: u32,
    /// Horizontal resolution in pixels per meter (informational).
    pub bi_x_pels_per_meter: i32,
    /// Vertical resolution in pixels per meter (informational).
    pub bi_y_pels_per_meter: i32,
    /// Number of palette colors, or 0 for the format's default.
    pub bi_clr_used: u32,
    /// Number of important colors, or 0 when all matter.
    pub bi_clr_important: u32,
}

impl BmpHeader {
    /// Image width in pixels.
    pub fn bi_width(&self) -> (r: i32)
        ensures
            r == self.bi_width,
    {
        self.bi_width
    }

    /// Image height in pixels.
    pub fn bi_height(&self) -> (r: i32)
        ensures
            r == self.bi_height,
    {
        self.bi_height
    }
}

/// The header record encoded in the first 54 bytes of `s`: every field is the
/// little-endian decode of its fixed wire offset.
pub open spec fn spec_header_at(s: Seq<u8>) -> BmpHeader {
    BmpHeader {
        bf_type: le_u16_at(s, 0),
        bf_size: le_u32_at(s, 2),
        bf_reserved1: le_u16_at(s, 6),
        bf_reserved2: le_u16_at(s, 8),
        bf_off_bits: le_u32_at(s, 10),
        bi_size: le_u32_at(s, 14),
        bi_width: le_i32_at(s, 18),
        bi_height: le_i32_at(s, 22),
        bi_planes: le_u16_at(s, 26),
        bi_bit_count: le_u16_at(s, 28),
        bi_compression: le_u32_at(s, 30),
        bi_size_image: le_u32_at(s, 34),
        bi_x_pels_per_meter: le_i32_at(s, 38),
        bi_y_pels_per_meter: le_i32_at(s, 42),
        bi_clr_used: le_u32_at(s, 46),
        bi_clr_important: le_u32_at(s, 50),
    }
}

/// What parsing the start of `s` yields. A signature that is readable but not
/// "BM" fails as `InvalidFormat` whatever else the buffer holds; otherwise a
/// buffer shorter than 54 bytes fails as `TruncatedInput`; otherwise the
/// decoded record is returned.
pub open spec fn spec_parse_header(s: Seq<u8>) -> Result<BmpHeader, BmpError> {
    if s.len() >= 2 && le_u16_at(s, 0) != BMP_SIGNATURE {
        Err(BmpError::InvalidFormat)
    } else if s.len() < HEADER_SIZE {
        Err(BmpError::TruncatedInput)
    } else {
        Ok(spec_header_at(s))
    }
}

/// Parses the 54-byte BMP header at the start of `data`.
pub fn parse_header(data: &Vec<u8>) -> (r: Result<BmpHeader, BmpError>)
    ensures
        r == spec_parse_header(data@),
{
    if data.len() >= 2 && read_u16_at(data, 0) != BMP_SIGNATURE {
        return Err(BmpError::InvalidFormat);
    }
    if data.len() < HEADER_SIZE {
        return Err(BmpError::TruncatedInput);
    }
    Ok(
        BmpHeader {
            bf_type: read_u16_at(data, 0),
            bf_size: read_u32_at(data, 2),
            bf_reserved1: read_u16_at(data, 6),
            bf_reserved2: read_u16_at(data, 8),
            bf_off_bits: read_u32_at(data, 10),
            bi_size: read_u32_at(data, 14),
            bi_width: read_i32_at(data, 18),
            bi_height: read_i32_at(data, 22),
            bi_planes: read_u16_at(data, 26),
            bi_bit_count: read_u16_at(data, 28),
            bi_compression: read_u32_at(data, 30),
            bi_size_image: read_u32_at(data, 34),
            bi_x_pels_per_meter: read_i32_at(data, 38),
            bi_y_pels_per_meter: read_i32_at(data, 42),
            bi_clr_used: read_u32_at(data, 46),
            bi_clr_important: read_u32_at(data, 50),
        },
    )
}

/// Any buffer of at least 54 bytes whose signature reads "BM" parses to the
/// record whose fields are the little-endian decodes of the fixed wire
/// offsets — in particular the declared width at offset 18 and the declared
/// height at offset 22 come back exactly.
pub proof fn lemma_parse_header_complete(s: Seq<u8>)
    requires
        s.len() >= HEADER_SIZE,
        le_u16_at(s, 0) == BMP_SIGNATURE,
    ensures
        spec_parse_header(s) == Ok::<BmpHeader, BmpError>(spec_header_at(s)),
        spec_parse_header(s)->Ok_0.bi_width == le_i32_at(s, 18),
        spec_parse_header(s)->Ok_0.bi_height == le_i32_at(s, 22),
{
}

/// A buffer whose first two bytes are not 'B','M' is rejected as
/// `InvalidFormat`, whatever the rest of the buffer holds.
pub proof fn lemma_parse_header_bad_signature(s: Seq<u8>)
    requires
        s.len() >= 2,
        le_u16_at(s, 0) != BMP_SIGNATURE,
    ensures
        spec_parse_header(s) == Err::<BmpHeader, BmpError>(BmpError::InvalidFormat),
{
}

/// A buffer with fewer than the required 54 bytes, and no readable bad
/// signature, never yields a record, partially filled or otherwise: parsing
/// fails as `TruncatedInput`.
pub proof fn lemma_parse_header_truncated(s: Seq<u8>)
    requires
        s.len() < HEADER_SIZE,
        s.len() >= 2 ==> le_u16_at(s, 0) == BMP_SIGNATURE,
    ensures
        spec_parse_header(s) == Err::<BmpHeader, BmpError>(BmpError::TruncatedInput),
{
}

} // verus!
