//! Row stride, pixel-region bounds, and the bottom-up to top-down
//! reorientation of the pixel bytes.

use vstd::prelude::*;

use vstd::arithmetic::div_mod::lemma_fundamental_div_mod;
use vstd::arithmetic::div_mod::lemma_fundamental_div_mod_converse;
use vstd::arithmetic::div_mod::lemma_mod_bound;

use crate::BmpError;
use crate::header::BmpHeader;

verus! {

/// Bytes per stored row including alignment padding: each row is rounded up
/// to the next multiple of 4 bytes, `((bits_per_pixel * width + 31) / 32) * 4`.
pub open spec fn spec_stride(width: int, bits_per_pixel: int) -> int {
    ((bits_per_pixel * width + 31) / 32) * 4
}

/// Computes the row stride for a positive width.
pub fn stride(width: i32, bits_per_pixel: u16) -> (r: u64)
    requires
        1 <= width,
    ensures
        r == spec_stride(width as int, bits_per_pixel as int),
        r % 4 == 0,
{
    proof {
        assert((bits_per_pixel as int) * (width as int) <= 0xFFFF * 0x7FFF_FFFF)
            by (nonlinear_arith)
            requires
                bits_per_pixel <= 0xFFFF,
                1 <= width <= 0x7FFF_FFFF,
        ;
    }
    let bits: u64 = (bits_per_pixel as u64) * (width as u64);
    let r: u64 = (bits + 31) / 32 * 4;
    proof {
        assert((((bits + 31) / 32) * 4) % 4 == 0) by (nonlinear_arith);
    }
    r
}

/// The index in the source buffer that feeds position `i` of the top-down
/// pixel buffer: byte `i % stride` of stored row `height - 1 - i / stride`,
/// within the region that starts at `off`.
pub open spec fn spec_src_index(off: int, stride: int, height: int, i: int) -> int {
    off + (height - 1 - i / stride) * stride + i % stride
}

/// The `stride * height` bytes of the pixel region of `s` at offset `off`,
/// with the stored bottom-up rows reordered into top-down order.
pub open spec fn spec_reoriented(s: Seq<u8>, off: int, stride: nat, height: nat) -> Seq<u8> {
    Seq::new(stride * height, |i: int| s[spec_src_index(off, stride as int, height as int, i)])
}

/// Row `y` of the reoriented buffer is, byte for byte, stored row
/// `height - 1 - y` of the source region.
pub proof fn lemma_reoriented_row(s: Seq<u8>, off: int, stride: nat, height: nat, y: int, k: int)
    requires
        0 < stride,
        0 <= y < height,
        0 <= k < stride,
    ensures
        spec_reoriented(s, off, stride, height)[y * stride + k] == s[spec_src_index(
            off,
            stride as int,
            height as int,
            y * stride + k,
        )],
        spec_src_index(off, stride as int, height as int, y * stride + k) == off + (height - 1 - y)
            * stride + k,
{
    let st = stride as int;
    let i = y * st + k;
    lemma_fundamental_div_mod_converse(i, st, y, k);
    assert(0 <= i < st * height) by (nonlinear_arith)
        requires
            0 < st,
            0 <= y < height,
            0 <= k < st,
            i == y * st + k,
    ;
}

/// Reorienting is an involution: applying the row reversal to an already
/// reoriented buffer gives back the source region unchanged, so the
/// transform is a full permutation of the region's rows and loses no byte.
pub proof fn lemma_reorient_involutive(s: Seq<u8>, off: int, stride: nat, height: nat)
    requires
        0 < stride,
        0 <= off,
        off + stride * height <= s.len(),
    ensures
        spec_reoriented(spec_reoriented(s, off, stride, height), 0, stride, height) == s.subrange(
            off,
            off + stride * height,
        ),
{
    let st = stride as int;
    let h = height as int;
    let t = spec_reoriented(s, off, stride, height);
    let u = spec_reoriented(t, 0, stride, height);
    assert forall|i: int| 0 <= i < st * h implies u[i] == s[off + i] by {
        lemma_fundamental_div_mod(i, st);
        lemma_mod_bound(i, st);
        let y = i / st;
        let k = i % st;
        assert(0 <= y < h) by (nonlinear_arith)
            requires
                0 < st,
                0 <= i < st * h,
                i == st * y + k,
                0 <= k < st,
        ;
        let j = (h - 1 - y) * st + k;
        lemma_fundamental_div_mod_converse(j, st, h - 1 - y, k);
        assert(u[i] == t[j]);
        assert(0 <= j < st * h) by (nonlinear_arith)
            requires
                0 < st,
                0 <= h - 1 - y < h,
                0 <= k < st,
                j == (h - 1 - y) * st + k,
        ;
        assert(t[j] == s[off + (h - 1 - (h - 1 - y)) * st + k]);
        assert(off + y * st + k == off + i) by (nonlinear_arith)
            requires
                i == st * y + k,
        ;
    }
    assert(u =~= s.subrange(off, off + st * height));
}

/// What pixel extraction yields for header `h` over source bytes `s`.
///
/// Compressed data and top-down (negative-height) storage are refused as
/// `UnsupportedVariant`; a non-positive width or a zero height as
/// `InvalidDimensions`. The region size is the header's `bi_size_image` when
/// non-zero, else `stride * height`; a source too short for the region, or a
/// declared region too small for `stride * height` rows, fails as
/// `TruncatedInput`. Otherwise the result is the reoriented pixel region.
pub open spec fn spec_pixel_data(h: BmpHeader, s: Seq<u8>) -> Result<Seq<u8>, BmpError> {
    if h.bi_compression != 0 {
        Err(BmpError::UnsupportedVariant)
    } else if h.bi_width <= 0 || h.bi_height == 0 {
        Err(BmpError::InvalidDimensions)
    } else if h.bi_height < 0 {
        Err(BmpError::UnsupportedVariant)
    } else {
        let row = spec_stride(h.bi_width as int, h.bi_bit_count as int);
        let computed = row * h.bi_height;
        let region: int = if h.bi_size_image != 0 {
            h.bi_size_image as int
        } else {
            computed
        };
        if s.len() < h.bf_off_bits + region || region < computed {
            Err(BmpError::TruncatedInput)
        } else {
            Ok(spec_reoriented(s, h.bf_off_bits as int, row as nat, h.bi_height as nat))
        }
    }
}

/// Extracts the pixel bytes that `header` locates in `data`, reordered into
/// top-down rows.
pub fn extract_pixels(header: &BmpHeader, data: &Vec<u8>) -> (r: Result<Vec<u8>, BmpError>)
    ensures
        spec_pixel_data(*header, data@) is Ok <==> r is Ok,
        r matches Ok(p) ==> p@ == spec_pixel_data(*header, data@)->Ok_0,
        r matches Err(e) ==> e == spec_pixel_data(*header, data@)->Err_0,
{
    if header.bi_compression != 0 {
        return Err(BmpError::UnsupportedVariant);
    }
    if header.bi_width <= 0 || header.bi_height == 0 {
        return Err(BmpError::InvalidDimensions);
    }
    if header.bi_height < 0 {
        return Err(BmpError::UnsupportedVariant);
    }
    let height_u: u64 = header.bi_height as u64;
    let row: u64 = stride(header.bi_width, header.bi_bit_count);
    proof {
        assert((row as int) * (height_u as int) <= 0xFFFF_FFFF_FFFF_FFFF * 0x7FFF_FFFF)
            by (nonlinear_arith)
            requires
                row <= 0xFFFF_FFFF_FFFF_FFFF,
                height_u <= 0x7FFF_FFFF,
        ;
        assert((row as int) * (height_u as int) >= row) by (nonlinear_arith)
            requires
                height_u >= 1,
                row >= 0,
        ;
    }
    let computed: u128 = (row as u128) * (height_u as u128);
    let region: u128 = if header.bi_size_image != 0 {
        header.bi_size_image as u128
    } else {
        computed
    };
    let len: usize = data.len();
    if (len as u128) < (header.bf_off_bits as u128) + region || region < computed {
        return Err(BmpError::TruncatedInput);
    }
    let off: usize = header.bf_off_bits as usize;
    let row_s: usize = row as usize;
    let height_s: usize = height_u as usize;
    let total: usize = row_s * height_s;
    let mut out: Vec<u8> = Vec::new();
    let mut i: usize = 0;
    while i < total
        invariant
            out@.len() == i,
            i <= total,
            total == row_s * height_s,
            1 <= height_s,
            len == data@.len(),
            off + total <= len,
            forall|j: int|
                0 <= j < i ==> out@[j] == data@[spec_src_index(
                    off as int,
                    row_s as int,
                    height_s as int,
                    j,
                )],
        decreases total - i,
    {
        proof {
            assert(row_s >= 1) by (nonlinear_arith)
                requires
                    0 <= i < total,
                    total == row_s * height_s,
                    row_s >= 0,
            ;
        }
        let y: usize = i / row_s;
        let k: usize = i % row_s;
        proof {
            lemma_fundamental_div_mod(i as int, row_s as int);
            lemma_mod_bound(i as int, row_s as int);
            assert(y < height_s) by (nonlinear_arith)
                requires
                    row_s >= 1,
                    0 <= i < row_s * height_s,
                    i == row_s * y + k,
                    0 <= k < row_s,
            ;
            assert((height_s - 1 - y) * row_s + k < total) by (nonlinear_arith)
                requires
                    0 <= y < height_s,
                    0 <= k < row_s,
                    total == row_s * height_s,
            ;
        }
        let src: usize = off + (height_s - 1 - y) * row_s + k;
        out.push(data[src]);
        i = i + 1;
    }
    proof {
        let target = spec_reoriented(data@, off as int, row_s as nat, height_s as nat);
        assert(out@ =~= target);
    }
    Ok(out)
}

/// The red, green and blue channels of the `index`-th 3-byte pixel of a
/// 24-bit-per-pixel row buffer. BMP stores channels blue, green, red, so red
/// is the byte at offset `+2`, green at `+1`, blue at `+0`.
pub fn pixel_rgb(pixels: &Vec<u8>, index: usize) -> (r: (u8, u8, u8))
    requires
        3 * index + 3 <= pixels@.len(),
    ensures
        r.0 == pixels@[3 * index + 2],
        r.1 == pixels@[3 * index + 1],
        r.2 == pixels@[3 * index as int],
{
    // The length call bounds pixels@.len() by usize::MAX, so 3 * index cannot wrap.
    let n: usize = pixels.len();
    let base: usize = 3 * index;
    (pixels[base + 2], pixels[base + 1], pixels[base])
}

} // verus!
