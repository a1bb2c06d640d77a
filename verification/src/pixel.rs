//! BGRA to NV12 pixel conversion (BT.601), with arbitrary source row pitch.
//!
//! Coefficients are the BT.601 ones in thousandths, applied in integer
//! arithmetic. The output is packed NV12 — a full luma plane followed by
//! interleaved chroma subsampled 2x2 (the top-left sample of each block) —
//! and its size depends only on the frame dimensions, never on the pitch.

use vstd::prelude::*;
use crate::capture::nv12_size;

verus! {

/// Clamp a value to one byte.
pub open spec fn clamp8(x: int) -> int {
    if x < 0 {
        0
    } else if x > 255 {
        255
    } else {
        x
    }
}

/// Division by 1000 truncating toward zero, as the conversion applies it.
pub open spec fn div1000_trunc(n: int) -> int {
    if n >= 0 {
        n / 1000
    } else {
        -((-n) / 1000)
    }
}

/// The BT.601 luma of a pixel, from its red, green and blue bytes.
pub open spec fn luma_of(r: int, g: int, b: int) -> int {
    clamp8((299 * r + 587 * g + 114 * b) / 1000)
}

/// The BT.601 blue-difference chroma of a pixel, offset to unsigned.
pub open spec fn chroma_u_of(r: int, g: int, b: int) -> int {
    clamp8(div1000_trunc(500 * b - 169 * r - 331 * g) + 128)
}

/// The BT.601 red-difference chroma of a pixel, offset to unsigned.
pub open spec fn chroma_v_of(r: int, g: int, b: int) -> int {
    clamp8(div1000_trunc(500 * r - 419 * g - 81 * b) + 128)
}

/// The byte offset of pixel `(x, y)` in a BGRA image with the given row
/// pitch.
pub open spec fn bgra_offset(x: int, y: int, row_pitch: int) -> int {
    y * row_pitch + 4 * x
}

/// The luma plane byte at position `i` (row-major over the frame).
pub open spec fn y_plane_byte(bgra: Seq<u8>, row_pitch: int, width: int, i: int) -> int {
    let y = i / width;
    let x = i % width;
    let o = bgra_offset(x, y, row_pitch);
    luma_of(bgra[o + 2] as int, bgra[o + 1] as int, bgra[o] as int)
}

/// The chroma plane byte at position `j` of the interleaved UV plane: even
/// columns carry U and odd columns V, both sampled from the top-left pixel of
/// the 2x2 block.
pub open spec fn uv_plane_byte(bgra: Seq<u8>, row_pitch: int, width: int, j: int) -> int {
    let row = j / width;
    let col = j % width;
    let x = if col % 2 == 0 {
        col
    } else {
        col - 1
    };
    let o = bgra_offset(x, 2 * row, row_pitch);
    if col % 2 == 0 {
        chroma_u_of(bgra[o + 2] as int, bgra[o + 1] as int, bgra[o] as int)
    } else {
        chroma_v_of(bgra[o + 2] as int, bgra[o + 1] as int, bgra[o] as int)
    }
}

/// Compute the luma byte of one pixel.
fn luma_byte(r: u8, g: u8, b: u8) -> (res: u8)
    ensures
        res == luma_of(r as int, g as int, b as int),
{
    let v: u32 = (299 * (r as u32) + 587 * (g as u32) + 114 * (b as u32)) / 1000;
    if v > 255 {
        255
    } else {
        v as u8
    }
}

/// Division by 1000 truncating toward zero, in execution.
fn div1000(n: i32) -> (res: i32)
    requires
        -1000000000 <= n <= 1000000000,
    ensures
        res == div1000_trunc(n as int),
        -1000000 <= res <= 1000000,
{
    if n >= 0 {
        proof {
            vstd::arithmetic::div_mod::lemma_div_pos_is_pos(n as int, 1000);
            vstd::arithmetic::div_mod::lemma_div_is_ordered(n as int, 1000000000, 1000);
        }
        n / 1000
    } else {
        proof {
            vstd::arithmetic::div_mod::lemma_div_pos_is_pos(-(n as int), 1000);
            vstd::arithmetic::div_mod::lemma_div_is_ordered(-(n as int), 1000000000, 1000);
        }
        -((-n) / 1000)
    }
}

/// Compute the blue-difference chroma byte of one pixel.
fn chroma_u_byte(r: u8, g: u8, b: u8) -> (res: u8)
    ensures
        res == chroma_u_of(r as int, g as int, b as int),
{
    let n: i32 = 500 * (b as i32) - 169 * (r as i32) - 331 * (g as i32);
    let v = div1000(n) + 128;
    if v < 0 {
        0
    } else if v > 255 {
        255
    } else {
        v as u8
    }
}

/// Compute the red-difference chroma byte of one pixel.
fn chroma_v_byte(r: u8, g: u8, b: u8) -> (res: u8)
    ensures
        res == chroma_v_of(r as int, g as int, b as int),
{
    let n: i32 = 500 * (r as i32) - 419 * (g as i32) - 81 * (b as i32);
    let v = div1000(n) + 128;
    if v < 0 {
        0
    } else if v > 255 {
        255
    } else {
        v as u8
    }
}

/// Convert a BGRA image with the given row pitch to packed NV12.
///
/// The output holds exactly `width * height * 3 / 2` bytes for every pitch of
/// at least `4 * width`: the full luma plane, then the interleaved chroma
/// plane sampled from the top-left pixel of each 2x2 block.
pub fn convert_bgra_to_nv12(bgra: &[u8], width: u32, height: u32, row_pitch: usize) -> (out: Vec<
    u8,
>)
    requires
        width % 2 == 0,
        height % 2 == 0,
        row_pitch >= 4 * width,
        bgra@.len() >= height * row_pitch,
        nv12_size(width as int, height as int) <= usize::MAX,
    ensures
        out@.len() == nv12_size(width as int, height as int),
        forall|i: int|
            0 <= i < width * height ==> #[trigger] out@[i] == y_plane_byte(
                bgra@,
                row_pitch as int,
                width as int,
                i,
            ),
        forall|j: int|
            0 <= j < (width * height) / 2 ==> #[trigger] out@[width * height + j] == uv_plane_byte(
                bgra@,
                row_pitch as int,
                width as int,
                j,
            ),
{
    let w = width as usize;
    let h = height as usize;
    let ghost wi = width as int;
    let ghost hi = height as int;
    let ghost pitch = row_pitch as int;
    let bgra_len = bgra.len();
    proof {
        lemma_pitch_bounds(bgra@.len() as int, wi, hi, pitch);
    }
    let mut out: Vec<u8> = Vec::new();
    // Luma plane, row-major.
    let mut y: usize = 0;
    while y < h
        invariant
            y <= h,
            w == wi,
            h == hi,
            pitch == row_pitch,
            wi % 2 == 0,
            hi % 2 == 0,
            pitch >= 4 * wi,
            bgra@.len() >= hi * pitch,
            bgra_len == bgra@.len(),
            nv12_size(wi, hi) <= usize::MAX,
            out@.len() == y * wi,
            forall|i: int|
                0 <= i < out@.len() ==> #[trigger] out@[i] == y_plane_byte(bgra@, pitch, wi, i),
        decreases h - y,
    {
        let mut x: usize = 0;
        while x < w
            invariant
                x <= w,
                y < h,
                w == wi,
                h == hi,
                pitch == row_pitch,
                wi % 2 == 0,
                hi % 2 == 0,
                pitch >= 4 * wi,
                bgra@.len() >= hi * pitch,
            bgra_len == bgra@.len(),
                nv12_size(wi, hi) <= usize::MAX,
                out@.len() == y * wi + x,
                forall|i: int|
                    0 <= i < out@.len() ==> #[trigger] out@[i] == y_plane_byte(bgra@, pitch, wi, i),
            decreases w - x,
        {
            proof {
                lemma_pixel_offset_in_range(bgra@.len() as int, wi, hi, pitch, x as int, y as int);
                lemma_plane_index_le(wi, hi, y as int, x as int);
            }
            let o = y * row_pitch + 4 * x;
            let pixel_b = bgra[o];
            let pixel_g = bgra[o + 1];
            let pixel_r = bgra[o + 2];
            out.push(luma_byte(pixel_r, pixel_g, pixel_b));
            proof {
                vstd::arithmetic::div_mod::lemma_fundamental_div_mod_converse(
                    y as int * wi + x as int,
                    wi,
                    y as int,
                    x as int,
                );
            }
            x += 1;
        }
        proof {
            assert((y as int + 1) * wi == y as int * wi + wi) by (nonlinear_arith);
        }
        y += 1;
    }
    proof {
        assert(out@.len() == hi * wi);
    }
    // Interleaved chroma plane, one U and one V per 2x2 block.
    let ghost y_len = out@.len();
    let mut by: usize = 0;
    while by < h / 2
        invariant
            by <= h / 2,
            w == wi,
            h == hi,
            pitch == row_pitch,
            wi % 2 == 0,
            hi % 2 == 0,
            pitch >= 4 * wi,
            bgra@.len() >= hi * pitch,
            bgra_len == bgra@.len(),
            nv12_size(wi, hi) <= usize::MAX,
            y_len == hi * wi,
            out@.len() == y_len + by * wi,
            forall|i: int|
                0 <= i < y_len ==> #[trigger] out@[i] == y_plane_byte(bgra@, pitch, wi, i),
            forall|j: int|
                0 <= j < by * wi ==> #[trigger] out@[y_len + j] == uv_plane_byte(
                    bgra@,
                    pitch,
                    wi,
                    j,
                ),
        decreases h / 2 - by,
    {
        let mut x: usize = 0;
        while x < w
            invariant
                x <= w,
                x % 2 == 0,
                by < h / 2,
                w == wi,
                h == hi,
                pitch == row_pitch,
                wi % 2 == 0,
                hi % 2 == 0,
                pitch >= 4 * wi,
                bgra@.len() >= hi * pitch,
            bgra_len == bgra@.len(),
                nv12_size(wi, hi) <= usize::MAX,
                y_len == hi * wi,
                out@.len() == y_len + by * wi + x,
                forall|i: int|
                    0 <= i < y_len ==> #[trigger] out@[i] == y_plane_byte(bgra@, pitch, wi, i),
                forall|j: int|
                    0 <= j < by * wi + x ==> #[trigger] out@[y_len + j] == uv_plane_byte(
                        bgra@,
                        pitch,
                        wi,
                        j,
                    ),
            decreases w - x,
        {
            proof {
                lemma_block_row_in_range(hi, by as int);
                lemma_pixel_offset_in_range(
                    bgra@.len() as int,
                    wi,
                    hi,
                    pitch,
                    x as int,
                    2 * by as int,
                );
                lemma_uv_len_le(wi, hi, by as int, x as int);
            }
            let o = (2 * by) * row_pitch + 4 * x;
            let pixel_b = bgra[o];
            let pixel_g = bgra[o + 1];
            let pixel_r = bgra[o + 2];
            out.push(chroma_u_byte(pixel_r, pixel_g, pixel_b));
            out.push(chroma_v_byte(pixel_r, pixel_g, pixel_b));
            proof {
                vstd::arithmetic::div_mod::lemma_fundamental_div_mod_converse(
                    by as int * wi + x as int,
                    wi,
                    by as int,
                    x as int,
                );
                vstd::arithmetic::div_mod::lemma_fundamental_div_mod_converse(
                    by as int * wi + x as int + 1,
                    wi,
                    by as int,
                    x as int + 1,
                );
            }
            x += 2;
        }
        proof {
            assert((by as int + 1) * wi == by as int * wi + wi) by (nonlinear_arith);
        }
        by += 1;
    }
    proof {
        lemma_total_size(wi, hi);
    }
    out
}

/// With an even height, a block row below `height / 2` addresses pixel rows
/// inside the frame.
proof fn lemma_block_row_in_range(h: int, by: int)
    requires
        h % 2 == 0,
        h >= 0,
        0 <= by < h / 2,
    ensures
        0 <= 2 * by && 2 * by < h,
{
    vstd::arithmetic::div_mod::lemma_fundamental_div_mod(h, 2);
}

/// The byte offset of any pixel lies within a buffer that holds `h` rows of
/// `pitch` bytes, with room for its four channel bytes.
proof fn lemma_pixel_offset_in_range(len: int, w: int, h: int, pitch: int, x: int, y: int)
    requires
        0 <= x < w,
        0 <= y < h,
        pitch >= 4 * w,
        len >= h * pitch,
    ensures
        0 <= y * pitch,
        y * pitch + 4 * x + 3 < len,
{
    assert(y * pitch >= 0 && y * pitch + 4 * x + 3 < h * pitch) by (nonlinear_arith)
        requires
            0 <= x < w && 0 <= y < h && pitch >= 4 * w,
    ;
}

/// A luma index stays within the plane.
proof fn lemma_plane_index_le(w: int, h: int, y: int, x: int)
    requires
        0 <= x < w,
        0 <= y < h,
    ensures
        y * w + x < h * w,
        y * w + x >= 0,
{
    assert(y * w + x < h * w && y * w + x >= 0) by (nonlinear_arith)
        requires
            0 <= x < w && 0 <= y < h,
    ;
}

/// A chroma index stays within the plane.
proof fn lemma_uv_len_le(w: int, h: int, by: int, x: int)
    requires
        0 <= x < w,
        x % 2 == 0,
        w % 2 == 0,
        h % 2 == 0,
        0 <= by < h / 2,
        h >= 0,
    ensures
        by * w + x + 1 < (h / 2) * w,
        (h / 2) * w * 2 == h * w,
        by * w + x >= 0,
{
    assert(by * w + x + 1 < (h / 2) * w && by * w + x >= 0) by (nonlinear_arith)
        requires
            0 <= x < w && 0 <= by < h / 2 && x % 2 == 0 && w % 2 == 0,
    ;
    vstd::arithmetic::div_mod::lemma_fundamental_div_mod(h, 2);
    assert((h / 2) * w * 2 == h * w) by (nonlinear_arith)
        requires
            h == 2 * (h / 2),
    ;
}

/// The two planes together are exactly the NV12 size.
proof fn lemma_total_size(w: int, h: int)
    requires
        w >= 0,
        h >= 0,
        w % 2 == 0,
        h % 2 == 0,
    ensures
        h * w + (h / 2) * w == nv12_size(w, h),
        (w * h) / 2 == (h / 2) * w,
{
    vstd::arithmetic::div_mod::lemma_fundamental_div_mod(h, 2);
    assert(h * w == w * h && (h / 2) * w * 2 == h * w) by (nonlinear_arith)
        requires
            h == 2 * (h / 2),
    ;
    vstd::arithmetic::div_mod::lemma_div_multiples_vanish((h / 2) * w, 2);
}

/// A frame's rows fit the buffer the conversion reads.
proof fn lemma_pitch_bounds(len: int, w: int, h: int, pitch: int)
    requires
        len >= h * pitch,
        pitch >= 4 * w,
        w >= 0,
        h >= 0,
    ensures
        h * pitch >= 0,
{
    assert(h * pitch >= 0) by (nonlinear_arith)
        requires
            h >= 0 && pitch >= 4 * w && w >= 0,
    ;
}

} // verus!
