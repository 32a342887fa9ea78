//! The monochrome bitmap as Unicode braille: each character shows a 2×4
//! block of pixels, so the 280×192 screen becomes 48 lines of 140
//! characters.

use vstd::prelude::*;
use crate::chars::{push_char, char_from_u32};
use super::{BITMAP_SIZE, BITMAP_STRIDE};
use super::mono::{bit8, bitmap_bit};

verus! {

/// 1 for a lit pixel, else 0.
pub open spec fn dot(bm: Seq<u8>, x: int, y: int) -> int {
    if bitmap_bit(bm, x, y) { 1 } else { 0 }
}

/// Braille dot pattern of the 2×4 block at (`px`, `py`): dots 1-2-3 and 7
/// down the left column (bits 0, 1, 2, 6), dots 4-5-6 and 8 down the
/// right (bits 3, 4, 5, 7).
pub open spec fn braille_bits(bm: Seq<u8>, px: int, py: int) -> int {
    dot(bm, px, py) + 2 * dot(bm, px, py + 1) + 4 * dot(bm, px, py + 2)
        + 8 * dot(bm, px + 1, py) + 16 * dot(bm, px + 1, py + 1) + 32 * dot(bm, px + 1, py + 2)
        + 64 * dot(bm, px, py + 3) + 128 * dot(bm, px + 1, py + 3)
}

/// Braille character of block column `bcol`, block row `brow`.
pub open spec fn braille_cell(bm: Seq<u8>, bcol: int, brow: int) -> int {
    0x2800 + braille_bits(bm, bcol * 2, brow * 4)
}

/// Pixel (`x`, `y`) as 0 or 1.
fn pixel_at(bitmap: &[u8; BITMAP_SIZE], x: usize, y: usize) -> (p: u8)
    requires
        x < 280,
        y < 192,
    ensures
        p == dot(bitmap@, x as int, y as int),
{
    let byte_idx = y * BITMAP_STRIDE + x / 8;
    let bit_idx: u8 = (7 - x % 8) as u8;
    let v = bitmap[byte_idx];
    let p = (v >> bit_idx) & 1;
    assert(p <= 1 && (p == 1 <==> bit8(v, bit_idx))) by (bit_vector)
        requires
            p == (v >> bit_idx) & 1u8,
    ;
    p
}

/// Dot pattern of the 2×4 block at (`px`, `py`).
fn block_bits(bitmap: &[u8; BITMAP_SIZE], px: usize, py: usize) -> (bits: u8)
    requires
        px + 2 <= 280,
        py + 4 <= 192,
    ensures
        bits == braille_bits(bitmap@, px as int, py as int),
{
    let a = pixel_at(bitmap, px, py);
    let b = pixel_at(bitmap, px, py + 1);
    let c = pixel_at(bitmap, px, py + 2);
    let d = pixel_at(bitmap, px + 1, py);
    let e = pixel_at(bitmap, px + 1, py + 1);
    let f = pixel_at(bitmap, px + 1, py + 2);
    let g = pixel_at(bitmap, px, py + 3);
    let h = pixel_at(bitmap, px + 1, py + 3);
    let bits = a | (b << 1u8) | (c << 2u8) | (d << 3u8) | (e << 4u8) | (f << 5u8) | (g << 6u8) | (h << 7u8);
    assert(bits == a + 2 * b + 4 * c + 8 * d + 16 * e + 32 * f + 64 * g + 128 * h) by (bit_vector)
        requires
            a <= 1, b <= 1, c <= 1, d <= 1, e <= 1, f <= 1, g <= 1, h <= 1,
            bits == a | (b << 1u8) | (c << 2u8) | (d << 3u8) | (e << 4u8) | (f << 5u8) | (g << 6u8) | (h << 7u8),
    ;
    bits
}

/// Convert the 280×192 bitmap into 48 lines of 140 braille characters.
pub fn bitmap_to_braille(bitmap: &[u8; BITMAP_SIZE]) -> (lines: Vec<String>)
    ensures
        lines@.len() == 48,
        forall|r: int| 0 <= r < 48 ==> (#[trigger] lines@[r])@.len() == 140,
        forall|r: int, c: int|
            0 <= r < 48 && 0 <= c < 140 ==> #[trigger] lines@[r]@[c] as u32 == braille_cell(bitmap@, c, r),
{
    let cols: usize = 140;
    let rows: usize = 48;
    let mut lines: Vec<String> = Vec::new();
    let mut brow: usize = 0;
    while brow < rows
        invariant
            rows == 48,
            cols == 140,
            brow <= rows,
            lines@.len() == brow,
            forall|r: int| 0 <= r < brow ==> (#[trigger] lines@[r])@.len() == 140,
            forall|r: int, c: int|
                0 <= r < brow && 0 <= c < 140 ==> #[trigger] lines@[r]@[c] as u32 == braille_cell(bitmap@, c, r),
        decreases rows - brow,
    {
        let mut line = String::new();
        let mut bcol: usize = 0;
        while bcol < cols
            invariant
                rows == 48,
                cols == 140,
                brow < rows,
                bcol <= cols,
                line@.len() == bcol,
                forall|c: int| 0 <= c < bcol ==> #[trigger] line@[c] as u32 == braille_cell(bitmap@, c, brow as int),
            decreases cols - bcol,
        {
            let bits = block_bits(bitmap, bcol * 2, brow * 4);
            let code: u32 = 0x2800 + bits as u32;
            match char_from_u32(code) {
                Some(ch) => {
                    push_char(&mut line, ch);
                    assert(line@[bcol as int] as u32 == braille_cell(bitmap@, bcol as int, brow as int));
                },
                None => {},
            }
            bcol = bcol + 1;
        }
        lines.push(line);
        brow = brow + 1;
    }
    lines
}

} // verus!
