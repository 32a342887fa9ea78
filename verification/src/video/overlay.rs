//! A line of status text drawn into an RGBA buffer with the character
//! generator's glyphs, cyan on black.

use vstd::prelude::*;
use vstd::string::StrSliceExecFns;
use super::layout::{char_rom, char_rom_row};
use super::mono::{bit8, lemma_bit_test, lemma_cell_pos};

verus! {

/// Glyph shown for byte `a`: the character generator holds `@A..Z[\]^_`
/// at 0 to 31 and ` !"#..0-9:;<=>?` at 32 to 63, so $20-$3F map to 32-63
/// and $40-$5F to 0-31; anything else shows `@`.
pub open spec fn status_glyph(a: u8) -> u8 {
    if 0x20 <= a < 0x40 {
        a
    } else if 0x40 <= a < 0x60 {
        (a - 0x40) as u8
    } else {
        0
    }
}

/// The byte a character is drawn as: its code point, truncated.
pub open spec fn char_byte(c: char) -> u8 {
    (c as u32 % 256) as u8
}

/// Cyan foreground and black background, opaque.
pub open spec fn status_color(on: bool) -> Seq<u8> {
    if on { seq![0x00u8, 0xFFu8, 0xFFu8, 0xFFu8] } else { seq![0x00u8, 0x00u8, 0x00u8, 0xFFu8] }
}

/// Whether dot `dx` (0 leftmost) of row `line` of the cell drawn for `c`
/// is lit.
pub open spec fn status_dot(c: char, line: int, dx: int) -> bool {
    bit8(char_rom(status_glyph(char_byte(c)), line), (6 - dx) as u8)
}

/// Characters drawn: the first 40.
pub open spec fn status_len(text: Seq<char>) -> int {
    if text.len() < 40 { text.len() as int } else { 40 }
}

/// Byte `k` of pixel (`x`, `y`) in a buffer `stride` pixels wide.
pub open spec fn px_byte(buf: Seq<u8>, stride: int, x: int, y: int, k: int) -> u8 {
    buf[(y * stride + x) * 4 + k]
}

/// Whether pixel (`x`, `y`) lies in the bar of `n` cells at `y_offset`.
pub open spec fn in_bar(x: int, y: int, y_offset: int, n: int) -> bool {
    0 <= x < 7 * n && y_offset <= y < y_offset + 8
}

/// Pixels painted once the cells before `col`, the rows of cell `col`
/// before `line`, and the last `bit` dots of row `line` are done.
pub open spec fn bar_done(x: int, y: int, y_offset: int, col: int, line: int, bit: int) -> bool {
    ||| in_bar(x, y, y_offset, col)
    ||| (col * 7 <= x < col * 7 + 7 && y_offset <= y < y_offset + line)
    ||| (y == y_offset + line && col * 7 + 7 - bit <= x < col * 7 + 7)
}

/// Color byte `k` of bar pixel (`x`, `y`).
pub open spec fn bar_byte(text: Seq<char>, y_offset: int, x: int, y: int, k: int) -> u8 {
    status_color(status_dot(text[x / 7], y - y_offset, x % 7))[k]
}

fn status_pixel_color(on: bool) -> (c: [u8; 4])
    ensures
        c@ == status_color(on),
{
    let c: [u8; 4] = if on { [0x00, 0xFF, 0xFF, 0xFF] } else { [0x00, 0x00, 0x00, 0xFF] };
    assert(c@ =~= status_color(on));
    c
}

/// Byte offsets of a pixel in a buffer `stride` pixels wide.
proof fn lemma_pixel_offset(x: int, y: int, k: int, stride: int)
    requires
        0 <= x < stride,
        0 <= y,
        0 <= k < 4,
    ensures
        ((y * stride + x) * 4 + k) / 4 == y * stride + x,
        ((y * stride + x) * 4 + k) % 4 == k,
        (y * stride + x) / stride == y,
        (y * stride + x) % stride == x,
{
    lemma_cell_pos((y * stride + x) * 4 + k, y * stride + x, 4);
    vstd::arithmetic::div_mod::lemma_fundamental_div_mod_converse(y * stride + x, stride, y, x);
}

/// Distinct pixels, or channels, have distinct byte offsets.
proof fn lemma_pixel_offset_unique(x: int, y: int, k: int, x2: int, y2: int, k2: int, stride: int)
    requires
        0 <= x < stride,
        0 <= x2 < stride,
        0 <= y,
        0 <= y2,
        0 <= k < 4,
        0 <= k2 < 4,
        (y * stride + x) * 4 + k == (y2 * stride + x2) * 4 + k2,
    ensures
        x == x2 && y == y2 && k == k2,
{
    lemma_pixel_offset(x, y, k, stride);
    lemma_pixel_offset(x2, y2, k2, stride);
}

/// `buf` with the four bytes at `idx` set to `color`, when they lie inside
/// it.
pub open spec fn paint4(buf: Seq<u8>, idx: int, color: Seq<u8>) -> Seq<u8> {
    Seq::new(buf.len(), |j: int| if idx <= j < idx + 4 && idx + 4 <= buf.len() { color[j - idx] } else { buf[j] })
}

/// Byte offset of the `k`-th pixel write of the status line: writes go
/// cell by cell, row by row within a cell, and from dot 6 down to dot 0
/// within a row (dot 0 being the leftmost pixel).
pub open spec fn status_write_index(stride: int, y_offset: int, k: int) -> int {
    ((y_offset + (k % 56) / 7) * stride + (k / 56) * 7 + 6 - k % 7) * 4
}

/// The buffer once the first `k` pixel writes of the status line were
/// made, each painting the dot's color over whatever was there; a write
/// whose bytes fall outside the buffer is skipped.
pub open spec fn status_painted(buf: Seq<u8>, text: Seq<char>, stride: int, y_offset: int, k: nat) -> Seq<u8>
    decreases k,
{
    if k == 0 {
        buf
    } else {
        let i = k - 1;
        paint4(
            status_painted(buf, text, stride, y_offset, (k - 1) as nat),
            status_write_index(stride, y_offset, i),
            status_color(bit8(char_rom(status_glyph(char_byte(text[i / 56])), (i % 56) / 7), (i % 7) as u8)),
        )
    }
}

/// Coordinates of write `56 * col + 7 * line + bit`.
proof fn lemma_write_coords(col: int, line: int, bit: int)
    requires
        0 <= col,
        0 <= line < 8,
        0 <= bit < 7,
    ensures
        (56 * col + 7 * line + bit) / 56 == col,
        ((56 * col + 7 * line + bit) % 56) / 7 == line,
        (56 * col + 7 * line + bit) % 7 == bit,
{
    vstd::arithmetic::div_mod::lemma_fundamental_div_mod_converse(56 * col + 7 * line + bit, 56, col, 7 * line + bit);
    vstd::arithmetic::div_mod::lemma_fundamental_div_mod_converse(7 * line + bit, 7, line, bit);
    vstd::arithmetic::div_mod::lemma_fundamental_div_mod_converse(56 * col + 7 * line + bit, 7, 8 * col + line, bit);
}

/// Paint the four bytes at `idx` when they lie inside the buffer.
fn put_status_pixel(rgba: &mut [u8], idx: usize, color: [u8; 4])
    requires
        idx + 4 <= usize::MAX,
    ensures
        final(rgba)@.len() == old(rgba)@.len(),
        forall|j: int|
            0 <= j < final(rgba)@.len() ==> #[trigger] final(rgba)@[j] == (if idx <= j < idx + 4 && idx + 4
                <= old(rgba)@.len() {
                color@[j - idx]
            } else {
                old(rgba)@[j]
            }),
{
    if idx + 4 <= rgba.len() {
        rgba[idx] = color[0];
        rgba[idx + 1] = color[1];
        rgba[idx + 2] = color[2];
        rgba[idx + 3] = color[3];
    }
}

/// Render a status line into an RGBA buffer `stride` pixels wide, from
/// pixel row `y_offset` down over eight rows: each of the first 40
/// characters becomes a 7×8 cell, lit dots cyan, the others black. Pixels
/// whose bytes fall outside the buffer are skipped.
pub fn render_status_bar(text: &str, rgba: &mut [u8], stride: usize, y_offset: usize)
    requires
        y_offset + 8 <= usize::MAX,
        ((y_offset + 8) * stride + 280) * 4 <= usize::MAX,
    ensures
        final(rgba)@.len() == old(rgba)@.len(),
        final(rgba)@ == status_painted(old(rgba)@, text@, stride as int, y_offset as int, (56 * status_len(text@)) as nat),
        stride >= 7 * status_len(text@) ==> {
            &&& forall|x: int, y: int, k: int|
                in_bar(x, y, y_offset as int, status_len(text@)) && 0 <= k < 4 && (y * stride + x) * 4 + 4
                    <= old(rgba)@.len() ==> #[trigger] px_byte(final(rgba)@, stride as int, x, y, k)
                    == bar_byte(text@, y_offset as int, x, y, k)
            &&& forall|j: int|
                0 <= j < final(rgba)@.len() && !in_bar(
                    j / 4 % (stride as int),
                    j / 4 / (stride as int),
                    y_offset as int,
                    status_len(text@),
                ) ==> #[trigger] final(rgba)@[j] == old(rgba)@[j]
        },
{
    let len = text.unicode_len();
    let n: usize = if len < 40 { len } else { 40 };
    let ghost fits = stride >= 7 * n;
    let mut col: usize = 0;
    while col < n
        invariant
            n == status_len(text@),
            fits == (stride >= 7 * n),
            col <= n <= 40,
            y_offset + 8 <= usize::MAX,
            ((y_offset + 8) * stride + 280) * 4 <= usize::MAX,
            rgba@.len() == old(rgba)@.len(),
            rgba@ == status_painted(old(rgba)@, text@, stride as int, y_offset as int, (56 * col) as nat),
            fits ==> forall|x: int, y: int, k: int|
                bar_done(x, y, y_offset as int, col as int, 0, 0) && 0 <= k < 4 && (y * stride + x) * 4 + 4
                    <= old(rgba)@.len() ==> #[trigger] px_byte(rgba@, stride as int, x, y, k) == bar_byte(
                    text@,
                    y_offset as int,
                    x,
                    y,
                    k,
                ),
            fits ==> forall|j: int|
                0 <= j < rgba@.len() && !bar_done(
                    j / 4 % (stride as int),
                    j / 4 / (stride as int),
                    y_offset as int,
                    col as int,
                    0,
                    0,
                ) ==> #[trigger] rgba@[j] == old(rgba)@[j],
        decreases n - col,
    {
        let ch = text.get_char(col);
        let ascii = (ch as u32 % 256) as u8;
        let char_index: u8 = if 0x20 <= ascii && ascii < 0x40 {
            ascii
        } else if 0x40 <= ascii && ascii < 0x60 {
            ascii - 0x40
        } else {
            0
        };
        let mut line: usize = 0;
        while line < 8
            invariant
                n == status_len(text@),
                fits == (stride >= 7 * n),
                col < n <= 40,
                line <= 8,
                ch == text@[col as int],
                char_index == status_glyph(char_byte(ch)),
                y_offset + 8 <= usize::MAX,
            ((y_offset + 8) * stride + 280) * 4 <= usize::MAX,
                rgba@.len() == old(rgba)@.len(),
                rgba@ == status_painted(old(rgba)@, text@, stride as int, y_offset as int, (56 * col + 7 * line) as nat),
                fits ==> forall|x: int, y: int, k: int|
                    bar_done(x, y, y_offset as int, col as int, line as int, 0) && 0 <= k < 4 && (y * stride + x)
                        * 4 + 4 <= old(rgba)@.len() ==> #[trigger] px_byte(rgba@, stride as int, x, y, k)
                        == bar_byte(text@, y_offset as int, x, y, k),
                fits ==> forall|j: int|
                    0 <= j < rgba@.len() && !bar_done(
                        j / 4 % (stride as int),
                        j / 4 / (stride as int),
                        y_offset as int,
                        col as int,
                        line as int,
                        0,
                    ) ==> #[trigger] rgba@[j] == old(rgba)@[j],
            decreases 8 - line,
        {
            let pixels = char_rom_row(char_index, line);
            let py = y_offset + line;
            let px = col * 7;
            let mut bit: usize = 0;
            while bit < 7
                invariant
                    n == status_len(text@),
                    fits == (stride >= 7 * n),
                    col < n <= 40,
                    line < 8,
                    bit <= 7,
                    py == y_offset + line,
                    px == col * 7,
                    ch == text@[col as int],
                    pixels == char_rom(status_glyph(char_byte(ch)), line as int),
                    y_offset + 8 <= usize::MAX,
            ((y_offset + 8) * stride + 280) * 4 <= usize::MAX,
                    rgba@.len() == old(rgba)@.len(),
                    rgba@ == status_painted(old(rgba)@, text@, stride as int, y_offset as int, (56 * col + 7 * line + bit) as nat),
                    fits ==> forall|x: int, y: int, k: int|
                        bar_done(x, y, y_offset as int, col as int, line as int, bit as int) && 0 <= k < 4 && (y
                            * stride + x) * 4 + 4 <= old(rgba)@.len() ==> #[trigger] px_byte(
                            rgba@,
                            stride as int,
                            x,
                            y,
                            k,
                        ) == bar_byte(text@, y_offset as int, x, y, k),
                    fits ==> forall|j: int|
                        0 <= j < rgba@.len() && !bar_done(
                            j / 4 % (stride as int),
                            j / 4 / (stride as int),
                            y_offset as int,
                            col as int,
                            line as int,
                            bit as int,
                        ) ==> #[trigger] rgba@[j] == old(rgba)@[j],
                decreases 7 - bit,
            {
                proof {
                    lemma_bit_test(pixels, bit as u8);
                    vstd::arithmetic::mul::lemma_mul_inequality(py as int, (y_offset + 8) as int, stride as int);
                }
                let on = pixels & (1u8 << (bit as u8)) != 0;
                let color = status_pixel_color(on);
                let x = px + (6 - bit);
                let idx = (py * stride + x) * 4;
                let ghost before = rgba@;
                put_status_pixel(rgba, idx, color);
                proof {
                    let kk = 56 * col + 7 * line + bit;
                    lemma_write_coords(col as int, line as int, bit as int);
                    assert(idx == status_write_index(stride as int, y_offset as int, kk));
                    assert(rgba@ =~= status_painted(old(rgba)@, text@, stride as int, y_offset as int, (kk + 1) as nat));
                    if fits {
                        assert forall|x2: int, y2: int, k: int|
                            bar_done(x2, y2, y_offset as int, col as int, line as int, bit + 1) && 0 <= k < 4 && (
                            y2 * stride + x2) * 4 + 4 <= old(rgba)@.len() implies #[trigger] px_byte(
                            rgba@,
                            stride as int,
                            x2,
                            y2,
                            k,
                        ) == bar_byte(text@, y_offset as int, x2, y2, k) by {
                            lemma_cell_pos(x2, x2 / 7, 7);
                            if x2 == x && y2 == py {
                                lemma_cell_pos(x as int, col as int, 7);
                            } else {
                                let j2 = (y2 * stride + x2) * 4 + k;
                                if idx <= j2 < idx + 4 {
                                    lemma_pixel_offset_unique(
                                        x as int,
                                        py as int,
                                        j2 - idx,
                                        x2,
                                        y2,
                                        k,
                                        stride as int,
                                    );
                                }
                                assert(px_byte(before, stride as int, x2, y2, k) == bar_byte(
                                    text@,
                                    y_offset as int,
                                    x2,
                                    y2,
                                    k,
                                ));
                            }
                        }
                        assert forall|j: int|
                            0 <= j < rgba@.len() && !bar_done(
                                j / 4 % (stride as int),
                                j / 4 / (stride as int),
                                y_offset as int,
                                col as int,
                                line as int,
                                bit + 1,
                            ) implies #[trigger] rgba@[j] == old(rgba)@[j] by {
                            if idx <= j < idx + 4 {
                                lemma_pixel_offset(x as int, py as int, j - idx, stride as int);
                            }
                            assert(before[j] == old(rgba)@[j]);
                        }
                    }
                }
                bit = bit + 1;
            }
            line = line + 1;
        }
        col = col + 1;
    }
}

} // verus!
