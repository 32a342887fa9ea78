//! Monochrome rendering into a 280×192 bitmap of 6720 bytes, one bit per
//! pixel, 35 bytes per row, the most significant bit leftmost.

use vstd::prelude::*;
use super::{BITMAP_SIZE, BITMAP_STRIDE, DisplayMode, ScreenArea, area_of, page_offset, hires_base, ram_needed};
use super::layout::{char_rom, char_rom_row, text_line_addr, text_line_addr_spec, hgr_line_addr, hgr_line_addr_spec};

verus! {

/// Bit `b` of `v`, bit 0 the least significant.
pub open spec fn bit8(v: u8, b: u8) -> bool {
    (v >> b) & 1u8 == 1u8
}

/// Whether (`x`, `y`) lies on the 280×192 screen.
pub open spec fn on_screen(x: int, y: int) -> bool {
    0 <= x < 280 && 0 <= y < 192
}

/// Whether pixel (`x`, `y`) is lit in bitmap `bm`.
pub open spec fn bitmap_bit(bm: Seq<u8>, x: int, y: int) -> bool {
    bit8(bm[y * 35 + x / 8], (7 - x % 8) as u8)
}

/// Screen codes $00-$3F show inverse; $40-$7F flash, inverse while
/// `flash_on`; $80-$FF are normal.
pub open spec fn is_inverse(code: u8, flash_on: bool) -> bool {
    code < 0x40 || (code < 0x80 && flash_on)
}

/// Dots of row `line` of the character cell showing `code`: the glyph of
/// its low six bits, inverted in bits 0 to 6 for inverse video.
pub open spec fn glyph_row_bits(code: u8, flash_on: bool, line: int) -> u8 {
    let g = char_rom((code % 64) as u8, line);
    if is_inverse(code, flash_on) { g ^ 0x7Fu8 } else { g }
}

/// Whether dot `dx` (0 leftmost to 6) of row `line` of the cell is lit.
pub open spec fn glyph_dot(code: u8, flash_on: bool, dx: int, line: int) -> bool {
    bit8(glyph_row_bits(code, flash_on, line), (6 - dx) as u8)
}

/// Text pixel (`x`, `y`) of the text page at offset `page`.
pub open spec fn text_pixel(ram: Seq<u8>, page: int, flash_on: bool, x: int, y: int) -> bool {
    glyph_dot(ram[text_line_addr_spec(y / 8) + page + x / 7], flash_on, x % 7, y % 8)
}

/// Lo-res pixel (`x`, `y`): each byte is two 7×4 blocks, the low nibble
/// on top; any color but 0 (black) is lit.
pub open spec fn lores_pixel(ram: Seq<u8>, page: int, x: int, y: int) -> bool {
    let b = ram[text_line_addr_spec(y / 8) + page + x / 7];
    if y % 8 < 4 { b % 16 != 0 } else { b / 16 != 0 }
}

/// Hi-res pixel (`x`, `y`) of the page at `base`: bits 0 to 6 of each
/// byte are seven pixels, bit 0 leftmost; bit 7 (palette) is not shown.
pub open spec fn hires_pixel(ram: Seq<u8>, base: int, x: int, y: int) -> bool {
    bit8(ram[hgr_line_addr_spec(base, y) + x / 7], (x % 7) as u8)
}

/// Monochrome pixel (`x`, `y`) of the whole display in `mode`.
pub open spec fn mono_pixel(ram: Seq<u8>, mode: DisplayMode, flash_on: bool, x: int, y: int) -> bool {
    match area_of(mode, y) {
        ScreenArea::Text => text_pixel(ram, page_offset(mode), flash_on, x, y),
        ScreenArea::Hires => hires_pixel(ram, hires_base(mode), x, y),
        ScreenArea::Lores => lores_pixel(ram, page_offset(mode), x, y),
    }
}

/// Setting bit `k` of a byte sets bit `k` and keeps the others.
pub proof fn lemma_bit_or(b: u8, k: u8, j: u8)
    requires
        k < 8,
        j < 8,
    ensures
        bit8(b | (1u8 << k), j) == (j == k || bit8(b, j)),
{
    assert(((b | (1u8 << k)) >> j) & 1u8 == 1u8 <==> (j == k || (b >> j) & 1u8 == 1u8)) by (bit_vector)
        requires
            k < 8,
            j < 8,
    ;
}

/// Masking with a single bit tests that bit.
pub proof fn lemma_bit_test(v: u8, b: u8)
    requires
        b < 8,
    ensures
        ((v & (1u8 << b)) != 0u8) == bit8(v, b),
{
    assert(((v & (1u8 << b)) != 0u8) == ((v >> b) & 1u8 == 1u8)) by (bit_vector)
        requires
            b < 8,
    ;
}

/// A zero byte has no bit set.
pub proof fn lemma_zero_byte(j: u8)
    ensures
        !bit8(0u8, j),
{
    assert((0u8 >> j) & 1u8 != 1u8) by (bit_vector);
}

/// A position inside cell `c` of width `w` has quotient `c` and the offset
/// into the cell as remainder.
pub proof fn lemma_cell_pos(x: int, c: int, w: int)
    requires
        w > 0,
        c * w <= x < c * w + w,
    ensures
        x / w == c,
        x % w == x - c * w,
{
    vstd::arithmetic::div_mod::lemma_fundamental_div_mod_converse(x, w, c, x - c * w);
}

/// Light pixel (`x`, `y`).
fn set_pixel(bitmap: &mut [u8; BITMAP_SIZE], x: usize, y: usize)
    requires
        x < 280,
        y < 192,
    ensures
        forall|x2: int, y2: int|
            on_screen(x2, y2) ==> #[trigger] bitmap_bit(final(bitmap)@, x2, y2) == (bitmap_bit(
                old(bitmap)@,
                x2,
                y2,
            ) || (x2 == x && y2 == y)),
{
    let byte_idx = y * BITMAP_STRIDE + x / 8;
    let bit_idx: u8 = (7 - x % 8) as u8;
    let b = bitmap[byte_idx];
    bitmap[byte_idx] = b | (1u8 << bit_idx);
    proof {
        assert forall|x2: int, y2: int| on_screen(x2, y2) implies #[trigger] bitmap_bit(bitmap@, x2, y2) == (
        bitmap_bit(old(bitmap)@, x2, y2) || (x2 == x && y2 == y)) by {
            let i2 = y2 * 35 + x2 / 8;
            let j = (7 - x2 % 8) as u8;
            if i2 == byte_idx {
                assert(y2 == y && x2 / 8 == x / 8);
                lemma_bit_or(b, bit_idx, j);
            }
        }
    }
}

/// Light the dots of `pixels` (bit 6 leftmost) at (`px`..`px + 7`, `py`).
fn plot_glyph_row(bitmap: &mut [u8; BITMAP_SIZE], pixels: u8, px: usize, py: usize)
    requires
        px + 7 <= 280,
        py < 192,
    ensures
        forall|x2: int, y2: int|
            on_screen(x2, y2) ==> #[trigger] bitmap_bit(final(bitmap)@, x2, y2) == (bitmap_bit(
                old(bitmap)@,
                x2,
                y2,
            ) || (y2 == py && px <= x2 < px + 7 && bit8(pixels, (6 - (x2 - px)) as u8))),
{
    let mut bit: usize = 0;
    while bit < 7
        invariant
            bit <= 7,
            px + 7 <= 280,
            py < 192,
            forall|x2: int, y2: int|
                on_screen(x2, y2) ==> #[trigger] bitmap_bit(bitmap@, x2, y2) == (bitmap_bit(
                    old(bitmap)@,
                    x2,
                    y2,
                ) || (y2 == py && px + 7 - bit <= x2 < px + 7 && bit8(pixels, (6 - (x2 - px)) as u8))),
        decreases 7 - bit,
    {
        proof {
            lemma_bit_test(pixels, bit as u8);
        }
        if pixels & (1u8 << (bit as u8)) != 0 {
            set_pixel(bitmap, px + (6 - bit), py);
        }
        bit = bit + 1;
    }
}

/// Light the pixels of hi-res byte `byte` (bit 0 leftmost) at
/// (`px`..`px + 7`, `py`).
fn plot_hires_byte(bitmap: &mut [u8; BITMAP_SIZE], byte: u8, px: usize, py: usize)
    requires
        px + 7 <= 280,
        py < 192,
    ensures
        forall|x2: int, y2: int|
            on_screen(x2, y2) ==> #[trigger] bitmap_bit(final(bitmap)@, x2, y2) == (bitmap_bit(
                old(bitmap)@,
                x2,
                y2,
            ) || (y2 == py && px <= x2 < px + 7 && bit8(byte, (x2 - px) as u8))),
{
    let mut bit: usize = 0;
    while bit < 7
        invariant
            bit <= 7,
            px + 7 <= 280,
            py < 192,
            forall|x2: int, y2: int|
                on_screen(x2, y2) ==> #[trigger] bitmap_bit(bitmap@, x2, y2) == (bitmap_bit(
                    old(bitmap)@,
                    x2,
                    y2,
                ) || (y2 == py && px <= x2 < px + bit && bit8(byte, (x2 - px) as u8))),
        decreases 7 - bit,
    {
        proof {
            lemma_bit_test(byte, bit as u8);
        }
        if byte & (1u8 << (bit as u8)) != 0 {
            set_pixel(bitmap, px + bit, py);
        }
        bit = bit + 1;
    }
}

/// Fill a solid rectangle.
fn fill_rect(bitmap: &mut [u8; BITMAP_SIZE], x: usize, y: usize, w: usize, h: usize)
    requires
        x + w <= 280,
        y + h <= 192,
    ensures
        forall|x2: int, y2: int|
            on_screen(x2, y2) ==> #[trigger] bitmap_bit(final(bitmap)@, x2, y2) == (bitmap_bit(
                old(bitmap)@,
                x2,
                y2,
            ) || (x <= x2 < x + w && y <= y2 < y + h)),
{
    let mut dy: usize = 0;
    while dy < h
        invariant
            dy <= h,
            x + w <= 280,
            y + h <= 192,
            forall|x2: int, y2: int|
                on_screen(x2, y2) ==> #[trigger] bitmap_bit(bitmap@, x2, y2) == (bitmap_bit(
                    old(bitmap)@,
                    x2,
                    y2,
                ) || (x <= x2 < x + w && y <= y2 < y + dy)),
        decreases h - dy,
    {
        let mut dx: usize = 0;
        while dx < w
            invariant
                dx <= w,
                dy < h,
                x + w <= 280,
                y + h <= 192,
                forall|x2: int, y2: int|
                    on_screen(x2, y2) ==> #[trigger] bitmap_bit(bitmap@, x2, y2) == (bitmap_bit(
                        old(bitmap)@,
                        x2,
                        y2,
                    ) || (x <= x2 < x + w && y <= y2 < y + dy) || (x <= x2 < x + dx && y2 == y + dy)),
            decreases w - dx,
        {
            set_pixel(bitmap, x + dx, y + dy);
            dx = dx + 1;
        }
        dy = dy + 1;
    }
}

/// Draw the character cell at text `row`, `col` showing screen code `code`.
fn render_text_cell(bitmap: &mut [u8; BITMAP_SIZE], code: u8, flash_on: bool, col: usize, row: usize)
    requires
        col < 40,
        row < 24,
    ensures
        forall|x2: int, y2: int|
            on_screen(x2, y2) ==> #[trigger] bitmap_bit(final(bitmap)@, x2, y2) == (bitmap_bit(
                old(bitmap)@,
                x2,
                y2,
            ) || (col * 7 <= x2 < col * 7 + 7 && row * 8 <= y2 < row * 8 + 8 && glyph_dot(
                code,
                flash_on,
                x2 - col * 7,
                y2 - row * 8,
            ))),
{
    // The character generator is in hardware order: the low six bits
    // select the glyph directly.
    let char_index = code % 64;
    let is_inv = code < 0x40 || (code < 0x80 && flash_on);
    let mut line: usize = 0;
    while line < 8
        invariant
            line <= 8,
            col < 40,
            row < 24,
            char_index == code % 64,
            is_inv == is_inverse(code, flash_on),
            forall|x2: int, y2: int|
                on_screen(x2, y2) ==> #[trigger] bitmap_bit(bitmap@, x2, y2) == (bitmap_bit(
                    old(bitmap)@,
                    x2,
                    y2,
                ) || (col * 7 <= x2 < col * 7 + 7 && row * 8 <= y2 < row * 8 + line && glyph_dot(
                    code,
                    flash_on,
                    x2 - col * 7,
                    y2 - row * 8,
                ))),
        decreases 8 - line,
    {
        let mut pixels = char_rom_row(char_index, line);
        if is_inv {
            pixels = pixels ^ 0x7F;
        }
        assert(pixels == glyph_row_bits(code, flash_on, line as int));
        plot_glyph_row(bitmap, pixels, col * 7, row * 8 + line);
        line = line + 1;
    }
}

/// Render text rows `start_row..end_row` of the page at `page_offset`.
fn render_text_rows(
    ram: &[u8],
    bitmap: &mut [u8; BITMAP_SIZE],
    flash_on: bool,
    page_offset: usize,
    start_row: usize,
    end_row: usize,
)
    requires
        start_row <= end_row <= 24,
        page_offset + 0x07F8 <= ram@.len(),
    ensures
        forall|x2: int, y2: int|
            on_screen(x2, y2) ==> #[trigger] bitmap_bit(final(bitmap)@, x2, y2) == (bitmap_bit(
                old(bitmap)@,
                x2,
                y2,
            ) || (start_row * 8 <= y2 < end_row * 8 && text_pixel(ram@, page_offset as int, flash_on, x2, y2))),
{
    let ram_len = ram.len();
    let mut row = start_row;
    while row < end_row
        invariant
            start_row <= row <= end_row <= 24,
            ram_len == ram@.len(),
            page_offset + 0x07F8 <= ram@.len(),
            forall|x2: int, y2: int|
                on_screen(x2, y2) ==> #[trigger] bitmap_bit(bitmap@, x2, y2) == (bitmap_bit(
                    old(bitmap)@,
                    x2,
                    y2,
                ) || (start_row * 8 <= y2 < row * 8 && text_pixel(ram@, page_offset as int, flash_on, x2, y2))),
        decreases end_row - row,
    {
        let base = text_line_addr(row) as usize + page_offset;
        let mut col: usize = 0;
        while col < 40
            invariant
                col <= 40,
                start_row <= row < end_row <= 24,
                page_offset + 0x07F8 <= ram@.len(),
                base == text_line_addr_spec(row as int) + page_offset,
                base + 40 <= ram@.len(),
                ram_len == ram@.len(),
                forall|x2: int, y2: int|
                    on_screen(x2, y2) ==> #[trigger] bitmap_bit(bitmap@, x2, y2) == (bitmap_bit(
                        old(bitmap)@,
                        x2,
                        y2,
                    ) || (start_row * 8 <= y2 < row * 8 && text_pixel(ram@, page_offset as int, flash_on, x2, y2))
                        || (row * 8 <= y2 < row * 8 + 8 && x2 < col * 7 && text_pixel(
                        ram@,
                        page_offset as int,
                        flash_on,
                        x2,
                        y2,
                    ))),
            decreases 40 - col,
        {
            let screen_code = ram[base + col];
            let ghost before = bitmap@;
            render_text_cell(bitmap, screen_code, flash_on, col, row);
            proof {
                assert forall|x2: int, y2: int| on_screen(x2, y2) implies #[trigger] bitmap_bit(bitmap@, x2, y2) == (
                bitmap_bit(old(bitmap)@, x2, y2) || (start_row * 8 <= y2 < row * 8 && text_pixel(
                    ram@,
                    page_offset as int,
                    flash_on,
                    x2,
                    y2,
                )) || (row * 8 <= y2 < row * 8 + 8 && x2 < (col + 1) * 7 && text_pixel(
                    ram@,
                    page_offset as int,
                    flash_on,
                    x2,
                    y2,
                ))) by {
                    assert(bitmap_bit(before, x2, y2) == (bitmap_bit(old(bitmap)@, x2, y2) || (start_row * 8
                        <= y2 < row * 8 && text_pixel(ram@, page_offset as int, flash_on, x2, y2)) || (row * 8
                        <= y2 < row * 8 + 8 && x2 < col * 7 && text_pixel(
                        ram@,
                        page_offset as int,
                        flash_on,
                        x2,
                        y2,
                    ))));
                    if col * 7 <= x2 < col * 7 + 7 && row * 8 <= y2 < row * 8 + 8 {
                        lemma_cell_pos(x2, col as int, 7);
                        lemma_cell_pos(y2, row as int, 8);
                    }
                }
            }
            col = col + 1;
        }
        row = row + 1;
    }
}

/// Draw the lo-res cell at text `row`, `col` from byte `byte`: low nibble
/// the upper 7×4 block, high nibble the lower one.
fn render_lores_cell(bitmap: &mut [u8; BITMAP_SIZE], byte: u8, col: usize, row: usize)
    requires
        col < 40,
        row < 24,
    ensures
        forall|x2: int, y2: int|
            on_screen(x2, y2) ==> #[trigger] bitmap_bit(final(bitmap)@, x2, y2) == (bitmap_bit(
                old(bitmap)@,
                x2,
                y2,
            ) || (col * 7 <= x2 < col * 7 + 7 && ((row * 8 <= y2 < row * 8 + 4 && byte % 16 != 0) || (row * 8
                + 4 <= y2 < row * 8 + 8 && byte / 16 != 0)))),
{
    let top_color = byte % 16;
    let bot_color = byte / 16;
    let px = col * 7;
    let py = row * 8;
    if top_color != 0 {
        fill_rect(bitmap, px, py, 7, 4);
    }
    if bot_color != 0 {
        fill_rect(bitmap, px, py + 4, 7, 4);
    }
}

/// Render lo-res graphics for text rows `0..num_text_rows`.
fn render_lores_rows(ram: &[u8], bitmap: &mut [u8; BITMAP_SIZE], page_offset: usize, num_text_rows: usize)
    requires
        num_text_rows <= 24,
        page_offset + 0x07F8 <= ram@.len(),
    ensures
        forall|x2: int, y2: int|
            on_screen(x2, y2) ==> #[trigger] bitmap_bit(final(bitmap)@, x2, y2) == (bitmap_bit(
                old(bitmap)@,
                x2,
                y2,
            ) || (y2 < num_text_rows * 8 && lores_pixel(ram@, page_offset as int, x2, y2))),
{
    let ram_len = ram.len();
    let mut row: usize = 0;
    while row < num_text_rows
        invariant
            row <= num_text_rows <= 24,
            ram_len == ram@.len(),
            page_offset + 0x07F8 <= ram@.len(),
            forall|x2: int, y2: int|
                on_screen(x2, y2) ==> #[trigger] bitmap_bit(bitmap@, x2, y2) == (bitmap_bit(
                    old(bitmap)@,
                    x2,
                    y2,
                ) || (y2 < row * 8 && lores_pixel(ram@, page_offset as int, x2, y2))),
        decreases num_text_rows - row,
    {
        let base = text_line_addr(row) as usize + page_offset;
        let mut col: usize = 0;
        while col < 40
            invariant
                col <= 40,
                row < num_text_rows <= 24,
                page_offset + 0x07F8 <= ram@.len(),
                base == text_line_addr_spec(row as int) + page_offset,
                base + 40 <= ram@.len(),
                ram_len == ram@.len(),
                forall|x2: int, y2: int|
                    on_screen(x2, y2) ==> #[trigger] bitmap_bit(bitmap@, x2, y2) == (bitmap_bit(
                        old(bitmap)@,
                        x2,
                        y2,
                    ) || (y2 < row * 8 && lores_pixel(ram@, page_offset as int, x2, y2)) || (row * 8 <= y2 < row
                        * 8 + 8 && x2 < col * 7 && lores_pixel(ram@, page_offset as int, x2, y2))),
            decreases 40 - col,
        {
            let byte = ram[base + col];
            let ghost before = bitmap@;
            render_lores_cell(bitmap, byte, col, row);
            proof {
                assert forall|x2: int, y2: int| on_screen(x2, y2) implies #[trigger] bitmap_bit(bitmap@, x2, y2) == (
                bitmap_bit(old(bitmap)@, x2, y2) || (y2 < row * 8 && lores_pixel(
                    ram@,
                    page_offset as int,
                    x2,
                    y2,
                )) || (row * 8 <= y2 < row * 8 + 8 && x2 < (col + 1) * 7 && lores_pixel(
                    ram@,
                    page_offset as int,
                    x2,
                    y2,
                ))) by {
                    assert(bitmap_bit(before, x2, y2) == (bitmap_bit(old(bitmap)@, x2, y2) || (y2 < row * 8
                        && lores_pixel(ram@, page_offset as int, x2, y2)) || (row * 8 <= y2 < row * 8 + 8 && x2
                        < col * 7 && lores_pixel(ram@, page_offset as int, x2, y2))));
                    if col * 7 <= x2 < col * 7 + 7 && row * 8 <= y2 < row * 8 + 8 {
                        lemma_cell_pos(x2, col as int, 7);
                        lemma_cell_pos(y2, row as int, 8);
                    }
                }
            }
            col = col + 1;
        }
        row = row + 1;
    }
}

/// Render hi-res scanlines `0..num_lines` of the page at `base`.
fn render_hires_scanlines(ram: &[u8], bitmap: &mut [u8; BITMAP_SIZE], base: usize, num_lines: usize)
    requires
        num_lines <= 192,
        base + 0x2000 <= usize::MAX,
        base + (if num_lines <= 160 { 0x1FD0int } else { 0x1FF8int }) <= ram@.len(),
    ensures
        forall|x2: int, y2: int|
            on_screen(x2, y2) ==> #[trigger] bitmap_bit(final(bitmap)@, x2, y2) == (bitmap_bit(
                old(bitmap)@,
                x2,
                y2,
            ) || (y2 < num_lines && hires_pixel(ram@, base as int, x2, y2))),
{
    let ram_len = ram.len();
    let mut y: usize = 0;
    while y < num_lines
        invariant
            y <= num_lines <= 192,
            ram_len == ram@.len(),
            base + 0x2000 <= usize::MAX,
            base + (if num_lines <= 160 { 0x1FD0int } else { 0x1FF8int }) <= ram@.len(),
            forall|x2: int, y2: int|
                on_screen(x2, y2) ==> #[trigger] bitmap_bit(bitmap@, x2, y2) == (bitmap_bit(
                    old(bitmap)@,
                    x2,
                    y2,
                ) || (y2 < y && hires_pixel(ram@, base as int, x2, y2))),
        decreases num_lines - y,
    {
        let addr = hgr_line_addr(base, y);
        let mut col: usize = 0;
        while col < 40
            invariant
                col <= 40,
                y < num_lines <= 192,
                addr == hgr_line_addr_spec(base as int, y as int),
                addr + 40 <= ram@.len(),
                ram_len == ram@.len(),
                forall|x2: int, y2: int|
                    on_screen(x2, y2) ==> #[trigger] bitmap_bit(bitmap@, x2, y2) == (bitmap_bit(
                        old(bitmap)@,
                        x2,
                        y2,
                    ) || (y2 < y && hires_pixel(ram@, base as int, x2, y2)) || (y2 == y && x2 < col * 7
                        && hires_pixel(ram@, base as int, x2, y2))),
            decreases 40 - col,
        {
            let byte = ram[addr + col];
            let ghost before = bitmap@;
            plot_hires_byte(bitmap, byte, col * 7, y);
            proof {
                assert forall|x2: int, y2: int| on_screen(x2, y2) implies #[trigger] bitmap_bit(bitmap@, x2, y2) == (
                bitmap_bit(old(bitmap)@, x2, y2) || (y2 < y && hires_pixel(ram@, base as int, x2, y2)) || (y2
                    == y && x2 < (col + 1) * 7 && hires_pixel(ram@, base as int, x2, y2))) by {
                    assert(bitmap_bit(before, x2, y2) == (bitmap_bit(old(bitmap)@, x2, y2) || (y2 < y
                        && hires_pixel(ram@, base as int, x2, y2)) || (y2 == y && x2 < col * 7 && hires_pixel(
                        ram@,
                        base as int,
                        x2,
                        y2,
                    ))));
                    if col * 7 <= x2 < col * 7 + 7 {
                        lemma_cell_pos(x2, col as int, 7);
                    }
                }
            }
            col = col + 1;
        }
        y = y + 1;
    }
}

/// Clear every pixel.
fn clear_bitmap(bitmap: &mut [u8; BITMAP_SIZE])
    ensures
        forall|x2: int, y2: int| on_screen(x2, y2) ==> !#[trigger] bitmap_bit(final(bitmap)@, x2, y2),
        forall|i: int| 0 <= i < BITMAP_SIZE ==> #[trigger] final(bitmap)@[i] == 0,
{
    let mut i: usize = 0;
    while i < BITMAP_SIZE
        invariant
            i <= BITMAP_SIZE,
            forall|k: int| 0 <= k < i ==> #[trigger] bitmap@[k] == 0,
        decreases BITMAP_SIZE - i,
    {
        bitmap[i] = 0;
        i = i + 1;
    }
    proof {
        assert forall|x2: int, y2: int| on_screen(x2, y2) implies !#[trigger] bitmap_bit(bitmap@, x2, y2) by {
            assert(bitmap@[y2 * 35 + x2 / 8] == 0);
            lemma_zero_byte((7 - x2 % 8) as u8);
        }
    }
}

/// Render the Apple II display into a 280×192 monochrome bitmap: text,
/// lo-res or hi-res per `mode`, with the four-row text window at the
/// bottom in mixed mode. Every pixel is set or cleared.
pub fn render(ram: &[u8], mode: &DisplayMode, flash_on: bool, bitmap: &mut [u8; BITMAP_SIZE])
    requires
        ram_needed(*mode) <= ram@.len(),
    ensures
        forall|x: int, y: int|
            on_screen(x, y) ==> #[trigger] bitmap_bit(final(bitmap)@, x, y) == mono_pixel(
                ram@,
                *mode,
                flash_on,
                x,
                y,
            ),
{
    clear_bitmap(bitmap);
    let page_offset: usize = if mode.page2 { 0x0400 } else { 0 };
    if mode.text {
        render_text_rows(ram, bitmap, flash_on, page_offset, 0, 24);
    } else if mode.hires {
        let hires_base: usize = if mode.page2 { 0x4000 } else { 0x2000 };
        let scanlines: usize = if mode.mixed { 160 } else { 192 };
        render_hires_scanlines(ram, bitmap, hires_base, scanlines);
        if mode.mixed {
            render_text_rows(ram, bitmap, flash_on, page_offset, 20, 24);
        }
    } else {
        let text_rows: usize = if mode.mixed { 20 } else { 24 };
        render_lores_rows(ram, bitmap, page_offset, text_rows);
        if mode.mixed {
            render_text_rows(ram, bitmap, flash_on, page_offset, 20, 24);
        }
    }
}

/// Render text page 1 in full.
pub fn render_text_page(ram: &[u8], bitmap: &mut [u8; BITMAP_SIZE], flash_on: bool)
    requires
        0x07F8 <= ram@.len(),
    ensures
        forall|x: int, y: int|
            on_screen(x, y) ==> #[trigger] bitmap_bit(final(bitmap)@, x, y) == text_pixel(ram@, 0, flash_on, x, y),
{
    clear_bitmap(bitmap);
    render_text_rows(ram, bitmap, flash_on, 0, 0, 24);
}

/// Inverse video is the complement of normal video: a screen code below
/// $40 lights exactly the dots of its glyph that the same glyph shown
/// normally ($80 higher) leaves dark, whatever the flash phase.
pub proof fn lemma_inverse_complements_normal(code: u8, flash_on: bool, dx: int, line: int)
    requires
        code < 0x40,
        0 <= dx < 7,
        0 <= line < 8,
    ensures
        glyph_dot(code, flash_on, dx, line) == !glyph_dot((code + 0x80) as u8, flash_on, dx, line),
{
    let g = char_rom((code % 64) as u8, line);
    let b = (6 - dx) as u8;
    assert(((code + 0x80) as u8) % 64 == code % 64);
    assert(b < 7 ==> (((g ^ 0x7Fu8) >> b) & 1u8 == 1u8) == !((g >> b) & 1u8 == 1u8)) by (bit_vector);
}

/// Flashing text ($40-$7F) shows its glyph normally while the flash is
/// off and inverted while it is on.
pub proof fn lemma_flashing_text(code: u8, dx: int, line: int)
    requires
        0x40 <= code < 0x80,
        0 <= dx < 7,
        0 <= line < 8,
    ensures
        glyph_dot(code, false, dx, line) == glyph_dot((code + 0x40) as u8, false, dx, line),
        glyph_dot(code, true, dx, line) == !glyph_dot((code + 0x40) as u8, true, dx, line),
{
    let g = char_rom((code % 64) as u8, line);
    let b = (6 - dx) as u8;
    assert(((code + 0x40) as u8) % 64 == code % 64);
    assert(b < 7 ==> (((g ^ 0x7Fu8) >> b) & 1u8 == 1u8) == !((g >> b) & 1u8 == 1u8)) by (bit_vector);
}

/// A byte is determined by its eight bits.
proof fn lemma_byte_from_bits(a: u8, b: u8)
    requires
        bit8(a, 0) == bit8(b, 0),
        bit8(a, 1) == bit8(b, 1),
        bit8(a, 2) == bit8(b, 2),
        bit8(a, 3) == bit8(b, 3),
        bit8(a, 4) == bit8(b, 4),
        bit8(a, 5) == bit8(b, 5),
        bit8(a, 6) == bit8(b, 6),
        bit8(a, 7) == bit8(b, 7),
    ensures
        a == b,
{
    assert(
        ((a >> 0u8) & 1u8 == 1u8) == ((b >> 0u8) & 1u8 == 1u8) && ((a >> 1u8) & 1u8 == 1u8) == ((b >> 1u8) & 1u8 == 1u8)
        && ((a >> 2u8) & 1u8 == 1u8) == ((b >> 2u8) & 1u8 == 1u8) && ((a >> 3u8) & 1u8 == 1u8) == ((b >> 3u8) & 1u8 == 1u8)
        && ((a >> 4u8) & 1u8 == 1u8) == ((b >> 4u8) & 1u8 == 1u8) && ((a >> 5u8) & 1u8 == 1u8) == ((b >> 5u8) & 1u8 == 1u8)
        && ((a >> 6u8) & 1u8 == 1u8) == ((b >> 6u8) & 1u8 == 1u8) && ((a >> 7u8) & 1u8 == 1u8) == ((b >> 7u8) & 1u8 == 1u8)
        ==> a == b) by (bit_vector);
}

/// Bit `7 - j` of byte `i` of a bitmap is pixel `j` of that byte's group
/// of eight.
proof fn lemma_pixel_bit(a: Seq<u8>, b: Seq<u8>, i: int, j: int)
    requires
        a.len() == BITMAP_SIZE,
        b.len() == BITMAP_SIZE,
        0 <= i < BITMAP_SIZE,
        0 <= j < 8,
        forall|x: int, y: int| on_screen(x, y) ==> #[trigger] bitmap_bit(a, x, y) == bitmap_bit(b, x, y),
    ensures
        bit8(a[i], (7 - j) as u8) == bit8(b[i], (7 - j) as u8),
{
    let y = i / 35;
    let k = i % 35;
    let x = k * 8 + j;
    lemma_cell_pos(x, k, 8);
    assert(bitmap_bit(a, x, y) == bitmap_bit(b, x, y));
}

/// A bitmap is determined by its pixels: two bitmaps that light the same
/// pixels are the same bytes. So the contracts of `render` and
/// `render_text_page`, which give every pixel, give the whole bitmap.
pub proof fn lemma_bitmap_determined_by_pixels(a: Seq<u8>, b: Seq<u8>)
    requires
        a.len() == BITMAP_SIZE,
        b.len() == BITMAP_SIZE,
        forall|x: int, y: int| on_screen(x, y) ==> #[trigger] bitmap_bit(a, x, y) == bitmap_bit(b, x, y),
    ensures
        a == b,
{
    assert forall|i: int| 0 <= i < BITMAP_SIZE implies a[i] == b[i] by {
        lemma_pixel_bit(a, b, i, 0);
        lemma_pixel_bit(a, b, i, 1);
        lemma_pixel_bit(a, b, i, 2);
        lemma_pixel_bit(a, b, i, 3);
        lemma_pixel_bit(a, b, i, 4);
        lemma_pixel_bit(a, b, i, 5);
        lemma_pixel_bit(a, b, i, 6);
        lemma_pixel_bit(a, b, i, 7);
        lemma_byte_from_bits(a[i], b[i]);
    }
    assert(a =~= b);
}

} // verus!
