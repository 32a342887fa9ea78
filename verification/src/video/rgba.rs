//! RGBA rendering into a 280×192 frame, four bytes per pixel, row after
//! row: Lo-Res 16 colors, Hi-Res NTSC artifact colors, or green phosphor.

use vstd::prelude::*;
use super::{RGBA_SIZE, RGBA_WIDTH, DisplayMode, DisplayColorMode, ScreenArea, area_of, page_offset, hires_base, ram_needed};
use super::layout::{char_rom_row, text_line_addr, text_line_addr_spec, hgr_line_addr, hgr_line_addr_spec};
use super::mono::{bit8, on_screen, is_inverse, glyph_row_bits, glyph_dot, text_pixel, lores_pixel, hires_pixel, lemma_bit_test, lemma_cell_pos};

verus! {

/// An opaque color.
pub open spec fn rgb(r: u8, g: u8, b: u8) -> Seq<u8> {
    seq![r, g, b, 0xFFu8]
}

/// The Apple II Lo-Res palette.
pub open spec fn lores_palette(c: int) -> Seq<u8> {
    if c == 0 { rgb(0x00, 0x00, 0x00) }        // black
    else if c == 1 { rgb(0xDD, 0x00, 0x33) }   // magenta
    else if c == 2 { rgb(0x00, 0x00, 0x99) }   // dark blue
    else if c == 3 { rgb(0xDD, 0x22, 0xDD) }   // purple
    else if c == 4 { rgb(0x00, 0x77, 0x22) }   // dark green
    else if c == 5 { rgb(0x55, 0x55, 0x55) }   // grey 1
    else if c == 6 { rgb(0x22, 0x22, 0xFF) }   // medium blue
    else if c == 7 { rgb(0x66, 0xAA, 0xFF) }   // light blue
    else if c == 8 { rgb(0x88, 0x55, 0x00) }   // brown
    else if c == 9 { rgb(0xFF, 0x66, 0x00) }   // orange
    else if c == 10 { rgb(0xAA, 0xAA, 0xAA) }  // grey 2
    else if c == 11 { rgb(0xFF, 0x99, 0x88) }  // pink
    else if c == 12 { rgb(0x11, 0xDD, 0x00) }  // green
    else if c == 13 { rgb(0xFF, 0xFF, 0x00) }  // yellow
    else if c == 14 { rgb(0x44, 0xFF, 0x99) }  // aquamarine
    else { rgb(0xFF, 0xFF, 0xFF) }             // white
}

pub open spec fn hires_purple() -> Seq<u8> { rgb(0xDD, 0x22, 0xDD) }
pub open spec fn hires_green() -> Seq<u8> { rgb(0x11, 0xDD, 0x00) }
pub open spec fn hires_blue() -> Seq<u8> { rgb(0x22, 0x22, 0xFF) }
pub open spec fn hires_orange() -> Seq<u8> { rgb(0xFF, 0x66, 0x00) }
pub open spec fn hires_white() -> Seq<u8> { rgb(0xFF, 0xFF, 0xFF) }
pub open spec fn hires_black() -> Seq<u8> { rgb(0x00, 0x00, 0x00) }

/// Text phosphor colors, and the green-phosphor monochrome colors.
pub open spec fn text_fg() -> Seq<u8> { rgb(0x33, 0xFF, 0x33) }
pub open spec fn text_bg() -> Seq<u8> { rgb(0x00, 0x00, 0x00) }
pub open spec fn mono_fg() -> Seq<u8> { rgb(0x33, 0xFF, 0x33) }
pub open spec fn mono_bg() -> Seq<u8> { rgb(0x00, 0x00, 0x00) }

/// Color graphics on screen: a lo-res byte shows its low nibble's color in
/// the top four pixel rows of its 7x8 cell and its high nibble's color in
/// the bottom four; a lone lit hi-res dot is violet in an even column and
/// green in an odd one, or blue and orange when bit 7 of its byte is set
/// (the matching Lo-Res colors 3, 12, 6 and 9), and two lit dots side by
/// side are white.
pub proof fn lemma_color_graphics(ram: Seq<u8>, page: int, base: int, x: int, y: int)
    requires
        0 <= x < 280,
        0 <= y < 192,
    ensures
        ({
            let b = ram[text_line_addr_spec(y / 8) + page + x / 7];
            lores_rgba(ram, page, DisplayColorMode::Color, x, y) == lores_palette(
                if y % 8 < 4 { b as int % 16 } else { b as int / 16 },
            )
        }),
        ({
            let b = ram[hgr_line_addr_spec(base, y) + x / 7];
            let lone = hires_pixel(ram, base, x, y) && !(x > 0 && hires_pixel(ram, base, x - 1, y))
                && !(x < 279 && hires_pixel(ram, base, x + 1, y));
            &&& lone ==> hires_rgba(ram, base, DisplayColorMode::Color, x, y) == lores_palette(
                if b < 0x80 { if x % 2 == 0 { 3int } else { 12int } } else { if x % 2 == 0 { 6int } else { 9int } },
            )
            &&& hires_pixel(ram, base, x, y) && x < 279 && hires_pixel(ram, base, x + 1, y) ==> hires_rgba(
                ram,
                base,
                DisplayColorMode::Color,
                x,
                y,
            ) == lores_palette(15) && hires_rgba(ram, base, DisplayColorMode::Color, x + 1, y) == lores_palette(15)
            &&& !hires_pixel(ram, base, x, y) ==> hires_rgba(ram, base, DisplayColorMode::Color, x, y)
                == lores_palette(0)
        }),
{
    lemma_lores_palette_colors(0);
}

/// The sixteen Lo-Res colors, by number: black, magenta, dark blue,
/// purple, dark green, grey, medium blue, light blue, brown, orange, grey,
/// pink, green, yellow, aquamarine, white; each opaque. The four Hi-Res
/// artifact colors are Lo-Res colors 3, 12, 6 and 9, and black and white
/// are 0 and 15. Grey 5 and grey 10 are true greys, the second lighter.
pub proof fn lemma_lores_palette_colors(c: int)
    requires
        0 <= c < 16,
    ensures
        lores_palette(c) == seq![
            seq![0x00u8, 0x00u8, 0x00u8], seq![0xDDu8, 0x00u8, 0x33u8], seq![0x00u8, 0x00u8, 0x99u8],
            seq![0xDDu8, 0x22u8, 0xDDu8], seq![0x00u8, 0x77u8, 0x22u8], seq![0x55u8, 0x55u8, 0x55u8],
            seq![0x22u8, 0x22u8, 0xFFu8], seq![0x66u8, 0xAAu8, 0xFFu8], seq![0x88u8, 0x55u8, 0x00u8],
            seq![0xFFu8, 0x66u8, 0x00u8], seq![0xAAu8, 0xAAu8, 0xAAu8], seq![0xFFu8, 0x99u8, 0x88u8],
            seq![0x11u8, 0xDDu8, 0x00u8], seq![0xFFu8, 0xFFu8, 0x00u8], seq![0x44u8, 0xFFu8, 0x99u8],
            seq![0xFFu8, 0xFFu8, 0xFFu8],
        ][c].push(0xFFu8),
        lores_palette(3) == hires_purple(),
        lores_palette(12) == hires_green(),
        lores_palette(6) == hires_blue(),
        lores_palette(9) == hires_orange(),
        lores_palette(0) == hires_black(),
        lores_palette(15) == hires_white(),
        lores_palette(5)[0] == lores_palette(5)[1] == lores_palette(5)[2] < lores_palette(10)[0]
            == lores_palette(10)[1] == lores_palette(10)[2],
{
    assert(lores_palette(c) =~= seq![
            seq![0x00u8, 0x00u8, 0x00u8], seq![0xDDu8, 0x00u8, 0x33u8], seq![0x00u8, 0x00u8, 0x99u8],
            seq![0xDDu8, 0x22u8, 0xDDu8], seq![0x00u8, 0x77u8, 0x22u8], seq![0x55u8, 0x55u8, 0x55u8],
            seq![0x22u8, 0x22u8, 0xFFu8], seq![0x66u8, 0xAAu8, 0xFFu8], seq![0x88u8, 0x55u8, 0x00u8],
            seq![0xFFu8, 0x66u8, 0x00u8], seq![0xAAu8, 0xAAu8, 0xAAu8], seq![0xFFu8, 0x99u8, 0x88u8],
            seq![0x11u8, 0xDDu8, 0x00u8], seq![0xFFu8, 0xFFu8, 0x00u8], seq![0x44u8, 0xFFu8, 0x99u8],
            seq![0xFFu8, 0xFFu8, 0xFFu8],
        ][c].push(0xFFu8));
}


/// Lit or dark in monochrome.
pub open spec fn mono_color(on: bool) -> Seq<u8> {
    if on { mono_fg() } else { mono_bg() }
}

/// Color of text pixel (`x`, `y`).
pub open spec fn text_rgba(ram: Seq<u8>, page: int, flash_on: bool, cm: DisplayColorMode, x: int, y: int) -> Seq<u8> {
    let on = text_pixel(ram, page, flash_on, x, y);
    if cm == DisplayColorMode::Color {
        if on { text_fg() } else { text_bg() }
    } else {
        mono_color(on)
    }
}

/// Lo-Res color number of pixel (`x`, `y`): low nibble in the upper half
/// of the cell, high nibble in the lower.
pub open spec fn lores_color_index(ram: Seq<u8>, page: int, x: int, y: int) -> int {
    let b = ram[text_line_addr_spec(y / 8) + page + x / 7];
    if y % 8 < 4 { (b % 16) as int } else { (b / 16) as int }
}

/// Color of lo-res pixel (`x`, `y`).
pub open spec fn lores_rgba(ram: Seq<u8>, page: int, cm: DisplayColorMode, x: int, y: int) -> Seq<u8> {
    if cm == DisplayColorMode::Color {
        lores_palette(lores_color_index(ram, page, x, y))
    } else {
        mono_color(lores_pixel(ram, page, x, y))
    }
}

/// NTSC artifact color of hi-res pixel (`x`, `y`): black when off; white
/// when a horizontal neighbour is on too; else by column parity, purple
/// and green, or blue and orange when bit 7 of its byte is set.
pub open spec fn hires_artifact(ram: Seq<u8>, base: int, x: int, y: int) -> Seq<u8> {
    let b = ram[hgr_line_addr_spec(base, y) + x / 7];
    let prev_on = x > 0 && hires_pixel(ram, base, x - 1, y);
    let next_on = x < 279 && hires_pixel(ram, base, x + 1, y);
    if !hires_pixel(ram, base, x, y) {
        hires_black()
    } else if prev_on || next_on {
        hires_white()
    } else if b >= 0x80 {
        if x % 2 == 0 { hires_blue() } else { hires_orange() }
    } else {
        if x % 2 == 0 { hires_purple() } else { hires_green() }
    }
}

/// Color of hi-res pixel (`x`, `y`).
pub open spec fn hires_rgba(ram: Seq<u8>, base: int, cm: DisplayColorMode, x: int, y: int) -> Seq<u8> {
    if cm == DisplayColorMode::Color {
        hires_artifact(ram, base, x, y)
    } else {
        mono_color(hires_pixel(ram, base, x, y))
    }
}

/// Color of pixel (`x`, `y`) of the whole display.
pub open spec fn screen_rgba(
    ram: Seq<u8>,
    mode: DisplayMode,
    flash_on: bool,
    cm: DisplayColorMode,
    x: int,
    y: int,
) -> Seq<u8> {
    match area_of(mode, y) {
        ScreenArea::Text => text_rgba(ram, page_offset(mode), flash_on, cm, x, y),
        ScreenArea::Hires => hires_rgba(ram, hires_base(mode), cm, x, y),
        ScreenArea::Lores => lores_rgba(ram, page_offset(mode), cm, x, y),
    }
}

/// Byte `k` (0 red to 3 alpha) of pixel (`x`, `y`) in a frame.
pub open spec fn rgba_byte(buf: Seq<u8>, x: int, y: int, k: int) -> u8 {
    buf[(y * 280 + x) * 4 + k]
}

/// Pixels and channels of the frame.
pub open spec fn in_frame(x: int, y: int, k: int) -> bool {
    on_screen(x, y) && 0 <= k < 4
}

/// `after` holds `before` past the frame's end.
pub open spec fn tail_kept(before: Seq<u8>, after: Seq<u8>) -> bool {
    &&& after.len() == before.len()
    &&& forall|i: int| RGBA_SIZE <= i < after.len() ==> #[trigger] after[i] == before[i]
}

fn rgb_color(r: u8, g: u8, b: u8) -> (c: [u8; 4])
    ensures
        c@ == rgb(r, g, b),
{
    let c = [r, g, b, 0xFF];
    assert(c@ =~= rgb(r, g, b));
    c
}

/// Lo-Res palette entry `c` (0 to 15).
fn lores_palette_color(c: u8) -> (col: [u8; 4])
    requires
        c < 16,
    ensures
        col@ == lores_palette(c as int),
{
    match c {
        0 => rgb_color(0x00, 0x00, 0x00),
        1 => rgb_color(0xDD, 0x00, 0x33),
        2 => rgb_color(0x00, 0x00, 0x99),
        3 => rgb_color(0xDD, 0x22, 0xDD),
        4 => rgb_color(0x00, 0x77, 0x22),
        5 => rgb_color(0x55, 0x55, 0x55),
        6 => rgb_color(0x22, 0x22, 0xFF),
        7 => rgb_color(0x66, 0xAA, 0xFF),
        8 => rgb_color(0x88, 0x55, 0x00),
        9 => rgb_color(0xFF, 0x66, 0x00),
        10 => rgb_color(0xAA, 0xAA, 0xAA),
        11 => rgb_color(0xFF, 0x99, 0x88),
        12 => rgb_color(0x11, 0xDD, 0x00),
        13 => rgb_color(0xFF, 0xFF, 0x00),
        14 => rgb_color(0x44, 0xFF, 0x99),
        _ => rgb_color(0xFF, 0xFF, 0xFF),
    }
}

/// The uniqueness of a pixel's byte offset.
proof fn lemma_rgba_index(x: int, y: int, k: int, x2: int, y2: int, k2: int)
    requires
        in_frame(x, y, k),
        in_frame(x2, y2, k2),
        (y * 280 + x) * 4 + k == (y2 * 280 + x2) * 4 + k2,
    ensures
        x == x2 && y == y2 && k == k2,
{
}

/// Paint pixel (`x`, `y`) with `color`.
fn put_pixel(rgba: &mut [u8], x: usize, y: usize, color: [u8; 4])
    requires
        x < 280,
        y < 192,
        old(rgba)@.len() >= RGBA_SIZE,
    ensures
        tail_kept(old(rgba)@, final(rgba)@),
        forall|x2: int, y2: int, k: int|
            in_frame(x2, y2, k) ==> #[trigger] rgba_byte(final(rgba)@, x2, y2, k) == (if x2 == x && y2 == y {
                color@[k]
            } else {
                rgba_byte(old(rgba)@, x2, y2, k)
            }),
{
    let idx = (y * RGBA_WIDTH + x) * 4;
    rgba[idx] = color[0];
    rgba[idx + 1] = color[1];
    rgba[idx + 2] = color[2];
    rgba[idx + 3] = color[3];
    proof {
        assert forall|x2: int, y2: int, k: int| in_frame(x2, y2, k) implies #[trigger] rgba_byte(rgba@, x2, y2, k)
            == (if x2 == x && y2 == y { color@[k] } else { rgba_byte(old(rgba)@, x2, y2, k) }) by {
            let i2 = (y2 * 280 + x2) * 4 + k;
            if idx <= i2 < idx + 4 {
                lemma_rgba_index(x as int, y as int, i2 - idx, x2, y2, k);
            }
        }
    }
}

/// Fill the whole buffer with `color`, four bytes at a time.
fn fill_rgba(rgba: &mut [u8], color: [u8; 4])
    requires
        old(rgba)@.len() % 4 == 0,
    ensures
        final(rgba)@.len() == old(rgba)@.len(),
        forall|i: int| 0 <= i < final(rgba)@.len() ==> #[trigger] final(rgba)@[i] == color@[i % 4],
{
    let len = rgba.len();
    let mut i: usize = 0;
    while i < len
        invariant
            len == rgba@.len(),
            len == old(rgba)@.len(),
            len % 4 == 0,
            i <= len,
            i % 4 == 0,
            forall|j: int| 0 <= j < i ==> #[trigger] rgba@[j] == color@[j % 4],
        decreases len - i,
    {
        rgba[i] = color[0];
        rgba[i + 1] = color[1];
        rgba[i + 2] = color[2];
        rgba[i + 3] = color[3];
        i = i + 4;
    }
}

/// Fill a rectangle with `color`.
fn fill_rgba_region(rgba: &mut [u8], color: [u8; 4], x: usize, y: usize, w: usize, h: usize)
    requires
        x + w <= 280,
        y + h <= 192,
        old(rgba)@.len() >= RGBA_SIZE,
    ensures
        tail_kept(old(rgba)@, final(rgba)@),
        forall|x2: int, y2: int, k: int|
            in_frame(x2, y2, k) ==> #[trigger] rgba_byte(final(rgba)@, x2, y2, k) == (if x <= x2 < x + w && y
                <= y2 < y + h {
                color@[k]
            } else {
                rgba_byte(old(rgba)@, x2, y2, k)
            }),
{
    if w == 0 || h == 0 {
        return;
    }
    let mut dy: usize = 0;
    while dy < h
        invariant
            dy <= h,
            x + w <= 280,
            y + h <= 192,
            rgba@.len() >= RGBA_SIZE,
            tail_kept(old(rgba)@, rgba@),
            forall|x2: int, y2: int, k: int|
                in_frame(x2, y2, k) ==> #[trigger] rgba_byte(rgba@, x2, y2, k) == (if x <= x2 < x + w && y <= y2
                    < y + dy {
                    color@[k]
                } else {
                    rgba_byte(old(rgba)@, x2, y2, k)
                }),
        decreases h - dy,
    {
        let mut dx: usize = 0;
        while dx < w
            invariant
                dx <= w,
                dy < h,
                x + w <= 280,
                y + h <= 192,
                rgba@.len() >= RGBA_SIZE,
                tail_kept(old(rgba)@, rgba@),
                forall|x2: int, y2: int, k: int|
                    in_frame(x2, y2, k) ==> #[trigger] rgba_byte(rgba@, x2, y2, k) == (if (x <= x2 < x + w && y
                        <= y2 < y + dy) || (x <= x2 < x + dx && y2 == y + dy) {
                        color@[k]
                    } else {
                        rgba_byte(old(rgba)@, x2, y2, k)
                    }),
            decreases w - dx,
        {
            put_pixel(rgba, x + dx, y + dy, color);
            dx = dx + 1;
        }
        dy = dy + 1;
    }
}

/// Paint the seven dots of `pixels` (bit 6 leftmost) at (`px`..`px + 7`,
/// `py`) in `fg`, the others in `bg`.
fn plot_glyph_row_rgba(rgba: &mut [u8], pixels: u8, px: usize, py: usize, fg: [u8; 4], bg: [u8; 4])
    requires
        px + 7 <= 280,
        py < 192,
        old(rgba)@.len() >= RGBA_SIZE,
    ensures
        tail_kept(old(rgba)@, final(rgba)@),
        forall|x2: int, y2: int, k: int|
            in_frame(x2, y2, k) ==> #[trigger] rgba_byte(final(rgba)@, x2, y2, k) == (if y2 == py && px <= x2 < px
                + 7 {
                if bit8(pixels, (6 - (x2 - px)) as u8) { fg@[k] } else { bg@[k] }
            } else {
                rgba_byte(old(rgba)@, x2, y2, k)
            }),
{
    let mut bit: usize = 0;
    while bit < 7
        invariant
            bit <= 7,
            px + 7 <= 280,
            py < 192,
            rgba@.len() >= RGBA_SIZE,
            tail_kept(old(rgba)@, rgba@),
            forall|x2: int, y2: int, k: int|
                in_frame(x2, y2, k) ==> #[trigger] rgba_byte(rgba@, x2, y2, k) == (if y2 == py && px + 7 - bit
                    <= x2 < px + 7 {
                    if bit8(pixels, (6 - (x2 - px)) as u8) { fg@[k] } else { bg@[k] }
                } else {
                    rgba_byte(old(rgba)@, x2, y2, k)
                }),
        decreases 7 - bit,
    {
        proof {
            lemma_bit_test(pixels, bit as u8);
        }
        let on = pixels & (1u8 << (bit as u8)) != 0;
        let color = if on { fg } else { bg };
        put_pixel(rgba, px + (6 - bit), py, color);
        bit = bit + 1;
    }
}

/// Draw the character cell at text `row`, `col` showing `code`.
fn render_text_cell_rgba(
    rgba: &mut [u8],
    code: u8,
    flash_on: bool,
    col: usize,
    row: usize,
    fg: [u8; 4],
    bg: [u8; 4],
)
    requires
        col < 40,
        row < 24,
        old(rgba)@.len() >= RGBA_SIZE,
    ensures
        tail_kept(old(rgba)@, final(rgba)@),
        forall|x2: int, y2: int, k: int|
            in_frame(x2, y2, k) ==> #[trigger] rgba_byte(final(rgba)@, x2, y2, k) == (if col * 7 <= x2 < col * 7
                + 7 && row * 8 <= y2 < row * 8 + 8 {
                if glyph_dot(code, flash_on, x2 - col * 7, y2 - row * 8) { fg@[k] } else { bg@[k] }
            } else {
                rgba_byte(old(rgba)@, x2, y2, k)
            }),
{
    let char_index = code % 64;
    let is_inv = code < 0x40 || (code < 0x80 && flash_on);
    let mut line: usize = 0;
    while line < 8
        invariant
            line <= 8,
            col < 40,
            row < 24,
            char_index == code % 64,
            is_inv == is_inverse(code, flash_on),
            rgba@.len() >= RGBA_SIZE,
            tail_kept(old(rgba)@, rgba@),
            forall|x2: int, y2: int, k: int|
                in_frame(x2, y2, k) ==> #[trigger] rgba_byte(rgba@, x2, y2, k) == (if col * 7 <= x2 < col * 7 + 7
                    && row * 8 <= y2 < row * 8 + line {
                    if glyph_dot(code, flash_on, x2 - col * 7, y2 - row * 8) { fg@[k] } else { bg@[k] }
                } else {
                    rgba_byte(old(rgba)@, x2, y2, k)
                }),
        decreases 8 - line,
    {
        let mut pixels = char_rom_row(char_index, line);
        if is_inv {
            pixels = pixels ^ 0x7F;
        }
        assert(pixels == glyph_row_bits(code, flash_on, line as int));
        plot_glyph_row_rgba(rgba, pixels, col * 7, row * 8 + line, fg, bg);
        line = line + 1;
    }
}

/// Render text rows `start_row..end_row` of the page at `page_offset`.
fn render_text_rows_rgba(
    ram: &[u8],
    rgba: &mut [u8],
    flash_on: bool,
    color_mode: DisplayColorMode,
    page_offset: usize,
    start_row: usize,
    end_row: usize,
)
    requires
        start_row <= end_row <= 24,
        page_offset + 0x07F8 <= ram@.len(),
        old(rgba)@.len() >= RGBA_SIZE,
    ensures
        tail_kept(old(rgba)@, final(rgba)@),
        forall|x2: int, y2: int, k: int|
            in_frame(x2, y2, k) ==> #[trigger] rgba_byte(final(rgba)@, x2, y2, k) == (if start_row * 8 <= y2
                < end_row * 8 {
                text_rgba(ram@, page_offset as int, flash_on, color_mode, x2, y2)[k]
            } else {
                rgba_byte(old(rgba)@, x2, y2, k)
            }),
{
    let fg = if color_mode == DisplayColorMode::Color {
        rgb_color(0x33, 0xFF, 0x33)
    } else {
        rgb_color(0x33, 0xFF, 0x33)
    };
    let bg = if color_mode == DisplayColorMode::Color {
        rgb_color(0x00, 0x00, 0x00)
    } else {
        rgb_color(0x00, 0x00, 0x00)
    };
    let ram_len = ram.len();
    let mut row = start_row;
    while row < end_row
        invariant
            start_row <= row <= end_row <= 24,
            ram_len == ram@.len(),
            page_offset + 0x07F8 <= ram@.len(),
            fg@ == text_fg(),
            bg@ == text_bg(),
            rgba@.len() >= RGBA_SIZE,
            tail_kept(old(rgba)@, rgba@),
            forall|x2: int, y2: int, k: int|
                in_frame(x2, y2, k) ==> #[trigger] rgba_byte(rgba@, x2, y2, k) == (if start_row * 8 <= y2 < row
                    * 8 {
                    text_rgba(ram@, page_offset as int, flash_on, color_mode, x2, y2)[k]
                } else {
                    rgba_byte(old(rgba)@, x2, y2, k)
                }),
        decreases end_row - row,
    {
        let base = text_line_addr(row) as usize + page_offset;
        let mut col: usize = 0;
        while col < 40
            invariant
                col <= 40,
                start_row <= row < end_row <= 24,
                ram_len == ram@.len(),
                page_offset + 0x07F8 <= ram@.len(),
                base == text_line_addr_spec(row as int) + page_offset,
                base + 40 <= ram@.len(),
                fg@ == text_fg(),
                bg@ == text_bg(),
                rgba@.len() >= RGBA_SIZE,
                tail_kept(old(rgba)@, rgba@),
                forall|x2: int, y2: int, k: int|
                    in_frame(x2, y2, k) ==> #[trigger] rgba_byte(rgba@, x2, y2, k) == (if (start_row * 8 <= y2
                        < row * 8) || (row * 8 <= y2 < row * 8 + 8 && x2 < col * 7) {
                        text_rgba(ram@, page_offset as int, flash_on, color_mode, x2, y2)[k]
                    } else {
                        rgba_byte(old(rgba)@, x2, y2, k)
                    }),
            decreases 40 - col,
        {
            let screen_code = ram[base + col];
            let ghost before = rgba@;
            render_text_cell_rgba(rgba, screen_code, flash_on, col, row, fg, bg);
            proof {
                assert forall|x2: int, y2: int, k: int| in_frame(x2, y2, k) implies #[trigger] rgba_byte(
                    rgba@,
                    x2,
                    y2,
                    k,
                ) == (if (start_row * 8 <= y2 < row * 8) || (row * 8 <= y2 < row * 8 + 8 && x2 < (col + 1) * 7) {
                    text_rgba(ram@, page_offset as int, flash_on, color_mode, x2, y2)[k]
                } else {
                    rgba_byte(old(rgba)@, x2, y2, k)
                }) by {
                    assert(rgba_byte(before, x2, y2, k) == (if (start_row * 8 <= y2 < row * 8) || (row * 8 <= y2
                        < row * 8 + 8 && x2 < col * 7) {
                        text_rgba(ram@, page_offset as int, flash_on, color_mode, x2, y2)[k]
                    } else {
                        rgba_byte(old(rgba)@, x2, y2, k)
                    }));
                    if col * 7 <= x2 < col * 7 + 7 && row * 8 <= y2 < row * 8 + 8 {
                        lemma_cell_pos(x2, col as int, 7);
                        lemma_cell_pos(y2, row as int, 8);
                    }
                }
            }
            col = col + 1;
        }
        row = row + 1;
    }
}

/// Draw the lo-res cell at text `row`, `col` from byte `byte`.
fn render_lores_cell_rgba(rgba: &mut [u8], byte: u8, col: usize, row: usize, color_mode: DisplayColorMode)
    requires
        col < 40,
        row < 24,
        old(rgba)@.len() >= RGBA_SIZE,
    ensures
        tail_kept(old(rgba)@, final(rgba)@),
        forall|x2: int, y2: int, k: int|
            in_frame(x2, y2, k) ==> #[trigger] rgba_byte(final(rgba)@, x2, y2, k) == (if col * 7 <= x2 < col * 7
                + 7 && row * 8 <= y2 < row * 8 + 8 {
                let c = if y2 < row * 8 + 4 { (byte % 16) as int } else { (byte / 16) as int };
                if color_mode == DisplayColorMode::Color {
                    lores_palette(c)[k]
                } else {
                    mono_color(c != 0)[k]
                }
            } else {
                rgba_byte(old(rgba)@, x2, y2, k)
            }),
{
    let top_color = byte % 16;
    let bot_color = byte / 16;
    let px = col * 7;
    let py = row * 8;
    if color_mode == DisplayColorMode::Color {
        fill_rgba_region(rgba, lores_palette_color(top_color), px, py, 7, 4);
        fill_rgba_region(rgba, lores_palette_color(bot_color), px, py + 4, 7, 4);
    } else {
        let top_on = top_color != 0;
        let bot_on = bot_color != 0;
        let fg = rgb_color(0x33, 0xFF, 0x33);
        let bg = rgb_color(0x00, 0x00, 0x00);
        fill_rgba_region(rgba, if top_on { fg } else { bg }, px, py, 7, 4);
        fill_rgba_region(rgba, if bot_on { fg } else { bg }, px, py + 4, 7, 4);
    }
}

/// Render lo-res graphics for text rows `0..num_text_rows`.
fn render_lores_rows_rgba(
    ram: &[u8],
    rgba: &mut [u8],
    page_offset: usize,
    num_text_rows: usize,
    color_mode: DisplayColorMode,
)
    requires
        num_text_rows <= 24,
        page_offset + 0x07F8 <= ram@.len(),
        old(rgba)@.len() >= RGBA_SIZE,
    ensures
        tail_kept(old(rgba)@, final(rgba)@),
        forall|x2: int, y2: int, k: int|
            in_frame(x2, y2, k) ==> #[trigger] rgba_byte(final(rgba)@, x2, y2, k) == (if y2 < num_text_rows * 8 {
                lores_rgba(ram@, page_offset as int, color_mode, x2, y2)[k]
            } else {
                rgba_byte(old(rgba)@, x2, y2, k)
            }),
{
    let ram_len = ram.len();
    let mut row: usize = 0;
    while row < num_text_rows
        invariant
            row <= num_text_rows <= 24,
            ram_len == ram@.len(),
            page_offset + 0x07F8 <= ram@.len(),
            rgba@.len() >= RGBA_SIZE,
            tail_kept(old(rgba)@, rgba@),
            forall|x2: int, y2: int, k: int|
                in_frame(x2, y2, k) ==> #[trigger] rgba_byte(rgba@, x2, y2, k) == (if y2 < row * 8 {
                    lores_rgba(ram@, page_offset as int, color_mode, x2, y2)[k]
                } else {
                    rgba_byte(old(rgba)@, x2, y2, k)
                }),
        decreases num_text_rows - row,
    {
        let base = text_line_addr(row) as usize + page_offset;
        let mut col: usize = 0;
        while col < 40
            invariant
                col <= 40,
                row < num_text_rows <= 24,
                ram_len == ram@.len(),
                page_offset + 0x07F8 <= ram@.len(),
                base == text_line_addr_spec(row as int) + page_offset,
                base + 40 <= ram@.len(),
                rgba@.len() >= RGBA_SIZE,
                tail_kept(old(rgba)@, rgba@),
                forall|x2: int, y2: int, k: int|
                    in_frame(x2, y2, k) ==> #[trigger] rgba_byte(rgba@, x2, y2, k) == (if y2 < row * 8 || (row * 8
                        <= y2 < row * 8 + 8 && x2 < col * 7) {
                        lores_rgba(ram@, page_offset as int, color_mode, x2, y2)[k]
                    } else {
                        rgba_byte(old(rgba)@, x2, y2, k)
                    }),
            decreases 40 - col,
        {
            let byte = ram[base + col];
            let ghost before = rgba@;
            render_lores_cell_rgba(rgba, byte, col, row, color_mode);
            proof {
                assert forall|x2: int, y2: int, k: int| in_frame(x2, y2, k) implies #[trigger] rgba_byte(
                    rgba@,
                    x2,
                    y2,
                    k,
                ) == (if y2 < row * 8 || (row * 8 <= y2 < row * 8 + 8 && x2 < (col + 1) * 7) {
                    lores_rgba(ram@, page_offset as int, color_mode, x2, y2)[k]
                } else {
                    rgba_byte(old(rgba)@, x2, y2, k)
                }) by {
                    assert(rgba_byte(before, x2, y2, k) == (if y2 < row * 8 || (row * 8 <= y2 < row * 8 + 8 && x2
                        < col * 7) {
                        lores_rgba(ram@, page_offset as int, color_mode, x2, y2)[k]
                    } else {
                        rgba_byte(old(rgba)@, x2, y2, k)
                    }));
                    if col * 7 <= x2 < col * 7 + 7 && row * 8 <= y2 < row * 8 + 8 {
                        lemma_cell_pos(x2, col as int, 7);
                        lemma_cell_pos(y2, row as int, 8);
                    }
                }
            }
            col = col + 1;
        }
        row = row + 1;
    }
}

/// Render hi-res scanline `y`, which starts at `addr` in the page at
/// `base`: artifact colors, or green phosphor.
fn render_hires_line_rgba(
    ram: &[u8],
    rgba: &mut [u8],
    base: usize,
    addr: usize,
    y: usize,
    color_mode: DisplayColorMode,
)
    requires
        y < 192,
        addr == hgr_line_addr_spec(base as int, y as int),
        addr + 40 <= ram@.len(),
        old(rgba)@.len() >= RGBA_SIZE,
    ensures
        tail_kept(old(rgba)@, final(rgba)@),
        forall|x2: int, y2: int, k: int|
            in_frame(x2, y2, k) ==> #[trigger] rgba_byte(final(rgba)@, x2, y2, k) == (if y2 == y {
                hires_rgba(ram@, base as int, color_mode, x2, y2)[k]
            } else {
                rgba_byte(old(rgba)@, x2, y2, k)
            }),
{
    let ram_len = ram.len();
    if color_mode != DisplayColorMode::Color {
        // Monochrome: no neighbour lookups.
        let mut col: usize = 0;
        while col < 40
            invariant
                col <= 40,
                y < 192,
                ram_len == ram@.len(),
                addr == hgr_line_addr_spec(base as int, y as int),
                addr + 40 <= ram@.len(),
                color_mode != DisplayColorMode::Color,
                rgba@.len() >= RGBA_SIZE,
                tail_kept(old(rgba)@, rgba@),
                forall|x2: int, y2: int, k: int|
                    in_frame(x2, y2, k) ==> #[trigger] rgba_byte(rgba@, x2, y2, k) == (if y2 == y && x2 < col * 7 {
                        hires_rgba(ram@, base as int, color_mode, x2, y2)[k]
                    } else {
                        rgba_byte(old(rgba)@, x2, y2, k)
                    }),
            decreases 40 - col,
        {
            let byte = ram[addr + col];
            let pixel_x = col * 7;
            let mut bit: usize = 0;
            while bit < 7
                invariant
                    bit <= 7,
                    col < 40,
                    y < 192,
                    pixel_x == col * 7,
                    addr + 40 <= ram@.len(),
                    byte == ram@[addr + col],
                    addr == hgr_line_addr_spec(base as int, y as int),
                    color_mode != DisplayColorMode::Color,
                    rgba@.len() >= RGBA_SIZE,
                    tail_kept(old(rgba)@, rgba@),
                    forall|x2: int, y2: int, k: int|
                        in_frame(x2, y2, k) ==> #[trigger] rgba_byte(rgba@, x2, y2, k) == (if y2 == y && x2 < col * 7
                            + bit {
                            hires_rgba(ram@, base as int, color_mode, x2, y2)[k]
                        } else {
                            rgba_byte(old(rgba)@, x2, y2, k)
                        }),
                decreases 7 - bit,
            {
                proof {
                    lemma_bit_test(byte, bit as u8);
                    lemma_cell_pos((pixel_x + bit) as int, col as int, 7);
                }
                let color = if byte & (1u8 << (bit as u8)) != 0 {
                    rgb_color(0x33, 0xFF, 0x33)
                } else {
                    rgb_color(0x00, 0x00, 0x00)
                };
                put_pixel(rgba, pixel_x + bit, y, color);
                bit = bit + 1;
            }
            col = col + 1;
        }
        return;
    }
    // Color: a sliding window over the scanline gives both neighbours.
    let mut prev_on = false;
    let mut col: usize = 0;
    while col < 40
        invariant
            col <= 40,
            y < 192,
            ram_len == ram@.len(),
            addr == hgr_line_addr_spec(base as int, y as int),
            addr + 40 <= ram@.len(),
            color_mode == DisplayColorMode::Color,
            prev_on == (col > 0 && hires_pixel(ram@, base as int, col * 7 - 1, y as int)),
            rgba@.len() >= RGBA_SIZE,
            tail_kept(old(rgba)@, rgba@),
            forall|x2: int, y2: int, k: int|
                in_frame(x2, y2, k) ==> #[trigger] rgba_byte(rgba@, x2, y2, k) == (if y2 == y && x2 < col * 7 {
                    hires_rgba(ram@, base as int, color_mode, x2, y2)[k]
                } else {
                    rgba_byte(old(rgba)@, x2, y2, k)
                }),
        decreases 40 - col,
    {
        let byte = ram[addr + col];
        let high_bit = byte & 0x80 != 0;
        assert(high_bit == (byte >= 0x80)) by (bit_vector)
            requires
                high_bit == (byte & 0x80 != 0),
        ;
        let pixel_x = col * 7;
        let mut bit: usize = 0;
        while bit < 7
            invariant
                bit <= 7,
                col < 40,
                y < 192,
                ram_len == ram@.len(),
                pixel_x == col * 7,
                byte == ram@[addr + col],
                high_bit == (byte >= 0x80),
                addr == hgr_line_addr_spec(base as int, y as int),
                addr + 40 <= ram@.len(),
                color_mode == DisplayColorMode::Color,
                prev_on == (col * 7 + bit > 0 && hires_pixel(ram@, base as int, col * 7 + bit - 1, y as int)),
                rgba@.len() >= RGBA_SIZE,
                tail_kept(old(rgba)@, rgba@),
                forall|x2: int, y2: int, k: int|
                    in_frame(x2, y2, k) ==> #[trigger] rgba_byte(rgba@, x2, y2, k) == (if y2 == y && x2 < col * 7
                        + bit {
                        hires_rgba(ram@, base as int, color_mode, x2, y2)[k]
                    } else {
                        rgba_byte(old(rgba)@, x2, y2, k)
                    }),
            decreases 7 - bit,
        {
            let x = pixel_x + bit;
            proof {
                lemma_bit_test(byte, bit as u8);
                lemma_cell_pos(x as int, col as int, 7);
            }
            let on = byte & (1u8 << (bit as u8)) != 0;
            // Look ahead at the next pixel.
            let next_on = if bit < 6 {
                proof {
                    lemma_bit_test(byte, (bit + 1) as u8);
                    lemma_cell_pos(x + 1, col as int, 7);
                    assert(hires_pixel(ram@, base as int, x + 1, y as int) == bit8(byte, (bit + 1) as u8));
                }
                byte & (1u8 << ((bit + 1) as u8)) != 0
            } else if col < 39 {
                let next_byte = ram[addr + col + 1];
                proof {
                    lemma_bit_test(next_byte, 0);
                    lemma_cell_pos(x + 1, col + 1, 7);
                    assert(1u8 << 0u8 == 1u8) by (bit_vector);
                    assert(hires_pixel(ram@, base as int, x + 1, y as int) == bit8(next_byte, 0));
                }
                next_byte & 1u8 != 0
            } else {
                false
            };
            assert(next_on == (x < 279 && hires_pixel(ram@, base as int, x + 1, y as int)));
            let color = if !on {
                rgb_color(0x00, 0x00, 0x00)
            } else if prev_on || next_on {
                rgb_color(0xFF, 0xFF, 0xFF)
            } else if high_bit {
                if x % 2 == 0 {
                    rgb_color(0x22, 0x22, 0xFF)
                } else {
                    rgb_color(0xFF, 0x66, 0x00)
                }
            } else if x % 2 == 0 {
                rgb_color(0xDD, 0x22, 0xDD)
            } else {
                rgb_color(0x11, 0xDD, 0x00)
            };
            put_pixel(rgba, x, y, color);
            prev_on = on;
            bit = bit + 1;
        }
        col = col + 1;
    }
}

/// Render hi-res scanlines `0..num_lines` of the page at `base`.
fn render_hires_scanlines_rgba(
    ram: &[u8],
    rgba: &mut [u8],
    base: usize,
    num_lines: usize,
    color_mode: DisplayColorMode,
)
    requires
        num_lines <= 192,
        base + 0x2000 <= usize::MAX,
        base + (if num_lines <= 160 { 0x1FD0int } else { 0x1FF8int }) <= ram@.len(),
        old(rgba)@.len() >= RGBA_SIZE,
    ensures
        tail_kept(old(rgba)@, final(rgba)@),
        forall|x2: int, y2: int, k: int|
            in_frame(x2, y2, k) ==> #[trigger] rgba_byte(final(rgba)@, x2, y2, k) == (if y2 < num_lines {
                hires_rgba(ram@, base as int, color_mode, x2, y2)[k]
            } else {
                rgba_byte(old(rgba)@, x2, y2, k)
            }),
{
    let mut y: usize = 0;
    while y < num_lines
        invariant
            y <= num_lines <= 192,
            base + 0x2000 <= usize::MAX,
            base + (if num_lines <= 160 { 0x1FD0int } else { 0x1FF8int }) <= ram@.len(),
            rgba@.len() >= RGBA_SIZE,
            tail_kept(old(rgba)@, rgba@),
            forall|x2: int, y2: int, k: int|
                in_frame(x2, y2, k) ==> #[trigger] rgba_byte(rgba@, x2, y2, k) == (if y2 < y {
                    hires_rgba(ram@, base as int, color_mode, x2, y2)[k]
                } else {
                    rgba_byte(old(rgba)@, x2, y2, k)
                }),
        decreases num_lines - y,
    {
        let addr = hgr_line_addr(base, y);
        render_hires_line_rgba(ram, rgba, base, addr, y, color_mode);
        y = y + 1;
    }
}

/// Render the Apple II display into a 280×192 RGBA frame: every pixel of
/// the frame is painted, and the rest of the buffer is filled with opaque
/// black. `frame_phase` drives the flicker of the simulated CRT scanlines,
/// a floating-point shading that the frontend applies afterwards for
/// `MonochromeScanlines`; the image drawn here is the monochrome one.
pub fn render_rgba(
    ram: &[u8],
    mode: &DisplayMode,
    flash_on: bool,
    color_mode: DisplayColorMode,
    frame_phase: u64,
    rgba: &mut [u8],
)
    requires
        ram_needed(*mode) <= ram@.len(),
        old(rgba)@.len() >= RGBA_SIZE,
        old(rgba)@.len() % 4 == 0,
    ensures
        final(rgba)@.len() == old(rgba)@.len(),
        forall|x: int, y: int, k: int|
            in_frame(x, y, k) ==> #[trigger] rgba_byte(final(rgba)@, x, y, k) == screen_rgba(
                ram@,
                *mode,
                flash_on,
                color_mode,
                x,
                y,
            )[k],
        forall|i: int| RGBA_SIZE <= i < final(rgba)@.len() ==> #[trigger] final(rgba)@[i] == rgb(0, 0, 0)[i % 4],
{
    let page_offset: usize = if mode.page2 { 0x0400 } else { 0 };
    let black = rgb_color(0x00, 0x00, 0x00);
    fill_rgba(rgba, black);
    let ghost filled = rgba@;
    if mode.text {
        render_text_rows_rgba(ram, rgba, flash_on, color_mode, page_offset, 0, 24);
    } else if mode.hires {
        let hires_base: usize = if mode.page2 { 0x4000 } else { 0x2000 };
        let scanlines: usize = if mode.mixed { 160 } else { 192 };
        render_hires_scanlines_rgba(ram, rgba, hires_base, scanlines, color_mode);
        if mode.mixed {
            fill_rgba_region(rgba, black, 0, 160, RGBA_WIDTH, 32);
            render_text_rows_rgba(ram, rgba, flash_on, color_mode, page_offset, 20, 24);
        }
    } else {
        let text_rows: usize = if mode.mixed { 20 } else { 24 };
        render_lores_rows_rgba(ram, rgba, page_offset, text_rows, color_mode);
        if mode.mixed {
            fill_rgba_region(rgba, black, 0, 160, RGBA_WIDTH, 32);
            render_text_rows_rgba(ram, rgba, flash_on, color_mode, page_offset, 20, 24);
        }
    }
    assert(forall|i: int| RGBA_SIZE <= i < rgba@.len() ==> #[trigger] rgba@[i] == filled[i]);
}

} // verus!
