//! Screen memory layout: the character generator, the text row
//! addresses and the interleaved hi-res scanline addresses.

use vstd::prelude::*;

verus! {

/// Apple II character generator: row `row` (0 to 7) of glyph `glyph`
/// (0 to 63), in hardware order `@A..Z[\]^_ !"#..0-9:;<=>?`. Bit 6 is the
/// leftmost dot, bit 0 the rightmost.
pub open spec fn char_rom(glyph: u8, row: int) -> u8 {
    let r = glyph_rows(glyph);
    if row == 0 { r.0 } else if row == 1 { r.1 } else if row == 2 { r.2 } else if row == 3 { r.3 }
    else if row == 4 { r.4 } else if row == 5 { r.5 } else if row == 6 { r.6 } else { r.7 }
}

/// The eight rows of glyph `glyph` (0 to 63).
pub open spec fn glyph_rows(glyph: u8) -> (u8, u8, u8, u8, u8, u8, u8, u8) {
    match glyph {
        0 => (0x00, 0x1C, 0x22, 0x2A, 0x2E, 0x2C, 0x20, 0x1E),
        1 => (0x00, 0x08, 0x14, 0x22, 0x22, 0x3E, 0x22, 0x22),
        2 => (0x00, 0x3C, 0x22, 0x22, 0x3C, 0x22, 0x22, 0x3C),
        3 => (0x00, 0x1C, 0x22, 0x20, 0x20, 0x20, 0x22, 0x1C),
        4 => (0x00, 0x3C, 0x22, 0x22, 0x22, 0x22, 0x22, 0x3C),
        5 => (0x00, 0x3E, 0x20, 0x20, 0x3C, 0x20, 0x20, 0x3E),
        6 => (0x00, 0x3E, 0x20, 0x20, 0x3C, 0x20, 0x20, 0x20),
        7 => (0x00, 0x1E, 0x20, 0x20, 0x20, 0x26, 0x22, 0x1E),
        8 => (0x00, 0x22, 0x22, 0x22, 0x3E, 0x22, 0x22, 0x22),
        9 => (0x00, 0x1C, 0x08, 0x08, 0x08, 0x08, 0x08, 0x1C),
        10 => (0x00, 0x02, 0x02, 0x02, 0x02, 0x02, 0x22, 0x1C),
        11 => (0x00, 0x22, 0x24, 0x28, 0x30, 0x28, 0x24, 0x22),
        12 => (0x00, 0x20, 0x20, 0x20, 0x20, 0x20, 0x20, 0x3E),
        13 => (0x00, 0x22, 0x36, 0x2A, 0x2A, 0x22, 0x22, 0x22),
        14 => (0x00, 0x22, 0x22, 0x32, 0x2A, 0x26, 0x22, 0x22),
        15 => (0x00, 0x1C, 0x22, 0x22, 0x22, 0x22, 0x22, 0x1C),
        16 => (0x00, 0x3C, 0x22, 0x22, 0x3C, 0x20, 0x20, 0x20),
        17 => (0x00, 0x1C, 0x22, 0x22, 0x22, 0x2A, 0x24, 0x1A),
        18 => (0x00, 0x3C, 0x22, 0x22, 0x3C, 0x28, 0x24, 0x22),
        19 => (0x00, 0x1C, 0x22, 0x20, 0x1C, 0x02, 0x22, 0x1C),
        20 => (0x00, 0x3E, 0x08, 0x08, 0x08, 0x08, 0x08, 0x08),
        21 => (0x00, 0x22, 0x22, 0x22, 0x22, 0x22, 0x22, 0x1C),
        22 => (0x00, 0x22, 0x22, 0x22, 0x22, 0x22, 0x14, 0x08),
        23 => (0x00, 0x22, 0x22, 0x22, 0x2A, 0x2A, 0x36, 0x22),
        24 => (0x00, 0x22, 0x22, 0x14, 0x08, 0x14, 0x22, 0x22),
        25 => (0x00, 0x22, 0x22, 0x14, 0x08, 0x08, 0x08, 0x08),
        26 => (0x00, 0x3E, 0x02, 0x04, 0x08, 0x10, 0x20, 0x3E),
        27 => (0x00, 0x3E, 0x30, 0x30, 0x30, 0x30, 0x30, 0x3E),
        28 => (0x00, 0x00, 0x20, 0x10, 0x08, 0x04, 0x02, 0x00),
        29 => (0x00, 0x3E, 0x06, 0x06, 0x06, 0x06, 0x06, 0x3E),
        30 => (0x00, 0x00, 0x00, 0x08, 0x14, 0x22, 0x00, 0x00),
        31 => (0x00, 0x00, 0x00, 0x00, 0x00, 0x00, 0x00, 0x3E),
        32 => (0x00, 0x00, 0x00, 0x00, 0x00, 0x00, 0x00, 0x00),
        33 => (0x00, 0x08, 0x08, 0x08, 0x08, 0x08, 0x00, 0x08),
        34 => (0x00, 0x14, 0x14, 0x14, 0x00, 0x00, 0x00, 0x00),
        35 => (0x00, 0x14, 0x14, 0x3E, 0x14, 0x3E, 0x14, 0x14),
        36 => (0x00, 0x08, 0x1E, 0x28, 0x1C, 0x0A, 0x3C, 0x08),
        37 => (0x00, 0x30, 0x32, 0x04, 0x08, 0x10, 0x26, 0x06),
        38 => (0x00, 0x10, 0x28, 0x28, 0x10, 0x2A, 0x24, 0x1A),
        39 => (0x00, 0x08, 0x08, 0x08, 0x00, 0x00, 0x00, 0x00),
        40 => (0x00, 0x08, 0x10, 0x20, 0x20, 0x20, 0x10, 0x08),
        41 => (0x00, 0x08, 0x04, 0x02, 0x02, 0x02, 0x04, 0x08),
        42 => (0x00, 0x08, 0x2A, 0x1C, 0x08, 0x1C, 0x2A, 0x08),
        43 => (0x00, 0x00, 0x08, 0x08, 0x3E, 0x08, 0x08, 0x00),
        44 => (0x00, 0x00, 0x00, 0x00, 0x00, 0x08, 0x08, 0x10),
        45 => (0x00, 0x00, 0x00, 0x00, 0x3E, 0x00, 0x00, 0x00),
        46 => (0x00, 0x00, 0x00, 0x00, 0x00, 0x00, 0x00, 0x08),
        47 => (0x00, 0x00, 0x02, 0x04, 0x08, 0x10, 0x20, 0x00),
        48 => (0x00, 0x1C, 0x22, 0x26, 0x2A, 0x32, 0x22, 0x1C),
        49 => (0x00, 0x08, 0x18, 0x08, 0x08, 0x08, 0x08, 0x1C),
        50 => (0x00, 0x1C, 0x22, 0x02, 0x0C, 0x10, 0x20, 0x3E),
        51 => (0x00, 0x3E, 0x02, 0x04, 0x0C, 0x02, 0x22, 0x1C),
        52 => (0x00, 0x04, 0x0C, 0x14, 0x24, 0x3E, 0x04, 0x04),
        53 => (0x00, 0x3E, 0x20, 0x3C, 0x02, 0x02, 0x22, 0x1C),
        54 => (0x00, 0x0E, 0x10, 0x20, 0x3C, 0x22, 0x22, 0x1C),
        55 => (0x00, 0x3E, 0x02, 0x04, 0x08, 0x10, 0x10, 0x10),
        56 => (0x00, 0x1C, 0x22, 0x22, 0x1C, 0x22, 0x22, 0x1C),
        57 => (0x00, 0x1C, 0x22, 0x22, 0x1E, 0x02, 0x04, 0x38),
        58 => (0x00, 0x00, 0x00, 0x08, 0x00, 0x08, 0x00, 0x00),
        59 => (0x00, 0x00, 0x00, 0x08, 0x00, 0x08, 0x08, 0x10),
        60 => (0x00, 0x04, 0x08, 0x10, 0x20, 0x10, 0x08, 0x04),
        61 => (0x00, 0x00, 0x00, 0x3E, 0x00, 0x3E, 0x00, 0x00),
        62 => (0x00, 0x10, 0x08, 0x04, 0x02, 0x04, 0x08, 0x10),
        _ => (0x00, 0x1C, 0x22, 0x04, 0x08, 0x08, 0x00, 0x08),
    }
}

/// Row `row` of glyph `glyph` of the character generator.
pub fn char_rom_row(glyph: u8, row: usize) -> (bits: u8)
    requires
        glyph < 64,
        row < 8,
    ensures
        bits == char_rom(glyph, row as int),
{
    let r: (u8, u8, u8, u8, u8, u8, u8, u8) = match glyph {
        0 => (0x00, 0x1C, 0x22, 0x2A, 0x2E, 0x2C, 0x20, 0x1E),
        1 => (0x00, 0x08, 0x14, 0x22, 0x22, 0x3E, 0x22, 0x22),
        2 => (0x00, 0x3C, 0x22, 0x22, 0x3C, 0x22, 0x22, 0x3C),
        3 => (0x00, 0x1C, 0x22, 0x20, 0x20, 0x20, 0x22, 0x1C),
        4 => (0x00, 0x3C, 0x22, 0x22, 0x22, 0x22, 0x22, 0x3C),
        5 => (0x00, 0x3E, 0x20, 0x20, 0x3C, 0x20, 0x20, 0x3E),
        6 => (0x00, 0x3E, 0x20, 0x20, 0x3C, 0x20, 0x20, 0x20),
        7 => (0x00, 0x1E, 0x20, 0x20, 0x20, 0x26, 0x22, 0x1E),
        8 => (0x00, 0x22, 0x22, 0x22, 0x3E, 0x22, 0x22, 0x22),
        9 => (0x00, 0x1C, 0x08, 0x08, 0x08, 0x08, 0x08, 0x1C),
        10 => (0x00, 0x02, 0x02, 0x02, 0x02, 0x02, 0x22, 0x1C),
        11 => (0x00, 0x22, 0x24, 0x28, 0x30, 0x28, 0x24, 0x22),
        12 => (0x00, 0x20, 0x20, 0x20, 0x20, 0x20, 0x20, 0x3E),
        13 => (0x00, 0x22, 0x36, 0x2A, 0x2A, 0x22, 0x22, 0x22),
        14 => (0x00, 0x22, 0x22, 0x32, 0x2A, 0x26, 0x22, 0x22),
        15 => (0x00, 0x1C, 0x22, 0x22, 0x22, 0x22, 0x22, 0x1C),
        16 => (0x00, 0x3C, 0x22, 0x22, 0x3C, 0x20, 0x20, 0x20),
        17 => (0x00, 0x1C, 0x22, 0x22, 0x22, 0x2A, 0x24, 0x1A),
        18 => (0x00, 0x3C, 0x22, 0x22, 0x3C, 0x28, 0x24, 0x22),
        19 => (0x00, 0x1C, 0x22, 0x20, 0x1C, 0x02, 0x22, 0x1C),
        20 => (0x00, 0x3E, 0x08, 0x08, 0x08, 0x08, 0x08, 0x08),
        21 => (0x00, 0x22, 0x22, 0x22, 0x22, 0x22, 0x22, 0x1C),
        22 => (0x00, 0x22, 0x22, 0x22, 0x22, 0x22, 0x14, 0x08),
        23 => (0x00, 0x22, 0x22, 0x22, 0x2A, 0x2A, 0x36, 0x22),
        24 => (0x00, 0x22, 0x22, 0x14, 0x08, 0x14, 0x22, 0x22),
        25 => (0x00, 0x22, 0x22, 0x14, 0x08, 0x08, 0x08, 0x08),
        26 => (0x00, 0x3E, 0x02, 0x04, 0x08, 0x10, 0x20, 0x3E),
        27 => (0x00, 0x3E, 0x30, 0x30, 0x30, 0x30, 0x30, 0x3E),
        28 => (0x00, 0x00, 0x20, 0x10, 0x08, 0x04, 0x02, 0x00),
        29 => (0x00, 0x3E, 0x06, 0x06, 0x06, 0x06, 0x06, 0x3E),
        30 => (0x00, 0x00, 0x00, 0x08, 0x14, 0x22, 0x00, 0x00),
        31 => (0x00, 0x00, 0x00, 0x00, 0x00, 0x00, 0x00, 0x3E),
        32 => (0x00, 0x00, 0x00, 0x00, 0x00, 0x00, 0x00, 0x00),
        33 => (0x00, 0x08, 0x08, 0x08, 0x08, 0x08, 0x00, 0x08),
        34 => (0x00, 0x14, 0x14, 0x14, 0x00, 0x00, 0x00, 0x00),
        35 => (0x00, 0x14, 0x14, 0x3E, 0x14, 0x3E, 0x14, 0x14),
        36 => (0x00, 0x08, 0x1E, 0x28, 0x1C, 0x0A, 0x3C, 0x08),
        37 => (0x00, 0x30, 0x32, 0x04, 0x08, 0x10, 0x26, 0x06),
        38 => (0x00, 0x10, 0x28, 0x28, 0x10, 0x2A, 0x24, 0x1A),
        39 => (0x00, 0x08, 0x08, 0x08, 0x00, 0x00, 0x00, 0x00),
        40 => (0x00, 0x08, 0x10, 0x20, 0x20, 0x20, 0x10, 0x08),
        41 => (0x00, 0x08, 0x04, 0x02, 0x02, 0x02, 0x04, 0x08),
        42 => (0x00, 0x08, 0x2A, 0x1C, 0x08, 0x1C, 0x2A, 0x08),
        43 => (0x00, 0x00, 0x08, 0x08, 0x3E, 0x08, 0x08, 0x00),
        44 => (0x00, 0x00, 0x00, 0x00, 0x00, 0x08, 0x08, 0x10),
        45 => (0x00, 0x00, 0x00, 0x00, 0x3E, 0x00, 0x00, 0x00),
        46 => (0x00, 0x00, 0x00, 0x00, 0x00, 0x00, 0x00, 0x08),
        47 => (0x00, 0x00, 0x02, 0x04, 0x08, 0x10, 0x20, 0x00),
        48 => (0x00, 0x1C, 0x22, 0x26, 0x2A, 0x32, 0x22, 0x1C),
        49 => (0x00, 0x08, 0x18, 0x08, 0x08, 0x08, 0x08, 0x1C),
        50 => (0x00, 0x1C, 0x22, 0x02, 0x0C, 0x10, 0x20, 0x3E),
        51 => (0x00, 0x3E, 0x02, 0x04, 0x0C, 0x02, 0x22, 0x1C),
        52 => (0x00, 0x04, 0x0C, 0x14, 0x24, 0x3E, 0x04, 0x04),
        53 => (0x00, 0x3E, 0x20, 0x3C, 0x02, 0x02, 0x22, 0x1C),
        54 => (0x00, 0x0E, 0x10, 0x20, 0x3C, 0x22, 0x22, 0x1C),
        55 => (0x00, 0x3E, 0x02, 0x04, 0x08, 0x10, 0x10, 0x10),
        56 => (0x00, 0x1C, 0x22, 0x22, 0x1C, 0x22, 0x22, 0x1C),
        57 => (0x00, 0x1C, 0x22, 0x22, 0x1E, 0x02, 0x04, 0x38),
        58 => (0x00, 0x00, 0x00, 0x08, 0x00, 0x08, 0x00, 0x00),
        59 => (0x00, 0x00, 0x00, 0x08, 0x00, 0x08, 0x08, 0x10),
        60 => (0x00, 0x04, 0x08, 0x10, 0x20, 0x10, 0x08, 0x04),
        61 => (0x00, 0x00, 0x00, 0x3E, 0x00, 0x3E, 0x00, 0x00),
        62 => (0x00, 0x10, 0x08, 0x04, 0x02, 0x04, 0x08, 0x10),
        _ => (0x00, 0x1C, 0x22, 0x04, 0x08, 0x08, 0x00, 0x08),
    };
    match row {
        0 => r.0, 1 => r.1, 2 => r.2, 3 => r.3, 4 => r.4, 5 => r.5, 6 => r.6, _ => r.7,
    }
}

/// Base address of text row `row` (0 to 23) on page 1; page 2 is $0400
/// higher. Rows interleave in three groups of eight.
pub open spec fn text_line_addr_spec(row: int) -> int {
    0x0400 + (row % 8) * 0x80 + (row / 8) * 40
}

/// Base address of text row `row` on page 1.
pub fn text_line_addr(row: usize) -> (addr: u16)
    requires
        row < 24,
    ensures
        addr == text_line_addr_spec(row as int),
        0x0400 <= addr <= 0x07D0,
{
    match row {
        0 => 0x0400, 1 => 0x0480, 2 => 0x0500, 3 => 0x0580, 4 => 0x0600, 5 => 0x0680, 6 => 0x0700, 7 => 0x0780, 8 => 0x0428, 9 => 0x04A8, 10 => 0x0528, 11 => 0x05A8, 12 => 0x0628, 13 => 0x06A8, 14 => 0x0728, 15 => 0x07A8, 16 => 0x0450, 17 => 0x04D0, 18 => 0x0550, 19 => 0x05D0, 20 => 0x0650, 21 => 0x06D0, 22 => 0x0750, _ => 0x07D0,
    }
}

/// Address of hi-res scanline `y` (0 to 191) in the page at `base`:
/// `base + (y % 8) * $400 + ((y / 8) % 8) * $80 + (y / 64) * 40`.
pub open spec fn hgr_line_addr_spec(base: int, y: int) -> int {
    base + (y % 8) * 0x400 + ((y / 8) % 8) * 0x80 + (y / 64) * 40
}

/// Address of hi-res scanline `y` in the page at `base`.
pub fn hgr_line_addr(base: usize, y: usize) -> (addr: usize)
    requires
        y < 192,
        base + 0x2000 <= usize::MAX,
    ensures
        addr == hgr_line_addr_spec(base as int, y as int),
        addr + 40 <= base + 0x1FF8,
        y < 160 ==> addr + 40 <= base + 0x1FD0,
{
    proof {
        lemma_hgr_offset_bounds(y as int);
    }
    base + (y % 8) * 0x400 + ((y / 8) % 8) * 0x80 + (y / 64) * 40
}

/// Bounds of the offset of a hi-res scanline in its page.
pub proof fn lemma_hgr_offset_bounds(y: int)
    requires
        0 <= y < 192,
    ensures
        0 <= hgr_line_addr_spec(0, y),
        hgr_line_addr_spec(0, y) + 40 <= 0x1FF8,
        y < 160 ==> hgr_line_addr_spec(0, y) + 40 <= 0x1FD0,
{
    let a = y / 64;
    let b = (y / 8) % 8;
    let c = y % 8;
    assert(0 <= a < 3);
    assert(0 <= b < 8);
    assert(0 <= c < 8);
    assert(y < 160 && a == 2 ==> b < 4);
}

/// The text page interleave: row 0 starts at $0400; within each group of
/// eight rows the next row starts $80 further on, and row `r + 8` starts
/// 40 bytes after row `r`, so the three thirds of the screen share each
/// 128-byte block.
pub proof fn lemma_text_rows_interleave(row: int)
    requires
        0 <= row < 24,
    ensures
        text_line_addr_spec(0) == 0x0400,
        row % 8 != 7 && row + 1 < 24 ==> text_line_addr_spec(row + 1) == text_line_addr_spec(row) + 0x80,
        row + 8 < 24 ==> text_line_addr_spec(row + 8) == text_line_addr_spec(row) + 40,
        0x0400 <= text_line_addr_spec(row) && text_line_addr_spec(row) + 40 <= 0x0800,
{
    if row + 1 < 24 && row % 8 != 7 {
        assert((row + 1) % 8 == row % 8 + 1 && (row + 1) / 8 == row / 8);
    }
    if row + 8 < 24 {
        assert((row + 8) % 8 == row % 8 && (row + 8) / 8 == row / 8 + 1);
    }
}

/// The hi-res page interleave: scanline 0 starts at the page base; the
/// eight scanlines of a text row are $400 apart; a text row further down
/// starts $80 further on within a third of the screen, and a third further
/// down starts 40 bytes further on.
pub proof fn lemma_hires_lines_interleave(base: int, y: int)
    requires
        0 <= y < 192,
    ensures
        hgr_line_addr_spec(base, 0) == base,
        y % 8 != 7 && y + 1 < 192 ==> hgr_line_addr_spec(base, y + 1) == hgr_line_addr_spec(base, y) + 0x400,
        (y / 8) % 8 != 7 && y + 8 < 192 ==> hgr_line_addr_spec(base, y + 8) == hgr_line_addr_spec(base, y) + 0x80,
        y + 64 < 192 ==> hgr_line_addr_spec(base, y + 64) == hgr_line_addr_spec(base, y) + 40,
{
    if y % 8 != 7 && y + 1 < 192 {
        assert((y + 1) % 8 == y % 8 + 1 && (y + 1) / 8 == y / 8 && (y + 1) / 64 == y / 64);
    }
    if (y / 8) % 8 != 7 && y + 8 < 192 {
        assert((y + 8) % 8 == y % 8 && (y + 8) / 8 == y / 8 + 1);
        assert(((y + 8) / 8) % 8 == (y / 8) % 8 + 1 && (y + 8) / 64 == y / 64);
    }
    if y + 64 < 192 {
        assert((y + 64) % 8 == y % 8 && (y + 64) / 8 == y / 8 + 8);
        assert(((y + 64) / 8) % 8 == (y / 8) % 8 && (y + 64) / 64 == y / 64 + 1);
    }
}

} // verus!
