use a2vm_core::video::braille::bitmap_to_braille;
use a2vm_core::video::layout::{hgr_line_addr, text_line_addr};
use a2vm_core::video::{
    render, render_rgba, render_status_bar, render_text_page, DisplayColorMode, DisplayMode,
    BITMAP_SIZE, BITMAP_STRIDE, RGBA_HEIGHT, RGBA_SIZE, RGBA_WIDTH,
};

fn pixel_on(bitmap: &[u8; BITMAP_SIZE], x: usize, y: usize) -> bool {
    let byte_idx = y * BITMAP_STRIDE + x / 8;
    let bit_idx = 7 - (x % 8);
    (bitmap[byte_idx] & (1 << bit_idx)) != 0
}

fn rgba_pixel(rgba: &[u8], x: usize, y: usize) -> [u8; 4] {
    let idx = (y * RGBA_WIDTH + x) * 4;
    [rgba[idx], rgba[idx + 1], rgba[idx + 2], rgba[idx + 3]]
}

#[test]
fn video_test_bitmap_dimensions() {
    assert_eq!(BITMAP_STRIDE, 35);
    assert_eq!(BITMAP_SIZE, 6720);
}

#[test]
fn video_test_empty_screen() {
    let mut ram = vec![0u8; 0x0800];
    for cell in ram.iter_mut().take(0x0800).skip(0x0400) {
        *cell = 0xA0;
    }
    let mut bitmap = [0u8; BITMAP_SIZE];
    render_text_page(&ram, &mut bitmap, false);
    assert!(bitmap.iter().all(|&b| b == 0));
}

#[test]
fn video_test_inverse_space_fills() {
    let mut ram = vec![0u8; 0x0800];
    for cell in ram.iter_mut().take(0x0800).skip(0x0400) {
        *cell = 0x00;
    }
    let mut bitmap = [0u8; BITMAP_SIZE];
    render_text_page(&ram, &mut bitmap, false);
    assert!(bitmap.iter().any(|&b| b != 0));
}

#[test]
fn video_test_text_line_addresses() {
    for row in 0..24 {
        let addr = text_line_addr(row);
        assert!((0x0400..0x0800).contains(&addr));
    }
}

#[test]
fn video_test_hgr_line_addr() {
    assert_eq!(hgr_line_addr(0x2000, 0), 0x2000);
    assert_eq!(hgr_line_addr(0x2000, 1), 0x2400);
    assert_eq!(hgr_line_addr(0x2000, 8), 0x2080);
    assert_eq!(hgr_line_addr(0x2000, 64), 0x2028);
    // Last line
    let last = hgr_line_addr(0x2000, 191);
    assert!(last + 39 <= 0x3FFF); // fits in 8K page
}

#[test]
fn video_test_lores_black_is_blank() {
    let ram = vec![0u8; 0x0800]; // all color 0
    let mut bitmap = [0u8; BITMAP_SIZE];
    let mode = DisplayMode {
        text: false,
        mixed: false,
        page2: false,
        hires: false,
    };
    render(&ram, &mode, false, &mut bitmap);
    assert!(bitmap.iter().all(|&b| b == 0));
}

#[test]
fn video_test_lores_nonzero_color_lights() {
    let mut ram = vec![0u8; 0x0800];
    // Set first cell to color 15 (both nibbles)
    ram[0x0400] = 0xFF;
    let mut bitmap = [0u8; BITMAP_SIZE];
    let mode = DisplayMode {
        text: false,
        mixed: false,
        page2: false,
        hires: false,
    };
    render(&ram, &mode, false, &mut bitmap);
    assert!(bitmap.iter().any(|&b| b != 0));
}

#[test]
fn video_test_text_slash_orientation_not_mirrored() {
    let mut ram = vec![0u8; 0x0800];
    for cell in ram.iter_mut().take(0x0800).skip(0x0400) {
        *cell = 0xA0;
    }

    // '/' glyph index = 0x2F in Apple II 64-char hardware order.
    ram[0x0400] = 0x80 | 0x2F;

    let mut bitmap = [0u8; BITMAP_SIZE];
    render_text_page(&ram, &mut bitmap, false);

    // '/' should descend from right to left in the 7x8 cell.
    assert!(pixel_on(&bitmap, 5, 2));
    assert!(pixel_on(&bitmap, 1, 6));
    assert!(!pixel_on(&bitmap, 1, 2));
    assert!(!pixel_on(&bitmap, 5, 6));
}

#[test]
fn tests_test_bitmap_dimensions() {
    assert_eq!(BITMAP_STRIDE, 35);
    assert_eq!(BITMAP_SIZE, 6720);
}

#[test]
fn tests_test_empty_screen() {
    let mut ram = vec![0u8; 0x0800];
    for cell in ram.iter_mut().take(0x0800).skip(0x0400) {
        *cell = 0xA0;
    }
    let mut bitmap = [0u8; BITMAP_SIZE];
    render_text_page(&ram, &mut bitmap, false);
    assert!(bitmap.iter().all(|&b| b == 0));
}

#[test]
fn tests_test_inverse_space_fills() {
    let mut ram = vec![0u8; 0x0800];
    for cell in ram.iter_mut().take(0x0800).skip(0x0400) {
        *cell = 0x00;
    }
    let mut bitmap = [0u8; BITMAP_SIZE];
    render_text_page(&ram, &mut bitmap, false);
    assert!(bitmap.iter().any(|&b| b != 0));
}

#[test]
fn tests_test_text_line_addresses() {
    for row in 0..24 {
        let addr = text_line_addr(row);
        assert!((0x0400..0x0800).contains(&addr));
    }
}

#[test]
fn tests_test_hgr_line_addr() {
    assert_eq!(hgr_line_addr(0x2000, 0), 0x2000);
    assert_eq!(hgr_line_addr(0x2000, 1), 0x2400);
    assert_eq!(hgr_line_addr(0x2000, 8), 0x2080);
    assert_eq!(hgr_line_addr(0x2000, 64), 0x2028);
    // Last line
    let last = hgr_line_addr(0x2000, 191);
    assert!(last + 39 <= 0x3FFF); // fits in 8K page
}

#[test]
fn tests_test_lores_black_is_blank() {
    let ram = vec![0u8; 0x0800]; // all color 0
    let mut bitmap = [0u8; BITMAP_SIZE];
    let mode = DisplayMode {
        text: false,
        mixed: false,
        page2: false,
        hires: false,
    };
    render(&ram, &mode, false, &mut bitmap);
    assert!(bitmap.iter().all(|&b| b == 0));
}

#[test]
fn tests_test_lores_nonzero_color_lights() {
    let mut ram = vec![0u8; 0x0800];
    // Set first cell to color 15 (both nibbles)
    ram[0x0400] = 0xFF;
    let mut bitmap = [0u8; BITMAP_SIZE];
    let mode = DisplayMode {
        text: false,
        mixed: false,
        page2: false,
        hires: false,
    };
    render(&ram, &mode, false, &mut bitmap);
    assert!(bitmap.iter().any(|&b| b != 0));
}

#[test]
fn tests_test_text_slash_orientation_not_mirrored() {
    let mut ram = vec![0u8; 0x0800];
    for cell in ram.iter_mut().take(0x0800).skip(0x0400) {
        *cell = 0xA0;
    }

    // '/' glyph index = 0x2F in Apple II 64-char hardware order.
    ram[0x0400] = 0x80 | 0x2F;

    let mut bitmap = [0u8; BITMAP_SIZE];
    render_text_page(&ram, &mut bitmap, false);

    // '/' should descend from right to left in the 7x8 cell.
    assert!(pixel_on(&bitmap, 5, 2));
    assert!(pixel_on(&bitmap, 1, 6));
    assert!(!pixel_on(&bitmap, 1, 2));
    assert!(!pixel_on(&bitmap, 5, 6));
}

#[test]
fn test_render_rgba_text_blank_is_background() {
    let mut ram = vec![0u8; 0x0800];
    for cell in ram.iter_mut().take(0x0800).skip(0x0400) {
        *cell = 0xA0;
    }

    let mode = DisplayMode::default();
    let mut rgba = vec![0xFF; RGBA_SIZE];
    render_rgba(&ram, &mode, false, DisplayColorMode::Color, 0, &mut rgba);

    assert_eq!(rgba_pixel(&rgba, 0, 0), [0x00, 0x00, 0x00, 0xFF]);
    assert_eq!(
        rgba_pixel(&rgba, RGBA_WIDTH - 1, RGBA_HEIGHT - 1),
        [0x00, 0x00, 0x00, 0xFF]
    );
}

#[test]
fn test_render_rgba_lores_color_cell_uses_palette() {
    let mut ram = vec![0u8; 0x0800];
    // Top nibble color = 1, bottom nibble color = 2.
    ram[0x0400] = 0x21;

    let mode = DisplayMode {
        text: false,
        mixed: false,
        page2: false,
        hires: false,
    };
    let mut rgba = vec![0x00; RGBA_SIZE];
    render_rgba(&ram, &mode, false, DisplayColorMode::Color, 0, &mut rgba);

    assert_eq!(rgba_pixel(&rgba, 0, 0), [0xDD, 0x00, 0x33, 0xFF]);
    assert_eq!(rgba_pixel(&rgba, 0, 4), [0x00, 0x00, 0x99, 0xFF]);
}

#[test]
fn flashing_text_inverts_only_while_flash_is_on() {
    let mut ram = vec![0xA0u8; 0x0800];
    ram[0x0400] = 0x60; // flashing space
    let mut off = [0u8; BITMAP_SIZE];
    let mut on = [0u8; BITMAP_SIZE];
    render_text_page(&ram, &mut off, false);
    render_text_page(&ram, &mut on, true);
    assert!(!pixel_on(&off, 0, 0));
    assert!(pixel_on(&on, 0, 0));
    assert!(pixel_on(&on, 6, 7));
    assert!(!pixel_on(&on, 7, 0));
}

#[test]
fn hires_bits_map_left_to_right() {
    let mut ram = vec![0u8; 0x4000];
    ram[0x2000] = 0x01; // leftmost pixel
    ram[0x2400] = 0x40; // seventh pixel of line 1
    let mode = DisplayMode { text: false, mixed: false, page2: false, hires: true };
    let mut bitmap = [0u8; BITMAP_SIZE];
    render(&ram, &mode, false, &mut bitmap);
    assert!(pixel_on(&bitmap, 0, 0));
    assert!(!pixel_on(&bitmap, 1, 0));
    assert!(pixel_on(&bitmap, 6, 1));
    assert_eq!(bitmap.iter().map(|b| b.count_ones()).sum::<u32>(), 2);
}

#[test]
fn mixed_mode_shows_text_in_last_four_rows() {
    let mut ram = vec![0u8; 0x4000];
    for b in ram[0x2000..0x4000].iter_mut() {
        *b = 0x7F; // every hi-res pixel on
    }
    for b in ram[0x0400..0x0800].iter_mut() {
        *b = 0xA0; // normal spaces
    }
    let mode = DisplayMode { text: false, mixed: true, page2: false, hires: true };
    let mut bitmap = [0u8; BITMAP_SIZE];
    render(&ram, &mode, false, &mut bitmap);
    assert!(pixel_on(&bitmap, 100, 159));
    assert!(!pixel_on(&bitmap, 100, 160));
    assert!(!pixel_on(&bitmap, 279, 191));
}

#[test]
fn page2_text_reads_from_0800() {
    let mut ram = vec![0xA0u8; 0x0C00];
    ram[0x0800] = 0x00; // inverse '@' on page 2
    let mode = DisplayMode { text: true, mixed: false, page2: true, hires: false };
    let mut bitmap = [0u8; BITMAP_SIZE];
    render(&ram, &mode, false, &mut bitmap);
    assert!(pixel_on(&bitmap, 0, 0));
    assert!(!pixel_on(&bitmap, 7, 0));
}

#[test]
fn hires_artifact_colors() {
    let mut ram = vec![0u8; 0x4000];
    ram[0x2000] = 0x01; // lone pixel at x = 0: purple
    ram[0x2001] = 0x81; // lone pixel at x = 7 with palette bit: orange
    ram[0x2002] = 0x03; // pixels 14 and 15 together: white
    let mode = DisplayMode { text: false, mixed: false, page2: false, hires: true };
    let mut rgba = vec![0u8; RGBA_SIZE];
    render_rgba(&ram, &mode, false, DisplayColorMode::Color, 0, &mut rgba);
    assert_eq!(rgba_pixel(&rgba, 0, 0), [0xDD, 0x22, 0xDD, 0xFF]);
    assert_eq!(rgba_pixel(&rgba, 1, 0), [0x00, 0x00, 0x00, 0xFF]);
    assert_eq!(rgba_pixel(&rgba, 7, 0), [0xFF, 0x66, 0x00, 0xFF]);
    assert_eq!(rgba_pixel(&rgba, 14, 0), [0xFF, 0xFF, 0xFF, 0xFF]);
    assert_eq!(rgba_pixel(&rgba, 15, 0), [0xFF, 0xFF, 0xFF, 0xFF]);
}

#[test]
fn monochrome_rgba_uses_green_phosphor() {
    let mut ram = vec![0u8; 0x0800];
    ram[0x0400] = 0x05;
    let mode = DisplayMode { text: false, mixed: false, page2: false, hires: false };
    let mut rgba = vec![0u8; RGBA_SIZE + 8];
    render_rgba(&ram, &mode, false, DisplayColorMode::Monochrome, 0, &mut rgba);
    assert_eq!(rgba_pixel(&rgba, 0, 0), [0x33, 0xFF, 0x33, 0xFF]);
    assert_eq!(rgba_pixel(&rgba, 0, 4), [0x00, 0x00, 0x00, 0xFF]);
    assert_eq!(&rgba[RGBA_SIZE..], &[0, 0, 0, 0xFF, 0, 0, 0, 0xFF]);
}

#[test]
fn status_bar_draws_cyan_glyphs() {
    let mut rgba = vec![0u8; RGBA_WIDTH * 8 * 4];
    render_status_bar("/", &mut rgba, RGBA_WIDTH, 0);
    // '/' has its top-right dot on row 2 at x = 5 and its bottom-left on row 6 at x = 1.
    assert_eq!(rgba_pixel(&rgba, 5, 2), [0x00, 0xFF, 0xFF, 0xFF]);
    assert_eq!(rgba_pixel(&rgba, 1, 6), [0x00, 0xFF, 0xFF, 0xFF]);
    assert_eq!(rgba_pixel(&rgba, 1, 2), [0x00, 0x00, 0x00, 0xFF]);
    // Nothing beyond the one cell is touched.
    assert_eq!(rgba_pixel(&rgba, 7, 0), [0, 0, 0, 0]);
}

#[test]
fn status_bar_skips_pixels_outside_the_buffer() {
    let mut rgba = vec![7u8; RGBA_WIDTH * 4 * 4];
    render_status_bar("AB", &mut rgba, RGBA_WIDTH, 0);
    assert_eq!(rgba.len(), RGBA_WIDTH * 4 * 4);
    assert_eq!(rgba_pixel(&rgba, 20, 0), [7, 7, 7, 7]);
}

#[test]
fn braille_packs_two_by_four_blocks() {
    let mut bitmap = [0u8; BITMAP_SIZE];
    bitmap[0] = 0x80; // pixel (0, 0): dot 1
    bitmap[3 * BITMAP_STRIDE] = 0x40; // pixel (1, 3): dot 8
    let lines = bitmap_to_braille(&bitmap);
    assert_eq!(lines.len(), 48);
    assert!(lines.iter().all(|l| l.chars().count() == 140));
    assert_eq!(lines[0].chars().next(), Some('\u{2881}'));
    assert_eq!(lines[0].chars().nth(1), Some('\u{2800}'));
}
