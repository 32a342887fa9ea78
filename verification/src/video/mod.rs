//! Apple II video rendering.
//!
//! All display modes (TEXT, GR, HGR) render to one 280×192 pixel grid,
//! either as a monochrome bitmap (one bit per pixel, 35 bytes per row,
//! most significant bit leftmost) or as RGBA pixels.

pub mod braille;
pub mod layout;
pub mod mono;
pub mod overlay;
pub mod rgba;

pub use mono::{render, render_text_page};
pub use overlay::render_status_bar;
pub use rgba::render_rgba;



use vstd::prelude::*;

verus! {

/// Bitmap dimensions: 280 pixels wide, 192 pixels tall.
pub const BITMAP_WIDTH: usize = 280;
pub const BITMAP_HEIGHT: usize = 192;
/// Bytes per bitmap row.
pub const BITMAP_STRIDE: usize = BITMAP_WIDTH / 8;
/// Bytes of a whole bitmap.
pub const BITMAP_SIZE: usize = BITMAP_STRIDE * BITMAP_HEIGHT;

/// RGBA frame dimensions (those of the bitmap).
pub const RGBA_WIDTH: usize = BITMAP_WIDTH;
pub const RGBA_HEIGHT: usize = BITMAP_HEIGHT;
/// Bytes of a whole RGBA frame.
pub const RGBA_SIZE: usize = RGBA_WIDTH * RGBA_HEIGHT * 4;

/// Display mode state, controlled by soft switches $C050-$C057.
#[derive(Clone, Copy, Debug, PartialEq, Eq, Structural)]
pub struct DisplayMode {
    /// $C051/$C050: TEXT on/off.
    pub text: bool,
    /// $C053/$C052: mixed mode (4 text rows at the bottom).
    pub mixed: bool,
    /// $C055/$C054: display page 2.
    pub page2: bool,
    /// $C057/$C056: hi-res graphics.
    pub hires: bool,
}

/// Color mode for RGBA rendering.
#[derive(Clone, Copy, Debug, PartialEq, Eq, Structural)]
pub enum DisplayColorMode {
    /// Full color (Lo-Res 16 colors, Hi-Res NTSC artifact colors).
    Color,
    /// Monochrome (green phosphor).
    Monochrome,
    /// Monochrome with simulated CRT scanlines.
    MonochromeScanlines,
}

impl Default for DisplayMode {
    /// Power-on mode: full-screen text, page 1.
    fn default() -> (m: Self)
        ensures
            m == (DisplayMode { text: true, mixed: false, page2: false, hires: false }),
    {
        DisplayMode { text: true, mixed: false, page2: false, hires: false }
    }
}

impl Default for DisplayColorMode {
    /// Full color.
    fn default() -> (m: Self)
        ensures
            m == DisplayColorMode::Color,
    {
        DisplayColorMode::Color
    }
}

/// Offset of the text / lo-res page: page 2 sits $0400 above page 1.
pub open spec fn page_offset(mode: DisplayMode) -> int {
    if mode.page2 { 0x0400 } else { 0 }
}

/// Start of the hi-res page: $2000 or $4000.
pub open spec fn hires_base(mode: DisplayMode) -> int {
    if mode.page2 { 0x4000 } else { 0x2000 }
}

/// Hi-res scanlines shown: 160 in mixed mode, else all 192.
pub open spec fn hires_lines(mode: DisplayMode) -> int {
    if mode.mixed { 160 } else { 192 }
}

/// Lo-res rows shown: 20 in mixed mode, else all 24.
pub open spec fn lores_rows(mode: DisplayMode) -> int {
    if mode.mixed { 20 } else { 24 }
}

/// Bytes of memory that rendering `mode` reads: one past the highest
/// address it reads.
pub open spec fn ram_needed(mode: DisplayMode) -> int {
    if !mode.text && mode.hires {
        hires_base(mode) + (if mode.mixed { 0x1FD0int } else { 0x1FF8int })
    } else {
        page_offset(mode) + 0x07F8
    }
}

/// Bytes of memory that rendering `mode` reads (see `ram_needed`), for
/// callers to check a memory slice against.
pub fn required_ram(mode: &DisplayMode) -> (n: usize)
    ensures
        n == ram_needed(*mode),
{
    let page_offset: usize = if mode.page2 { 0x0400 } else { 0 };
    if !mode.text && mode.hires {
        let base: usize = if mode.page2 { 0x4000 } else { 0x2000 };
        base + if mode.mixed { 0x1FD0 } else { 0x1FF8 }
    } else {
        page_offset + 0x07F8
    }
}

/// The kind of picture a pixel row shows.
pub enum ScreenArea {
    Text,
    Hires,
    Lores,
}

/// The area of the screen that pixel row `y` belongs to in `mode`.
pub open spec fn area_of(mode: DisplayMode, y: int) -> ScreenArea {
    if mode.text {
        ScreenArea::Text
    } else if mode.hires {
        if y < hires_lines(mode) { ScreenArea::Hires } else { ScreenArea::Text }
    } else {
        if y < lores_rows(mode) * 8 { ScreenArea::Lores } else { ScreenArea::Text }
    }
}

} // verus!
