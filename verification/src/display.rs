//! How the 64x32 screen is laid out on a host window: each pixel is a square
//! of `SCALE_FACTOR` window pixels, lit pixels are green on black.

use vstd::prelude::*;

verus! {

/// Side of the square that shows one pixel of the screen.
pub const SCALE_FACTOR: u32 = 20;

/// Width of the host window.
pub const WINDOW_WIDTH: u32 = 1280;

/// Height of the host window.
pub const WINDOW_HEIGHT: u32 = 640;

/// A colour as red, green and blue.
#[derive(Clone, Copy, Debug, PartialEq, Eq, Structural)]
pub struct Rgb {
    pub r: u8,
    pub g: u8,
    pub b: u8,
}

/// A rectangle of the host window: its top left corner and its size.
#[derive(Clone, Copy, Debug, PartialEq, Eq, Structural)]
pub struct Cell {
    pub x: i32,
    pub y: i32,
    pub width: u32,
    pub height: u32,
}

/// The colour of a pixel: black where the stored value is zero, green
/// otherwise.
pub open spec fn color_of(value: u8) -> Rgb {
    if value == 0 {
        Rgb { r: 0, g: 0, b: 0 }
    } else {
        Rgb { r: 0, g: 250, b: 0 }
    }
}

/// The square of the window that shows the pixel in column `x` of row `y`.
pub open spec fn cell_of(x: int, y: int) -> Cell {
    Cell { x: (x * 20) as i32, y: (y * 20) as i32, width: 20, height: 20 }
}

/// The colour in which a pixel of the frame buffer is painted.
pub fn color(value: u8) -> (c: Rgb)
    ensures
        c == color_of(value),
{
    if value == 0 {
        Rgb { r: 0, g: 0, b: 0 }
    } else {
        Rgb { r: 0, g: 250, b: 0 }
    }
}

/// The square of the window that shows the pixel in column `x` of row `y`.
/// Squares of different pixels do not overlap and together fill the window.
pub fn cell(x: usize, y: usize) -> (c: Cell)
    requires
        x < 64,
        y < 32,
    ensures
        c == cell_of(x as int, y as int),
        0 <= c.x && c.x + c.width <= WINDOW_WIDTH,
        0 <= c.y && c.y + c.height <= WINDOW_HEIGHT,
{
    let left: u32 = (x as u32) * SCALE_FACTOR;
    let top: u32 = (y as u32) * SCALE_FACTOR;
    Cell { x: left as i32, y: top as i32, width: SCALE_FACTOR, height: SCALE_FACTOR }
}

} // verus!
