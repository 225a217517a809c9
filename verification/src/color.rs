use vstd::prelude::*;

verus! {

/// An RGBA color with one byte per channel.
#[derive(Clone, Copy, PartialEq, Eq, Structural, Debug)]
pub struct Color {
    pub r: u8,
    pub g: u8,
    pub b: u8,
    pub a: u8,
}

/// The pixel value that marks a live cell.
pub open spec fn white_px() -> (u8, u8, u8, u8) {
    (255u8, 255u8, 255u8, 255u8)
}

/// The pixel value that marks a dead cell, and the value returned for an
/// out-of-bounds read.
pub open spec fn black_px() -> (u8, u8, u8, u8) {
    (0u8, 0u8, 0u8, 255u8)
}

/// A cell is alive exactly when its stored color is pure white.
pub open spec fn px_alive(p: (u8, u8, u8, u8)) -> bool {
    p == white_px()
}

/// A cell is painted to the rendering sink exactly when any of its color
/// channels is non-zero.
pub open spec fn px_drawn(p: (u8, u8, u8, u8)) -> bool {
    p.0 > 0 || p.1 > 0 || p.2 > 0
}

impl Color {
    /// The color's channels as a plain tuple, the form the grid model uses.
    pub open spec fn rgba(self) -> (u8, u8, u8, u8) {
        (self.r, self.g, self.b, self.a)
    }

    pub fn new(r: u8, g: u8, b: u8, a: u8) -> (c: Color)
        ensures
            c.rgba() == (r, g, b, a),
    {
        Color { r, g, b, a }
    }

    pub fn white() -> (c: Color)
        ensures
            c.rgba() == white_px(),
    {
        Color { r: 255, g: 255, b: 255, a: 255 }
    }

    pub fn black() -> (c: Color)
        ensures
            c.rgba() == black_px(),
    {
        Color { r: 0, g: 0, b: 0, a: 255 }
    }
}

} // verus!
