use vstd::prelude::*;
use vstd::arithmetic::mul::lemma_mul_is_distributive_add_other_way;
use crate::color::{black_px, px_drawn, Color};

verus! {

/// Owns the RGBA pixel storage of one surface. The storage is an `image`
/// crate buffer; Verus sees it only through the names `pixels_of`,
/// `grid_width` and `grid_height` and the trusted wrappers below.
#[verifier::external_body]
pub struct PixelGrid {
    buf: image::ImageBuffer<image::Rgba<u8>, Vec<u8>>,
}

/// What the pixel buffer holds: one RGBA tuple per cell, row-major, the cell
/// at (x, y) standing at index y*width + x.
pub uninterp spec fn pixels_of(g: PixelGrid) -> Seq<(u8, u8, u8, u8)>;

/// The width the pixel buffer was created with.
pub uninterp spec fn grid_width(g: PixelGrid) -> u32;

/// The height the pixel buffer was created with.
pub uninterp spec fn grid_height(g: PixelGrid) -> u32;

/// Relies on image::ImageBuffer::from_pixel: a width-by-height buffer with
/// every pixel set to the given color. It panics only when width*height*4
/// overflows usize, which the precondition rules out.
#[verifier::external_body]
fn grid_new(width: u32, height: u32, c: Color) -> (g: PixelGrid)
    requires
        4 * (width as int) * (height as int) <= usize::MAX as int,
    ensures
        grid_width(g) == width,
        grid_height(g) == height,
        pixels_of(g) == Seq::new((width * height) as nat, |i: int| c.rgba()),
{
    PixelGrid { buf: image::ImageBuffer::from_pixel(width, height, image::Rgba([c.r, c.g, c.b, c.a])) }
}

/// Relies on image::ImageBuffer::put_pixel: overwrites the pixel stored at
/// (x, y), row-major index y*width + x, and nothing else. It panics only when
/// (x, y) is out of bounds, which the precondition rules out.
#[verifier::external_body]
fn grid_put(g: &mut PixelGrid, x: u32, y: u32, c: Color)
    requires
        x < grid_width(*old(g)),
        y < grid_height(*old(g)),
    ensures
        grid_width(*final(g)) == grid_width(*old(g)),
        grid_height(*final(g)) == grid_height(*old(g)),
        pixels_of(*final(g)) == pixels_of(*old(g)).update(
            (y as int) * (grid_width(*old(g)) as int) + (x as int),
            c.rgba(),
        ),
{
    g.buf.put_pixel(x, y, image::Rgba([c.r, c.g, c.b, c.a]));
}

/// Relies on image::ImageBuffer::get_pixel: returns the pixel stored at
/// (x, y), row-major index y*width + x. It panics only when (x, y) is out of
/// bounds, which the precondition rules out.
#[verifier::external_body]
fn grid_get(g: &PixelGrid, x: u32, y: u32) -> (c: Color)
    requires
        x < grid_width(*g),
        y < grid_height(*g),
    ensures
        c.rgba() == pixels_of(*g)[(y as int) * (grid_width(*g) as int) + (x as int)],
{
    let p = g.buf.get_pixel(x, y);
    Color { r: p.0[0], g: p.0[1], b: p.0[2], a: p.0[3] }
}

/// Writing a cell: inside the bounds the stored pixel is overwritten, outside
/// them the grid is unchanged.
pub open spec fn write_cell(
    g: Seq<(u8, u8, u8, u8)>,
    w: int,
    h: int,
    x: int,
    y: int,
    p: (u8, u8, u8, u8),
) -> Seq<(u8, u8, u8, u8)> {
    if 0 <= x < w && 0 <= y < h {
        g.update(y * w + x, p)
    } else {
        g
    }
}

pub proof fn lemma_row_major_bounds(x: int, y: int, w: int, h: int)
    by (nonlinear_arith)
    requires
        0 <= x < w,
        0 <= y < h,
    ensures
        0 <= y * w + x < w * h,
{
}

/// A fixed-size surface of RGBA cells at a given integer display scale.
pub struct Framebuffer {
    pub width: u32,
    pub height: u32,
    pub scale: u32,
    pub grid: PixelGrid,
}

impl Framebuffer {
    /// The grid as a row-major sequence of RGBA pixels: the cell at (x, y)
    /// stands at index y*width + x.
    pub closed spec fn view(&self) -> Seq<(u8, u8, u8, u8)> {
        pixels_of(self.grid)
    }

    pub closed spec fn inv(&self) -> bool {
        grid_width(self.grid) == self.width && grid_height(self.grid) == self.height
    }

    /// Well-formedness: the pixel sequence covers exactly width*height cells,
    /// and both dimensions are addressable with the signed coordinates the
    /// point operations take.
    pub open spec fn wf(&self) -> bool {
        &&& self@.len() == (self.width as int) * (self.height as int)
        &&& self.width <= 0x7fff_ffff
        &&& self.height <= 0x7fff_ffff
        &&& self.inv()
    }

    /// The color a read at (x, y) observes: the stored pixel inside the
    /// bounds, black outside them.
    pub open spec fn color_at(&self, x: int, y: int) -> (u8, u8, u8, u8) {
        if 0 <= x < self.width && 0 <= y < self.height {
            self@[y * (self.width as int) + x]
        } else {
            black_px()
        }
    }

    /// Allocates a width-by-height surface with every cell dead (black).
    pub fn new(width: u32, height: u32, scale: u32) -> (fb: Framebuffer)
        requires
            4 * (width as int) * (height as int) <= usize::MAX as int,
            width <= 0x7fff_ffff,
            height <= 0x7fff_ffff,
        ensures
            fb.wf(),
            fb.width == width,
            fb.height == height,
            fb.scale == scale,
            fb@ == Seq::new((width * height) as nat, |i: int| black_px()),
    {
        let grid = grid_new(width, height, Color::black());
        Framebuffer { width, height, scale, grid }
    }

    /// Resets every cell to black. Dimensions and scale are unchanged.
    pub fn clear(&mut self)
        requires
            old(self).wf(),
        ensures
            final(self).wf(),
            final(self).width == old(self).width,
            final(self).height == old(self).height,
            final(self).scale == old(self).scale,
            final(self)@ == Seq::new(old(self)@.len(), |i: int| black_px()),
    {
        let w = self.width;
        let h = self.height;
        let mut y: u32 = 0;
        while y < h
            invariant
                self.wf(),
                self.width == w,
                self.height == h,
                self.scale == old(self).scale,
                y <= h,
                self@.len() == old(self)@.len(),
                forall|i: int| 0 <= i < (y as int) * (w as int) ==> self@[i] == black_px(),
                forall|i: int| (y as int) * (w as int) <= i < self@.len() ==> self@[i] == old(self)@[i],
            decreases h - y,
        {
            let mut x: u32 = 0;
            while x < w
                invariant
                    self.wf(),
                    self.width == w,
                    self.height == h,
                    self.scale == old(self).scale,
                    y < h,
                    x <= w,
                    self@.len() == old(self)@.len(),
                    forall|i: int| 0 <= i < (y as int) * (w as int) + (x as int) ==> self@[i] == black_px(),
                    forall|i: int|
                        (y as int) * (w as int) + (x as int) <= i < self@.len()
                            ==> self@[i] == old(self)@[i],
                decreases w - x,
            {
                proof {
                    lemma_row_major_bounds(x as int, y as int, w as int, h as int);
                }
                grid_put(&mut self.grid, x, y, Color::black());
                x = x + 1;
            }
            proof {
                lemma_mul_is_distributive_add_other_way(w as int, y as int, 1);
            }
            y = y + 1;
        }
        proof {
            assert(self@ =~= Seq::new(old(self)@.len(), |i: int| black_px()));
        }
    }

    /// Writes one cell. Inside the bounds the stored color is overwritten;
    /// outside them the call silently does nothing.
    pub fn point(&mut self, x: i32, y: i32, color: Color)
        requires
            old(self).wf(),
        ensures
            final(self).wf(),
            final(self).width == old(self).width,
            final(self).height == old(self).height,
            final(self).scale == old(self).scale,
            final(self)@ == write_cell(
                old(self)@,
                old(self).width as int,
                old(self).height as int,
                x as int,
                y as int,
                color.rgba(),
            ),
    {
        if x >= 0 && y >= 0 && x < self.width as i32 && y < self.height as i32 {
            proof {
                lemma_row_major_bounds(x as int, y as int, self.width as int, self.height as int);
            }
            grid_put(&mut self.grid, x as u32, y as u32, color);
        }
    }

    /// Reads one cell. Any coordinate is accepted; a read outside the bounds
    /// returns black, never the wrapped cell.
    pub fn get_color(&self, x: i32, y: i32) -> (c: Color)
        requires
            self.wf(),
        ensures
            c.rgba() == self.color_at(x as int, y as int),
    {
        if x < 0 || y < 0 || x >= self.width as i32 || y >= self.height as i32 {
            return Color::black();
        }
        proof {
            lemma_row_major_bounds(x as int, y as int, self.width as int, self.height as int);
        }
        grid_get(&self.grid, x as u32, y as u32)
    }

    /// Whether the cell at (x, y) is painted to the rendering sink: true
    /// exactly when one of its color channels is non-zero.
    pub fn is_drawn(&self, x: u32, y: u32) -> (r: bool)
        requires
            self.wf(),
            x < self.width,
            y < self.height,
        ensures
            r == px_drawn(self@[(y as int) * (self.width as int) + (x as int)]),
    {
        let c = self.get_color(x as i32, y as i32);
        c.r > 0 || c.g > 0 || c.b > 0
    }
}

} // verus!
