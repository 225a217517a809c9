use vstd::prelude::*;
use vstd::arithmetic::div_mod::lemma_fundamental_div_mod_converse;
use vstd::arithmetic::mul::lemma_mul_is_distributive_add_other_way;
use crate::framebuffer::{lemma_row_major_bounds, Framebuffer};

verus! {

/// The byte a capture stores for display pixel (px, py), channel c. The
/// owning cell is (px / scale, py / scale); inside the grid its RGB is copied
/// and the alpha channel is forced to 255, outside the grid all four bytes
/// stay at the buffer's zero default.
pub open spec fn capture_rgba(
    g: Seq<(u8, u8, u8, u8)>,
    w: int,
    h: int,
    scale: int,
    px: int,
    py: int,
    c: int,
) -> u8 {
    let cx = px / scale;
    let cy = py / scale;
    if 0 <= cx < w && 0 <= cy < h {
        let p = g[cy * w + cx];
        if c == 0 {
            p.0
        } else if c == 1 {
            p.1
        } else if c == 2 {
            p.2
        } else {
            255u8
        }
    } else {
        0u8
    }
}

/// The same byte addressed by its flat offset i into the captured buffer of
/// display width dw: pixel i/4, channel i%4, row-major.
pub open spec fn capture_byte(
    g: Seq<(u8, u8, u8, u8)>,
    w: int,
    h: int,
    scale: int,
    dw: int,
    i: int,
) -> u8 {
    capture_rgba(g, w, h, scale, (i / 4) % dw, (i / 4) / dw, i % 4)
}

/// Samples the surface into a flat RGBA buffer of the given display
/// resolution by nearest-cell sampling: display pixel (px, py) copies the
/// cell at (px / scale, py / scale). The surface is not changed.
pub fn capture_frame(fb: &Framebuffer, width: u32, height: u32) -> (r: Vec<u8>)
    requires
        fb.wf(),
        fb.scale >= 1,
        4 * (width as int) * (height as int) <= usize::MAX as int,
    ensures
        r@.len() == 4 * (width as int) * (height as int),
        forall|px: int, py: int, c: int|
            0 <= px < width && 0 <= py < height && 0 <= c < 4 ==> r@[(py * (width as int) + px) * 4
                + c] == #[trigger] capture_rgba(
                fb@,
                fb.width as int,
                fb.height as int,
                fb.scale as int,
                px,
                py,
                c,
            ),
{
    let ghost gw = fb.width as int;
    let ghost gh = fb.height as int;
    let ghost gs = fb.scale as int;
    let mut r: Vec<u8> = Vec::new();
    let mut py: u32 = 0;
    while py < height
        invariant
            fb.wf(),
            fb.scale >= 1,
            gw == fb.width as int,
            gh == fb.height as int,
            gs == fb.scale as int,
            py <= height,
            4 * (width as int) * (height as int) <= usize::MAX as int,
            r@.len() == 4 * ((py as int) * (width as int)),
            forall|i: int|
                0 <= i < r@.len() ==> r@[i] == #[trigger] capture_byte(
                    fb@,
                    gw,
                    gh,
                    gs,
                    width as int,
                    i,
                ),
        decreases height - py,
    {
        let mut px: u32 = 0;
        while px < width
            invariant
                fb.wf(),
                fb.scale >= 1,
                gw == fb.width as int,
                gh == fb.height as int,
                gs == fb.scale as int,
                py < height,
                px <= width,
                4 * (width as int) * (height as int) <= usize::MAX as int,
                r@.len() == 4 * ((py as int) * (width as int) + (px as int)),
                forall|i: int|
                    0 <= i < r@.len() ==> r@[i] == #[trigger] capture_byte(
                        fb@,
                        gw,
                        gh,
                        gs,
                        width as int,
                        i,
                    ),
            decreases width - px,
        {
            proof {
                lemma_row_major_bounds(px as int, py as int, width as int, height as int);
            }
            let ghost base = r@.len() as int;
            let ghost pixel = (py as int) * (width as int) + (px as int);
            let cx = px / fb.scale;
            let cy = py / fb.scale;
            if cx < fb.width && cy < fb.height {
                let col = fb.get_color(cx as i32, cy as i32);
                r.push(col.r);
                r.push(col.g);
                r.push(col.b);
                r.push(255);
            } else {
                r.push(0);
                r.push(0);
                r.push(0);
                r.push(0);
            }
            proof {
                assert forall|i: int| 0 <= i < r@.len() implies r@[i] == #[trigger] capture_byte(
                    fb@,
                    gw,
                    gh,
                    gs,
                    width as int,
                    i,
                ) by {
                    if i >= base {
                        lemma_fundamental_div_mod_converse(i, 4, pixel, i - base);
                        lemma_fundamental_div_mod_converse(
                            pixel,
                            width as int,
                            py as int,
                            px as int,
                        );
                    }
                }
            }
            px = px + 1;
        }
        proof {
            lemma_mul_is_distributive_add_other_way(width as int, py as int, 1);
        }
        py = py + 1;
    }
    proof {
        assert(4 * ((height as int) * (width as int)) == 4 * (width as int) * (height as int))
            by (nonlinear_arith);
        assert forall|px: int, py2: int, c: int|
            0 <= px < width && 0 <= py2 < height && 0 <= c < 4 implies r@[(py2 * (width as int)
            + px) * 4 + c] == #[trigger] capture_rgba(fb@, gw, gh, gs, px, py2, c) by {
            let pixel = py2 * (width as int) + px;
            lemma_row_major_bounds(px, py2, width as int, height as int);
            lemma_fundamental_div_mod_converse(pixel * 4 + c, 4, pixel, c);
            lemma_fundamental_div_mod_converse(pixel, width as int, py2, px);
            assert(r@[pixel * 4 + c] == capture_byte(fb@, gw, gh, gs, width as int, pixel * 4 + c));
        }
    }
    r
}

} // verus!
