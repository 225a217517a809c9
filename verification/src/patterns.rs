use vstd::prelude::*;
use crate::color::{white_px, Color};
use crate::framebuffer::{write_cell, Framebuffer};

verus! {

/// The grid after writing a live (white) cell at (x + dx, y + dy) for every
/// offset (dx, dy) of a template, in order; a write whose target lies outside
/// the grid is dropped, as any single out-of-bounds write is.
pub open spec fn stamped(
    g: Seq<(u8, u8, u8, u8)>,
    w: int,
    h: int,
    x: int,
    y: int,
    offs: Seq<(i32, i32)>,
) -> Seq<(u8, u8, u8, u8)>
    decreases offs.len(),
{
    if offs.len() == 0 {
        g
    } else {
        let o = offs.last();
        write_cell(stamped(g, w, h, x, y, offs.drop_last()), w, h, x + o.0, y + o.1, white_px())
    }
}

/// Writes a live cell at (x + dx, y + dy) for every offset of the template,
/// in order. Targets outside the grid, including sums past the signed
/// coordinate range, are silently dropped.
pub fn stamp_cells(fb: &mut Framebuffer, x: i32, y: i32, offs: &Vec<(i32, i32)>)
    requires
        old(fb).wf(),
    ensures
        final(fb).wf(),
        final(fb).width == old(fb).width,
        final(fb).height == old(fb).height,
        final(fb).scale == old(fb).scale,
        final(fb)@ == stamped(
            old(fb)@,
            old(fb).width as int,
            old(fb).height as int,
            x as int,
            y as int,
            offs@,
        ),
{
    let mut i: usize = 0;
    while i < offs.len()
        invariant
            fb.wf(),
            fb.width == old(fb).width,
            fb.height == old(fb).height,
            fb.scale == old(fb).scale,
            i <= offs@.len(),
            fb@ == stamped(
                old(fb)@,
                old(fb).width as int,
                old(fb).height as int,
                x as int,
                y as int,
                offs@.take(i as int),
            ),
        decreases offs@.len() - i,
    {
        let o = offs[i];
        let tx = x as i64 + o.0 as i64;
        let ty = y as i64 + o.1 as i64;
        if tx >= -2147483648i64 && tx <= 2147483647i64 && ty >= -2147483648i64
            && ty <= 2147483647i64 {
            fb.point(tx as i32, ty as i32, Color::white());
        }
        proof {
            assert(offs@.take(i as int + 1).drop_last() =~= offs@.take(i as int));
            assert(offs@.take(i as int + 1).last() == offs@[i as int]);
        }
        i = i + 1;
    }
    proof {
        assert(offs@.take(offs@.len() as int) =~= offs@);
    }
}

/// The fixed cell offsets of the block template.
pub open spec fn block_offsets() -> Seq<(i32, i32)> {
    seq![(0i32, 0i32), (1i32, 0i32), (0i32, 1i32), (1i32, 1i32)]
}

/// A 2x2 block, a still life, written as live cells with its template origin at (x, y).
pub fn spawn_block(fb: &mut Framebuffer, x: i32, y: i32)
    requires
        old(fb).wf(),
    ensures
        final(fb).wf(),
        final(fb).width == old(fb).width,
        final(fb).height == old(fb).height,
        final(fb).scale == old(fb).scale,
        final(fb)@ == stamped(
            old(fb)@,
            old(fb).width as int,
            old(fb).height as int,
            x as int,
            y as int,
            block_offsets(),
        ),
{
    let mut offs: Vec<(i32, i32)> = Vec::new();
    offs.push((0, 0));
    offs.push((1, 0));
    offs.push((0, 1));
    offs.push((1, 1));
    proof {
        assert(offs@ =~= block_offsets());
    }
    stamp_cells(fb, x, y, &offs);
}

/// The fixed cell offsets of the beehive template.
pub open spec fn beehive_offsets() -> Seq<(i32, i32)> {
    seq![(1i32, 0i32), (2i32, 0i32), (0i32, 1i32), (3i32, 1i32), (1i32, 2i32), (2i32, 2i32)]
}

/// The beehive still life, written as live cells with its template origin at (x, y).
pub fn spawn_beehive(fb: &mut Framebuffer, x: i32, y: i32)
    requires
        old(fb).wf(),
    ensures
        final(fb).wf(),
        final(fb).width == old(fb).width,
        final(fb).height == old(fb).height,
        final(fb).scale == old(fb).scale,
        final(fb)@ == stamped(
            old(fb)@,
            old(fb).width as int,
            old(fb).height as int,
            x as int,
            y as int,
            beehive_offsets(),
        ),
{
    let mut offs: Vec<(i32, i32)> = Vec::new();
    offs.push((1, 0));
    offs.push((2, 0));
    offs.push((0, 1));
    offs.push((3, 1));
    offs.push((1, 2));
    offs.push((2, 2));
    proof {
        assert(offs@ =~= beehive_offsets());
    }
    stamp_cells(fb, x, y, &offs);
}

/// The fixed cell offsets of the loaf template.
pub open spec fn loaf_offsets() -> Seq<(i32, i32)> {
    seq![(1i32, 0i32), (2i32, 0i32), (0i32, 1i32), (3i32, 1i32), (1i32, 2i32), (3i32, 2i32), (2i32, 3i32)]
}

/// The loaf still life, written as live cells with its template origin at (x, y).
pub fn spawn_loaf(fb: &mut Framebuffer, x: i32, y: i32)
    requires
        old(fb).wf(),
    ensures
        final(fb).wf(),
        final(fb).width == old(fb).width,
        final(fb).height == old(fb).height,
        final(fb).scale == old(fb).scale,
        final(fb)@ == stamped(
            old(fb)@,
            old(fb).width as int,
            old(fb).height as int,
            x as int,
            y as int,
            loaf_offsets(),
        ),
{
    let mut offs: Vec<(i32, i32)> = Vec::new();
    offs.push((1, 0));
    offs.push((2, 0));
    offs.push((0, 1));
    offs.push((3, 1));
    offs.push((1, 2));
    offs.push((3, 2));
    offs.push((2, 3));
    proof {
        assert(offs@ =~= loaf_offsets());
    }
    stamp_cells(fb, x, y, &offs);
}

/// The fixed cell offsets of the boat template.
pub open spec fn boat_offsets() -> Seq<(i32, i32)> {
    seq![(0i32, 0i32), (1i32, 0i32), (0i32, 1i32), (2i32, 1i32), (1i32, 2i32)]
}

/// The boat still life, written as live cells with its template origin at (x, y).
pub fn spawn_boat(fb: &mut Framebuffer, x: i32, y: i32)
    requires
        old(fb).wf(),
    ensures
        final(fb).wf(),
        final(fb).width == old(fb).width,
        final(fb).height == old(fb).height,
        final(fb).scale == old(fb).scale,
        final(fb)@ == stamped(
            old(fb)@,
            old(fb).width as int,
            old(fb).height as int,
            x as int,
            y as int,
            boat_offsets(),
        ),
{
    let mut offs: Vec<(i32, i32)> = Vec::new();
    offs.push((0, 0));
    offs.push((1, 0));
    offs.push((0, 1));
    offs.push((2, 1));
    offs.push((1, 2));
    proof {
        assert(offs@ =~= boat_offsets());
    }
    stamp_cells(fb, x, y, &offs);
}

/// The fixed cell offsets of the tub template.
pub open spec fn tub_offsets() -> Seq<(i32, i32)> {
    seq![(1i32, 0i32), (0i32, 1i32), (2i32, 1i32), (1i32, 2i32)]
}

/// The tub still life, written as live cells with its template origin at (x, y).
pub fn spawn_tub(fb: &mut Framebuffer, x: i32, y: i32)
    requires
        old(fb).wf(),
    ensures
        final(fb).wf(),
        final(fb).width == old(fb).width,
        final(fb).height == old(fb).height,
        final(fb).scale == old(fb).scale,
        final(fb)@ == stamped(
            old(fb)@,
            old(fb).width as int,
            old(fb).height as int,
            x as int,
            y as int,
            tub_offsets(),
        ),
{
    let mut offs: Vec<(i32, i32)> = Vec::new();
    offs.push((1, 0));
    offs.push((0, 1));
    offs.push((2, 1));
    offs.push((1, 2));
    proof {
        assert(offs@ =~= tub_offsets());
    }
    stamp_cells(fb, x, y, &offs);
}

/// The fixed cell offsets of the blinker template.
pub open spec fn blinker_offsets() -> Seq<(i32, i32)> {
    seq![(0i32, 0i32), (0i32, 1i32), (0i32, 2i32)]
}

/// A vertical 3-cell blinker, a period-2 oscillator, written as live cells with its template origin at (x, y).
pub fn spawn_blinker(fb: &mut Framebuffer, x: i32, y: i32)
    requires
        old(fb).wf(),
    ensures
        final(fb).wf(),
        final(fb).width == old(fb).width,
        final(fb).height == old(fb).height,
        final(fb).scale == old(fb).scale,
        final(fb)@ == stamped(
            old(fb)@,
            old(fb).width as int,
            old(fb).height as int,
            x as int,
            y as int,
            blinker_offsets(),
        ),
{
    let mut offs: Vec<(i32, i32)> = Vec::new();
    offs.push((0, 0));
    offs.push((0, 1));
    offs.push((0, 2));
    proof {
        assert(offs@ =~= blinker_offsets());
    }
    stamp_cells(fb, x, y, &offs);
}

/// The fixed cell offsets of the toad template.
pub open spec fn toad_offsets() -> Seq<(i32, i32)> {
    seq![(1i32, 0i32), (2i32, 0i32), (3i32, 0i32), (0i32, 1i32), (1i32, 1i32), (2i32, 1i32)]
}

/// The toad oscillator, written as live cells with its template origin at (x, y).
pub fn spawn_toad(fb: &mut Framebuffer, x: i32, y: i32)
    requires
        old(fb).wf(),
    ensures
        final(fb).wf(),
        final(fb).width == old(fb).width,
        final(fb).height == old(fb).height,
        final(fb).scale == old(fb).scale,
        final(fb)@ == stamped(
            old(fb)@,
            old(fb).width as int,
            old(fb).height as int,
            x as int,
            y as int,
            toad_offsets(),
        ),
{
    let mut offs: Vec<(i32, i32)> = Vec::new();
    offs.push((1, 0));
    offs.push((2, 0));
    offs.push((3, 0));
    offs.push((0, 1));
    offs.push((1, 1));
    offs.push((2, 1));
    proof {
        assert(offs@ =~= toad_offsets());
    }
    stamp_cells(fb, x, y, &offs);
}

/// The fixed cell offsets of the beacon template.
pub open spec fn beacon_offsets() -> Seq<(i32, i32)> {
    seq![(0i32, 0i32), (1i32, 0i32), (0i32, 1i32), (2i32, 2i32), (3i32, 2i32), (3i32, 3i32)]
}

/// The beacon oscillator, written as live cells with its template origin at (x, y).
pub fn spawn_beacon(fb: &mut Framebuffer, x: i32, y: i32)
    requires
        old(fb).wf(),
    ensures
        final(fb).wf(),
        final(fb).width == old(fb).width,
        final(fb).height == old(fb).height,
        final(fb).scale == old(fb).scale,
        final(fb)@ == stamped(
            old(fb)@,
            old(fb).width as int,
            old(fb).height as int,
            x as int,
            y as int,
            beacon_offsets(),
        ),
{
    let mut offs: Vec<(i32, i32)> = Vec::new();
    offs.push((0, 0));
    offs.push((1, 0));
    offs.push((0, 1));
    offs.push((2, 2));
    offs.push((3, 2));
    offs.push((3, 3));
    proof {
        assert(offs@ =~= beacon_offsets());
    }
    stamp_cells(fb, x, y, &offs);
}

/// The fixed cell offsets of the pulsar template.
pub open spec fn pulsar_offsets() -> Seq<(i32, i32)> {
    seq![(2i32, 0i32), (8i32, 0i32), (2i32, 6i32), (8i32, 6i32), (3i32, 0i32), (9i32, 0i32), (3i32, 6i32), (9i32, 6i32), (4i32, 0i32), (10i32, 0i32), (4i32, 6i32), (10i32, 6i32), (0i32, 2i32), (6i32, 2i32), (0i32, 8i32), (6i32, 8i32), (0i32, 3i32), (6i32, 3i32), (0i32, 9i32), (6i32, 9i32), (0i32, 4i32), (6i32, 4i32), (0i32, 10i32), (6i32, 10i32), (5i32, 2i32), (11i32, 2i32), (5i32, 8i32), (11i32, 8i32), (5i32, 3i32), (11i32, 3i32), (5i32, 9i32), (11i32, 9i32), (5i32, 4i32), (11i32, 4i32), (5i32, 10i32), (11i32, 10i32), (2i32, 5i32), (8i32, 5i32), (2i32, 11i32), (8i32, 11i32), (3i32, 5i32), (9i32, 5i32), (3i32, 11i32), (9i32, 11i32), (4i32, 5i32), (10i32, 5i32), (4i32, 11i32), (10i32, 11i32)]
}

/// The pulsar oscillator, written as live cells with its template origin at (x, y).
pub fn spawn_pulsar(fb: &mut Framebuffer, x: i32, y: i32)
    requires
        old(fb).wf(),
    ensures
        final(fb).wf(),
        final(fb).width == old(fb).width,
        final(fb).height == old(fb).height,
        final(fb).scale == old(fb).scale,
        final(fb)@ == stamped(
            old(fb)@,
            old(fb).width as int,
            old(fb).height as int,
            x as int,
            y as int,
            pulsar_offsets(),
        ),
{
    let mut offs: Vec<(i32, i32)> = Vec::new();
    offs.push((2, 0));
    offs.push((8, 0));
    offs.push((2, 6));
    offs.push((8, 6));
    offs.push((3, 0));
    offs.push((9, 0));
    offs.push((3, 6));
    offs.push((9, 6));
    offs.push((4, 0));
    offs.push((10, 0));
    offs.push((4, 6));
    offs.push((10, 6));
    offs.push((0, 2));
    offs.push((6, 2));
    offs.push((0, 8));
    offs.push((6, 8));
    offs.push((0, 3));
    offs.push((6, 3));
    offs.push((0, 9));
    offs.push((6, 9));
    offs.push((0, 4));
    offs.push((6, 4));
    offs.push((0, 10));
    offs.push((6, 10));
    offs.push((5, 2));
    offs.push((11, 2));
    offs.push((5, 8));
    offs.push((11, 8));
    offs.push((5, 3));
    offs.push((11, 3));
    offs.push((5, 9));
    offs.push((11, 9));
    offs.push((5, 4));
    offs.push((11, 4));
    offs.push((5, 10));
    offs.push((11, 10));
    offs.push((2, 5));
    offs.push((8, 5));
    offs.push((2, 11));
    offs.push((8, 11));
    offs.push((3, 5));
    offs.push((9, 5));
    offs.push((3, 11));
    offs.push((9, 11));
    offs.push((4, 5));
    offs.push((10, 5));
    offs.push((4, 11));
    offs.push((10, 11));
    proof {
        assert(offs@ =~= pulsar_offsets());
    }
    stamp_cells(fb, x, y, &offs);
}

/// The fixed cell offsets of the pentadecathlon template.
pub open spec fn pentadecathlon_offsets() -> Seq<(i32, i32)> {
    seq![(1i32, 0i32), (1i32, 1i32), (1i32, 2i32), (1i32, 3i32), (1i32, 4i32), (1i32, 5i32), (1i32, 6i32), (1i32, 7i32), (1i32, 8i32), (1i32, 9i32), (0i32, 2i32), (2i32, 2i32), (0i32, 7i32), (2i32, 7i32)]
}

/// The pentadecathlon oscillator, written as live cells with its template origin at (x, y).
pub fn spawn_pentadecathlon(fb: &mut Framebuffer, x: i32, y: i32)
    requires
        old(fb).wf(),
    ensures
        final(fb).wf(),
        final(fb).width == old(fb).width,
        final(fb).height == old(fb).height,
        final(fb).scale == old(fb).scale,
        final(fb)@ == stamped(
            old(fb)@,
            old(fb).width as int,
            old(fb).height as int,
            x as int,
            y as int,
            pentadecathlon_offsets(),
        ),
{
    let mut offs: Vec<(i32, i32)> = Vec::new();
    offs.push((1, 0));
    offs.push((1, 1));
    offs.push((1, 2));
    offs.push((1, 3));
    offs.push((1, 4));
    offs.push((1, 5));
    offs.push((1, 6));
    offs.push((1, 7));
    offs.push((1, 8));
    offs.push((1, 9));
    offs.push((0, 2));
    offs.push((2, 2));
    offs.push((0, 7));
    offs.push((2, 7));
    proof {
        assert(offs@ =~= pentadecathlon_offsets());
    }
    stamp_cells(fb, x, y, &offs);
}

/// The fixed cell offsets of the clock template.
pub open spec fn clock_offsets() -> Seq<(i32, i32)> {
    seq![(1i32, 0i32), (2i32, 0i32), (0i32, 1i32), (3i32, 1i32), (1i32, 2i32), (2i32, 3i32)]
}

/// The clock oscillator, written as live cells with its template origin at (x, y).
pub fn spawn_clock(fb: &mut Framebuffer, x: i32, y: i32)
    requires
        old(fb).wf(),
    ensures
        final(fb).wf(),
        final(fb).width == old(fb).width,
        final(fb).height == old(fb).height,
        final(fb).scale == old(fb).scale,
        final(fb)@ == stamped(
            old(fb)@,
            old(fb).width as int,
            old(fb).height as int,
            x as int,
            y as int,
            clock_offsets(),
        ),
{
    let mut offs: Vec<(i32, i32)> = Vec::new();
    offs.push((1, 0));
    offs.push((2, 0));
    offs.push((0, 1));
    offs.push((3, 1));
    offs.push((1, 2));
    offs.push((2, 3));
    proof {
        assert(offs@ =~= clock_offsets());
    }
    stamp_cells(fb, x, y, &offs);
}

/// The fixed cell offsets of the glider template.
pub open spec fn glider_offsets() -> Seq<(i32, i32)> {
    seq![(1i32, 0i32), (2i32, 1i32), (0i32, 2i32), (1i32, 2i32), (2i32, 2i32)]
}

/// The standard 5-cell glider, written as live cells with its template origin at (x, y).
pub fn spawn_glider(fb: &mut Framebuffer, x: i32, y: i32)
    requires
        old(fb).wf(),
    ensures
        final(fb).wf(),
        final(fb).width == old(fb).width,
        final(fb).height == old(fb).height,
        final(fb).scale == old(fb).scale,
        final(fb)@ == stamped(
            old(fb)@,
            old(fb).width as int,
            old(fb).height as int,
            x as int,
            y as int,
            glider_offsets(),
        ),
{
    let mut offs: Vec<(i32, i32)> = Vec::new();
    offs.push((1, 0));
    offs.push((2, 1));
    offs.push((0, 2));
    offs.push((1, 2));
    offs.push((2, 2));
    proof {
        assert(offs@ =~= glider_offsets());
    }
    stamp_cells(fb, x, y, &offs);
}

/// The fixed cell offsets of the lwss template.
pub open spec fn lwss_offsets() -> Seq<(i32, i32)> {
    seq![(1i32, 0i32), (2i32, 0i32), (3i32, 0i32), (4i32, 0i32), (0i32, 1i32), (4i32, 1i32), (4i32, 2i32), (0i32, 3i32), (3i32, 3i32)]
}

/// The lightweight spaceship, written as live cells with its template origin at (x, y).
pub fn spawn_lwss(fb: &mut Framebuffer, x: i32, y: i32)
    requires
        old(fb).wf(),
    ensures
        final(fb).wf(),
        final(fb).width == old(fb).width,
        final(fb).height == old(fb).height,
        final(fb).scale == old(fb).scale,
        final(fb)@ == stamped(
            old(fb)@,
            old(fb).width as int,
            old(fb).height as int,
            x as int,
            y as int,
            lwss_offsets(),
        ),
{
    let mut offs: Vec<(i32, i32)> = Vec::new();
    offs.push((1, 0));
    offs.push((2, 0));
    offs.push((3, 0));
    offs.push((4, 0));
    offs.push((0, 1));
    offs.push((4, 1));
    offs.push((4, 2));
    offs.push((0, 3));
    offs.push((3, 3));
    proof {
        assert(offs@ =~= lwss_offsets());
    }
    stamp_cells(fb, x, y, &offs);
}

/// The fixed cell offsets of the mwss template.
pub open spec fn mwss_offsets() -> Seq<(i32, i32)> {
    seq![(1i32, 0i32), (2i32, 0i32), (3i32, 0i32), (4i32, 0i32), (5i32, 0i32), (0i32, 1i32), (5i32, 1i32), (5i32, 2i32), (0i32, 3i32), (4i32, 3i32)]
}

/// The middleweight spaceship, written as live cells with its template origin at (x, y).
pub fn spawn_mwss(fb: &mut Framebuffer, x: i32, y: i32)
    requires
        old(fb).wf(),
    ensures
        final(fb).wf(),
        final(fb).width == old(fb).width,
        final(fb).height == old(fb).height,
        final(fb).scale == old(fb).scale,
        final(fb)@ == stamped(
            old(fb)@,
            old(fb).width as int,
            old(fb).height as int,
            x as int,
            y as int,
            mwss_offsets(),
        ),
{
    let mut offs: Vec<(i32, i32)> = Vec::new();
    offs.push((1, 0));
    offs.push((2, 0));
    offs.push((3, 0));
    offs.push((4, 0));
    offs.push((5, 0));
    offs.push((0, 1));
    offs.push((5, 1));
    offs.push((5, 2));
    offs.push((0, 3));
    offs.push((4, 3));
    proof {
        assert(offs@ =~= mwss_offsets());
    }
    stamp_cells(fb, x, y, &offs);
}

/// The fixed cell offsets of the hwss template.
pub open spec fn hwss_offsets() -> Seq<(i32, i32)> {
    seq![(1i32, 0i32), (2i32, 0i32), (3i32, 0i32), (4i32, 0i32), (5i32, 0i32), (6i32, 0i32), (0i32, 1i32), (6i32, 1i32), (6i32, 2i32), (0i32, 3i32), (5i32, 3i32)]
}

/// The heavyweight spaceship, written as live cells with its template origin at (x, y).
pub fn spawn_hwss(fb: &mut Framebuffer, x: i32, y: i32)
    requires
        old(fb).wf(),
    ensures
        final(fb).wf(),
        final(fb).width == old(fb).width,
        final(fb).height == old(fb).height,
        final(fb).scale == old(fb).scale,
        final(fb)@ == stamped(
            old(fb)@,
            old(fb).width as int,
            old(fb).height as int,
            x as int,
            y as int,
            hwss_offsets(),
        ),
{
    let mut offs: Vec<(i32, i32)> = Vec::new();
    offs.push((1, 0));
    offs.push((2, 0));
    offs.push((3, 0));
    offs.push((4, 0));
    offs.push((5, 0));
    offs.push((6, 0));
    offs.push((0, 1));
    offs.push((6, 1));
    offs.push((6, 2));
    offs.push((0, 3));
    offs.push((5, 3));
    proof {
        assert(offs@ =~= hwss_offsets());
    }
    stamp_cells(fb, x, y, &offs);
}

/// The fixed cell offsets of the r pentomino template.
pub open spec fn r_pentomino_offsets() -> Seq<(i32, i32)> {
    seq![(1i32, 0i32), (2i32, 0i32), (0i32, 1i32), (1i32, 1i32), (1i32, 2i32)]
}

/// The R-pentomino methuselah, written as live cells with its template origin at (x, y).
pub fn spawn_r_pentomino(fb: &mut Framebuffer, x: i32, y: i32)
    requires
        old(fb).wf(),
    ensures
        final(fb).wf(),
        final(fb).width == old(fb).width,
        final(fb).height == old(fb).height,
        final(fb).scale == old(fb).scale,
        final(fb)@ == stamped(
            old(fb)@,
            old(fb).width as int,
            old(fb).height as int,
            x as int,
            y as int,
            r_pentomino_offsets(),
        ),
{
    let mut offs: Vec<(i32, i32)> = Vec::new();
    offs.push((1, 0));
    offs.push((2, 0));
    offs.push((0, 1));
    offs.push((1, 1));
    offs.push((1, 2));
    proof {
        assert(offs@ =~= r_pentomino_offsets());
    }
    stamp_cells(fb, x, y, &offs);
}

/// The fixed cell offsets of the acorn template.
pub open spec fn acorn_offsets() -> Seq<(i32, i32)> {
    seq![(1i32, 0i32), (3i32, 1i32), (0i32, 2i32), (1i32, 2i32), (4i32, 2i32), (5i32, 2i32), (6i32, 2i32)]
}

/// The acorn methuselah, written as live cells with its template origin at (x, y).
pub fn spawn_acorn(fb: &mut Framebuffer, x: i32, y: i32)
    requires
        old(fb).wf(),
    ensures
        final(fb).wf(),
        final(fb).width == old(fb).width,
        final(fb).height == old(fb).height,
        final(fb).scale == old(fb).scale,
        final(fb)@ == stamped(
            old(fb)@,
            old(fb).width as int,
            old(fb).height as int,
            x as int,
            y as int,
            acorn_offsets(),
        ),
{
    let mut offs: Vec<(i32, i32)> = Vec::new();
    offs.push((1, 0));
    offs.push((3, 1));
    offs.push((0, 2));
    offs.push((1, 2));
    offs.push((4, 2));
    offs.push((5, 2));
    offs.push((6, 2));
    proof {
        assert(offs@ =~= acorn_offsets());
    }
    stamp_cells(fb, x, y, &offs);
}

/// The fixed cell offsets of the gosper glider gun template.
pub open spec fn gosper_glider_gun_offsets() -> Seq<(i32, i32)> {
    seq![(0i32, 4i32), (0i32, 5i32), (1i32, 4i32), (1i32, 5i32), (10i32, 4i32), (10i32, 5i32), (10i32, 6i32), (11i32, 3i32), (11i32, 7i32), (12i32, 2i32), (12i32, 8i32), (13i32, 2i32), (13i32, 8i32), (14i32, 5i32), (15i32, 3i32), (15i32, 7i32), (16i32, 4i32), (16i32, 5i32), (16i32, 6i32), (17i32, 5i32), (20i32, 2i32), (20i32, 3i32), (20i32, 4i32), (21i32, 2i32), (21i32, 3i32), (21i32, 4i32), (22i32, 1i32), (22i32, 5i32), (24i32, 0i32), (24i32, 1i32), (24i32, 5i32), (24i32, 6i32), (34i32, 2i32), (34i32, 3i32), (35i32, 2i32), (35i32, 3i32)]
}

/// The Gosper glider gun, written as live cells with its template origin at (x, y).
pub fn spawn_gosper_glider_gun(fb: &mut Framebuffer, x: i32, y: i32)
    requires
        old(fb).wf(),
    ensures
        final(fb).wf(),
        final(fb).width == old(fb).width,
        final(fb).height == old(fb).height,
        final(fb).scale == old(fb).scale,
        final(fb)@ == stamped(
            old(fb)@,
            old(fb).width as int,
            old(fb).height as int,
            x as int,
            y as int,
            gosper_glider_gun_offsets(),
        ),
{
    let mut offs: Vec<(i32, i32)> = Vec::new();
    offs.push((0, 4));
    offs.push((0, 5));
    offs.push((1, 4));
    offs.push((1, 5));
    offs.push((10, 4));
    offs.push((10, 5));
    offs.push((10, 6));
    offs.push((11, 3));
    offs.push((11, 7));
    offs.push((12, 2));
    offs.push((12, 8));
    offs.push((13, 2));
    offs.push((13, 8));
    offs.push((14, 5));
    offs.push((15, 3));
    offs.push((15, 7));
    offs.push((16, 4));
    offs.push((16, 5));
    offs.push((16, 6));
    offs.push((17, 5));
    offs.push((20, 2));
    offs.push((20, 3));
    offs.push((20, 4));
    offs.push((21, 2));
    offs.push((21, 3));
    offs.push((21, 4));
    offs.push((22, 1));
    offs.push((22, 5));
    offs.push((24, 0));
    offs.push((24, 1));
    offs.push((24, 5));
    offs.push((24, 6));
    offs.push((34, 2));
    offs.push((34, 3));
    offs.push((35, 2));
    offs.push((35, 3));
    proof {
        assert(offs@ =~= gosper_glider_gun_offsets());
    }
    stamp_cells(fb, x, y, &offs);
}

/// The fixed cell offsets of the galaxy template.
pub open spec fn galaxy_offsets() -> Seq<(i32, i32)> {
    seq![(0i32, 0i32), (1i32, 0i32), (3i32, 0i32), (4i32, 0i32), (5i32, 0i32), (6i32, 0i32), (7i32, 0i32), (8i32, 0i32), (0i32, 1i32), (1i32, 1i32), (3i32, 1i32), (4i32, 1i32), (5i32, 1i32), (6i32, 1i32), (7i32, 1i32), (8i32, 1i32), (0i32, 3i32), (1i32, 3i32), (7i32, 3i32), (8i32, 3i32), (0i32, 4i32), (1i32, 4i32), (7i32, 4i32), (8i32, 4i32), (0i32, 5i32), (1i32, 5i32), (7i32, 5i32), (8i32, 5i32), (0i32, 6i32), (1i32, 6i32), (7i32, 6i32), (8i32, 6i32), (0i32, 7i32), (1i32, 7i32), (2i32, 7i32), (3i32, 7i32), (4i32, 7i32), (5i32, 7i32), (7i32, 7i32), (8i32, 7i32), (0i32, 8i32), (1i32, 8i32), (2i32, 8i32), (3i32, 8i32), (4i32, 8i32), (5i32, 8i32), (7i32, 8i32), (8i32, 8i32)]
}

/// Kok's galaxy oscillator, written as live cells with its template origin at (x, y).
pub fn spawn_galaxy(fb: &mut Framebuffer, x: i32, y: i32)
    requires
        old(fb).wf(),
    ensures
        final(fb).wf(),
        final(fb).width == old(fb).width,
        final(fb).height == old(fb).height,
        final(fb).scale == old(fb).scale,
        final(fb)@ == stamped(
            old(fb)@,
            old(fb).width as int,
            old(fb).height as int,
            x as int,
            y as int,
            galaxy_offsets(),
        ),
{
    let mut offs: Vec<(i32, i32)> = Vec::new();
    offs.push((0, 0));
    offs.push((1, 0));
    offs.push((3, 0));
    offs.push((4, 0));
    offs.push((5, 0));
    offs.push((6, 0));
    offs.push((7, 0));
    offs.push((8, 0));
    offs.push((0, 1));
    offs.push((1, 1));
    offs.push((3, 1));
    offs.push((4, 1));
    offs.push((5, 1));
    offs.push((6, 1));
    offs.push((7, 1));
    offs.push((8, 1));
    offs.push((0, 3));
    offs.push((1, 3));
    offs.push((7, 3));
    offs.push((8, 3));
    offs.push((0, 4));
    offs.push((1, 4));
    offs.push((7, 4));
    offs.push((8, 4));
    offs.push((0, 5));
    offs.push((1, 5));
    offs.push((7, 5));
    offs.push((8, 5));
    offs.push((0, 6));
    offs.push((1, 6));
    offs.push((7, 6));
    offs.push((8, 6));
    offs.push((0, 7));
    offs.push((1, 7));
    offs.push((2, 7));
    offs.push((3, 7));
    offs.push((4, 7));
    offs.push((5, 7));
    offs.push((7, 7));
    offs.push((8, 7));
    offs.push((0, 8));
    offs.push((1, 8));
    offs.push((2, 8));
    offs.push((3, 8));
    offs.push((4, 8));
    offs.push((5, 8));
    offs.push((7, 8));
    offs.push((8, 8));
    proof {
        assert(offs@ =~= galaxy_offsets());
    }
    stamp_cells(fb, x, y, &offs);
}

/// The fixed cell offsets of the figure eight template.
pub open spec fn figure_eight_offsets() -> Seq<(i32, i32)> {
    seq![(0i32, 0i32), (1i32, 0i32), (2i32, 0i32), (0i32, 1i32), (1i32, 1i32), (2i32, 1i32), (0i32, 2i32), (1i32, 2i32), (2i32, 2i32), (3i32, 3i32), (4i32, 3i32), (5i32, 3i32), (3i32, 4i32), (4i32, 4i32), (5i32, 4i32), (3i32, 5i32), (4i32, 5i32), (5i32, 5i32)]
}

/// The figure-eight oscillator, written as live cells with its template origin at (x, y).
pub fn spawn_figure_eight(fb: &mut Framebuffer, x: i32, y: i32)
    requires
        old(fb).wf(),
    ensures
        final(fb).wf(),
        final(fb).width == old(fb).width,
        final(fb).height == old(fb).height,
        final(fb).scale == old(fb).scale,
        final(fb)@ == stamped(
            old(fb)@,
            old(fb).width as int,
            old(fb).height as int,
            x as int,
            y as int,
            figure_eight_offsets(),
        ),
{
    let mut offs: Vec<(i32, i32)> = Vec::new();
    offs.push((0, 0));
    offs.push((1, 0));
    offs.push((2, 0));
    offs.push((0, 1));
    offs.push((1, 1));
    offs.push((2, 1));
    offs.push((0, 2));
    offs.push((1, 2));
    offs.push((2, 2));
    offs.push((3, 3));
    offs.push((4, 3));
    offs.push((5, 3));
    offs.push((3, 4));
    offs.push((4, 4));
    offs.push((5, 4));
    offs.push((3, 5));
    offs.push((4, 5));
    offs.push((5, 5));
    proof {
        assert(offs@ =~= figure_eight_offsets());
    }
    stamp_cells(fb, x, y, &offs);
}

/// The fixed cell offsets of the butterfly template.
pub open spec fn butterfly_offsets() -> Seq<(i32, i32)> {
    seq![(0i32, 0i32), (1i32, 0i32), (2i32, 0i32), (0i32, 1i32), (2i32, 1i32), (1i32, 2i32), (1i32, 3i32), (0i32, 4i32), (2i32, 4i32), (0i32, 5i32), (1i32, 5i32), (2i32, 5i32)]
}

/// The butterfly pattern, written as live cells with its template origin at (x, y).
pub fn spawn_butterfly(fb: &mut Framebuffer, x: i32, y: i32)
    requires
        old(fb).wf(),
    ensures
        final(fb).wf(),
        final(fb).width == old(fb).width,
        final(fb).height == old(fb).height,
        final(fb).scale == old(fb).scale,
        final(fb)@ == stamped(
            old(fb)@,
            old(fb).width as int,
            old(fb).height as int,
            x as int,
            y as int,
            butterfly_offsets(),
        ),
{
    let mut offs: Vec<(i32, i32)> = Vec::new();
    offs.push((0, 0));
    offs.push((1, 0));
    offs.push((2, 0));
    offs.push((0, 1));
    offs.push((2, 1));
    offs.push((1, 2));
    offs.push((1, 3));
    offs.push((0, 4));
    offs.push((2, 4));
    offs.push((0, 5));
    offs.push((1, 5));
    offs.push((2, 5));
    proof {
        assert(offs@ =~= butterfly_offsets());
    }
    stamp_cells(fb, x, y, &offs);
}

/// The fixed cell offsets of the pi heptomino template.
pub open spec fn pi_heptomino_offsets() -> Seq<(i32, i32)> {
    seq![(0i32, 0i32), (1i32, 0i32), (2i32, 0i32), (0i32, 1i32), (1i32, 2i32)]
}

/// The pi-heptomino seed, written as live cells with its template origin at (x, y).
pub fn spawn_pi_heptomino(fb: &mut Framebuffer, x: i32, y: i32)
    requires
        old(fb).wf(),
    ensures
        final(fb).wf(),
        final(fb).width == old(fb).width,
        final(fb).height == old(fb).height,
        final(fb).scale == old(fb).scale,
        final(fb)@ == stamped(
            old(fb)@,
            old(fb).width as int,
            old(fb).height as int,
            x as int,
            y as int,
            pi_heptomino_offsets(),
        ),
{
    let mut offs: Vec<(i32, i32)> = Vec::new();
    offs.push((0, 0));
    offs.push((1, 0));
    offs.push((2, 0));
    offs.push((0, 1));
    offs.push((1, 2));
    proof {
        assert(offs@ =~= pi_heptomino_offsets());
    }
    stamp_cells(fb, x, y, &offs);
}

/// The fixed cell offsets of the thunderbird template.
pub open spec fn thunderbird_offsets() -> Seq<(i32, i32)> {
    seq![(1i32, 0i32), (2i32, 0i32), (3i32, 0i32), (1i32, 2i32), (2i32, 2i32), (3i32, 2i32)]
}

/// The thunderbird seed, written as live cells with its template origin at (x, y).
pub fn spawn_thunderbird(fb: &mut Framebuffer, x: i32, y: i32)
    requires
        old(fb).wf(),
    ensures
        final(fb).wf(),
        final(fb).width == old(fb).width,
        final(fb).height == old(fb).height,
        final(fb).scale == old(fb).scale,
        final(fb)@ == stamped(
            old(fb)@,
            old(fb).width as int,
            old(fb).height as int,
            x as int,
            y as int,
            thunderbird_offsets(),
        ),
{
    let mut offs: Vec<(i32, i32)> = Vec::new();
    offs.push((1, 0));
    offs.push((2, 0));
    offs.push((3, 0));
    offs.push((1, 2));
    offs.push((2, 2));
    offs.push((3, 2));
    proof {
        assert(offs@ =~= thunderbird_offsets());
    }
    stamp_cells(fb, x, y, &offs);
}

} // verus!
