use vstd::prelude::*;
use vstd::arithmetic::div_mod::{
    lemma_fundamental_div_mod, lemma_fundamental_div_mod_converse, lemma_mod_add_multiples_vanish,
    lemma_small_mod,
};
use vstd::arithmetic::mul::lemma_mul_is_distributive_add_other_way;
use crate::color::{black_px, px_alive, white_px, Color};
use crate::framebuffer::{lemma_row_major_bounds, Framebuffer};

verus! {

/// A coordinate taken modulo a positive dimension, wrapping both negative
/// values and overshoots into [0, m).
pub open spec fn wrap(v: int, m: int) -> int {
    v % m
}

/// Whether the cell at in-bounds coordinates (x, y) of a row-major grid of
/// width w is alive (stored as pure white).
pub open spec fn alive_at(g: Seq<(u8, u8, u8, u8)>, w: int, x: int, y: int) -> bool {
    px_alive(g[y * w + x])
}

/// The contribution (0 or 1) of the neighbor at offset (dx, dy) from (x, y),
/// with both coordinates wrapped toroidally.
pub open spec fn nbr(
    g: Seq<(u8, u8, u8, u8)>,
    w: int,
    h: int,
    x: int,
    y: int,
    dx: int,
    dy: int,
) -> nat {
    if alive_at(g, w, wrap(x + dx, w), wrap(y + dy, h)) {
        1
    } else {
        0
    }
}

/// The toroidal 8-neighbor live count of the cell at (x, y).
pub open spec fn live_neighbors(g: Seq<(u8, u8, u8, u8)>, w: int, h: int, x: int, y: int) -> nat {
    nbr(g, w, h, x, y, -1, -1) + nbr(g, w, h, x, y, 0, -1) + nbr(g, w, h, x, y, 1, -1)
        + nbr(g, w, h, x, y, -1, 0) + nbr(g, w, h, x, y, 1, 0) + nbr(g, w, h, x, y, -1, 1)
        + nbr(g, w, h, x, y, 0, 1) + nbr(g, w, h, x, y, 1, 1)
}

/// The life rule: a live cell with 2 or 3 live neighbors stays alive, a dead
/// cell with exactly 3 live neighbors becomes alive, all else dies.
pub open spec fn next_alive(alive: bool, n: nat) -> bool {
    n == 3 || (alive && n == 2)
}

/// The pixel the next generation stores at (x, y).
pub open spec fn step_px(g: Seq<(u8, u8, u8, u8)>, w: int, h: int, x: int, y: int) -> (
    u8,
    u8,
    u8,
    u8,
) {
    if next_alive(alive_at(g, w, x, y), live_neighbors(g, w, h, x, y)) {
        white_px()
    } else {
        black_px()
    }
}

/// One whole generation step of a w-by-h toroidal grid.
pub open spec fn step_grid(g: Seq<(u8, u8, u8, u8)>, w: int, h: int) -> Seq<(u8, u8, u8, u8)> {
    Seq::new((w * h) as nat, |i: int| step_px(g, w, h, i % w, i / w))
}

/// Whether the neighbor of (x, y) at offset (dx, dy), wrapped toroidally, is
/// alive.
fn nbr_alive(fb: &Framebuffer, x: i32, y: i32, dx: i32, dy: i32) -> (b: bool)
    requires
        fb.wf(),
        0 <= x < fb.width,
        0 <= y < fb.height,
        -1 <= dx <= 1,
        -1 <= dy <= 1,
    ensures
        b == (nbr(fb@, fb.width as int, fb.height as int, x as int, y as int, dx as int, dy as int)
            == 1),
{
    let w = fb.width as i64;
    let h = fb.height as i64;
    let nx = ((x as i64) + (dx as i64) + w) % w;
    let ny = ((y as i64) + (dy as i64) + h) % h;
    proof {
        lemma_mod_add_multiples_vanish(x + dx, w as int);
        lemma_mod_add_multiples_vanish(y + dy, h as int);
        lemma_row_major_bounds(nx as int, ny as int, w as int, h as int);
    }
    let c = fb.get_color(nx as i32, ny as i32);
    c == Color::white()
}

/// The toroidal 8-neighbor live count of the in-bounds cell at (x, y).
pub fn count_alive_neighbors(fb: &Framebuffer, x: i32, y: i32) -> (n: u32)
    requires
        fb.wf(),
        0 <= x < fb.width,
        0 <= y < fb.height,
    ensures
        n == live_neighbors(fb@, fb.width as int, fb.height as int, x as int, y as int),
{
    let mut n: u32 = 0;
    if nbr_alive(fb, x, y, -1, -1) {
        n = n + 1;
    }
    if nbr_alive(fb, x, y, 0, -1) {
        n = n + 1;
    }
    if nbr_alive(fb, x, y, 1, -1) {
        n = n + 1;
    }
    if nbr_alive(fb, x, y, -1, 0) {
        n = n + 1;
    }
    if nbr_alive(fb, x, y, 1, 0) {
        n = n + 1;
    }
    if nbr_alive(fb, x, y, -1, 1) {
        n = n + 1;
    }
    if nbr_alive(fb, x, y, 0, 1) {
        n = n + 1;
    }
    if nbr_alive(fb, x, y, 1, 1) {
        n = n + 1;
    }
    n
}

/// The generation pair: the current surface and the next one, swapped by
/// ownership exchange after every step.
pub struct Engine {
    pub current: Framebuffer,
    pub next: Framebuffer,
}

impl Engine {
    pub open spec fn wf(&self) -> bool {
        &&& self.current.wf()
        &&& self.next.wf()
        &&& self.next.width == self.current.width
        &&& self.next.height == self.current.height
        &&& self.next.scale == self.current.scale
    }

    /// Two all-dead surfaces of the given dimensions.
    pub fn new(width: u32, height: u32, scale: u32) -> (e: Engine)
        requires
            4 * (width as int) * (height as int) <= usize::MAX as int,
            width <= 0x7fff_ffff,
            height <= 0x7fff_ffff,
        ensures
            e.wf(),
            e.current.width == width,
            e.current.height == height,
            e.current.scale == scale,
            e.current@ == Seq::new((width * height) as nat, |i: int| black_px()),
    {
        Engine {
            current: Framebuffer::new(width, height, scale),
            next: Framebuffer::new(width, height, scale),
        }
    }

    /// One generation: every cell of the next surface is computed from the
    /// current one by the life rule on wrapped 8-neighborhoods, then the two
    /// surfaces swap roles by ownership exchange.
    pub fn step(&mut self)
        requires
            old(self).wf(),
        ensures
            final(self).wf(),
            final(self).current.width == old(self).current.width,
            final(self).current.height == old(self).current.height,
            final(self).current.scale == old(self).current.scale,
            final(self).current@ == step_grid(
                old(self).current@,
                old(self).current.width as int,
                old(self).current.height as int,
            ),
            final(self).next@ == old(self).current@,
    {
        let w = self.current.width;
        let h = self.current.height;
        let ghost g0 = self.current@;
        let mut y: u32 = 0;
        while y < h
            invariant
                self.wf(),
                self.current == old(self).current,
                self.current@ == g0,
                self.current.width == w,
                self.current.height == h,
                y <= h,
                forall|i: int|
                    0 <= i < (y as int) * (w as int) ==> self.next@[i] == step_px(
                        g0,
                        w as int,
                        h as int,
                        i % (w as int),
                        i / (w as int),
                    ),
            decreases h - y,
        {
            let mut x: u32 = 0;
            while x < w
                invariant
                    self.wf(),
                    self.current == old(self).current,
                    self.current@ == g0,
                    self.current.width == w,
                    self.current.height == h,
                    y < h,
                    x <= w,
                    forall|i: int|
                        0 <= i < (y as int) * (w as int) + (x as int) ==> self.next@[i] == step_px(
                            g0,
                            w as int,
                            h as int,
                            i % (w as int),
                            i / (w as int),
                        ),
                decreases w - x,
            {
                let n = count_alive_neighbors(&self.current, x as i32, y as i32);
                let c = self.current.get_color(x as i32, y as i32);
                let alive = c == Color::white();
                let stays = if alive {
                    n == 2 || n == 3
                } else {
                    n == 3
                };
                let ghost prev = self.next@;
                let ghost k = (y as int) * (w as int) + (x as int);
                if stays {
                    self.next.point(x as i32, y as i32, Color::white());
                } else {
                    self.next.point(x as i32, y as i32, Color::black());
                }
                proof {
                    lemma_row_major_bounds(x as int, y as int, w as int, h as int);
                    lemma_fundamental_div_mod_converse(k, w as int, y as int, x as int);
                    assert(self.next@ == prev.update(k, step_px(g0, w as int, h as int, x as int, y as int)));
                    assert forall|i: int| 0 <= i < k + 1 implies self.next@[i] == step_px(
                        g0,
                        w as int,
                        h as int,
                        i % (w as int),
                        i / (w as int),
                    ) by {
                        if i < k {
                            assert(self.next@[i] == prev[i]);
                        } else {
                            assert(i == k);
                            assert(i % (w as int) == x as int && i / (w as int) == y as int);
                        }
                    }
                }
                x = x + 1;
            }
            proof {
                lemma_mul_is_distributive_add_other_way(w as int, y as int, 1);
            }
            y = y + 1;
        }
        core::mem::swap(&mut self.current, &mut self.next);
        proof {
            assert(self.current@ =~= step_grid(g0, w as int, h as int));
        }
    }
}

/// Wraparound law: through the toroidal wrap, the cell at (0, 0) counts a
/// live neighbor stored at the far corner (w-1, h-1) and at the far edge
/// cells (w-1, 0) and (0, h-1).
pub proof fn lemma_wraparound(g: Seq<(u8, u8, u8, u8)>, w: int, h: int)
    requires
        2 <= w,
        2 <= h,
        g.len() == w * h,
    ensures
        px_alive(g[(h - 1) * w + (w - 1)]) ==> live_neighbors(g, w, h, 0, 0) >= 1,
        px_alive(g[w - 1]) ==> live_neighbors(g, w, h, 0, 0) >= 1,
        px_alive(g[(h - 1) * w]) ==> live_neighbors(g, w, h, 0, 0) >= 1,
{
    lemma_mod_add_multiples_vanish(-1, w);
    lemma_small_mod((w - 1) as nat, w as nat);
    lemma_mod_add_multiples_vanish(-1, h);
    lemma_small_mod((h - 1) as nat, h as nat);
    lemma_small_mod(0, w as nat);
    lemma_small_mod(0, h as nat);
    assert(wrap(-1, w) == w - 1);
    assert(wrap(-1, h) == h - 1);
    assert(wrap(0, w) == 0);
    assert(wrap(0, h) == 0);
    assert(px_alive(g[(h - 1) * w + (w - 1)]) ==> nbr(g, w, h, 0, 0, -1, -1) == 1);
    assert(alive_at(g, w, wrap(-1, w), wrap(0, h)) == px_alive(g[0 * w + (w - 1)]));
    assert(0 * w + (w - 1) == w - 1);
    assert(px_alive(g[w - 1]) ==> nbr(g, w, h, 0, 0, -1, 0) == 1);
    assert(alive_at(g, w, wrap(0, w), wrap(-1, h)) == px_alive(g[(h - 1) * w + 0]));
    assert(px_alive(g[(h - 1) * w]) ==> nbr(g, w, h, 0, 0, 0, -1) == 1);
}

/// The pixel stored at in-bounds coordinates (x, y).
pub open spec fn px_at(g: Seq<(u8, u8, u8, u8)>, w: int, x: int, y: int) -> (u8, u8, u8, u8) {
    g[y * w + x]
}

/// The grid after n generation steps.
pub open spec fn step_grid_n(g: Seq<(u8, u8, u8, u8)>, w: int, h: int, n: nat) -> Seq<
    (u8, u8, u8, u8),
>
    decreases n,
{
    if n == 0 {
        g
    } else {
        step_grid(step_grid_n(g, w, h, (n - 1) as nat), w, h)
    }
}

/// A grid holding exactly one 2x2 block of live cells with its top-left cell
/// at (bx, by), kept off the boundary, and every other cell dead (black).
pub open spec fn lone_block_grid(
    g: Seq<(u8, u8, u8, u8)>,
    w: int,
    h: int,
    bx: int,
    by: int,
) -> bool {
    &&& g.len() == w * h
    &&& 1 <= bx && bx + 2 <= w - 1
    &&& 1 <= by && by + 2 <= h - 1
    &&& forall|x: int, y: int|
        0 <= x < w && 0 <= y < h ==> #[trigger] px_at(g, w, x, y) == (if bx <= x <= bx + 1 && by
            <= y <= by + 1 {
            white_px()
        } else {
            black_px()
        })
}

/// How a wrapped coordinate resolves when it starts at most one step outside
/// its range.
pub proof fn lemma_wrap_cases(v: int, m: int)
    requires
        m > 0,
        -1 <= v <= m,
    ensures
        wrap(v, m) == (if v == -1 {
            m - 1
        } else if v == m {
            0int
        } else {
            v
        }),
{
    if v == -1 {
        lemma_mod_add_multiples_vanish(-1, m);
        lemma_small_mod((m - 1) as nat, m as nat);
    } else if v == m {
        lemma_mod_add_multiples_vanish(0, m);
        lemma_small_mod(0, m as nat);
    } else {
        lemma_small_mod(v as nat, m as nat);
    }
}

/// One cell of a lone-block grid is unchanged by the step rule.
proof fn lemma_block_cell_step(
    g: Seq<(u8, u8, u8, u8)>,
    w: int,
    h: int,
    bx: int,
    by: int,
    x: int,
    y: int,
)
    requires
        lone_block_grid(g, w, h, bx, by),
        0 <= x < w,
        0 <= y < h,
    ensures
        step_px(g, w, h, x, y) == px_at(g, w, x, y),
{
    lemma_wrap_cases(x - 1, w);
    lemma_wrap_cases(x, w);
    lemma_wrap_cases(x + 1, w);
    lemma_wrap_cases(y - 1, h);
    lemma_wrap_cases(y, h);
    lemma_wrap_cases(y + 1, h);
    let xm = wrap(x - 1, w);
    let xp = wrap(x + 1, w);
    let ym = wrap(y - 1, h);
    let yp = wrap(y + 1, h);
    assert(px_at(g, w, xm, ym) == (if bx <= xm <= bx + 1 && by <= ym <= by + 1 {
        white_px()
    } else {
        black_px()
    }));
    assert(px_at(g, w, x, ym) == (if bx <= x <= bx + 1 && by <= ym <= by + 1 {
        white_px()
    } else {
        black_px()
    }));
    assert(px_at(g, w, xp, ym) == (if bx <= xp <= bx + 1 && by <= ym <= by + 1 {
        white_px()
    } else {
        black_px()
    }));
    assert(px_at(g, w, xm, y) == (if bx <= xm <= bx + 1 && by <= y <= by + 1 {
        white_px()
    } else {
        black_px()
    }));
    assert(px_at(g, w, xp, y) == (if bx <= xp <= bx + 1 && by <= y <= by + 1 {
        white_px()
    } else {
        black_px()
    }));
    assert(px_at(g, w, xm, yp) == (if bx <= xm <= bx + 1 && by <= yp <= by + 1 {
        white_px()
    } else {
        black_px()
    }));
    assert(px_at(g, w, x, yp) == (if bx <= x <= bx + 1 && by <= yp <= by + 1 {
        white_px()
    } else {
        black_px()
    }));
    assert(px_at(g, w, xp, yp) == (if bx <= xp <= bx + 1 && by <= yp <= by + 1 {
        white_px()
    } else {
        black_px()
    }));
    assert(px_at(g, w, x, y) == (if bx <= x <= bx + 1 && by <= y <= by + 1 {
        white_px()
    } else {
        black_px()
    }));
}

/// Still-life law: a lone 2x2 block off the boundary is a fixed point of the
/// generation step.
pub proof fn lemma_block_still_life(g: Seq<(u8, u8, u8, u8)>, w: int, h: int, bx: int, by: int)
    requires
        lone_block_grid(g, w, h, bx, by),
    ensures
        step_grid(g, w, h) == g,
{
    assert forall|i: int| 0 <= i < w * h implies step_grid(g, w, h)[i] == g[i] by {
        lemma_fundamental_div_mod(i, w);
        let x = i % w;
        let y = i / w;
        assert(0 <= y < h) by (nonlinear_arith)
            requires
                0 <= i < w * h,
                i == w * (i / w) + i % w,
                0 <= i % w < w,
                y == i / w,
        ;
        lemma_block_cell_step(g, w, h, bx, by, x, y);
        assert(step_grid(g, w, h)[i] == step_px(g, w, h, x, y));
        assert(px_at(g, w, x, y) == g[y * w + x]);
        assert(y * w + x == i) by (nonlinear_arith)
            requires
                i == w * (i / w) + i % w,
                x == i % w,
                y == i / w,
        ;
    }
    assert(step_grid(g, w, h) =~= g);
}

/// Still-life law over time: a lone 2x2 block off the boundary is unchanged
/// by any number of generation steps.
pub proof fn lemma_block_still_life_n(
    g: Seq<(u8, u8, u8, u8)>,
    w: int,
    h: int,
    bx: int,
    by: int,
    n: nat,
)
    requires
        lone_block_grid(g, w, h, bx, by),
    ensures
        step_grid_n(g, w, h, n) == g,
    decreases n,
{
    if n > 0 {
        lemma_block_still_life_n(g, w, h, bx, by, (n - 1) as nat);
        lemma_block_still_life(g, w, h, bx, by);
    }
}

} // verus!
