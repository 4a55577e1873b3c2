use vstd::prelude::*;

verus! {

/// Width of a ground tile's texture, in units.
pub const GROUND_TILE_WIDTH: u32 = 168;

/// Width of a sky tile's texture, in units.
pub const SKY_TILE_WIDTH: u32 = 144;

/// Scale at which both tile textures are drawn.
pub const TILE_SCALE: u32 = 3;

/// Scroll speed of the ground, in units per second.
pub const GROUND_SPEED: i64 = 150;

/// Scroll speed of the sky, in units per second (slower: parallax).
pub const SKY_SPEED: i64 = 20;

/// Largest scroll speed a pool accepts, in units per second.
pub const SPEED_LIMIT: i64 = 0x10_0000;

/// Bound on the length of a strip, in thousandths of a unit, so that every
/// position fits an `i64` whatever the tick's length.
pub const STRIP_LIMIT: i64 = 0x1000_0000_0000;

pub open spec fn ceil_div(a: int, b: int) -> int {
    if a % b == 0 {
        a / b
    } else {
        a / b + 1
    }
}

/// Number of tiles that cover a window `window_width` units wide with tiles
/// `effective_width` units wide, plus one to scroll in.
pub open spec fn pool_size_spec(window_width: int, effective_width: int) -> int {
    ceil_div(window_width, effective_width) + 1
}

/// The pool size for a window and a tile texture drawn at `scale`.
pub fn pool_size(window_width: u32, tile_width: u32, scale: u32) -> (r: u64)
    requires
        tile_width > 0,
        scale > 0,
    ensures
        r == pool_size_spec(window_width as int, tile_width as int * scale as int),
{
    let w = window_width as u64;
    assert(tile_width as u64 * scale as u64 <= 0xffff_ffffu64 * 0xffff_ffffu64) by (nonlinear_arith)
        requires tile_width <= 0xffff_ffffu64, scale <= 0xffff_ffffu64;
    assert(tile_width as u64 * scale as u64 >= 1) by (nonlinear_arith)
        requires tile_width >= 1, scale >= 1;
    let e: u64 = tile_width as u64 * scale as u64;
    if w % e == 0 {
        w / e + 1
    } else {
        w / e + 2
    }
}

/// Whether a tile at `x` has left the screen: its right edge, half a width
/// `w` to the right of its centre, is at or left of the left border.
pub open spec fn off_screen(x: int, w: int) -> bool {
    2 * x + w <= 0
}

/// Where the leftmost tile of a strip of width `w` ends up once every tile
/// that left the screen has been moved behind the rightmost one.
pub open spec fn settle(x: int, w: int) -> int
    decreases w - 2 * x,
{
    if w <= 0 || !off_screen(x, w) {
        x
    } else {
        settle(x + w, w)
    }
}

/// `s` is a contiguous strip: its first tile at `first`, each next one `w`
/// further right.
pub open spec fn is_strip(s: Seq<i64>, first: int, w: int) -> bool {
    forall|i: int| 0 <= i < s.len() ==> #[trigger] s[i] as int == first + i * w
}

/// `after` is `before` scrolled by one tick of `dt_ms` milliseconds: same
/// size, width and speed, and laid from where the moved strip settles.
pub open spec fn scrolled(before: TilePool, after: TilePool, dt_ms: int) -> bool {
    &&& after.wf()
    &&& after.xs@.len() == before.xs@.len()
    &&& after.width == before.width
    &&& after.speed == before.speed
    &&& is_strip(
        after.xs@,
        settle(before.xs@[0] - before.speed * dt_ms, before.width as int),
        before.width as int,
    )
}

/// A pool of identical scrolling tiles (ground or sky), sorted left to right
/// and laid end to end. Tiles are recycled, never added or dropped.
pub struct TilePool {
    /// Centre of each tile, in thousandths of a unit, ascending.
    pub xs: Vec<i64>,
    /// Effective tile width, in thousandths of a unit.
    pub width: i64,
    /// Scroll speed, in units per second.
    pub speed: i64,
}

impl TilePool {
    pub open spec fn wf(&self) -> bool {
        &&& self.xs@.len() >= 1
        &&& self.width > 0
        &&& 0 <= self.speed <= SPEED_LIMIT
        &&& self.xs@.len() * self.width <= STRIP_LIMIT
        &&& is_strip(self.xs@, self.xs@[0] as int, self.width as int)
        &&& -self.width < 2 * self.xs@[0] <= self.width
    }

    /// A pool that covers a window `window_width` units wide, its first tile
    /// centred on the left border.
    pub fn new(window_width: u32, tile_width: u32, scale: u32, speed: i64) -> (r: TilePool)
        requires
            tile_width > 0,
            scale > 0,
            0 <= speed <= SPEED_LIMIT,
            pool_size_spec(window_width as int, tile_width as int * scale as int) * (tile_width
                as int * scale as int * 1000) <= STRIP_LIMIT,
        ensures
            r.wf(),
            r.xs@.len() == pool_size_spec(window_width as int, tile_width as int * scale as int),
            r.width == tile_width as int * scale as int * 1000,
            r.speed == speed,
            is_strip(r.xs@, 0, r.width as int),
    {
        let n = pool_size(window_width, tile_width, scale);
        let ghost e = tile_width as int * scale as int;
        assert(e >= 1) by (nonlinear_arith)
            requires tile_width >= 1, scale >= 1, e == tile_width as int * scale as int;
        assert(n >= 1);
        assert(e * 1000 <= n * (e * 1000)) by (nonlinear_arith)
            requires n >= 1, e >= 1;
        let width: i64 = tile_width as i64 * scale as i64 * 1000;
        let mut xs: Vec<i64> = Vec::new();
        let mut i: u64 = 0;
        let mut x: i64 = 0;
        while i < n
            invariant
                i <= n,
                n * width <= STRIP_LIMIT,
                width == e * 1000,
                width >= 1000,
                x == i * width,
                xs@.len() == i,
                is_strip(xs@, 0, width as int),
            decreases n - i,
        {
            assert(x + width <= STRIP_LIMIT) by (nonlinear_arith)
                requires x == i * width, i < n, n * width <= STRIP_LIMIT, width >= 0;
            xs.push(x);
            x = x + width;
            i = i + 1;
            assert(x == i * width) by (nonlinear_arith)
                requires x == (i - 1) * width + width;
        }
        TilePool { xs, width, speed }
    }

    /// Advances every tile left by `speed * dt_ms` thousandths of a unit, then
    /// moves each tile that left the screen, leftmost first, behind the
    /// current rightmost tile. The pool keeps its size and stays contiguous.
    pub fn scroll(&mut self, dt_ms: u32)
        requires
            old(self).wf(),
        ensures
            scrolled(*old(self), *final(self), dt_ms as int),
    {
        let n = self.xs.len();
        let w = self.width;
        let ghost first0 = self.xs@[0] as int;
        assert(self.speed * dt_ms <= SPEED_LIMIT * 0xffff_ffff) by (nonlinear_arith)
            requires 0 <= self.speed <= SPEED_LIMIT, dt_ms <= 0xffff_ffff;
        assert(0 <= self.speed * dt_ms) by (nonlinear_arith)
            requires 0 <= self.speed, dt_ms >= 0;
        let shift: i64 = self.speed * dt_ms as i64;
        let mut i: usize = 0;
        while i < n
            invariant
                n == self.xs@.len(),
                n >= 1,
                i <= n,
                w == self.width,
                w > 0,
                n * w <= STRIP_LIMIT,
                0 <= shift <= SPEED_LIMIT * 0xffff_ffff,
                -w < 2 * first0 <= w,
                self.speed == old(self).speed,
                0 <= self.speed <= SPEED_LIMIT,
                forall|j: int| 0 <= j < i ==> #[trigger] self.xs@[j] as int == first0 + j * w - shift,
                forall|j: int| i <= j < n ==> #[trigger] self.xs@[j] as int == first0 + j * w,
            decreases n - i,
        {
            assert(0 <= i * w <= STRIP_LIMIT) by (nonlinear_arith)
                requires i < n, n * w <= STRIP_LIMIT, w > 0;
            let x = self.xs[i];
            self.xs.set(i, x - shift);
            i = i + 1;
        }
        let ghost moved = first0 - shift;
        assert(is_strip(self.xs@, moved, w as int));
        assert(w <= STRIP_LIMIT) by (nonlinear_arith)
            requires n >= 1, n * w <= STRIP_LIMIT, w > 0;
        let mut first: i64 = self.xs[0];
        while 2 * first + w <= 0
            invariant
                n == self.xs@.len(),
                n >= 1,
                w == self.width,
                w > 0,
                n * w <= STRIP_LIMIT,
                moved <= first,
                first >= -STRIP_LIMIT - SPEED_LIMIT * 0xffff_ffff,
                w <= STRIP_LIMIT,
                self.speed == old(self).speed,
                0 <= self.speed <= SPEED_LIMIT,
                2 * first <= w,
                first == self.xs@[0],
                is_strip(self.xs@, first as int, w as int),
                settle(first as int, w as int) == settle(moved, w as int),
            decreases w - 2 * first,
        {
            assert(0 <= (n - 1) * w <= STRIP_LIMIT) by (nonlinear_arith)
                requires n >= 1, n * w <= STRIP_LIMIT, w > 0;
            assert(self.xs@[n - 1] as int == first + (n - 1) * w);
            let last = self.xs[n - 1];
            let next = last + w;
            let ghost prev = self.xs@;
            self.xs.remove(0);
            self.xs.push(next);
            first = first + w;
            assert(is_strip(self.xs@, first as int, w as int)) by {
                assert forall|j: int| 0 <= j < n implies #[trigger] self.xs@[j] as int == first + j
                    * w by {
                    if j < n - 1 {
                        assert(self.xs@[j] == prev[j + 1]);
                        assert(prev[j + 1] as int == (first - w) + (j + 1) * w);
                        assert((first - w) + (j + 1) * w == first + j * w) by (nonlinear_arith);
                    } else {
                        assert(self.xs@[j] == next);
                        assert((first - w) + (n - 1) * w + w == first + (n - 1) * w) by (nonlinear_arith);
                    }
                }
            }
            assert(first == self.xs@[0]);
        }
    }
}

/// Recycling never adds or drops a tile: over any number of ticks a pool
/// keeps the size it started with, and stays a contiguous strip.
pub proof fn lemma_pool_count_invariant(pools: Seq<TilePool>, dts: Seq<u32>)
    requires
        pools.len() == dts.len() + 1,
        pools[0].wf(),
        forall|i: int| 0 <= i < dts.len() ==> scrolled(pools[i], pools[i + 1], #[trigger] dts[i] as int),
    ensures
        forall|i: int| 0 <= i < pools.len() ==> (#[trigger] pools[i]).xs@.len() == pools[0].xs@.len(),
        forall|i: int| 0 <= i < pools.len() ==> (#[trigger] pools[i]).wf(),
    decreases dts.len(),
{
    if dts.len() > 0 {
        let k = dts.len() - 1;
        lemma_pool_count_invariant(pools.drop_last(), dts.drop_last());
        assert(scrolled(pools[k], pools[k + 1], dts[k] as int));
        assert forall|i: int| 0 <= i < pools.len() implies (#[trigger] pools[i]).xs@.len() == pools[0].xs@.len()
            && pools[i].wf() by {
            if i < pools.len() - 1 {
                assert(pools.drop_last()[i] == pools[i]);
            } else {
                assert(pools.drop_last()[k] == pools[k]);
                assert(pools.drop_last()[0] == pools[0]);
            }
        }
    }
}

} // verus!
