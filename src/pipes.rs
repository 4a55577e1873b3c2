use vstd::prelude::*;

use rand::Rng;

use crate::tiles::{GROUND_SPEED, SPEED_LIMIT};

verus! {

/// Period of the obstacle spawner, in milliseconds.
pub const SPAWN_PERIOD_MS: u64 = 1500;

/// How far right of the screen's right edge an obstacle appears, in units.
pub const PIPE_SPAWN_MARGIN: u32 = 50;

/// One vertical step of an obstacle's gap offset, in thousandths of a unit.
pub const GAP_STEP: i64 = 40_000;

/// Lowest gap offset, in steps.
pub const GAP_STEP_MIN: i64 = -3;

/// Highest gap offset, in steps.
pub const GAP_STEP_MAX: i64 = 5;

/// Half the height of the gap between the two bars, in units.
pub const PIPE_DISTANCE: i64 = 40;

/// An obstacle is removed once its centre is left of this, in thousandths of
/// a unit: it has crossed the left border by more than its own drawn width
/// (30 units at scale 3).
pub const PIPE_DESPAWN_X: i64 = -90_000;

/// Obstacles never start right of this, in thousandths of a unit.
pub const PIPE_X_LIMIT: i64 = 0x800_0000_0000;

/// An obstacle: a sensor across the gap between an upper and a lower bar.
#[derive(Debug, Clone, Copy, PartialEq, Eq, Structural)]
pub struct Pipe {
    /// Horizontal centre, in thousandths of a unit.
    pub x: i64,
    /// Vertical centre of the gap, in thousandths of a unit.
    pub y: i64,
    /// Scroll speed, in units per second.
    pub speed: i64,
}

impl Pipe {
    pub open spec fn wf(&self) -> bool {
        &&& PIPE_DESPAWN_X <= self.x <= PIPE_X_LIMIT
        &&& 0 <= self.speed <= SPEED_LIMIT
    }
}

/// Where an obstacle spawns, for a window of `width` x `height` units and a
/// gap offset of `step` steps.
pub open spec fn spawned_pipe(width: int, height: int, step: int) -> Pipe {
    Pipe {
        x: ((width + PIPE_SPAWN_MARGIN) * 1000) as i64,
        y: (height * 500 + step * GAP_STEP) as i64,
        speed: GROUND_SPEED,
    }
}

/// A new obstacle right of the screen, its gap `step` steps off the middle,
/// scrolling with the ground.
pub fn spawn_pipe(width: u32, height: u32, step: i64) -> (r: Pipe)
    requires
        GAP_STEP_MIN <= step <= GAP_STEP_MAX,
    ensures
        r == spawned_pipe(width as int, height as int, step as int),
        r.x == (width as int + PIPE_SPAWN_MARGIN) * 1000,
        r.y == height as int * 500 + step * GAP_STEP,
        r.wf(),
{
    let x: i64 = (width as i64 + PIPE_SPAWN_MARGIN as i64) * 1000;
    let y: i64 = height as i64 * 500 + step * GAP_STEP;
    Pipe { x, y, speed: GROUND_SPEED }
}

/// Relies on rand's `Rng::gen_range` over the thread-local generator: a
/// value drawn from `lo..hi`, which it never leaves (it panics only on an
/// empty range).
#[verifier::external_body]
fn random_in_range(lo: i64, hi: i64) -> (r: i64)
    requires
        lo < hi,
    ensures
        lo <= r < hi,
{
    rand::thread_rng().gen_range(lo..hi)
}

/// Draws an obstacle's gap offset, in steps.
pub fn draw_gap_step() -> (r: i64)
    ensures
        GAP_STEP_MIN <= r <= GAP_STEP_MAX,
{
    random_in_range(GAP_STEP_MIN, GAP_STEP_MAX + 1)
}

/// The repeating spawn timer: time since it last fired.
#[derive(Debug, Clone, Copy, PartialEq, Eq, Structural)]
pub struct SpawnTimer {
    pub elapsed_ms: u64,
}

impl SpawnTimer {
    pub open spec fn wf(&self) -> bool {
        self.elapsed_ms < SPAWN_PERIOD_MS
    }

    pub fn new() -> (r: SpawnTimer)
        ensures
            r.wf(),
            r.elapsed_ms == 0,
    {
        SpawnTimer { elapsed_ms: 0 }
    }

    /// Advances the timer by `dt_ms`; returns whether it fired. It fires once
    /// however many periods passed, and keeps the remainder.
    pub fn tick(&mut self, dt_ms: u32) -> (fired: bool)
        requires
            old(self).wf(),
        ensures
            final(self).wf(),
            fired == (old(self).elapsed_ms + dt_ms >= SPAWN_PERIOD_MS),
            final(self).elapsed_ms == (old(self).elapsed_ms + dt_ms) % (SPAWN_PERIOD_MS as int),
    {
        let total: u64 = self.elapsed_ms + dt_ms as u64;
        self.elapsed_ms = total % SPAWN_PERIOD_MS;
        total >= SPAWN_PERIOD_MS
    }
}

/// An obstacle after it moved left by `speed * dt_ms` thousandths of a unit.
pub open spec fn moved_pipe(p: Pipe, dt_ms: int) -> Pipe {
    Pipe { x: (p.x - p.speed * dt_ms) as i64, ..p }
}

/// Ticks the spawn timer by `dt_ms`; when it fires, appends a new obstacle
/// for a window of `width` x `height` units with its gap `step` steps off the
/// middle. Returns whether it spawned.
pub fn spawn_pipes(
    timer: &mut SpawnTimer,
    pipes: &mut Vec<Pipe>,
    dt_ms: u32,
    width: u32,
    height: u32,
    step: i64,
) -> (spawned: bool)
    requires
        old(timer).wf(),
        GAP_STEP_MIN <= step <= GAP_STEP_MAX,
    ensures
        final(timer).wf(),
        spawned == (old(timer).elapsed_ms + dt_ms >= SPAWN_PERIOD_MS),
        final(timer).elapsed_ms == (old(timer).elapsed_ms + dt_ms) % (SPAWN_PERIOD_MS as int),
        final(pipes)@ == if spawned {
            old(pipes)@.push(spawned_pipe(width as int, height as int, step as int))
        } else {
            old(pipes)@
        },
{
    let fired = timer.tick(dt_ms);
    if fired {
        pipes.push(spawn_pipe(width, height, step));
    }
    fired
}

/// Obstacles after each moved at its own speed.
pub open spec fn moved_pipes(s: Seq<Pipe>, dt_ms: int) -> Seq<Pipe> {
    s.map_values(|p: Pipe| moved_pipe(p, dt_ms))
}

/// Moves every obstacle left at its own speed.
pub fn move_pipes(pipes: &mut Vec<Pipe>, dt_ms: u32)
    requires
        forall|i: int| 0 <= i < old(pipes)@.len() ==> (#[trigger] old(pipes)@[i]).wf(),
    ensures
        final(pipes)@ == moved_pipes(old(pipes)@, dt_ms as int),
        forall|i: int|
            0 <= i < final(pipes)@.len() ==> #[trigger] final(pipes)@[i].x == old(pipes)@[i].x
                - old(pipes)@[i].speed * dt_ms,
{
    let n = pipes.len();
    let mut i: usize = 0;
    while i < n
        invariant
            n == pipes@.len(),
            n == old(pipes)@.len(),
            i <= n,
            forall|j: int| 0 <= j < n ==> (#[trigger] old(pipes)@[j]).wf(),
            forall|j: int| i <= j < n ==> #[trigger] pipes@[j] == old(pipes)@[j],
            forall|j: int|
                0 <= j < i ==> #[trigger] pipes@[j] == moved_pipe(old(pipes)@[j], dt_ms as int),
            forall|j: int| 0 <= j < i ==> #[trigger] pipes@[j].x == old(pipes)@[j].x
                - old(pipes)@[j].speed * dt_ms,
        decreases n - i,
    {
        let p = pipes[i];
        assert(0 <= p.speed * dt_ms <= SPEED_LIMIT * 0xffff_ffff) by (nonlinear_arith)
            requires 0 <= p.speed <= SPEED_LIMIT, 0 <= dt_ms <= 0xffff_ffff;
        let shift: i64 = p.speed * dt_ms as i64;
        pipes.set(i, Pipe { x: p.x - shift, ..p });
        i = i + 1;
    }
    assert(pipes@ =~= moved_pipes(old(pipes)@, dt_ms as int));
}

/// Whether an obstacle is still on screen.
pub open spec fn on_screen() -> spec_fn(Pipe) -> bool {
    |p: Pipe| p.x >= PIPE_DESPAWN_X
}

/// Obstacles that are still on screen.
pub open spec fn kept_pipes(s: Seq<Pipe>) -> Seq<Pipe> {
    s.filter(on_screen())
}

/// Removes every obstacle that has scrolled off the left of the screen,
/// keeping the others in order.
pub fn despawn_pipes(pipes: &mut Vec<Pipe>)
    ensures
        final(pipes)@ == kept_pipes(old(pipes)@),
{
    let mut kept: Vec<Pipe> = Vec::new();
    let mut i: usize = 0;
    while i < pipes.len()
        invariant
            *pipes == *old(pipes),
            i <= pipes@.len(),
            kept@ == kept_pipes(pipes@.subrange(0, i as int)),
        decreases pipes@.len() - i,
    {
        let p = pipes[i];
        proof {
            reveal(Seq::filter);
        }
        let ghost upto = pipes@.subrange(0, i + 1);
        assert(upto.drop_last() =~= pipes@.subrange(0, i as int));
        assert(upto.last() == p);
        assert(kept_pipes(upto) == if p.x >= PIPE_DESPAWN_X {
            kept_pipes(upto.drop_last()).push(p)
        } else {
            kept_pipes(upto.drop_last())
        });
        if p.x >= PIPE_DESPAWN_X {
            kept.push(p);
        }
        i = i + 1;
    }
    assert(pipes@.subrange(0, pipes@.len() as int) =~= pipes@);
    *pipes = kept;
}

/// Moving well-formed obstacles and dropping those off screen leaves only
/// well-formed obstacles.
pub proof fn lemma_kept_moved_wf(s: Seq<Pipe>, dt_ms: u32, speed: i64)
    requires
        forall|i: int| 0 <= i < s.len() ==> (#[trigger] s[i]).wf() && s[i].speed == speed,
    ensures
        forall|i: int|
            0 <= i < kept_pipes(moved_pipes(s, dt_ms as int)).len() ==> (#[trigger] kept_pipes(
                moved_pipes(s, dt_ms as int),
            )[i]).wf() && kept_pipes(moved_pipes(s, dt_ms as int))[i].speed == speed,
{
    let moved = moved_pipes(s, dt_ms as int);
    let kept = kept_pipes(moved);
    assert forall|i: int| 0 <= i < kept.len() implies (#[trigger] kept[i]).wf() && kept[i].speed
        == speed by {
        moved.lemma_filter_pred(on_screen(), i);
        moved.lemma_filter_contains_rev(on_screen(), kept[i]);
        let j = choose|j: int| 0 <= j < moved.len() && moved[j] == kept[i];
        let p = s[j];
        assert(p.wf());
        assert(0 <= p.speed * dt_ms <= SPEED_LIMIT * 0xffff_ffff) by (nonlinear_arith)
            requires 0 <= p.speed <= SPEED_LIMIT, 0 <= dt_ms <= 0xffff_ffff;
        assert(moved[j] == moved_pipe(p, dt_ms as int));
    }
}

/// Moving obstacles by `d1` and then by `d2` milliseconds moves them as far
/// as one move by `d1 + d2`: each one travels exactly `speed * (d1 + d2)`.
pub proof fn lemma_moves_add_up(s: Seq<Pipe>, d1: u32, d2: u32)
    requires
        forall|i: int| 0 <= i < s.len() ==> (#[trigger] s[i]).wf(),
    ensures
        moved_pipes(moved_pipes(s, d1 as int), d2 as int) == moved_pipes(s, d1 + d2),
        forall|i: int|
            0 <= i < s.len() ==> #[trigger] moved_pipes(moved_pipes(s, d1 as int), d2 as int)[i].x
                == s[i].x - s[i].speed * (d1 + d2),
{
    let once = moved_pipes(s, d1 as int);
    let twice = moved_pipes(once, d2 as int);
    let whole = moved_pipes(s, d1 + d2);
    assert forall|i: int| 0 <= i < s.len() implies #[trigger] twice[i] == whole[i] && twice[i].x
        == s[i].x - s[i].speed * (d1 + d2) by {
        let p = s[i];
        assert(p.wf());
        assert(0 <= p.speed * d1 <= SPEED_LIMIT * 0xffff_ffff) by (nonlinear_arith)
            requires 0 <= p.speed <= SPEED_LIMIT, 0 <= d1 <= 0xffff_ffff;
        assert(0 <= p.speed * d2 <= SPEED_LIMIT * 0xffff_ffff) by (nonlinear_arith)
            requires 0 <= p.speed <= SPEED_LIMIT, 0 <= d2 <= 0xffff_ffff;
        assert(p.speed * d1 + p.speed * d2 == p.speed * (d1 + d2)) by (nonlinear_arith);
        assert(once[i] == moved_pipe(p, d1 as int));
        assert(twice[i] == moved_pipe(once[i], d2 as int));
    }
    assert(twice =~= whole);
}

} // verus!
