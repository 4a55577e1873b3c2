use vstd::prelude::*;

use crate::controller::{
    flap_taken, player_movement, player_movement_restrictions, player_rotation,
    player_velocity_limiter, rotation_step, PlayerBody, Velocity, PLAYER_SPEED,
    UPWARD_ROTATION_LIMIT,
};
use crate::pipes::{
    despawn_pipes, draw_gap_step, kept_pipes, lemma_kept_moved_wf, move_pipes, moved_pipes,
    spawn_pipes, spawned_pipe, Pipe, SpawnTimer, GAP_STEP_MAX, GAP_STEP_MIN, SPAWN_PERIOD_MS,
};
use crate::score::{
    deadly_touch, death_step, pipe_reached, score_step, CollisionEvent, Player,
};
use crate::state::{controls_live_spec, FlappybirdState};
use crate::tiles::{
    pool_size_spec, scrolled, TilePool, GROUND_SPEED, GROUND_TILE_WIDTH, SKY_SPEED,
    SKY_TILE_WIDTH, STRIP_LIMIT, TILE_SCALE,
};

verus! {

/// How far above the window's middle the player waits on the title screen, in
/// thousandths of a unit.
pub const TITLE_LIFT: i64 = 70_000;

/// The buttons of the title screen.
#[derive(Debug, Clone, Copy, PartialEq, Eq, Structural)]
pub enum TitleScreenButtons {
    Play,
    Github,
    Settings,
    Scoreboard,
    Exit,
}

/// Sound cues the core asks the audio side to play, fire and forget.
#[derive(Debug, Clone, Copy, PartialEq, Eq, Structural)]
pub enum Cue {
    /// A flap.
    Wing,
    /// A point scored.
    Point,
    /// The player hit something solid.
    Hit,
    /// A menu selection.
    Swoosh,
}

/// What the outside world hands the core for one tick.
pub struct TickInput {
    /// Length of the tick, in milliseconds.
    pub dt_ms: u32,
    /// Whether a flap (key or pointer press) came in.
    pub flap: bool,
    /// The player's height after the last physics step, in thousandths of a
    /// unit.
    pub y: i64,
    /// The player's velocity after the last physics step.
    pub velocity: Velocity,
    /// Every contact record of the last physics step, each drained once.
    pub contacts: Vec<CollisionEvent>,
}

/// What the core asks of the outside world after one tick.
pub struct TickReport {
    /// Sound cues, in order.
    pub cues: Vec<Cue>,
    /// Vertical impulse to apply to the player.
    pub impulse_y: i64,
    /// Whether the score changed (the score text is due for an update).
    pub score_changed: bool,
    /// Whether an obstacle was spawned (it is the last of `pipes`).
    pub spawned: bool,
}

/// Everything a run owns: the phase, the player, the tile pools, the
/// obstacles, the spawn timer and the game clock.
pub struct RunContext {
    pub phase: FlappybirdState,
    pub player: Player,
    pub body: PlayerBody,
    pub ground: TilePool,
    pub sky: TilePool,
    pub pipes: Vec<Pipe>,
    pub spawn_timer: SpawnTimer,
    /// Game-clock time, in milliseconds.
    pub clock_ms: u64,
    /// Window width, in units.
    pub window_width: u32,
    /// Window height, in units.
    pub window_height: u32,
}

/// The player's body where it waits on the title screen: fixed, level, at
/// rest, in the middle of the window and a little above.
pub open spec fn title_body(width: int, height: int) -> PlayerBody {
    PlayerBody {
        x: (width * 500) as i64,
        y: (height * 500 + TITLE_LIFT) as i64,
        velocity: Velocity { x: 0, y: 0 },
        rotation: 0,
        dynamic: false,
    }
}

/// The player's body for a new run: waiting on the title screen for a window
/// of `width` x `height` units.
pub fn spawn_player(width: u32, height: u32) -> (r: PlayerBody)
    ensures
        r == title_body(width as int, height as int),
{
    PlayerBody {
        x: width as i64 * 500,
        y: height as i64 * 500 + TITLE_LIFT,
        velocity: Velocity { x: 0, y: 0 },
        rotation: 0,
        dynamic: false,
    }
}

/// The cues of one tick: the wing for a flap, the point for a score, the hit
/// for a death, in that order.
pub open spec fn tick_cues(flapped: bool, scored: bool, died: bool) -> Seq<Cue> {
    (if flapped { seq![Cue::Wing] } else { Seq::empty() }) + (if scored {
        seq![Cue::Point]
    } else {
        Seq::empty()
    }) + (if died { seq![Cue::Hit] } else { Seq::empty() })
}

/// An obstacle that `spawn_pipe` can give for this window, whatever offset
/// was drawn.
pub open spec fn is_spawned_pipe(p: Pipe, width: int, height: int) -> bool {
    exists|step: int| GAP_STEP_MIN <= step <= GAP_STEP_MAX && p == spawned_pipe(width, height, step)
}

/// The body as the last physics step left it: height and velocity are the
/// physics world's, the rest is the core's.
pub open spec fn body_in(body: PlayerBody, input: TickInput) -> PlayerBody {
    PlayerBody { y: input.y, velocity: input.velocity, ..body }
}

/// Whether this tick's flap is taken.
pub open spec fn tick_flapped(run: RunContext, input: TickInput) -> bool {
    flap_taken(
        run.phase,
        body_in(run.body, input),
        input.flap,
        run.window_height as int * 1000,
    )
}

/// The vertical velocity after the controller: a taken flap clears a fall,
/// then the limiter clamps. Outside the ready screen and play it is the
/// physics world's.
pub open spec fn tick_vy(run: RunContext, input: TickInput) -> int {
    let vy = input.velocity.y as int;
    if controls_live_spec(run.phase) {
        let lifted = if tick_flapped(run, input) && vy < 0 { 0 } else { vy };
        if lifted > PLAYER_SPEED { PLAYER_SPEED as int } else { lifted }
    } else {
        vy
    }
}

/// The pitch after the tick: a flap pitches up, and in play the pitch is
/// then smoothed toward its target.
pub open spec fn tick_rotation(run: RunContext, input: TickInput) -> int {
    let pitched = if tick_flapped(run, input) {
        UPWARD_ROTATION_LIMIT as int
    } else {
        run.body.rotation as int
    };
    if run.phase == FlappybirdState::InGame {
        rotation_step(pitched, tick_vy(run, input), input.dt_ms as int)
    } else {
        pitched
    }
}

/// The phase after the tick: the first flap on the ready screen starts play;
/// in play, a solid contact ends it.
pub open spec fn tick_phase(run: RunContext, input: TickInput) -> FlappybirdState {
    if run.phase == FlappybirdState::InGame {
        death_step(run.phase, input.contacts@)
    } else if run.phase == FlappybirdState::TapTap && tick_flapped(run, input) {
        FlappybirdState::InGame
    } else {
        run.phase
    }
}

/// The obstacles after a tick of play, before any spawn: moved, and those
/// off screen dropped.
pub open spec fn tick_pipes(run: RunContext, input: TickInput) -> Seq<Pipe> {
    kept_pipes(moved_pipes(run.pipes@, input.dt_ms as int))
}

/// Whether the spawn timer fires this tick.
pub open spec fn tick_fires(run: RunContext, input: TickInput) -> bool {
    run.phase == FlappybirdState::InGame && run.spawn_timer.elapsed_ms + input.dt_ms
        >= SPAWN_PERIOD_MS
}

/// Everything a tick does that does not depend on the drawn gap offset.
pub open spec fn ticked(run: RunContext, input: TickInput, after: RunContext, report: TickReport) -> bool {
    let p = run.phase;
    let now = run.clock_ms + input.dt_ms;
    let flapped = tick_flapped(run, input);
    let in_game = p == FlappybirdState::InGame;
    &&& after.wf()
    &&& after.clock_ms == now
    &&& after.window_width == run.window_width
    &&& after.window_height == run.window_height
    &&& after.phase == tick_phase(run, input)
    &&& after.body.x == run.body.x
    &&& after.body.y == input.y
    &&& after.body.velocity.x == if controls_live_spec(p) { 0 } else { input.velocity.x }
    &&& after.body.velocity.y == tick_vy(run, input)
    &&& after.body.rotation == tick_rotation(run, input)
    &&& after.body.dynamic == (run.body.dynamic || (flapped && p == FlappybirdState::TapTap))
    &&& report.impulse_y == if flapped { crate::controller::FLAP_IMPULSE } else { 0 }
    &&& if p != FlappybirdState::GameOver {
        scrolled(run.sky, after.sky, input.dt_ms as int)
    } else {
        after.sky == run.sky
    }
    &&& if controls_live_spec(p) {
        scrolled(run.ground, after.ground, input.dt_ms as int)
    } else {
        after.ground == run.ground
    }
    &&& after.player.name@ == run.player.name@
    &&& if in_game {
        score_step(
            run.player.score as int,
            run.player.last_score_time as int,
            input.contacts@,
            now,
            after.player.score as int,
            after.player.last_score_time as int,
            report.score_changed,
        )
    } else {
        &&& !report.score_changed
        &&& after.player.score == run.player.score
        &&& after.player.last_score_time == run.player.last_score_time
    }
    &&& report.spawned == tick_fires(run, input)
    &&& if in_game {
        &&& after.spawn_timer.elapsed_ms == (run.spawn_timer.elapsed_ms + input.dt_ms) % (
        SPAWN_PERIOD_MS as int)
        &&& if report.spawned {
            &&& after.pipes@.len() == tick_pipes(run, input).len() + 1
            &&& after.pipes@.drop_last() == tick_pipes(run, input)
            &&& is_spawned_pipe(after.pipes@.last(), run.window_width as int, run.window_height as int)
        } else {
            after.pipes@ == tick_pipes(run, input)
        }
    } else {
        after.spawn_timer == run.spawn_timer && after.pipes@ == run.pipes@
    }
    &&& report.cues@ == tick_cues(
        flapped,
        report.score_changed,
        in_game && after.phase == FlappybirdState::GameOver,
    )
}

/// What a tick may ask of a run: a well-formed run, and room left in the
/// clock and the score.
pub open spec fn tick_ready(run: RunContext, input: TickInput) -> bool {
    &&& run.wf()
    &&& run.clock_ms + input.dt_ms <= u64::MAX
    &&& run.player.score < u64::MAX
}

/// Whenever the controller runs in a tick (on the ready screen and in play),
/// the player leaves it with no horizontal velocity and an upward velocity of
/// at most `PLAYER_SPEED`.
pub proof fn lemma_controller_bounds(
    run: RunContext,
    input: TickInput,
    after: RunContext,
    report: TickReport,
)
    requires
        ticked(run, input, after, report),
        controls_live_spec(run.phase),
    ensures
        after.body.velocity.x == 0,
        after.body.velocity.y <= PLAYER_SPEED,
{
}

/// A flap on the ready screen starts play and makes the body dynamic in the
/// same tick.
pub proof fn lemma_first_flap_starts_play(
    run: RunContext,
    input: TickInput,
    after: RunContext,
    report: TickReport,
)
    requires
        ticked(run, input, after, report),
        run.phase == FlappybirdState::TapTap,
        input.flap,
        (input.y as int) < run.window_height as int * 1000,
    ensures
        after.phase == FlappybirdState::InGame,
        after.body.dynamic,
        report.impulse_y == crate::controller::FLAP_IMPULSE,
{
}

/// Once the game is over, no tick changes the phase, asks for a cue or
/// pushes the player: further contacts are ignored.
pub proof fn lemma_game_over_is_final(
    run: RunContext,
    input: TickInput,
    after: RunContext,
    report: TickReport,
)
    requires
        ticked(run, input, after, report),
        run.phase == FlappybirdState::GameOver,
    ensures
        after.phase == FlappybirdState::GameOver,
        report.cues@.len() == 0,
        report.impulse_y == 0,
        after.player.score == run.player.score,
{
    assert(tick_cues(false, false, false) =~= Seq::<Cue>::empty());
}

proof fn lemma_pool_fits(window_width: u32, e: int)
    requires
        1 <= e <= 1000,
    ensures
        pool_size_spec(window_width as int, e) * (e * 1000) <= STRIP_LIMIT,
{
    let w = window_width as int;
    vstd::arithmetic::div_mod::lemma_fundamental_div_mod(w, e);
    let q = w / e;
    let m = w % e;
    assert(q * e <= w) by (nonlinear_arith)
        requires w == e * q + m, 0 <= m;
    assert(pool_size_spec(w, e) <= q + 2);
    assert(pool_size_spec(w, e) * (e * 1000) <= (q + 2) * (e * 1000)) by (nonlinear_arith)
        requires pool_size_spec(w, e) <= q + 2, e >= 1;
    assert((q + 2) * (e * 1000) == 1000 * (q * e) + 2000 * e) by (nonlinear_arith);
}

impl RunContext {
    pub open spec fn wf(&self) -> bool {
        &&& self.ground.wf()
        &&& self.sky.wf()
        &&& self.ground.speed == GROUND_SPEED
        &&& self.sky.speed == SKY_SPEED
        &&& self.spawn_timer.wf()
        &&& forall|i: int|
            0 <= i < self.pipes@.len() ==> (#[trigger] self.pipes@[i]).wf() && self.pipes@[i].speed
                == GROUND_SPEED
    }

    /// A fresh run on the title screen for a window of `width` x `height`
    /// units: tile pools that cover the window, no obstacles, no score.
    pub fn new(width: u32, height: u32, name: String) -> (r: RunContext)
        ensures
            r.wf(),
            r.phase == FlappybirdState::MainTitle,
            r.player.name@ == name@,
            r.player.score == 0,
            r.player.last_score_time == 0,
            r.body == title_body(width as int, height as int),
            r.ground.xs@.len() == pool_size_spec(width as int, GROUND_TILE_WIDTH * TILE_SCALE),
            r.sky.xs@.len() == pool_size_spec(width as int, SKY_TILE_WIDTH * TILE_SCALE),
            r.ground.width == GROUND_TILE_WIDTH * TILE_SCALE * 1000,
            r.sky.width == SKY_TILE_WIDTH * TILE_SCALE * 1000,
            crate::tiles::is_strip(r.ground.xs@, 0, r.ground.width as int),
            crate::tiles::is_strip(r.sky.xs@, 0, r.sky.width as int),
            r.pipes@.len() == 0,
            r.spawn_timer.elapsed_ms == 0,
            r.clock_ms == 0,
            r.window_width == width,
            r.window_height == height,
    {
        proof {
            lemma_pool_fits(width, GROUND_TILE_WIDTH * TILE_SCALE);
            lemma_pool_fits(width, SKY_TILE_WIDTH * TILE_SCALE);
        }
        let ground = TilePool::new(width, GROUND_TILE_WIDTH, TILE_SCALE, GROUND_SPEED);
        let sky = TilePool::new(width, SKY_TILE_WIDTH, TILE_SCALE, SKY_SPEED);
        RunContext {
            phase: FlappybirdState::MainTitle,
            player: Player::new(name),
            body: spawn_player(width, height),
            ground,
            sky,
            pipes: Vec::new(),
            spawn_timer: SpawnTimer::new(),
            clock_ms: 0,
            window_width: width,
            window_height: height,
        }
    }
}

impl RunContext {
    /// A press on a title-screen button. Only the title screen takes it: every
    /// press asks for the swoosh cue; "Play" moves the player to its place for
    /// play and shows the ready screen, "Settings" opens the settings.
    pub fn title_button_system(&mut self, button: TitleScreenButtons) -> (cue: Option<Cue>)
        ensures
            final(self).player == old(self).player,
            final(self).ground == old(self).ground,
            final(self).sky == old(self).sky,
            final(self).pipes == old(self).pipes,
            final(self).spawn_timer == old(self).spawn_timer,
            final(self).clock_ms == old(self).clock_ms,
            final(self).window_width == old(self).window_width,
            final(self).window_height == old(self).window_height,
            old(self).phase != FlappybirdState::MainTitle ==> cue.is_none() && final(self).phase
                == old(self).phase && final(self).body == old(self).body,
            old(self).phase == FlappybirdState::MainTitle ==> {
                &&& cue == Some(Cue::Swoosh)
                &&& final(self).phase == match button {
                    TitleScreenButtons::Play => FlappybirdState::TapTap,
                    TitleScreenButtons::Settings => FlappybirdState::Settings,
                    _ => FlappybirdState::MainTitle,
                }
                &&& final(self).body == if button == TitleScreenButtons::Play {
                    PlayerBody {
                        x: (old(self).window_width as int * 1000 / 6) as i64,
                        y: (old(self).window_height as int * 500) as i64,
                        ..old(self).body
                    }
                } else {
                    old(self).body
                }
            },
    {
        if self.phase != FlappybirdState::MainTitle {
            return None;
        }
        match button {
            TitleScreenButtons::Play => {
                self.body.x = self.window_width as i64 * 1000 / 6;
                self.body.y = self.window_height as i64 * 500;
                self.phase = crate::state::transition(self.phase, crate::state::PhaseRequest::Play);
            },
            TitleScreenButtons::Settings => {
                self.phase = crate::state::transition(
                    self.phase,
                    crate::state::PhaseRequest::OpenSettings,
                );
            },
            _ => {},
        }
        Some(Cue::Swoosh)
    }

    /// Starts over after a game over: the score, the obstacles, the tile pools,
    /// the spawn timer and the player's body go back to how a fresh run has
    /// them, and the phase to the title screen. In any other phase nothing
    /// changes. Returns whether the run was reset.
    pub fn reset_run(&mut self) -> (done: bool)
        requires
            old(self).wf(),
        ensures
            final(self).wf(),
            done == (old(self).phase == FlappybirdState::GameOver),
            final(self).clock_ms == old(self).clock_ms,
            final(self).window_width == old(self).window_width,
            final(self).window_height == old(self).window_height,
            final(self).player.name@ == old(self).player.name@,
            done ==> {
                &&& final(self).phase == FlappybirdState::MainTitle
                &&& final(self).player.score == 0
                &&& final(self).player.last_score_time == 0
                &&& final(self).pipes@.len() == 0
                &&& final(self).spawn_timer.elapsed_ms == 0
                &&& final(self).body == title_body(
                    old(self).window_width as int,
                    old(self).window_height as int,
                )
                &&& final(self).ground.xs@.len() == pool_size_spec(
                    old(self).window_width as int,
                    GROUND_TILE_WIDTH * TILE_SCALE,
                )
                &&& final(self).sky.xs@.len() == pool_size_spec(
                    old(self).window_width as int,
                    SKY_TILE_WIDTH * TILE_SCALE,
                )
                &&& crate::tiles::is_strip(final(self).ground.xs@, 0, final(self).ground.width as int)
                &&& crate::tiles::is_strip(final(self).sky.xs@, 0, final(self).sky.width as int)
            },
            !done ==> {
                &&& final(self).phase == old(self).phase
                &&& final(self).player == old(self).player
                &&& final(self).body == old(self).body
                &&& final(self).ground == old(self).ground
                &&& final(self).sky == old(self).sky
                &&& final(self).pipes == old(self).pipes
                &&& final(self).spawn_timer == old(self).spawn_timer
            },
    {
        if self.phase != FlappybirdState::GameOver {
            return false;
        }
        let width = self.window_width;
        let height = self.window_height;
        proof {
            lemma_pool_fits(width, GROUND_TILE_WIDTH * TILE_SCALE);
            lemma_pool_fits(width, SKY_TILE_WIDTH * TILE_SCALE);
        }
        self.phase = crate::state::transition(self.phase, crate::state::PhaseRequest::Reset);
        self.player.score = 0;
        self.player.last_score_time = 0;
        self.pipes = Vec::new();
        self.spawn_timer = SpawnTimer::new();
        self.ground = TilePool::new(width, GROUND_TILE_WIDTH, TILE_SCALE, GROUND_SPEED);
        self.sky = TilePool::new(width, SKY_TILE_WIDTH, TILE_SCALE, SKY_SPEED);
        self.body = spawn_player(width, height);
        true
    }

    /// One tick, with the gap offset of a spawn given as `step`. In order: the
    /// clock advances; the sky scrolls unless the game is over and the ground
    /// on the ready screen and in play; the controller takes the flap, locks
    /// horizontal drift and clamps the vertical velocity; in play the spawn
    /// timer ticks, obstacles move and leave, a spawn is made if due, the
    /// pitch is smoothed, and the contacts are resolved into score and death.
    pub fn advance(&mut self, input: &TickInput, step: i64) -> (report: TickReport)
        requires
            tick_ready(*old(self), *input),
            GAP_STEP_MIN <= step <= GAP_STEP_MAX,
        ensures
            ticked(*old(self), *input, *final(self), report),
            report.spawned ==> final(self).pipes@.last() == spawned_pipe(
                old(self).window_width as int,
                old(self).window_height as int,
                step as int,
            ),
    {
        let p = self.phase;
        let dt = input.dt_ms;
        self.clock_ms = self.clock_ms + dt as u64;
        if p != FlappybirdState::GameOver {
            self.sky.scroll(dt);
        }
        if p.controls_live() {
            self.ground.scroll(dt);
        }
        self.body.y = input.y;
        self.body.velocity = input.velocity;
        let mut flapped = false;
        let mut impulse_y: i64 = 0;
        let mut phase = p;
        if p.controls_live() {
            let top: i64 = self.window_height as i64 * 1000;
            let out = player_movement(p, &mut self.body, input.flap, top);
            flapped = out.flapped;
            impulse_y = out.impulse_y;
            phase = out.phase;
            player_movement_restrictions(&mut self.body.velocity);
            player_velocity_limiter(&mut self.body.velocity);
        }
        let mut scored = false;
        let mut died = false;
        let mut spawned = false;
        if p == FlappybirdState::InGame {
            proof {
                lemma_kept_moved_wf(self.pipes@, dt, GROUND_SPEED);
            }
            move_pipes(&mut self.pipes, dt);
            despawn_pipes(&mut self.pipes);
            let ghost kept = self.pipes@;
            spawned = spawn_pipes(
                &mut self.spawn_timer,
                &mut self.pipes,
                dt,
                self.window_width,
                self.window_height,
                step,
            );
            if spawned {
                assert(self.pipes@.drop_last() =~= kept);
            }
            self.body.rotation = player_rotation(self.body.rotation, self.body.velocity.y, dt);
            scored = pipe_reached(&mut self.player, &input.contacts, self.clock_ms);
            let (next, hit) = deadly_touch(p, &input.contacts);
            phase = next;
            died = hit;
        }
        self.phase = phase;
        let mut cues: Vec<Cue> = Vec::new();
        if flapped {
            cues.push(Cue::Wing);
        }
        if scored {
            cues.push(Cue::Point);
        }
        if died {
            cues.push(Cue::Hit);
        }
        assert(cues@ =~= tick_cues(flapped, scored, died));
        TickReport { cues, impulse_y, score_changed: scored, spawned }
    }

    /// One tick: as `advance`, with the gap offset of a spawn drawn at random.
    pub fn tick(&mut self, input: &TickInput) -> (report: TickReport)
        requires
            tick_ready(*old(self), *input),
        ensures
            ticked(*old(self), *input, *final(self), report),
    {
        let step = draw_gap_step();
        let report = self.advance(input, step);
        proof {
            if report.spawned {
                assert(GAP_STEP_MIN <= step <= GAP_STEP_MAX && self.pipes@.last() == spawned_pipe(
                    self.window_width as int,
                    self.window_height as int,
                    step as int,
                ));
            }
        }
        report
    }
}

} // verus!
