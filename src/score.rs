use vstd::prelude::*;

use crate::state::{next_phase, FlappybirdState, PhaseRequest};

verus! {

/// Least time between two accepted scores, in milliseconds.
pub const SCORE_COOLDOWN_MS: u64 = 1000;

/// What a collider belongs to, as far as the resolver cares.
#[derive(Debug, Clone, Copy, PartialEq, Eq, Structural)]
pub enum Body {
    /// The player.
    Player,
    /// The sensor across an obstacle's gap.
    Gap,
    /// Anything solid: the ground, an obstacle's bars.
    Solid,
}

/// A contact record from one physics step.
#[derive(Debug, Clone, Copy, PartialEq, Eq, Structural)]
pub enum CollisionEvent {
    Started(Body, Body),
    Stopped(Body, Body),
}

/// The player of a run.
#[derive(Debug)]
pub struct Player {
    pub name: String,
    /// Gaps passed this run.
    pub score: u64,
    /// When the last score was accepted, in milliseconds of the game clock.
    pub last_score_time: u64,
}

impl Player {
    /// A player with no score yet.
    pub fn new(name: String) -> (r: Player)
        ensures
            r.name@ == name@,
            r.score == 0,
            r.last_score_time == 0,
    {
        Player { name, score: 0, last_score_time: 0 }
    }
}

pub open spec fn pairs(a: Body, b: Body, x: Body, y: Body) -> bool {
    (a == x && b == y) || (a == y && b == x)
}

/// The player stopped touching a gap sensor: it has passed the gap.
pub open spec fn is_gap_exit(e: CollisionEvent) -> bool {
    match e {
        CollisionEvent::Stopped(a, b) => pairs(a, b, Body::Player, Body::Gap),
        _ => false,
    }
}

/// The player started touching something solid.
pub open spec fn is_solid_hit(e: CollisionEvent) -> bool {
    match e {
        CollisionEvent::Started(a, b) => pairs(a, b, Body::Player, Body::Solid),
        _ => false,
    }
}

pub open spec fn has_gap_exit(events: Seq<CollisionEvent>) -> bool {
    exists|i: int| 0 <= i < events.len() && is_gap_exit(#[trigger] events[i])
}

pub open spec fn has_solid_hit(events: Seq<CollisionEvent>) -> bool {
    exists|i: int| 0 <= i < events.len() && is_solid_hit(#[trigger] events[i])
}

/// Whether the cooldown since `last` has run out at `now`.
pub open spec fn cooled_down(last: int, now: int) -> bool {
    now - last >= SCORE_COOLDOWN_MS
}

/// One tick of scoring from `(score, last)` to `(score2, last2)`: a gap
/// exit adds one and restarts the cooldown, provided the cooldown since the
/// last accepted score has run out; before the first score of a run there is
/// nothing to count from. Anything else changes nothing.
pub open spec fn score_step(
    score: int,
    last: int,
    events: Seq<CollisionEvent>,
    now: int,
    score2: int,
    last2: int,
    scored: bool,
) -> bool {
    &&& scored == (has_gap_exit(events) && (score == 0 || cooled_down(last, now)))
    &&& score2 == if scored { score + 1 } else { score }
    &&& last2 == if scored { now } else { last }
}

pub fn classify_gap_exit(e: &CollisionEvent) -> (r: bool)
    ensures
        r == is_gap_exit(*e),
{
    match e {
        CollisionEvent::Stopped(a, b) => (*a == Body::Player && *b == Body::Gap) || (*a == Body::Gap
            && *b == Body::Player),
        _ => false,
    }
}

pub fn classify_solid_hit(e: &CollisionEvent) -> (r: bool)
    ensures
        r == is_solid_hit(*e),
{
    match e {
        CollisionEvent::Started(a, b) => (*a == Body::Player && *b == Body::Solid) || (*a
            == Body::Solid && *b == Body::Player),
        _ => false,
    }
}

/// Scores the gaps passed in one tick's contacts, at game-clock time
/// `now_ms`. All contacts of a tick share one time, so at most one of them
/// scores. Returns whether the score went up (the point cue is due).
pub fn pipe_reached(player: &mut Player, events: &Vec<CollisionEvent>, now_ms: u64) -> (scored:
    bool)
    requires
        old(player).score < u64::MAX,
    ensures
        score_step(
            old(player).score as int,
            old(player).last_score_time as int,
            events@,
            now_ms as int,
            final(player).score as int,
            final(player).last_score_time as int,
            scored,
        ),
        final(player).name@ == old(player).name@,
        old(player).score <= final(player).score <= old(player).score + 1,
        final(player).score > old(player).score ==> final(player).last_score_time == now_ms && (old(
            player).score == 0 || now_ms - old(player).last_score_time >= SCORE_COOLDOWN_MS),
        final(player).score == old(player).score ==> final(player).last_score_time == old(
            player).last_score_time,
{
    let mut i: usize = 0;
    while i < events.len()
        invariant
            i <= events@.len(),
            forall|j: int| 0 <= j < i ==> !is_gap_exit(#[trigger] events@[j]),
            player.score == old(player).score,
            player.last_score_time == old(player).last_score_time,
            player.name@ == old(player).name@,
            old(player).score < u64::MAX,
        decreases events@.len() - i,
    {
        if classify_gap_exit(&events[i]) {
            assert(is_gap_exit(events@[i as int]));
            if player.score == 0 || (now_ms >= player.last_score_time && now_ms
                - player.last_score_time >= SCORE_COOLDOWN_MS) {
                player.score = player.score + 1;
                player.last_score_time = now_ms;
                return true;
            }
            return false;
        }
        i = i + 1;
    }
    false
}

/// The phase after one tick's contacts reach the death check.
pub open spec fn death_step(phase: FlappybirdState, events: Seq<CollisionEvent>) -> FlappybirdState {
    if phase == FlappybirdState::InGame && has_solid_hit(events) {
        next_phase(phase, PhaseRequest::Death)
    } else {
        phase
    }
}

/// Ends play on the first solid contact of the player. Contacts outside play,
/// and after death, are ignored. Returns the new phase and whether the player
/// died now (the hit cue is due).
pub fn deadly_touch(phase: FlappybirdState, events: &Vec<CollisionEvent>) -> (r: (
    FlappybirdState,
    bool,
))
    ensures
        r.0 == death_step(phase, events@),
        r.1 == (phase == FlappybirdState::InGame && r.0 == FlappybirdState::GameOver),
{
    if phase != FlappybirdState::InGame {
        return (phase, false);
    }
    let mut i: usize = 0;
    while i < events.len()
        invariant
            i <= events@.len(),
            forall|j: int| 0 <= j < i ==> !is_solid_hit(#[trigger] events@[j]),
            phase == FlappybirdState::InGame,
        decreases events@.len() - i,
    {
        if classify_solid_hit(&events[i]) {
            assert(is_solid_hit(events@[i as int]));
            return (FlappybirdState::GameOver, true);
        }
        i = i + 1;
    }
    (phase, false)
}

/// Scores never go down, go up by at most one per tick, and two accepted
/// scores are at least the cooldown apart: of two consecutive ticks that both
/// score, the second comes at least `SCORE_COOLDOWN_MS` after the first.
pub proof fn lemma_score_cooldown(
    s0: int,
    l0: int,
    e1: Seq<CollisionEvent>,
    t1: int,
    s1: int,
    l1: int,
    scored1: bool,
    e2: Seq<CollisionEvent>,
    t2: int,
    s2: int,
    l2: int,
    scored2: bool,
)
    requires
        0 <= s0,
        score_step(s0, l0, e1, t1, s1, l1, scored1),
        score_step(s1, l1, e2, t2, s2, l2, scored2),
    ensures
        s0 <= s1 <= s0 + 1,
        s1 <= s2 <= s1 + 1,
        scored1 && scored2 ==> t2 - t1 >= SCORE_COOLDOWN_MS,
        scored1 && t2 - t1 < SCORE_COOLDOWN_MS ==> s2 == s1,
{
}

/// The phase after each batch of contacts, one batch per tick, has gone
/// through the death check.
pub open spec fn phase_after(phase: FlappybirdState, batches: Seq<Seq<CollisionEvent>>) -> FlappybirdState
    decreases batches.len(),
{
    if batches.len() == 0 {
        phase
    } else {
        phase_after(death_step(phase, batches[0]), batches.drop_first())
    }
}

/// How many of those ticks moved the run from `InGame` to `GameOver`.
pub open spec fn deaths(phase: FlappybirdState, batches: Seq<Seq<CollisionEvent>>) -> nat
    decreases batches.len(),
{
    if batches.len() == 0 {
        0
    } else {
        let next = death_step(phase, batches[0]);
        (if phase == FlappybirdState::InGame && next == FlappybirdState::GameOver {
            1nat
        } else {
            0nat
        }) + deaths(next, batches.drop_first())
    }
}

proof fn lemma_no_death_outside_play(phase: FlappybirdState, batches: Seq<Seq<CollisionEvent>>)
    requires
        phase != FlappybirdState::InGame,
    ensures
        deaths(phase, batches) == 0,
        phase_after(phase, batches) == phase,
    decreases batches.len(),
{
    if batches.len() > 0 {
        lemma_no_death_outside_play(phase, batches.drop_first());
    }
}

/// However many solid contacts arrive, in one tick or in later ones, a run
/// goes from `InGame` to `GameOver` at most once; and from `InGame` it does
/// so exactly once as soon as any tick brings a solid contact.
pub proof fn lemma_single_death(phase: FlappybirdState, batches: Seq<Seq<CollisionEvent>>)
    ensures
        deaths(phase, batches) <= 1,
        phase == FlappybirdState::InGame && (exists|k: int|
            0 <= k < batches.len() && has_solid_hit(#[trigger] batches[k])) ==> deaths(phase, batches)
            == 1 && phase_after(phase, batches) == FlappybirdState::GameOver,
    decreases batches.len(),
{
    if batches.len() > 0 {
        let next = death_step(phase, batches[0]);
        let rest = batches.drop_first();
        if phase == FlappybirdState::InGame && next == FlappybirdState::GameOver {
            lemma_no_death_outside_play(next, rest);
        } else if phase == FlappybirdState::InGame {
            lemma_single_death(phase, rest);
            if exists|k: int| 0 <= k < batches.len() && has_solid_hit(#[trigger] batches[k]) {
                let k = choose|k: int| 0 <= k < batches.len() && has_solid_hit(#[trigger] batches[k]);
                assert(k != 0);
                assert(rest[k - 1] == batches[k]);
            }
        } else {
            lemma_no_death_outside_play(phase, batches);
        }
    }
}

} // verus!
