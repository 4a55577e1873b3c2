use vstd::prelude::*;

use crate::state::{controls_live_spec, transition, FlappybirdState, PhaseRequest};

verus! {

/// Upper bound on the player's vertical velocity, in thousandths of a unit per
/// second (500 units/s).
pub const PLAYER_SPEED: i32 = 500_000;

/// "Nose up" pitch, in thousandths of a degree.
pub const UPWARD_ROTATION_LIMIT: i32 = 25_000;

/// "Nose down" pitch, in thousandths of a degree.
pub const DOWNWARD_ROTATION_LIMIT: i32 = -90_000;

/// Vertical velocity above which the player pitches up, in thousandths of a
/// unit per second (-300 units/s).
pub const DIVE_THRESHOLD: i32 = -300_000;

/// Base rate of the pitch smoothing, per second.
pub const ROTATION_INTERPOLATION_SPEED: u128 = 2;

/// Vertical impulse of one flap.
pub const FLAP_IMPULSE: i64 = 4000;

/// Linear velocity of a body, in thousandths of a unit per second.
#[derive(Debug, Clone, Copy, PartialEq, Eq, Structural)]
pub struct Velocity {
    pub x: i32,
    pub y: i32,
}

/// The player's physics body as the core sees it: its height, its velocity,
/// its pitch, and whether gravity and impulses act on it.
#[derive(Debug, Clone, Copy, PartialEq, Eq, Structural)]
pub struct PlayerBody {
    /// Horizontal position, in thousandths of a unit; fixed during play.
    pub x: i64,
    /// Height, in thousandths of a unit.
    pub y: i64,
    pub velocity: Velocity,
    /// Pitch, in thousandths of a degree.
    pub rotation: i32,
    /// `false` while the body is fixed (title and ready screens).
    pub dynamic: bool,
}

/// Clamps the vertical velocity to at most `PLAYER_SPEED`; the horizontal
/// component is left alone.
pub fn player_velocity_limiter(v: &mut Velocity)
    ensures
        final(v).y == if old(v).y > PLAYER_SPEED { PLAYER_SPEED } else { old(v).y },
        final(v).x == old(v).x,
        final(v).y <= PLAYER_SPEED,
{
    if v.y > PLAYER_SPEED {
        v.y = PLAYER_SPEED;
    }
}

/// Locks horizontal drift: the world scrolls, the player does not move
/// sideways.
pub fn player_movement_restrictions(v: &mut Velocity)
    ensures
        final(v).x == 0,
        final(v).y == old(v).y,
{
    v.x = 0;
}

pub open spec fn abs_int(x: int) -> int {
    if x < 0 {
        -x
    } else {
        x
    }
}

pub open spec fn clamp_i32(x: int) -> int {
    if x < i32::MIN {
        i32::MIN as int
    } else if x > i32::MAX {
        i32::MAX as int
    } else {
        x
    }
}

/// The pitch the player turns toward at vertical velocity `vy`.
pub open spec fn rotation_target_spec(vy: int) -> int {
    if vy > DIVE_THRESHOLD {
        UPWARD_ROTATION_LIMIT as int
    } else {
        DOWNWARD_ROTATION_LIMIT as int
    }
}

/// `rate * dt` scaled by 10^9, where `rate = base + |vy| * dt` per second,
/// with `vy` in thousandths of a unit per second and `dt` in milliseconds.
pub open spec fn smoothing_factor(vy: int, dt: int) -> int {
    (ROTATION_INTERPOLATION_SPEED * 1_000_000 + abs_int(vy) * dt) * dt
}

/// One smoothing step `current + (target - current) * rate * dt`, truncated
/// toward `current` and saturated to the range of `i32`.
pub open spec fn rotation_step(current: int, vy: int, dt: int) -> int {
    let diff = rotation_target_spec(vy) - current;
    let step = abs_int(diff) * smoothing_factor(vy, dt) / 1_000_000_000;
    clamp_i32(if diff >= 0 { current + step } else { current - step })
}

/// The target pitch for vertical velocity `vy`.
pub fn rotation_target(vy: i32) -> (r: i32)
    ensures
        r == rotation_target_spec(vy as int),
{
    if vy > DIVE_THRESHOLD {
        UPWARD_ROTATION_LIMIT
    } else {
        DOWNWARD_ROTATION_LIMIT
    }
}

/// Turns the pitch `current` toward the target for `vy` over `dt_ms`
/// milliseconds, faster the faster the player falls.
pub fn player_rotation(current: i32, vy: i32, dt_ms: u32) -> (r: i32)
    ensures
        r == rotation_step(current as int, vy as int, dt_ms as int),
{
    let target = rotation_target(vy);
    let diff: i64 = target as i64 - current as i64;
    let adiff: u128 = if diff < 0 { (-diff) as u128 } else { diff as u128 };
    let avy: u128 = if vy < 0 { (-(vy as i64)) as u128 } else { vy as u128 };
    let dt: u128 = dt_ms as u128;
    assert(avy * dt <= 0x8000_0000u128 * 0xffff_ffffu128) by (nonlinear_arith)
        requires avy <= 0x8000_0000u128, dt <= 0xffff_ffffu128;
    let rate: u128 = ROTATION_INTERPOLATION_SPEED * 1_000_000 + avy * dt;
    assert(rate * dt <= 0x8000_0000_0000_0000u128 * 0xffff_ffffu128) by (nonlinear_arith)
        requires rate <= 0x8000_0000_0000_0000u128, dt <= 0xffff_ffffu128;
    let factor: u128 = rate * dt;
    assert(adiff * factor <= 0x1_0000_0000u128 * 0x8000_0000_0000_0000_0000_0000u128)
        by (nonlinear_arith)
        requires adiff <= 0x1_0000_0000u128, factor <= 0x8000_0000_0000_0000_0000_0000u128;
    let step: u128 = adiff * factor / 1_000_000_000;
    let raw: i128 = if diff >= 0 {
        current as i128 + step as i128
    } else {
        current as i128 - step as i128
    };
    if raw < i32::MIN as i128 {
        i32::MIN
    } else if raw > i32::MAX as i128 {
        i32::MAX
    } else {
        raw as i32
    }
}

/// What a flap did in one tick.
#[derive(Debug, Clone, Copy, PartialEq, Eq, Structural)]
pub struct FlapOutcome {
    /// The phase after the flap.
    pub phase: FlappybirdState,
    /// Whether the flap was taken (and the wing cue is due).
    pub flapped: bool,
    /// The vertical impulse to hand to the physics world this tick.
    pub impulse_y: i64,
}

/// Whether a flap input is taken: the controls are live and the player is
/// below the top of the screen.
pub open spec fn flap_taken(phase: FlappybirdState, body: PlayerBody, flap: bool, top: int) -> bool {
    flap && controls_live_spec(phase) && (body.y as int) < top
}

/// Handles the flap input of one tick. A taken flap clears any downward
/// velocity, requests a fixed upward impulse and pitches the player up; on
/// the ready screen it also starts play and makes the body dynamic.
pub fn player_movement(phase: FlappybirdState, body: &mut PlayerBody, flap: bool, top: i64) -> (r:
    FlapOutcome)
    ensures
        r.flapped == flap_taken(phase, *old(body), flap, top as int),
        r.flapped ==> {
            &&& r.impulse_y == FLAP_IMPULSE
            &&& final(body).velocity.y == if old(body).velocity.y < 0 { 0 } else { old(body).velocity.y }
            &&& final(body).velocity.x == old(body).velocity.x
            &&& final(body).rotation == UPWARD_ROTATION_LIMIT
            &&& final(body).y == old(body).y
            &&& final(body).x == old(body).x
            &&& r.phase == if phase == FlappybirdState::TapTap { FlappybirdState::InGame } else { phase }
            &&& final(body).dynamic == (old(body).dynamic || phase == FlappybirdState::TapTap)
        },
        !r.flapped ==> r.impulse_y == 0 && *final(body) == *old(body) && r.phase == phase,
{
    if flap && phase.controls_live() && body.y < top {
        let mut next = phase;
        if phase == FlappybirdState::TapTap {
            next = transition(phase, PhaseRequest::Flap);
            body.dynamic = true;
        }
        if body.velocity.y < 0 {
            body.velocity.y = 0;
        }
        body.rotation = UPWARD_ROTATION_LIMIT;
        FlapOutcome { phase: next, flapped: true, impulse_y: FLAP_IMPULSE }
    } else {
        FlapOutcome { phase, flapped: false, impulse_y: 0 }
    }
}

} // verus!
