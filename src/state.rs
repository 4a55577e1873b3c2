use vstd::prelude::*;

verus! {

/// The phase of a run. Exactly one is active at a time; `transition` is the
/// only way to move between them.
#[derive(Debug, Clone, Copy, PartialEq, Eq, Structural)]
pub enum FlappybirdState {
    MainTitle,
    TapTap,
    InGame,
    GameOver,
    Settings,
}

/// What may ask the phase machine to move.
#[derive(Debug, Clone, Copy, PartialEq, Eq, Structural)]
pub enum PhaseRequest {
    /// "Play" was selected on the title screen.
    Play,
    /// "Settings" was selected on the title screen.
    OpenSettings,
    /// The first flap on the ready screen.
    Flap,
    /// The player touched a solid collider.
    Death,
    /// The run is reset to the title screen.
    Reset,
}

/// The edges of the phase machine: `Some(to)` where `from` has an edge for
/// `req`, `None` otherwise.
pub open spec fn edge(from: FlappybirdState, req: PhaseRequest) -> Option<FlappybirdState> {
    match (from, req) {
        (FlappybirdState::MainTitle, PhaseRequest::Play) => Some(FlappybirdState::TapTap),
        (FlappybirdState::MainTitle, PhaseRequest::OpenSettings) => Some(FlappybirdState::Settings),
        (FlappybirdState::TapTap, PhaseRequest::Flap) => Some(FlappybirdState::InGame),
        (FlappybirdState::InGame, PhaseRequest::Death) => Some(FlappybirdState::GameOver),
        (FlappybirdState::GameOver, PhaseRequest::Reset) => Some(FlappybirdState::MainTitle),
        _ => None,
    }
}

/// The phase after `req` arrives in `from`: the target of the edge where
/// there is one; otherwise the request is ignored and the phase stays.
pub open spec fn next_phase(from: FlappybirdState, req: PhaseRequest) -> FlappybirdState {
    match edge(from, req) {
        Some(to) => to,
        None => from,
    }
}

/// Applies `req` to `from`. An invalid request leaves the phase as it was.
pub fn transition(from: FlappybirdState, req: PhaseRequest) -> (r: FlappybirdState)
    ensures
        r == next_phase(from, req),
{
    match (from, req) {
        (FlappybirdState::MainTitle, PhaseRequest::Play) => FlappybirdState::TapTap,
        (FlappybirdState::MainTitle, PhaseRequest::OpenSettings) => FlappybirdState::Settings,
        (FlappybirdState::TapTap, PhaseRequest::Flap) => FlappybirdState::InGame,
        (FlappybirdState::InGame, PhaseRequest::Death) => FlappybirdState::GameOver,
        (FlappybirdState::GameOver, PhaseRequest::Reset) => FlappybirdState::MainTitle,
        _ => from,
    }
}

/// Whether the player is dead: it is derived from the phase, never stored.
pub open spec fn is_dead_spec(phase: FlappybirdState) -> bool {
    phase == FlappybirdState::GameOver
}

/// Whether the player's controls are live (the ready screen and play).
pub open spec fn controls_live_spec(phase: FlappybirdState) -> bool {
    phase == FlappybirdState::TapTap || phase == FlappybirdState::InGame
}

impl FlappybirdState {
    /// Whether the player is dead in this phase.
    pub fn is_dead(&self) -> (r: bool)
        ensures
            r == is_dead_spec(*self),
    {
        matches!(self, FlappybirdState::GameOver)
    }

    /// Whether the controller runs in this phase.
    pub fn controls_live(&self) -> (r: bool)
        ensures
            r == controls_live_spec(*self),
    {
        matches!(self, FlappybirdState::TapTap | FlappybirdState::InGame)
    }
}

/// No request leads into `GameOver` but `Death` from `InGame`.
pub proof fn lemma_game_over_only_from_death(from: FlappybirdState, req: PhaseRequest)
    requires
        from != FlappybirdState::GameOver,
        next_phase(from, req) == FlappybirdState::GameOver,
    ensures
        from == FlappybirdState::InGame,
        req == PhaseRequest::Death,
{
}

} // verus!
