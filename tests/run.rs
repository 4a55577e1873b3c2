use flappy_core::controller::{Velocity, FLAP_IMPULSE, PLAYER_SPEED, UPWARD_ROTATION_LIMIT};
use flappy_core::pipes::{GAP_STEP, GAP_STEP_MAX, GAP_STEP_MIN};
use flappy_core::run::{spawn_player, Cue, RunContext, TickInput, TitleScreenButtons};
use flappy_core::score::{Body, CollisionEvent};
use flappy_core::state::FlappybirdState;

fn input(dt_ms: u32, flap: bool, y: i64, vy: i32, contacts: Vec<CollisionEvent>) -> TickInput {
    TickInput { dt_ms, flap, y, velocity: Velocity { x: 900, y: vy }, contacts }
}

fn ready_run() -> RunContext {
    let mut run = RunContext::new(800, 600, "helpdesk".to_string());
    assert_eq!(run.title_button_system(TitleScreenButtons::Play), Some(Cue::Swoosh));
    run
}

#[test]
fn new_run_waits_on_title_screen() {
    let run = RunContext::new(800, 600, "helpdesk".to_string());
    assert_eq!(run.phase, FlappybirdState::MainTitle);
    assert_eq!(run.ground.xs.len(), 3);
    assert_eq!(run.sky.xs.len(), 3);
    assert_eq!(run.body.x, 400_000);
    assert_eq!(run.body.y, 370_000);
    assert!(!run.body.dynamic);
    assert_eq!(run.player.score, 0);
    assert!(run.pipes.is_empty());
}

#[test]
fn title_buttons() {
    let run = ready_run();
    assert_eq!(run.phase, FlappybirdState::TapTap);
    assert_eq!(run.body.x, 133_333);
    assert_eq!(run.body.y, 300_000);
    let mut settings = RunContext::new(800, 600, "helpdesk".to_string());
    assert_eq!(settings.title_button_system(TitleScreenButtons::Settings), Some(Cue::Swoosh));
    assert_eq!(settings.phase, FlappybirdState::Settings);
    assert_eq!(settings.title_button_system(TitleScreenButtons::Play), None);
    assert_eq!(settings.phase, FlappybirdState::Settings);
    let mut other = RunContext::new(800, 600, "helpdesk".to_string());
    assert_eq!(other.title_button_system(TitleScreenButtons::Github), Some(Cue::Swoosh));
    assert_eq!(other.phase, FlappybirdState::MainTitle);
}

#[test]
fn flap_on_ready_screen_goes_dynamic_same_tick() {
    let mut run = ready_run();
    let report = run.tick(&input(16, true, 300_000, -50_000, vec![]));
    assert_eq!(run.phase, FlappybirdState::InGame);
    assert!(run.body.dynamic);
    assert_eq!(report.cues, vec![Cue::Wing]);
    assert_eq!(report.impulse_y, FLAP_IMPULSE);
    assert_eq!(run.body.velocity, Velocity { x: 0, y: 0 });
    assert_eq!(run.body.rotation, UPWARD_ROTATION_LIMIT);
    assert!(run.pipes.is_empty());
}

#[test]
fn ready_screen_without_flap_stays() {
    let mut run = ready_run();
    let report = run.tick(&input(16, false, 300_000, 0, vec![]));
    assert_eq!(run.phase, FlappybirdState::TapTap);
    assert!(!run.body.dynamic);
    assert!(report.cues.is_empty());
    assert_eq!(report.impulse_y, 0);
    // The ground and the sky scroll on the ready screen.
    assert_eq!(run.ground.xs[0], -2_400);
    assert_eq!(run.sky.xs[0], -320);
}

#[test]
fn controller_locks_and_clamps_every_tick() {
    let mut run = ready_run();
    run.tick(&input(16, true, 300_000, 0, vec![]));
    for i in 0..50 {
        run.tick(&input(16, i % 3 == 0, 300_000, 900_000, vec![]));
        assert_eq!(run.body.velocity.x, 0);
        assert!(run.body.velocity.y <= PLAYER_SPEED);
    }
}

#[test]
fn pipes_spawn_every_period_in_play() {
    let mut run = ready_run();
    run.tick(&input(16, true, 300_000, 0, vec![]));
    let report = run.tick(&input(1500, false, 300_000, 0, vec![]));
    assert!(report.spawned);
    assert_eq!(run.pipes.len(), 1);
    assert_eq!(run.pipes[0].x, 850_000);
    let offset = run.pipes[0].y - 300_000;
    assert_eq!(offset % GAP_STEP, 0);
    assert!((GAP_STEP_MIN..=GAP_STEP_MAX).contains(&(offset / GAP_STEP)));
    let report = run.tick(&input(1000, false, 300_000, 0, vec![]));
    assert!(!report.spawned);
    assert_eq!(run.pipes[0].x, 700_000);
}

#[test]
fn death_happens_once_and_freezes_the_world() {
    let mut run = ready_run();
    run.tick(&input(16, true, 300_000, 0, vec![]));
    let hits = vec![
        CollisionEvent::Started(Body::Player, Body::Solid),
        CollisionEvent::Started(Body::Solid, Body::Player),
    ];
    let report = run.tick(&input(16, false, 300_000, 0, hits.clone()));
    assert_eq!(run.phase, FlappybirdState::GameOver);
    assert_eq!(report.cues, vec![Cue::Hit]);
    let ground = run.ground.xs.clone();
    let sky = run.sky.xs.clone();
    for _ in 0..3 {
        let report = run.tick(&input(16, true, 300_000, 0, hits.clone()));
        assert_eq!(run.phase, FlappybirdState::GameOver);
        assert!(report.cues.is_empty());
        assert_eq!(report.impulse_y, 0);
    }
    assert_eq!(run.ground.xs, ground);
    assert_eq!(run.sky.xs, sky);
}

#[test]
fn scoring_through_ticks_respects_cooldown() {
    let mut run = ready_run();
    run.tick(&input(16, true, 300_000, 0, vec![]));
    let gap = vec![CollisionEvent::Stopped(Body::Player, Body::Gap)];
    let first = run.tick(&input(1200, false, 300_000, 0, gap.clone()));
    assert!(first.score_changed);
    assert_eq!(first.cues, vec![Cue::Point]);
    let second = run.tick(&input(200, false, 300_000, 0, gap.clone()));
    assert!(!second.score_changed);
    assert_eq!(run.player.score, 1);
    let third = run.tick(&input(1000, false, 300_000, 0, gap));
    assert!(third.score_changed);
    assert_eq!(run.player.score, 2);
}

#[test]
fn reset_after_game_over() {
    let mut run = ready_run();
    assert!(!run.reset_run());
    run.tick(&input(16, true, 300_000, 0, vec![]));
    run.tick(&input(1200, false, 300_000, 0, vec![CollisionEvent::Stopped(Body::Gap, Body::Player)]));
    run.tick(&input(1600, false, 300_000, 0, vec![]));
    run.tick(&input(16, false, 300_000, 0, vec![CollisionEvent::Started(Body::Player, Body::Solid)]));
    assert_eq!(run.phase, FlappybirdState::GameOver);
    assert_eq!(run.player.score, 1);
    assert!(!run.pipes.is_empty());
    assert!(run.reset_run());
    assert_eq!(run.phase, FlappybirdState::MainTitle);
    assert_eq!(run.player.score, 0);
    assert_eq!(run.player.last_score_time, 0);
    assert!(run.pipes.is_empty());
    assert!(!run.body.dynamic);
    assert_eq!(run.ground.xs, vec![0, 504_000, 1_008_000]);
    assert_eq!(run.spawn_timer.elapsed_ms, 0);
}

#[test]
fn player_spawns_above_window_middle() {
    let body = spawn_player(800, 600);
    assert_eq!(body.x, 400_000);
    assert_eq!(body.y, 370_000);
    assert_eq!(body.velocity, Velocity { x: 0, y: 0 });
    assert_eq!(body.rotation, 0);
    assert!(!body.dynamic);
}

#[test]
fn pipes_scroll_with_the_ground() {
    let mut run = ready_run();
    run.tick(&input(16, true, 300_000, 0, vec![]));
    run.tick(&input(1500, false, 300_000, 0, vec![]));
    let pipe_x = run.pipes[0].x;
    let ground_x = run.ground.xs[1];
    run.tick(&input(100, false, 300_000, 0, vec![]));
    assert_eq!(run.pipes[0].speed, 150);
    assert_eq!(pipe_x - run.pipes[0].x, ground_x - run.ground.xs[1]);
}

#[test]
fn first_gap_scores_early_in_the_clock() {
    let mut run = ready_run();
    run.tick(&input(16, true, 300_000, 0, vec![]));
    let gap = vec![CollisionEvent::Stopped(Body::Gap, Body::Player)];
    let report = run.tick(&input(500, false, 300_000, 0, gap));
    assert!(report.score_changed);
    assert_eq!(run.player.score, 1);
}
