use flappy_core::pipes::{
    despawn_pipes, draw_gap_step, move_pipes, spawn_pipe, spawn_pipes, Pipe, SpawnTimer,
    GAP_STEP_MAX, GAP_STEP_MIN,
};
use flappy_core::tiles::{pool_size, TilePool, GROUND_SPEED, SKY_SPEED};

#[test]
fn pool_size_for_800_wide_window() {
    // 168 * 3 = 504 units per tile: ceil(800 / 504) + 1 = 3.
    assert_eq!(pool_size(800, 168, 3), 3);
    assert_eq!(pool_size(800, 144, 3), 3);
    assert_eq!(pool_size(1008, 168, 3), 3);
    assert_eq!(pool_size(1009, 168, 3), 4);
    assert_eq!(pool_size(0, 168, 3), 1);
}

#[test]
fn ground_pool_starts_contiguous() {
    let pool = TilePool::new(800, 168, 3, GROUND_SPEED);
    assert_eq!(pool.xs, vec![0, 504_000, 1_008_000]);
    assert_eq!(pool.width, 504_000);
}

#[test]
fn scroll_moves_without_recycling() {
    let mut pool = TilePool::new(800, 168, 3, GROUND_SPEED);
    pool.scroll(1000);
    assert_eq!(pool.xs, vec![-150_000, 354_000, 858_000]);
}

#[test]
fn scroll_recycles_leftmost_tile_behind_rightmost() {
    let mut pool = TilePool::new(800, 168, 3, GROUND_SPEED);
    pool.scroll(1000);
    pool.scroll(1000);
    // -300 is past -504/2: that tile goes to 708 + 504.
    assert_eq!(pool.xs, vec![204_000, 708_000, 1_212_000]);
    assert_eq!(pool.xs.len(), 3);
}

#[test]
fn scroll_recycles_several_tiles_in_one_tick() {
    let mut pool = TilePool::new(800, 168, 3, GROUND_SPEED);
    pool.scroll(5000);
    assert_eq!(pool.xs, vec![-246_000, 258_000, 762_000]);
    let mut far = TilePool::new(800, 168, 3, GROUND_SPEED);
    far.scroll(20_000);
    // 3000 units of travel: every tile leaves and comes back in order.
    assert_eq!(far.xs, vec![24_000, 528_000, 1_032_000]);
}

#[test]
fn pool_count_is_kept_over_many_ticks() {
    let mut ground = TilePool::new(800, 168, 3, GROUND_SPEED);
    let mut sky = TilePool::new(800, 144, 3, SKY_SPEED);
    for i in 0..2000u32 {
        ground.scroll(7 + i % 40);
        sky.scroll(7 + i % 40);
        assert_eq!(ground.xs.len(), 3);
        assert_eq!(sky.xs.len(), 3);
        for w in ground.xs.windows(2) {
            assert_eq!(w[1] - w[0], 504_000);
        }
        assert!(2 * ground.xs[0] + 504_000 > 0);
    }
}

#[test]
fn spawned_pipe_sits_right_of_screen() {
    let p = spawn_pipe(800, 600, 0);
    assert_eq!(p, Pipe { x: 850_000, y: 300_000, speed: 150 });
    assert_eq!(spawn_pipe(800, 600, -3).y, 180_000);
    assert_eq!(spawn_pipe(800, 600, 5).y, 500_000);
}

#[test]
fn pipe_moves_600_units_in_four_seconds() {
    let mut pipes = vec![spawn_pipe(800, 600, 2)];
    let x0 = pipes[0].x;
    move_pipes(&mut pipes, 4000);
    assert_eq!(x0 - pipes[0].x, 600_000);
    let mut ticked = vec![spawn_pipe(800, 600, 2)];
    for _ in 0..250 {
        move_pipes(&mut ticked, 16);
    }
    assert_eq!(x0 - ticked[0].x, 600_000);
    assert_eq!(ticked[0].y, pipes[0].y);
}

#[test]
fn despawn_drops_only_pipes_off_screen() {
    // Removed once more than its own width (90 units) past the left border.
    let mut pipes = vec![
        Pipe { x: -90_001, y: 1, speed: 150 },
        Pipe { x: -90_000, y: 2, speed: 150 },
        Pipe { x: -200_000, y: 3, speed: 150 },
        Pipe { x: 10_000, y: 4, speed: 150 },
    ];
    despawn_pipes(&mut pipes);
    assert_eq!(
        pipes,
        vec![Pipe { x: -90_000, y: 2, speed: 150 }, Pipe { x: 10_000, y: 4, speed: 150 }]
    );
}

#[test]
fn spawn_timer_fires_every_period() {
    let mut t = SpawnTimer::new();
    assert!(!t.tick(1499));
    assert_eq!(t.elapsed_ms, 1499);
    assert!(t.tick(1));
    assert_eq!(t.elapsed_ms, 0);
    assert!(t.tick(3100));
    assert_eq!(t.elapsed_ms, 100);
}

#[test]
fn gap_steps_stay_in_range_and_vary() {
    let mut seen = std::collections::BTreeSet::new();
    for _ in 0..500 {
        let s = draw_gap_step();
        assert!((GAP_STEP_MIN..=GAP_STEP_MAX).contains(&s));
        seen.insert(s);
    }
    assert!(seen.len() > 1);
}

#[test]
fn spawn_pipes_follows_the_timer() {
    let mut timer = SpawnTimer::new();
    let mut pipes = Vec::new();
    assert!(!spawn_pipes(&mut timer, &mut pipes, 1000, 800, 600, 1));
    assert!(pipes.is_empty());
    assert!(spawn_pipes(&mut timer, &mut pipes, 600, 800, 600, 1));
    assert_eq!(pipes, vec![Pipe { x: 850_000, y: 340_000, speed: 150 }]);
    assert_eq!(timer.elapsed_ms, 100);
}
