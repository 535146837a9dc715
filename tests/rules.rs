use flappy::collision::{transforms_touch, Aabb2d};
use flappy::game::{make_player, GameStates, MotionError, Pipe, World};
use flappy::motion::{checked_advance, Acceleration, Point, Transform, Velocity};
use flappy::timer::PipeSpawnTimer;
use flappy::units::{
    GRAVITY_STRENGTH, JUMP_STRENGTH, PIPE_BOTTOM_MAX, PIPE_BOTTOM_MIN, PIPE_HEIGHT, PIPE_SPEED,
    PIPE_SPAWN_PERIOD, PIPE_WIDTH, PLAYER_SIZE, UNITS_PER_PIXEL,
};

const PX: i64 = UNITS_PER_PIXEL;
const STEP: u32 = 15_625;

fn pipe_at(x: i64, y: i64, give_score: bool) -> Pipe {
    Pipe {
        transform: Transform {
            translation: Point { x, y },
            scale: Point { x: PIPE_WIDTH, y: PIPE_HEIGHT },
        },
        velocity: Velocity { x: -PIPE_SPEED, y: 0 },
        give_score,
    }
}

#[test]
fn gravity_points_down() {
    let a = Acceleration::gravity();
    assert_eq!(a.x, 0);
    assert_eq!(a.y, -2000);
    assert_eq!(GRAVITY_STRENGTH, 2000);
}

#[test]
fn player_starts_left_of_centre_at_rest() {
    let p = make_player();
    assert_eq!(p.transform.translation, Point { x: -320 * PX, y: 0 });
    assert_eq!(p.transform.scale, Point { x: 32 * PX, y: 32 * PX });
    assert_eq!(p.velocity, Velocity { x: 0, y: 0 });
    assert_eq!(p.acceleration, Acceleration { x: 0, y: -2000 });
}

#[test]
fn new_world_is_a_fresh_round() {
    let w = World::new();
    assert_eq!(w.state, GameStates::InGame);
    assert_eq!(w.next_state, None);
    assert_eq!(w.player, Some(make_player()));
    assert!(w.pipes.is_empty());
    assert_eq!(w.score, 0);
}

#[test]
fn advance_is_exact_and_checked() {
    assert_eq!(checked_advance(0, 3, 4), Some(12));
    assert_eq!(checked_advance(10, -3, 4), Some(-2));
    assert_eq!(checked_advance(i64::MAX, 1, 1), None);
    assert_eq!(checked_advance(i64::MIN, -1, 1), None);
    assert_eq!(checked_advance(i64::MAX, 0, u32::MAX), Some(i64::MAX));
}

#[test]
fn velocity_grows_by_acceleration_times_step() {
    let v = Velocity { x: 7, y: 0 };
    let a = Acceleration { x: 1, y: -2000 };
    assert_eq!(v.checked_accelerate(&a, STEP), Some(Velocity { x: 7 + 15_625, y: -31_250_000 }));
    let fast = Velocity { x: 0, y: i64::MIN + 1 };
    assert_eq!(fast.checked_accelerate(&a, STEP), None);
}

#[test]
fn one_step_of_gravity_and_motion() {
    let mut w = World::new();
    assert_eq!(w.apply_acceleration(STEP), Ok(()));
    assert_eq!(w.player.unwrap().velocity, Velocity { x: 0, y: -31_250_000 });
    assert_eq!(w.apply_velocity(STEP), Ok(()));
    assert_eq!(w.player.unwrap().transform.translation, Point { x: -320 * PX, y: -488_281_250_000 });
}

#[test]
fn pipes_scroll_left() {
    let mut w = World::new();
    w.spawn_pipe_pair(0);
    assert_eq!(w.apply_velocity(STEP), Ok(()));
    assert_eq!(w.pipes[0].transform.translation.x, 632_968_750_000_000);
    assert_eq!(w.pipes[1].transform.translation.x, 632_968_750_000_000);
    assert_eq!(w.pipes[0].transform.translation.y, 585 * PX);
}

#[test]
fn motion_overflow_changes_nothing() {
    let mut w = World::new();
    let mut p = make_player();
    p.transform.translation.y = i64::MIN + 1;
    p.velocity.y = -1_000_000_000;
    w.player = Some(p);
    w.spawn_pipe_pair(0);
    let pipes_before = w.pipes.clone();
    assert_eq!(w.apply_velocity(STEP), Err(MotionError::Overflow));
    assert_eq!(w.player, Some(p));
    assert_eq!(w.pipes, pipes_before);

    let mut w = World::new();
    w.pipes.push(pipe_at(i64::MIN + 10, 0, true));
    assert_eq!(w.apply_velocity(STEP), Err(MotionError::Overflow));
    assert_eq!(w.player, Some(make_player()));

    let mut w = World::new();
    let mut p = make_player();
    p.velocity.y = i64::MIN + 5;
    w.player = Some(p);
    assert_eq!(w.apply_acceleration(STEP), Err(MotionError::Overflow));
    assert_eq!(w.player, Some(p));
}

#[test]
fn pipe_hangs_from_its_top_edge() {
    let p = Pipe::new(PIPE_HEIGHT, 100 * PX, true);
    assert_eq!(p.transform.translation, Point { x: 640 * PX, y: -260 * PX });
    assert_eq!(p.transform.scale, Point { x: 32 * PX, y: 720 * PX });
    assert_eq!(p.velocity, Velocity { x: -450_000_000, y: 0 });
    assert!(p.give_score);
}

#[test]
fn pair_has_upper_scoring_pipe_first() {
    let mut w = World::new();
    w.spawn_pipe_pair(-100 * PX);
    assert_eq!(w.pipes.len(), 2);
    assert_eq!(w.pipes[0].transform.translation.y, 485 * PX);
    assert!(w.pipes[0].give_score);
    assert_eq!(w.pipes[1].transform.translation.y, -460 * PX);
    assert!(!w.pipes[1].give_score);
    // the opening between them is the gap
    let top_of_lower = w.pipes[1].transform.translation.y + PIPE_HEIGHT / 2;
    let bottom_of_upper = w.pipes[0].transform.translation.y - PIPE_HEIGHT / 2;
    assert_eq!(bottom_of_upper - top_of_lower, 225 * PX);
}

#[test]
fn spawn_only_when_due() {
    let mut w = World::new();
    w.spawn_pipes_if_due(false);
    assert!(w.pipes.is_empty());
    w.spawn_pipes_if_due(true);
    assert_eq!(w.pipes.len(), 2);
}

#[test]
fn spawn_timer_paces_pairs() {
    let mut w = World::new();
    w.handle_pipe_spawn(0);
    assert!(w.pipes.is_empty());
    w.handle_pipe_spawn(1_999_999);
    assert!(w.pipes.is_empty());
    w.handle_pipe_spawn(1);
    assert_eq!(w.pipes.len(), 2);
    w.handle_pipe_spawn(1_000_000);
    assert_eq!(w.pipes.len(), 2);
    w.handle_pipe_spawn(1_000_000);
    assert_eq!(w.pipes.len(), 4);
}

#[test]
fn restart_starts_the_spawn_period_over() {
    let mut w = World::new();
    w.handle_pipe_spawn(1_500_000);
    w.on_game_restart();
    w.handle_pipe_spawn(1_000_000);
    assert!(w.pipes.is_empty());
    w.handle_pipe_spawn(1_000_000);
    assert_eq!(w.pipes.len(), 2);
}

#[test]
fn spawn_timer_alone() {
    let mut t = PipeSpawnTimer::new();
    assert!(!t.tick(PIPE_SPAWN_PERIOD - 1));
    assert!(t.tick(1));
    assert!(!t.tick(1));
    t.reset();
    assert!(!t.tick(PIPE_SPAWN_PERIOD - 1));
}

#[test]
fn spawned_openings_vary_within_range() {
    let mut w = World::new();
    let mut heights: Vec<i64> = Vec::new();
    for _ in 0..40 {
        w.spawn_pipes_if_due(true);
    }
    for pair in w.pipes.chunks(2) {
        let bottom_pos = pair[1].transform.translation.y + PIPE_HEIGHT / 2;
        assert!(PIPE_BOTTOM_MIN <= bottom_pos && bottom_pos < PIPE_BOTTOM_MAX);
        assert_eq!(pair[0].transform.translation.y, bottom_pos + 585 * PX);
        heights.push(bottom_pos);
    }
    heights.sort();
    heights.dedup();
    assert!(heights.len() > 1);
}

#[test]
fn despawn_keeps_visible_pipes_in_order() {
    let mut w = World::new();
    w.pipes.push(pipe_at(0, 1, true));
    w.pipes.push(pipe_at(-1280 * PX - 1, 2, true));
    w.pipes.push(pipe_at(-1280 * PX, 3, false));
    w.pipes.push(pipe_at(-2000 * PX, 4, false));
    w.handle_pipe_despawn();
    assert_eq!(w.pipes, vec![pipe_at(0, 1, true), pipe_at(-1280 * PX, 3, false)]);
}

#[test]
fn boxes_touching_at_an_edge_intersect() {
    let a = Aabb2d::new(Point { x: 0, y: 0 }, Point { x: 2, y: 2 });
    let b = Aabb2d::new(Point { x: 2, y: 0 }, Point { x: 2, y: 2 });
    let c = Aabb2d::new(Point { x: 3, y: 0 }, Point { x: 2, y: 2 });
    let d = Aabb2d::new(Point { x: 1, y: 2 }, Point { x: 2, y: 2 });
    let e = Aabb2d::new(Point { x: 0, y: 3 }, Point { x: 2, y: 3 });
    assert!(a.intersects(&b));
    assert!(!a.intersects(&c));
    assert!(a.intersects(&d));
    assert!(!a.intersects(&e));
    assert_eq!(a, Aabb2d { min_x2: -2, min_y2: -2, max_x2: 2, max_y2: 2 });
    let t = Transform { translation: Point { x: 0, y: 0 }, scale: Point { x: 1, y: 1 } };
    let u = Transform { translation: Point { x: 1, y: 0 }, scale: Point { x: 1, y: 1 } };
    assert!(transforms_touch(&t, &u));
    let v = Transform { translation: Point { x: 2, y: 0 }, scale: Point { x: 1, y: 1 } };
    assert!(!transforms_touch(&t, &v));
}

#[test]
fn touching_a_pipe_ends_the_round() {
    let mut w = World::new();
    w.pipes.push(pipe_at(-320 * PX + PLAYER_SIZE + 1, 0, true));
    w.check_player_pipe_collission();
    assert_eq!(w.next_state, None);
    w.pipes.push(pipe_at(-320 * PX + PLAYER_SIZE, 0, true));
    w.check_player_pipe_collission();
    assert_eq!(w.next_state, Some(GameStates::GameOver));
    assert_eq!(w.state, GameStates::InGame);
}

#[test]
fn no_collision_without_player() {
    let mut w = World::new();
    w.pipes.push(pipe_at(-320 * PX, 0, true));
    w.player = None;
    w.check_player_pipe_collission();
    assert_eq!(w.next_state, None);
}

#[test]
fn falling_below_the_field_ends_the_round() {
    let mut w = World::new();
    let mut p = make_player();
    p.transform.translation.y = -360 * PX;
    w.player = Some(p);
    w.check_player_screen_bounds();
    assert_eq!(w.next_state, None);
    p.transform.translation.y = -360 * PX - 1;
    w.player = Some(p);
    w.check_player_screen_bounds();
    assert_eq!(w.next_state, Some(GameStates::GameOver));
}

#[test]
fn rising_past_the_ceiling_stops_the_climb() {
    let mut w = World::new();
    let mut p = make_player();
    p.transform.translation.y = 460 * PX;
    p.velocity = Velocity { x: 3, y: 5 };
    w.player = Some(p);
    w.check_player_screen_bounds();
    assert_eq!(w.player.unwrap().velocity, Velocity { x: 3, y: 5 });
    p.transform.translation.y = 460 * PX + 1;
    w.player = Some(p);
    w.check_player_screen_bounds();
    assert_eq!(w.player.unwrap().velocity, Velocity { x: 3, y: 0 });
    assert_eq!(w.next_state, None);
}

#[test]
fn passed_pipe_scores_once() {
    let mut w = World::new();
    w.pipes.push(pipe_at(-352 * PX - 1, 0, true));
    w.pipes.push(pipe_at(-352 * PX, 0, true));
    w.pipes.push(pipe_at(-400 * PX, 0, false));
    w.give_score_when_over_player();
    assert_eq!(w.score, 1);
    assert!(!w.pipes[0].give_score);
    assert!(w.pipes[1].give_score);
    assert!(!w.pipes[2].give_score);
    w.give_score_when_over_player();
    assert_eq!(w.score, 1);
}

#[test]
fn jump_sets_upward_speed() {
    let mut w = World::new();
    w.handle_movement(false);
    assert_eq!(w.player.unwrap().velocity.y, 0);
    w.handle_movement(true);
    assert_eq!(w.player.unwrap().velocity, Velocity { x: 0, y: JUMP_STRENGTH });
    assert_eq!(JUMP_STRENGTH, 800_000_000);
    w.player = None;
    w.handle_movement(true);
    assert_eq!(w.player, None);
}

#[test]
fn game_over_and_restart() {
    let mut w = World::new();
    w.spawn_pipe_pair(0);
    w.score = 4;
    w.next_state = Some(GameStates::GameOver);
    w.apply_transition();
    assert_eq!(w.state, GameStates::GameOver);
    assert_eq!(w.next_state, None);
    assert_eq!(w.player, None);
    assert_eq!(w.pipes.len(), 2);
    assert_eq!(w.score, 4);

    w.restart_on_r(false);
    assert_eq!(w.next_state, None);
    w.restart_on_r(true);
    assert_eq!(w.next_state, Some(GameStates::InGame));
    w.apply_transition();
    assert_eq!(w.state, GameStates::InGame);
    assert_eq!(w.player, Some(make_player()));
    assert!(w.pipes.is_empty());
    assert_eq!(w.score, 0);
}

#[test]
fn request_for_running_state_runs_no_hook() {
    let mut w = World::new();
    w.spawn_pipe_pair(0);
    w.score = 2;
    w.next_state = Some(GameStates::InGame);
    w.apply_transition();
    assert_eq!(w.state, GameStates::InGame);
    assert_eq!(w.next_state, None);
    assert_eq!(w.pipes.len(), 2);
    assert_eq!(w.score, 2);
}

#[test]
fn hooks_one_by_one() {
    let mut w = World::new();
    w.on_game_over();
    assert_eq!(w.player, None);
    w.on_enter_game();
    assert_eq!(w.player, Some(make_player()));
    w.spawn_pipe_pair(0);
    w.score = 9;
    w.on_game_restart();
    assert!(w.pipes.is_empty());
    assert_eq!(w.score, 0);
}

#[test]
fn pipe_half_height_rounds_toward_zero() {
    let p = Pipe::new(-3, 10, false);
    assert_eq!(p.transform.translation.y, 11);
    assert_eq!(p.transform.scale.y, -3);
    let q = Pipe::new(3, 10, false);
    assert_eq!(q.transform.translation.y, 9);
}

#[test]
fn spawn_timer_carries_leftover_time() {
    let mut t = PipeSpawnTimer::new();
    assert!(t.tick(PIPE_SPAWN_PERIOD * 2 + 5));
    assert!(!t.tick(PIPE_SPAWN_PERIOD - 6));
    assert!(t.tick(1));
}
