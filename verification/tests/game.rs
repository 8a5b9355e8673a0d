use std::collections::VecDeque;

use pong::game_loop::{clamp_dt, frame_ready, GameLoop, LoopStatus};
use pong::input::InputCommand;
use pong::render::{corner_px, FrameRect};
use pong::rng::{random_velocity, velocity_from_draws};
use pong::world::{
    sat_add_i64, Ball, Vec2, World, BALL_SPAWN_X, BALL_SPAWN_Y, PADDLE_MAX_X, PADDLE_MIN_X,
    PADDLE_START_X, PADDLE_Y,
};

fn ball(px: i64, py: i64, vx: i64, vy: i64) -> Ball {
    Ball { pos: Vec2 { x: px, y: py }, vel: Vec2 { x: vx, y: vy } }
}

fn world_with(balls: Vec<Ball>, paddle_x: i64) -> World {
    let mut deque: VecDeque<Ball> = VecDeque::new();
    for b in balls.into_iter().rev() {
        deque.push_front(b);
    }
    World { balls: deque, paddle_pos: Vec2 { x: paddle_x, y: PADDLE_Y } }
}

fn noop() -> InputCommand {
    InputCommand::noop()
}

fn vel_in_spawn_bands(v: &Vec2) {
    assert!(-400 <= v.y && v.y < -200, "vertical speed out of band: {}", v.y);
    assert!(
        (-600 <= v.x && v.x <= -200) || (0 <= v.x && v.x < 400),
        "horizontal speed out of band: {}",
        v.x
    );
    assert!(!(-200 < v.x && v.x < 0), "horizontal speed in the forbidden gap: {}", v.x);
}

// A ball one wall-thickness into the left wall and moving left is
// reflected: position integrates without being snapped back, and only
// the velocity sign flips.
#[test]
fn left_wall_reflection_scenario() {
    // 15 px = 15_000 milli-pixels; velocity (-100, 50) px/s; dt 0.01 s.
    let mut w = world_with(vec![ball(15_000, 300_000, -100, 50)], PADDLE_START_X);
    w.advance(10, &noop());
    let b = w.balls[0];
    assert_eq!(b.pos.x, 14_000); // 15 - 100 * 0.01 = 14.0 px
    assert_eq!(b.pos.y, 300_500); // 300 + 50 * 0.01 = 300.5 px
    assert_eq!(b.vel.x, 100); // reflected
    assert_eq!(b.vel.y, 50); // untouched
}

// Paddle at 512 px moving right for 0.1 s lands at 512 + 800 * 0.1 = 592 px.
#[test]
fn paddle_move_scenario() {
    let mut w = world_with(vec![], 512_000);
    let input = InputCommand { quit: false, spawn_ball: false, paddle_dir: 1 };
    w.advance(100, &input);
    assert_eq!(w.paddle_pos.x, 592_000);
    assert_eq!(w.paddle_pos.y, PADDLE_Y);
}

// The paddle is hard-clamped at both ends of its band.
#[test]
fn paddle_clamps_at_both_edges() {
    let left = InputCommand { quit: false, spawn_ball: false, paddle_dir: -1 };
    let right = InputCommand { quit: false, spawn_ball: false, paddle_dir: 1 };
    let mut w = world_with(vec![], PADDLE_START_X);
    for _ in 0..30 {
        w.advance(50, &left);
        assert!(PADDLE_MIN_X <= w.paddle_pos.x && w.paddle_pos.x <= PADDLE_MAX_X);
    }
    assert_eq!(w.paddle_pos.x, PADDLE_MIN_X);
    for _ in 0..30 {
        w.advance(50, &right);
        assert!(PADDLE_MIN_X <= w.paddle_pos.x && w.paddle_pos.x <= PADDLE_MAX_X);
    }
    assert_eq!(w.paddle_pos.x, PADDLE_MAX_X);
}

// The paddle does not move (and is not clamped) when no direction is held.
#[test]
fn paddle_still_without_input() {
    let mut w = world_with(vec![], PADDLE_START_X);
    w.advance(50, &noop());
    assert_eq!(w.paddle_pos.x, PADDLE_START_X);
}

// The top wall reflects a ball moving up into it.
#[test]
fn top_wall_reflection() {
    let mut w = world_with(vec![ball(500_000, 16_000, 50, -300)], PADDLE_START_X);
    w.advance(10, &noop());
    let b = w.balls[0];
    assert_eq!(b.pos.y, 13_000); // 16 - 300 * 0.01 = 13 px <= 15 px
    assert_eq!(b.vel.y, 300); // reflected
    assert_eq!(b.vel.x, 50);
}

// The paddle reflects a ball falling onto it; the horizontal speed keeps
// its value (no spin is imparted).
#[test]
fn paddle_reflection() {
    let mut w = world_with(vec![ball(500_000, 752_000, 120, 200)], 512_000);
    w.advance(10, &noop());
    let b = w.balls[0];
    assert_eq!(b.pos.y, 754_000); // inside [753, 768] px
    assert_eq!(b.vel.y, -200); // bounced up
    assert_eq!(b.vel.x, 120);
}

// A ball that misses the paddle keeps falling: there is no bottom wall.
#[test]
fn no_bottom_wall() {
    let mut w = world_with(vec![ball(100_000, 760_000, 0, 300)], 964_000);
    w.advance(50, &noop());
    let b = w.balls[0];
    assert_eq!(b.pos.y, 775_000); // already past the window's bottom edge
    assert_eq!(b.vel.y, 300); // still falling
    w.advance(50, &noop());
    assert_eq!(w.balls[0].pos.y, 790_000); // and it keeps going
}

// A zero timestep with no input moves nothing, but a ball resting on a
// boundary while moving into it still has its velocity flipped: the
// boundary check is position-based, not gated on the timestep.
#[test]
fn zero_dt_keeps_positions_but_may_flip() {
    let mut w = world_with(
        vec![ball(15_000, 300_000, -5, 7), ball(400_000, 500_000, 33, -44)],
        PADDLE_START_X,
    );
    w.advance(0, &noop());
    assert_eq!(w.paddle_pos.x, PADDLE_START_X);
    let b0 = w.balls[0];
    assert_eq!((b0.pos.x, b0.pos.y), (15_000, 300_000)); // unmoved
    assert_eq!(b0.vel.x, 5); // flipped at the boundary
    let b1 = w.balls[1];
    assert_eq!((b1.pos.x, b1.pos.y), (400_000, 500_000));
    assert_eq!((b1.vel.x, b1.vel.y), (33, -44)); // untouched
}

// The initial world: paddle centred, two balls at half height, the one
// at a quarter of the width in front of the one at three quarters, each
// with a velocity from the spawn distribution.
#[test]
fn initial_world() {
    let w = World::new();
    assert_eq!(w.paddle_pos.x, PADDLE_START_X);
    assert_eq!(w.paddle_pos.y, PADDLE_Y);
    assert_eq!(w.balls.len(), 2);
    assert_eq!((w.balls[0].pos.x, w.balls[0].pos.y), (256_000, 384_000));
    assert_eq!((w.balls[1].pos.x, w.balls[1].pos.y), (768_000, 384_000));
    vel_in_spawn_bands(&w.balls[0].vel);
    vel_in_spawn_bands(&w.balls[1].vel);
}

// Spawning never grows the collection beyond five; at five, exactly the
// back (oldest) ball leaves and the survivors shift one place back.
#[test]
fn spawn_caps_at_five() {
    let olds: Vec<Ball> = (0..5).map(|i| ball(100_000 + i, 200_000, 10, 10)).collect();
    let mut w = world_with(olds.clone(), PADDLE_START_X);
    assert_eq!(w.balls.len(), 5);
    w.spawn_ball();
    assert_eq!(w.balls.len(), 5);
    assert_eq!((w.balls[0].pos.x, w.balls[0].pos.y), (BALL_SPAWN_X, BALL_SPAWN_Y));
    vel_in_spawn_bands(&w.balls[0].vel);
    for i in 1..5 {
        assert_eq!(w.balls[i], olds[i - 1]); // the old back element is gone
    }
}

// Below the cap, spawning grows the collection by one and evicts nothing.
#[test]
fn spawn_below_cap_keeps_all() {
    let olds: Vec<Ball> = (0..3).map(|i| ball(300_000 + i, 100_000, -250, -250)).collect();
    let mut w = world_with(olds.clone(), PADDLE_START_X);
    w.spawn_ball();
    assert_eq!(w.balls.len(), 4);
    assert_eq!((w.balls[0].pos.x, w.balls[0].pos.y), (BALL_SPAWN_X, BALL_SPAWN_Y));
    for i in 1..4 {
        assert_eq!(w.balls[i], olds[i - 1]);
    }
}

// The spawn velocity distribution: vertical in [-400, -200), horizontal
// in the two bands, never strictly between -200 and 0.
#[test]
fn random_velocity_bands() {
    for _ in 0..500 {
        let v = random_velocity();
        vel_in_spawn_bands(&v);
    }
}

// The exact fold of raw draws into a spawn velocity.
#[test]
fn velocity_fold_from_draws() {
    assert_eq!(velocity_from_draws(0, -300), Vec2 { x: -200, y: -300 });
    assert_eq!(velocity_from_draws(199, -201), Vec2 { x: -399, y: -201 });
    assert_eq!(velocity_from_draws(200, -400), Vec2 { x: 200, y: -400 });
    assert_eq!(velocity_from_draws(399, -250), Vec2 { x: 399, y: -250 });
}

// The frame limiter's two decisions: the pacing gate and the timestep cap.
#[test]
fn pacing_and_clamp() {
    assert!(!frame_ready(0));
    assert!(!frame_ready(16));
    assert!(frame_ready(17));
    assert_eq!(clamp_dt(0), 0);
    assert_eq!(clamp_dt(49), 49);
    assert_eq!(clamp_dt(50), 50);
    assert_eq!(clamp_dt(1_000), 50);
}

// The loop state machine: it keeps running on ordinary input, applies a
// spawn and physics in the same tick, and stops on a quit request.
#[test]
fn loop_state_machine() {
    let mut g = GameLoop::new(world_with(vec![], PADDLE_START_X));
    assert_eq!(g.status, LoopStatus::Running);
    g.step(16, &noop());
    assert_eq!(g.status, LoopStatus::Running);
    let spawn = InputCommand { quit: false, spawn_ball: true, paddle_dir: 0 };
    g.step(16, &spawn);
    assert_eq!(g.world.balls.len(), 1);
    // the spawned ball got a physics pass in the same tick
    assert_ne!(g.world.balls[0].pos.y, BALL_SPAWN_Y);
    let quit = InputCommand { quit: true, spawn_ball: false, paddle_dir: 1 };
    g.step(16, &quit);
    assert_eq!(g.status, LoopStatus::Stopped);
    // the quitting tick still advanced physics
    assert_ne!(g.world.paddle_pos.x, PADDLE_START_X);
}

// One frame's rectangles: three walls, the paddle, then one square per
// ball, newest first, with milli-pixels floored to whole pixels.
#[test]
fn frame_rectangles() {
    let w = world_with(
        vec![ball(15_000, 300_000, -100, 50), ball(-1_000, 900_000, 10, 10)],
        512_080,
    );
    let r = w.render_commands();
    assert_eq!(r.len(), 6);
    assert_eq!(r[0], FrameRect { x: 0, y: 0, width: 1024, height: 15 });
    assert_eq!(r[1], FrameRect { x: 0, y: 0, width: 15, height: 753 });
    assert_eq!(r[2], FrameRect { x: 1009, y: 0, width: 15, height: 753 });
    // (512.08 - 45) px floors to 467
    assert_eq!(r[3], FrameRect { x: 467, y: 753, width: 90, height: 15 });
    assert_eq!(r[4], FrameRect { x: 7, y: 292, width: 15, height: 15 });
    // (-1 - 7.5) px floors to -9
    assert_eq!(r[5], FrameRect { x: -9, y: 892, width: 15, height: 15 });
}

// The milli-pixel to pixel corner mapping floors, on both sides of zero.
#[test]
fn corner_mapping_floors() {
    assert_eq!(corner_px(15_000, 7_500), 7);
    assert_eq!(corner_px(-1_000, 7_500), -9);
    assert_eq!(corner_px(0, 0), 0);
    assert_eq!(corner_px(999, 0), 0);
    assert_eq!(corner_px(-999, 0), -1);
    assert_eq!(corner_px(i64::MIN, 50_000), i64::MIN / 1000 - 51);
}

// Position integration saturates at the ends of the 64-bit range instead
// of overflowing.
#[test]
fn saturating_integration() {
    assert_eq!(sat_add_i64(i64::MAX - 5, 10), i64::MAX);
    assert_eq!(sat_add_i64(i64::MIN + 5, -10), i64::MIN);
    assert_eq!(sat_add_i64(1, 2), 3);
    let mut w = world_with(vec![ball(i64::MAX - 1_000, 300_000, 2_000_000_000, 0)], 512_000);
    w.advance(50, &noop());
    assert_eq!(w.balls[0].pos.x, i64::MAX);
    assert_eq!(w.balls[0].vel.x, -2_000_000_000); // at the right wall, reflected
}
