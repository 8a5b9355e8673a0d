//! The mutable game world: one paddle and up to five balls.
//!
//! Units: positions are measured in milli-pixels (one thousandth of a
//! pixel), velocities in pixels per second, and durations in
//! milliseconds.  A velocity multiplied by a duration is then exactly a
//! position delta in milli-pixels, so physics integration is exact
//! integer arithmetic.

use std::collections::VecDeque;

use vstd::prelude::*;

use crate::input::InputCommand;
use crate::rng::random_velocity;
use crate::rng::spawn_vel_ok;

verus! {

/// Wall thickness, milli-pixels (15 px).
pub const THICKNESS: i64 = 15_000;

/// Window width, milli-pixels (1024 px).
pub const WINDOW_WIDTH: i64 = 1_024_000;

/// Window height, milli-pixels (768 px).
pub const WINDOW_HEIGHT: i64 = 768_000;

/// Paddle width, milli-pixels (90 px, six times the wall thickness).
pub const PADDLE_WIDTH: i64 = 90_000;

/// Half the paddle width, milli-pixels.
pub const PADDLE_HALF_WIDTH: i64 = 45_000;

/// Paddle speed, pixels per second.
pub const PADDLE_VEL: i64 = 800;

/// Smallest legal paddle centre: THICKNESS + PADDLE_HALF_WIDTH.
pub const PADDLE_MIN_X: i64 = 60_000;

/// Largest legal paddle centre: WINDOW_WIDTH - THICKNESS - PADDLE_HALF_WIDTH.
pub const PADDLE_MAX_X: i64 = 964_000;

/// The paddle's fixed vertical position: WINDOW_HEIGHT - THICKNESS.
pub const PADDLE_Y: i64 = 753_000;

/// At most this many balls exist at once.
pub const BALL_CAP: usize = 5;

/// A freshly spawned ball appears at the horizontal centre of the field.
pub const BALL_SPAWN_X: i64 = 512_000;

/// A freshly spawned ball appears at the vertical centre of the field.
pub const BALL_SPAWN_Y: i64 = 384_000;

/// Representation limit on velocity components (pixels per second),
/// chosen so that a velocity times any millisecond count that fits in
/// 32 bits still fits in 64 bits.
pub const VEL_LIMIT: i64 = 2_000_000_000;

/// The paddle starts at the horizontal centre of the window.
pub const PADDLE_START_X: i64 = 512_000;

/// The first initial ball starts at three quarters of the window width.
pub const BALL_START_RIGHT_X: i64 = 768_000;

/// The second initial ball starts at one quarter of the window width.
pub const BALL_START_LEFT_X: i64 = 256_000;

/// Mathematical model of a two-component vector.
#[verifier::ext_equal]
pub ghost struct Vec2Model {
    pub x: int,
    pub y: int,
}

/// Mathematical model of a ball.
#[verifier::ext_equal]
pub ghost struct BallModel {
    pub pos: Vec2Model,
    pub vel: Vec2Model,
}

/// Mathematical model of the whole world.
#[verifier::ext_equal]
pub ghost struct WorldModel {
    /// Newest ball first; the ball at the end is the oldest survivor.
    pub balls: Seq<BallModel>,
    pub paddle: Vec2Model,
}

/// A two-component vector of 64-bit integers.  Used both for positions
/// (milli-pixels) and velocities (pixels per second).
#[derive(Clone, Copy, PartialEq, Eq, Structural, Debug)]
pub struct Vec2 {
    pub x: i64,
    pub y: i64,
}

impl View for Vec2 {
    type V = Vec2Model;

    open spec fn view(&self) -> Vec2Model {
        Vec2Model { x: self.x as int, y: self.y as int }
    }
}

/// A ball: a position (milli-pixels) and a velocity (pixels per second).
#[derive(Clone, Copy, PartialEq, Eq, Structural, Debug)]
pub struct Ball {
    pub pos: Vec2,
    pub vel: Vec2,
}

impl View for Ball {
    type V = BallModel;

    open spec fn view(&self) -> BallModel {
        BallModel { pos: self.pos@, vel: self.vel@ }
    }
}

impl BallModel {
    /// Position components fit in 64 bits, and velocity components stay
    /// below the representation limit, so that integrating over any
    /// 32-bit millisecond count cannot overflow.
    pub open spec fn wf(&self) -> bool {
        &&& i64::MIN <= self.pos.x <= i64::MAX
        &&& i64::MIN <= self.pos.y <= i64::MAX
        &&& -VEL_LIMIT <= self.vel.x <= VEL_LIMIT
        &&& -VEL_LIMIT <= self.vel.y <= VEL_LIMIT
    }
}

impl WorldModel {
    /// The world invariant: at most five balls, every ball well formed,
    /// the paddle centred inside the legal horizontal band at its fixed
    /// vertical position.
    pub open spec fn wf(&self) -> bool {
        &&& self.balls.len() <= BALL_CAP
        &&& (forall|i: int| 0 <= i < self.balls.len() ==> (#[trigger] self.balls[i]).wf())
        &&& PADDLE_MIN_X <= self.paddle.x <= PADDLE_MAX_X
        &&& self.paddle.y == PADDLE_Y
    }
}

/// Clip an unbounded integer into the 64-bit signed range.
pub open spec fn sat_i64(x: int) -> int {
    if x > i64::MAX {
        i64::MAX as int
    } else if x < i64::MIN {
        i64::MIN as int
    } else {
        x
    }
}

/// Where the paddle centre ends up after a hard clamp into the legal band.
pub open spec fn clamp_paddle(x: int) -> int {
    if x > PADDLE_MAX_X {
        PADDLE_MAX_X as int
    } else if x < PADDLE_MIN_X {
        PADDLE_MIN_X as int
    } else {
        x
    }
}

/// The paddle centre after one step: moved at PADDLE_VEL in the commanded
/// direction and clamped, or untouched when no direction is held.
pub open spec fn step_paddle(x: int, dir: int, dt: int) -> int {
    if dir == 0 {
        x
    } else {
        clamp_paddle(x + dir * PADDLE_VEL * dt)
    }
}

/// One physics step of a single ball: Euler integration of the position
/// (saturating at the 64-bit range), then wall and paddle reflections.
/// Reflections flip a velocity sign only; the position is never snapped
/// back, so a fast ball may overlap a wall for a frame.
pub open spec fn step_ball(b: BallModel, paddle_x: int, dt: int) -> BallModel {
    let px = sat_i64(b.pos.x + b.vel.x * dt);
    let py = sat_i64(b.pos.y + b.vel.y * dt);
    let vx = if (px <= THICKNESS && b.vel.x < 0) || (px >= WINDOW_WIDTH - THICKNESS && b.vel.x
        > 0) {
        -b.vel.x
    } else {
        b.vel.x as int
    };
    let vy_top = if py <= THICKNESS && b.vel.y < 0 {
        -b.vel.y
    } else {
        b.vel.y as int
    };
    let vy = if paddle_x - PADDLE_HALF_WIDTH <= px <= paddle_x + PADDLE_HALF_WIDTH
        && WINDOW_HEIGHT - THICKNESS <= py <= WINDOW_HEIGHT && vy_top > 0 {
        -vy_top
    } else {
        vy_top
    };
    BallModel { pos: Vec2Model { x: px, y: py }, vel: Vec2Model { x: vx, y: vy } }
}

/// One step of the whole world: the paddle moves first, then every ball
/// is stepped independently against the moved paddle.  Balls never
/// interact with each other; the ball count never changes here.
pub open spec fn step_world(w: WorldModel, dt: int, dir: int) -> WorldModel {
    let px = step_paddle(w.paddle.x, dir, dt);
    WorldModel {
        balls: w.balls.map_values(|b: BallModel| step_ball(b, px, dt)),
        paddle: Vec2Model { x: px, y: w.paddle.y },
    }
}

/// The world after a spawn: a ball at the field centre with velocity `v`
/// enters at the front; when the cap was already reached the oldest
/// survivor (the back element) leaves first.
pub open spec fn spawn_world(w: WorldModel, v: Vec2Model) -> WorldModel {
    let kept = if w.balls.len() >= BALL_CAP {
        w.balls.drop_last()
    } else {
        w.balls
    };
    WorldModel {
        balls: seq![
            BallModel { pos: Vec2Model { x: BALL_SPAWN_X as int, y: BALL_SPAWN_Y as int }, vel: v },
        ] + kept,
        paddle: w.paddle,
    }
}

impl Ball {
    /// One physics step of this ball against the (already moved) paddle:
    /// Euler integration with saturation, then the wall and paddle
    /// reflections, exactly as `step_ball` states them.
    pub fn step(self, paddle_x: i64, dt_ms: u32) -> (r: Ball)
        requires
            self@.wf(),
            PADDLE_MIN_X <= paddle_x <= PADDLE_MAX_X,
        ensures
            r@ == step_ball(self@, paddle_x as int, dt_ms as int),
            r@.wf(),
    {
        let dt = dt_ms as i64;
        proof {
            assert(-VEL_LIMIT * 0x1_0000_0000 <= self@.vel.x * dt <= VEL_LIMIT * 0x1_0000_0000
                && -VEL_LIMIT * 0x1_0000_0000 <= self@.vel.y * dt <= VEL_LIMIT
                * 0x1_0000_0000) by (nonlinear_arith)
                requires
                    -VEL_LIMIT <= self@.vel.x <= VEL_LIMIT,
                    -VEL_LIMIT <= self@.vel.y <= VEL_LIMIT,
                    0 <= dt < 0x1_0000_0000,
            ;
        }
        let pos_x = sat_add_i64(self.pos.x, self.vel.x * dt);
        let pos_y = sat_add_i64(self.pos.y, self.vel.y * dt);
        let mut vel_x = self.vel.x;
        let mut vel_y = self.vel.y;
        if (pos_x <= THICKNESS && vel_x < 0) || (pos_x >= WINDOW_WIDTH - THICKNESS && vel_x > 0) {
            vel_x = -vel_x;
        }
        if pos_y <= THICKNESS && vel_y < 0 {
            vel_y = -vel_y;
        }
        if pos_x >= paddle_x - PADDLE_HALF_WIDTH && pos_x <= paddle_x + PADDLE_HALF_WIDTH && pos_y
            >= WINDOW_HEIGHT - THICKNESS && pos_y <= WINDOW_HEIGHT && vel_y > 0 {
            vel_y = -vel_y;
        }
        Ball { pos: Vec2 { x: pos_x, y: pos_y }, vel: Vec2 { x: vel_x, y: vel_y } }
    }
}

/// The game world: the ordered ball collection (newest first) and the
/// paddle position.
pub struct World {
    pub balls: VecDeque<Ball>,
    pub paddle_pos: Vec2,
}

impl View for World {
    type V = WorldModel;

    open spec fn view(&self) -> WorldModel {
        WorldModel {
            balls: self.balls@.map_values(|b: Ball| b@),
            paddle: self.paddle_pos@,
        }
    }
}

impl World {
    /// The starting world: the paddle centred at the bottom, and two
    /// balls at half height, one at a quarter of the width (in front)
    /// and one at three quarters, each with a fresh spawn velocity.
    pub fn new() -> (w: World)
        ensures
            w@.wf(),
            w@.paddle.x == PADDLE_START_X,
            w@.paddle.y == PADDLE_Y,
            w@.balls.len() == 2,
            w@.balls[0].pos == (Vec2Model { x: BALL_START_LEFT_X as int, y: BALL_SPAWN_Y as int }),
            w@.balls[1].pos == (Vec2Model { x: BALL_START_RIGHT_X as int, y: BALL_SPAWN_Y as int }),
            spawn_vel_ok(w@.balls[0].vel),
            spawn_vel_ok(w@.balls[1].vel),
    {
        let mut balls: VecDeque<Ball> = VecDeque::new();
        balls.push_front(
            Ball { pos: Vec2 { x: BALL_START_RIGHT_X, y: BALL_SPAWN_Y }, vel: random_velocity() },
        );
        balls.push_front(
            Ball { pos: Vec2 { x: BALL_START_LEFT_X, y: BALL_SPAWN_Y }, vel: random_velocity() },
        );
        World { balls, paddle_pos: Vec2 { x: PADDLE_START_X, y: PADDLE_Y } }
    }

    /// Insert a fresh ball at the centre of the field, at the front of
    /// the collection; when five balls already exist, the back one (the
    /// oldest survivor) is evicted first, so the count never exceeds
    /// five.
    pub fn spawn_ball(&mut self)
        requires
            old(self)@.wf(),
        ensures
            exists|v: Vec2Model| #[trigger]
                spawn_vel_ok(v) && final(self)@ == spawn_world(old(self)@, v),
            final(self)@.wf(),
    {
        let ghost pre = self@;
        if self.balls.len() == BALL_CAP {
            self.balls.pop_back();
        }
        let vel = random_velocity();
        self.balls.push_front(Ball { pos: Vec2 { x: BALL_SPAWN_X, y: BALL_SPAWN_Y }, vel });
        proof {
            assert(self@ =~= spawn_world(pre, vel@));
        }
    }

    /// One tick of physics: the paddle moves first (when a direction is
    /// held) and is clamped into its legal band; then every ball is
    /// stepped independently against the moved paddle.  The ball count
    /// never changes here.
    pub fn advance(&mut self, dt_ms: u32, input: &InputCommand)
        requires
            old(self)@.wf(),
            input.wf(),
        ensures
            final(self)@ == step_world(old(self)@, dt_ms as int, input.paddle_dir as int),
            final(self)@.wf(),
    {
        let ghost pre = self@;
        if input.paddle_dir != 0 {
            let scaled = PADDLE_VEL * (dt_ms as i64);
            let delta = if input.paddle_dir > 0 {
                scaled
            } else {
                -scaled
            };
            proof {
                if input.paddle_dir == 1 {
                    assert((input.paddle_dir as int) * PADDLE_VEL * (dt_ms as int) == PADDLE_VEL * (
                    dt_ms as int)) by (nonlinear_arith)
                        requires
                            input.paddle_dir == 1,
                    ;
                } else {
                    assert((input.paddle_dir as int) * PADDLE_VEL * (dt_ms as int) == -(PADDLE_VEL
                        * (dt_ms as int))) by (nonlinear_arith)
                        requires
                            input.paddle_dir == -1,
                    ;
                }
            }
            let mut x = self.paddle_pos.x + delta;
            if x > PADDLE_MAX_X {
                x = PADDLE_MAX_X;
            } else if x < PADDLE_MIN_X {
                x = PADDLE_MIN_X;
            }
            self.paddle_pos.x = x;
        }
        let ghost px = step_paddle(pre.paddle.x, input.paddle_dir as int, dt_ms as int);
        let n = self.balls.len();
        let mut i: usize = 0;
        while i < n
            invariant
                pre.wf(),
                i <= n,
                n == pre.balls.len(),
                self.balls@.len() == n,
                self.paddle_pos@.x == px,
                PADDLE_MIN_X <= self.paddle_pos.x <= PADDLE_MAX_X,
                self.paddle_pos@.y == pre.paddle.y,
                forall|k: int|
                    0 <= k < n - i ==> (#[trigger] self.balls@[k])@ == pre.balls[k + i],
                forall|k: int|
                    n - i <= k < n ==> (#[trigger] self.balls@[k])@ == step_ball(
                        pre.balls[k - (n - i)],
                        px,
                        dt_ms as int,
                    ),
                forall|k: int| n - i <= k < n ==> (#[trigger] self.balls@[k])@.wf(),
            decreases n - i,
        {
            let b = self.balls.pop_front().unwrap();
            let stepped = b.step(self.paddle_pos.x, dt_ms);
            self.balls.push_back(stepped);
            i = i + 1;
        }
        proof {
            assert(self@.balls =~= pre.balls.map_values(
                |b: BallModel| step_ball(b, px, dt_ms as int),
            ));
            assert(self@ =~= step_world(pre, dt_ms as int, input.paddle_dir as int));
        }
    }
}

/// Addition of two 64-bit integers that clips at the ends of the range
/// instead of overflowing.
pub fn sat_add_i64(a: i64, b: i64) -> (r: i64)
    ensures
        r == sat_i64(a + b),
{
    if b >= 0 {
        if a > i64::MAX - b {
            i64::MAX
        } else {
            a + b
        }
    } else {
        if a < i64::MIN - b {
            i64::MIN
        } else {
            a + b
        }
    }
}

} // verus!
