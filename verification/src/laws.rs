//! Laws of the simulation, stated and proved over the world model.

use vstd::prelude::*;

use crate::world::clamp_paddle;
use crate::world::sat_i64;
use crate::world::spawn_world;
use crate::world::step_ball;
use crate::world::step_paddle;
use crate::world::step_world;
use crate::world::BallModel;
use crate::world::Vec2Model;
use crate::world::WorldModel;
use crate::world::BALL_CAP;
use crate::world::BALL_SPAWN_X;
use crate::world::BALL_SPAWN_Y;
use crate::world::PADDLE_MAX_X;
use crate::world::PADDLE_MIN_X;
use crate::world::THICKNESS;
use crate::rng::spawn_velocity;

verus! {

/// One tick's worth of inputs to `advance`: a timestep and a direction.
pub ghost struct TickInput {
    pub dt: int,
    pub dir: int,
}

/// The world after a whole sequence of `advance` calls, applied in order.
pub open spec fn run_steps(w: WorldModel, ticks: Seq<TickInput>) -> WorldModel
    decreases ticks.len(),
{
    if ticks.len() == 0 {
        w
    } else {
        run_steps(step_world(w, ticks[0].dt, ticks[0].dir), ticks.subrange(1, ticks.len() as int))
    }
}

/// One step keeps the world invariant: the ball count and the velocity
/// bounds are untouched, positions land back in the 64-bit range, and
/// the paddle is clamped into (or left inside) its legal band.  No
/// assumption on the timestep is needed.
pub proof fn lemma_step_preserves_wf(w: WorldModel, dt: int, dir: int)
    requires
        w.wf(),
        -1 <= dir <= 1,
    ensures
        step_world(w, dt, dir).wf(),
{
    let sw = step_world(w, dt, dir);
    assert forall|i: int| 0 <= i < sw.balls.len() implies (#[trigger] sw.balls[i]).wf() by {
        assert(sw.balls[i] == step_ball(w.balls[i], sw.paddle.x, dt));
    }
}

/// After any sequence of `advance` calls on a well-formed world, the
/// paddle centre still satisfies
/// `PADDLE_MIN_X <= paddle.x <= PADDLE_MAX_X` — the paddle can never
/// leave the screen, whatever inputs and timesteps arrive.
pub proof fn lemma_paddle_always_in_band(w: WorldModel, ticks: Seq<TickInput>)
    requires
        w.wf(),
        forall|i: int| 0 <= i < ticks.len() ==> -1 <= (#[trigger] ticks[i]).dir <= 1,
    ensures
        run_steps(w, ticks).wf(),
        PADDLE_MIN_X <= run_steps(w, ticks).paddle.x <= PADDLE_MAX_X,
    decreases ticks.len(),
{
    if ticks.len() > 0 {
        lemma_step_preserves_wf(w, ticks[0].dt, ticks[0].dir);
        lemma_paddle_always_in_band(
            step_world(w, ticks[0].dt, ticks[0].dir),
            ticks.subrange(1, ticks.len() as int),
        );
    }
}

/// A ball moving left that starts a tick at or beyond the left wall
/// (`pos.x <= THICKNESS`) is moving right once the tick is over, for any
/// timestep in the clamp's range and any paddle command.
pub proof fn lemma_left_wall_reflects(w: WorldModel, i: int, dt: int, dir: int)
    requires
        w.wf(),
        0 <= i < w.balls.len(),
        1 <= dt <= 50,
        w.balls[i].vel.x < 0,
        w.balls[i].pos.x <= THICKNESS,
    ensures
        step_world(w, dt, dir).balls[i].vel.x > 0,
{
    let b = w.balls[i];
    let px = step_paddle(w.paddle.x, dir, dt);
    assert(step_world(w, dt, dir).balls[i] == step_ball(b, px, dt));
    assert(b.vel.x * dt < 0) by (nonlinear_arith)
        requires
            b.vel.x < 0,
            dt >= 1,
    ;
    assert(sat_i64(b.pos.x + b.vel.x * dt) <= THICKNESS);
}

/// Spawning grows the collection by one up to the cap of five and never
/// beyond it: at the cap, exactly the back (oldest) ball leaves, every
/// other survivor keeps its place one further back, and the new ball
/// stands at the front, at the centre of the field.
pub proof fn lemma_spawn_caps_at_five(w: WorldModel, v: Vec2Model)
    requires
        w.wf(),
    ensures
        spawn_world(w, v).balls.len() == if w.balls.len() < BALL_CAP {
            w.balls.len() + 1int
        } else {
            BALL_CAP as int
        },
        spawn_world(w, v).balls.len() <= BALL_CAP,
        spawn_world(w, v).balls[0] == (BallModel {
            pos: Vec2Model { x: BALL_SPAWN_X as int, y: BALL_SPAWN_Y as int },
            vel: v,
        }),
        forall|i: int|
            1 <= i < spawn_world(w, v).balls.len() ==> spawn_world(w, v).balls[i] == w.balls[i - 1],
        spawn_world(w, v).paddle == w.paddle,
{
}

/// A tick with a zero timestep and no paddle command moves nothing: the
/// paddle and every ball position are unchanged.  (A velocity sign may
/// still flip: the boundary checks are position-based, not gated on the
/// timestep.)
pub proof fn lemma_zero_dt_keeps_positions(w: WorldModel)
    requires
        w.wf(),
    ensures
        step_world(w, 0, 0).paddle == w.paddle,
        step_world(w, 0, 0).balls.len() == w.balls.len(),
        forall|i: int|
            0 <= i < w.balls.len() ==> (#[trigger] step_world(w, 0, 0).balls[i]).pos == w.balls[i].pos,
{
    let sw = step_world(w, 0, 0);
    assert forall|i: int| 0 <= i < w.balls.len() implies (#[trigger] sw.balls[i]).pos
        == w.balls[i].pos by {
        assert(sw.balls[i] == step_ball(w.balls[i], w.paddle.x, 0));
        assert(w.balls[i].vel.x * 0 == 0);
        assert(w.balls[i].vel.y * 0 == 0);
    }
}

/// The spawn velocity distribution, away from the single horizontal draw
/// of zero: the vertical speed lies in [-400, -200) and the horizontal
/// speed in (-600, -200) or [0, 400) — never in [-200, 0).  (A horizontal
/// draw of exactly zero folds to exactly -200 and is the one exception.)
pub proof fn lemma_spawn_velocity_bands(sp_x: int, sp_y: int)
    requires
        0 < sp_x < 400,
        -400 <= sp_y < -200,
    ensures
        -400 <= spawn_velocity(sp_x, sp_y).y < -200,
        (-600 < spawn_velocity(sp_x, sp_y).x < -200) || (0 <= spawn_velocity(sp_x, sp_y).x < 400),
        !(-200 <= spawn_velocity(sp_x, sp_y).x < 0),
{
}

} // verus!
