//! The game loop's decisions: frame pacing, the timestep clamp, and the
//! running/stopped state machine.  The surrounding shell owns the clock
//! and the window; it measures elapsed wall-clock time, hands it in
//! here, and performs the drawing.

use vstd::prelude::*;

use crate::input::InputCommand;
use crate::rng::spawn_vel_ok;
use crate::world::spawn_world;
use crate::world::step_world;
use crate::world::Vec2Model;
use crate::world::World;

verus! {

/// A new frame may begin only after this many milliseconds have passed
/// since the previous one, which caps the rate near 60 Hz.
pub const FRAME_MIN_MS: u64 = 16;

/// Physics never advances by more than this many milliseconds in one
/// tick (50 ms), so a stall cannot make the simulation explode.
pub const DT_MAX_MS: u32 = 50;

/// The loop is in one of two states; `Stopped` is terminal.
#[derive(Clone, Copy, PartialEq, Eq, Structural, Debug)]
pub enum LoopStatus {
    Running,
    Stopped,
}

/// The loop state: the world it drives and whether it still runs.
pub struct GameLoop {
    pub world: World,
    pub status: LoopStatus,
}

/// Whether enough wall-clock time has passed since the previous frame
/// for the next one to begin.
pub fn frame_ready(elapsed_ms: u64) -> (r: bool)
    ensures
        r == (elapsed_ms > FRAME_MIN_MS),
{
    elapsed_ms > FRAME_MIN_MS
}

/// The timestep actually fed to physics: the elapsed time, capped at
/// DT_MAX_MS.
pub fn clamp_dt(elapsed_ms: u64) -> (dt: u32)
    ensures
        dt == if elapsed_ms >= DT_MAX_MS {
            DT_MAX_MS as int
        } else {
            elapsed_ms as int
        },
{
    if elapsed_ms >= DT_MAX_MS as u64 {
        DT_MAX_MS
    } else {
        elapsed_ms as u32
    }
}

impl GameLoop {
    /// A loop around `world`, initially running.
    pub fn new(world: World) -> (g: GameLoop)
        ensures
            g.world == world,
            g.status == LoopStatus::Running,
    {
        GameLoop { world, status: LoopStatus::Running }
    }

    /// One iteration's decisions, given the tick's input and timestep:
    /// a requested spawn is applied first (so the new ball gets a physics
    /// pass this same tick), physics then advances, and a quit request
    /// moves the loop to `Stopped`.  Spawn and physics happen even on the
    /// quitting tick, as the loop winds down only afterwards.
    pub fn step(&mut self, dt_ms: u32, input: &InputCommand)
        requires
            old(self).status == LoopStatus::Running,
            old(self).world@.wf(),
            input.wf(),
        ensures
            final(self).status == if input.quit {
                LoopStatus::Stopped
            } else {
                LoopStatus::Running
            },
            final(self).world@.wf(),
            input.spawn_ball ==> exists|v: Vec2Model| #[trigger]
                spawn_vel_ok(v) && final(self).world@ == step_world(
                    spawn_world(old(self).world@, v),
                    dt_ms as int,
                    input.paddle_dir as int,
                ),
            !input.spawn_ball ==> final(self).world@ == step_world(
                old(self).world@,
                dt_ms as int,
                input.paddle_dir as int,
            ),
    {
        let ghost pre = self.world@;
        if input.spawn_ball {
            self.world.spawn_ball();
            proof {
                let v = choose|v: Vec2Model|
                    spawn_vel_ok(v) && self.world@ == spawn_world(pre, v);
                assert(spawn_vel_ok(v) && self.world@ == spawn_world(pre, v));
            }
        }
        self.world.advance(dt_ms, input);
        if input.quit {
            self.status = LoopStatus::Stopped;
        }
    }
}

} // verus!
