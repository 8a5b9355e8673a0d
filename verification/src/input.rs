//! The structured command an input sampler hands the game each tick.

use vstd::prelude::*;

verus! {

/// One tick's worth of player input.  `quit` fires on a close request or
/// the escape key; `spawn_ball` is edge-triggered, once per key press;
/// `paddle_dir` is the level state of the movement keys: -1 left, 0
/// still, 1 right.
#[derive(Clone, Copy, PartialEq, Eq, Structural, Debug)]
pub struct InputCommand {
    pub quit: bool,
    pub spawn_ball: bool,
    pub paddle_dir: i32,
}

impl InputCommand {
    /// The direction is one of -1, 0 and 1.
    pub open spec fn wf(&self) -> bool {
        -1 <= self.paddle_dir <= 1
    }

    /// The command that asks for nothing: no quit, no spawn, no movement.
    pub fn noop() -> (c: InputCommand)
        ensures
            c == (InputCommand { quit: false, spawn_ball: false, paddle_dir: 0 }),
    {
        InputCommand { quit: false, spawn_ball: false, paddle_dir: 0 }
    }
}

} // verus!
