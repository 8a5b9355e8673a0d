//! Randomized spawn velocities for new balls.
//!
//! One trusted call draws an integer from a half-open range; everything
//! that shapes the distribution — the bimodal horizontal split that
//! keeps balls away from near-zero sideways speed — is verified code.

use vstd::prelude::*;

use crate::world::Vec2;
use crate::world::Vec2Model;

verus! {

/// Holds of every velocity a spawn can produce: upward (negative y) in
/// [-400, -200), and sideways either in [-600, -200] or in [0, 400) —
/// never strictly between -200 and 0, so a ball always has meaningful
/// sideways motion.  The left band is closed at -200 because folding a
/// horizontal draw of exactly 0 yields exactly -200.
pub open spec fn spawn_vel_ok(v: Vec2Model) -> bool {
    &&& -400 <= v.y < -200
    &&& (-600 <= v.x <= -200) || (0 <= v.x < 400)
}

/// Relies on rand::random_range: a value drawn from the half-open range
/// `lo..hi` always lies within it; the call panics only on an empty
/// range, which the precondition rules out.
#[verifier::external_body]
fn random_in_range(lo: i64, hi: i64) -> (r: i64)
    requires
        lo < hi,
    ensures
        lo <= r < hi,
{
    rand::random_range(lo..hi)
}

/// The deterministic shape of a spawn velocity, given the two raw draws:
/// a horizontal draw from [0, 400) and a vertical draw from [-400, -200).
/// A horizontal draw below 200 is folded to -(draw + 200), which splits
/// the horizontal speed into the two bands of `spawn_vel_ok`.
pub open spec fn spawn_velocity(sp_x: int, sp_y: int) -> Vec2Model {
    Vec2Model { x: if sp_x < 200 { -(sp_x + 200) } else { sp_x }, y: sp_y }
}

/// Builds the spawn velocity from the two raw draws.
pub fn velocity_from_draws(sp_x: i64, sp_y: i64) -> (v: Vec2)
    requires
        0 <= sp_x < 400,
        -400 <= sp_y < -200,
    ensures
        v@ == spawn_velocity(sp_x as int, sp_y as int),
        spawn_vel_ok(v@),
{
    let x = if sp_x < 200 {
        -(sp_x + 200)
    } else {
        sp_x
    };
    Vec2 { x, y: sp_y }
}

/// A fresh random spawn velocity: the fold of two draws, the horizontal
/// one from [0, 400) and the vertical one from [-400, -200).  Whatever
/// the draws, the result lies in the spawn distribution's two horizontal
/// bands and its vertical band; in particular the horizontal speed is
/// never strictly between -200 and 0.
pub fn random_velocity() -> (v: Vec2)
    ensures
        exists|sx: int, sy: int|
            0 <= sx < 400 && -400 <= sy < -200 && v@ == spawn_velocity(sx, sy),
        spawn_vel_ok(v@),
        !(-200 < v@.x < 0),
{
    let sp_x = random_in_range(0, 400);
    let sp_y = random_in_range(-400, -200);
    velocity_from_draws(sp_x, sp_y)
}

} // verus!
