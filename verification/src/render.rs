//! The frame's drawing commands: the axis-aligned rectangles a renderer
//! must fill, derived from the world state.  Rectangle coordinates are
//! whole pixels; milli-pixel positions are mapped to pixels by flooring.

use vstd::prelude::*;

use vstd::arithmetic::div_mod::lemma_fundamental_div_mod;
use vstd::arithmetic::div_mod::lemma_fundamental_div_mod_converse;
use vstd::arithmetic::div_mod::lemma_mod_bound;

use crate::world::PADDLE_HALF_WIDTH;
use crate::world::World;

verus! {

/// Wall thickness and ball side, whole pixels.
pub const THICKNESS_PX: i64 = 15;

/// Window width, whole pixels.
pub const WINDOW_WIDTH_PX: i64 = 1024;

/// Window height, whole pixels.
pub const WINDOW_HEIGHT_PX: i64 = 768;

/// Paddle width, whole pixels.
pub const PADDLE_WIDTH_PX: i64 = 90;

/// Half the ball side, milli-pixels: a ball rectangle's corner sits this
/// far left of and above the ball's centre.
pub const BALL_HALF_SIDE: i64 = 7_500;

/// The side walls reach from the top of the window down to the paddle row.
pub const WALL_HEIGHT_PX: i64 = WINDOW_HEIGHT_PX - THICKNESS_PX;

/// Where the right wall begins.
pub const RIGHT_WALL_X_PX: i64 = WINDOW_WIDTH_PX - THICKNESS_PX;

/// Background colour, red component.
pub const BACKGROUND_R: u8 = 124;

/// Background colour, green component.
pub const BACKGROUND_G: u8 = 199;

/// Background colour, blue component.
pub const BACKGROUND_B: u8 = 232;

/// Walls, paddle and balls are drawn in white.
pub const FOREGROUND_RGB: u8 = 255;

/// An axis-aligned rectangle to fill: top-left corner, width and height,
/// all in whole pixels.
#[derive(Clone, Copy, PartialEq, Eq, Structural, Debug)]
pub struct FrameRect {
    pub x: i64,
    pub y: i64,
    pub width: i64,
    pub height: i64,
}

/// Milli-pixels to whole pixels, rounding down.
pub open spec fn to_px(m: int) -> int {
    m / 1000
}

/// The top-left pixel of a rectangle whose centre line sits at `m`
/// milli-pixels and whose half-extent is `half` milli-pixels.
pub fn corner_px(m: i64, half: i64) -> (r: i64)
    requires
        0 <= half <= 50_000,
    ensures
        r == to_px(m - half),
{
    let d: i128 = (m as i128) - (half as i128);
    if d >= 0 {
        let q: u128 = (d as u128) / 1000;
        q as i64
    } else {
        let mag: u128 = (-d) as u128;
        let q: u128 = (mag + 999) / 1000;
        proof {
            let qq = (mag + 999) as int / 1000;
            let rr = (mag + 999) as int % 1000;
            lemma_fundamental_div_mod((mag + 999) as int, 1000);
            lemma_mod_bound((mag + 999) as int, 1000);
            assert((m - half) as int == (-qq) * 1000 + (999 - rr));
            lemma_fundamental_div_mod_converse((m - half) as int, 1000, -qq, 999 - rr);
        }
        -(q as i64)
    }
}

impl World {
    /// The rectangles one frame draws, in order: the top wall, the left
    /// wall, the right wall, the paddle, then one square per ball,
    /// newest ball first.  All of them are filled in the foreground
    /// colour over the cleared background.
    pub fn render_commands(&self) -> (r: Vec<FrameRect>)
        requires
            self@.wf(),
        ensures
            r@.len() == 4 + self@.balls.len(),
            r@[0] == (FrameRect {
                x: 0,
                y: 0,
                width: WINDOW_WIDTH_PX,
                height: THICKNESS_PX,
            }),
            r@[1] == (FrameRect {
                x: 0,
                y: 0,
                width: THICKNESS_PX,
                height: WALL_HEIGHT_PX,
            }),
            r@[2] == (FrameRect {
                x: RIGHT_WALL_X_PX,
                y: 0,
                width: THICKNESS_PX,
                height: WALL_HEIGHT_PX,
            }),
            r@[3].x == to_px(self@.paddle.x - PADDLE_HALF_WIDTH),
            r@[3].y == to_px(self@.paddle.y),
            r@[3].width == PADDLE_WIDTH_PX,
            r@[3].height == THICKNESS_PX,
            forall|i: int|
                0 <= i < self@.balls.len() ==> {
                    &&& (#[trigger] r@[4 + i]).x == to_px(self@.balls[i].pos.x - BALL_HALF_SIDE)
                    &&& r@[4 + i].y == to_px(self@.balls[i].pos.y - BALL_HALF_SIDE)
                    &&& r@[4 + i].width == THICKNESS_PX
                    &&& r@[4 + i].height == THICKNESS_PX
                },
    {
        let mut r: Vec<FrameRect> = Vec::new();
        r.push(FrameRect { x: 0, y: 0, width: WINDOW_WIDTH_PX, height: THICKNESS_PX });
        r.push(FrameRect { x: 0, y: 0, width: THICKNESS_PX, height: WALL_HEIGHT_PX });
        r.push(FrameRect { x: RIGHT_WALL_X_PX, y: 0, width: THICKNESS_PX, height: WALL_HEIGHT_PX });
        let paddle_x = corner_px(self.paddle_pos.x, PADDLE_HALF_WIDTH);
        let paddle_y = corner_px(self.paddle_pos.y, 0);
        r.push(
            FrameRect { x: paddle_x, y: paddle_y, width: PADDLE_WIDTH_PX, height: THICKNESS_PX },
        );
        let n = self.balls.len();
        let mut i: usize = 0;
        while i < n
            invariant
                i <= n,
                n == self@.balls.len(),
                self.balls@.len() == n,
                r@.len() == 4 + i,
                r@[0] == (FrameRect {
                    x: 0,
                    y: 0,
                    width: WINDOW_WIDTH_PX,
                    height: THICKNESS_PX,
                }),
                r@[1] == (FrameRect {
                    x: 0,
                    y: 0,
                    width: THICKNESS_PX,
                    height: WALL_HEIGHT_PX,
                }),
                r@[2] == (FrameRect {
                    x: RIGHT_WALL_X_PX,
                    y: 0,
                    width: THICKNESS_PX,
                    height: WALL_HEIGHT_PX,
                }),
                r@[3].x == to_px(self@.paddle.x - PADDLE_HALF_WIDTH),
                r@[3].y == to_px(self@.paddle.y),
                r@[3].width == PADDLE_WIDTH_PX,
                r@[3].height == THICKNESS_PX,
                forall|k: int|
                    0 <= k < i ==> {
                        &&& (#[trigger] r@[4 + k]).x == to_px(
                            self@.balls[k].pos.x - BALL_HALF_SIDE,
                        )
                        &&& r@[4 + k].y == to_px(self@.balls[k].pos.y - BALL_HALF_SIDE)
                        &&& r@[4 + k].width == THICKNESS_PX
                        &&& r@[4 + k].height == THICKNESS_PX
                    },
            decreases n - i,
        {
            let b = self.balls[i];
            let bx = corner_px(b.pos.x, BALL_HALF_SIDE);
            let by = corner_px(b.pos.y, BALL_HALF_SIDE);
            r.push(FrameRect { x: bx, y: by, width: THICKNESS_PX, height: THICKNESS_PX });
            i = i + 1;
        }
        r
    }
}

} // verus!
