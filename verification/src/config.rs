//! The tunable constants of the game, gathered in one value that is handed to
//! every rule that needs one.

use vstd::prelude::*;
use crate::geometry::Vec2;

verus! {

/// The largest window dimension, size, speed or gain a configuration may hold.
pub const EXTENT_LIMIT: i64 = 1_073_741_824;

/// How far each side wall and the top and bottom walls sit inside the window's
/// edge.
pub const WALL_INSET: i64 = 1;

/// Everything about a game that can be tuned.
#[derive(Clone, Copy, Debug, PartialEq, Eq, Structural)]
pub struct Config {
    /// Width and height of the window. The origin is its centre.
    pub window: Vec2,
    /// Size of the ball. Its width is also the thickness of the walls.
    pub ball_size: Vec2,
    pub paddle_size: Vec2,
    /// How far a paddle moves in one tick while its key is held.
    pub paddle_speed: i64,
    /// Distance of each paddle's centre from the origin, in thousandths of the
    /// window's width.
    pub paddle_offset_permille: i64,
    pub dash_size: Vec2,
    /// The gap between two dashes of the centre line.
    pub dash_padding: i64,
    /// The length of the ball's velocity at a serve.
    pub serve_speed: i64,
    /// The least vertical speed of a serve. At least 1, so no serve is level.
    pub serve_min_vertical: i64,
    /// The greatest vertical speed of a serve. Below `serve_speed`, so no serve
    /// is straight up or down.
    pub serve_max_vertical: i64,
    /// The vertical speed a hit on the very edge of a paddle adds to the ball.
    pub spin_gain: i64,
    /// The greatest vertical speed the ball may have after a paddle hit.
    pub max_vertical_speed: i64,
}

impl Config {
    /// The configuration is usable: sizes are positive, the paddle fits in the
    /// window, the serve's vertical range is not empty and leaves room for a
    /// horizontal component, and nothing exceeds `EXTENT_LIMIT`.
    pub open spec fn wf(self) -> bool {
        &&& 1 <= self.window.x <= EXTENT_LIMIT
        &&& 1 <= self.window.y <= EXTENT_LIMIT
        &&& 1 <= self.ball_size.x <= EXTENT_LIMIT
        &&& 1 <= self.ball_size.y <= EXTENT_LIMIT
        &&& 1 <= self.paddle_size.x <= EXTENT_LIMIT
        &&& 1 <= self.paddle_size.y <= self.window.y
        &&& 0 <= self.paddle_speed <= EXTENT_LIMIT
        &&& 0 <= self.paddle_offset_permille <= 500
        &&& 1 <= self.dash_size.x <= EXTENT_LIMIT
        &&& 1 <= self.dash_size.y <= EXTENT_LIMIT
        &&& 0 <= self.dash_padding <= EXTENT_LIMIT
        &&& 1 <= self.serve_min_vertical <= self.serve_max_vertical
        &&& self.serve_max_vertical < self.serve_speed <= EXTENT_LIMIT
        &&& 0 <= self.spin_gain <= EXTENT_LIMIT
        &&& self.serve_max_vertical <= self.max_vertical_speed <= EXTENT_LIMIT
    }

    /// The classic table: a window of 1000 by 800, a ball of 5 by 5, paddles of
    /// 6 by 36 that move 10 per tick and stand at 48% of the width from the
    /// centre, dashes of 1 by 8 with gaps of 20, and a serve of speed 7.
    pub open spec fn spec_classic() -> Config {
        Config {
            window: Vec2 { x: 1000, y: 800 },
            ball_size: Vec2 { x: 5, y: 5 },
            paddle_size: Vec2 { x: 6, y: 36 },
            paddle_speed: 10,
            paddle_offset_permille: 480,
            dash_size: Vec2 { x: 1, y: 8 },
            dash_padding: 20,
            serve_speed: 7,
            serve_min_vertical: 1,
            serve_max_vertical: 5,
            spin_gain: 4,
            max_vertical_speed: 9,
        }
    }

    #[verifier::when_used_as_spec(spec_classic)]
    pub fn classic() -> (c: Config)
        ensures
            c == Config::spec_classic(),
            c.wf(),
    {
        Config {
            window: Vec2 { x: 1000, y: 800 },
            ball_size: Vec2 { x: 5, y: 5 },
            paddle_size: Vec2 { x: 6, y: 36 },
            paddle_speed: 10,
            paddle_offset_permille: 480,
            dash_size: Vec2 { x: 1, y: 8 },
            dash_padding: 20,
            serve_speed: 7,
            serve_min_vertical: 1,
            serve_max_vertical: 5,
            spin_gain: 4,
            max_vertical_speed: 9,
        }
    }

    /// Says whether the configuration is usable.
    pub fn is_valid(&self) -> (ok: bool)
        ensures
            ok == self.wf(),
    {
        1 <= self.window.x && self.window.x <= EXTENT_LIMIT && 1 <= self.window.y && self.window.y
            <= EXTENT_LIMIT && 1 <= self.ball_size.x && self.ball_size.x <= EXTENT_LIMIT && 1
            <= self.ball_size.y && self.ball_size.y <= EXTENT_LIMIT && 1 <= self.paddle_size.x
            && self.paddle_size.x <= EXTENT_LIMIT && 1 <= self.paddle_size.y && self.paddle_size.y
            <= self.window.y && 0 <= self.paddle_speed && self.paddle_speed <= EXTENT_LIMIT && 0
            <= self.paddle_offset_permille && self.paddle_offset_permille <= 500 && 1
            <= self.dash_size.x && self.dash_size.x <= EXTENT_LIMIT && 1 <= self.dash_size.y
            && self.dash_size.y <= EXTENT_LIMIT && 0 <= self.dash_padding && self.dash_padding
            <= EXTENT_LIMIT && 1 <= self.serve_min_vertical && self.serve_min_vertical
            <= self.serve_max_vertical && self.serve_max_vertical < self.serve_speed
            && self.serve_speed <= EXTENT_LIMIT && 0 <= self.spin_gain && self.spin_gain
            <= EXTENT_LIMIT && self.serve_max_vertical <= self.max_vertical_speed
            && self.max_vertical_speed <= EXTENT_LIMIT
    }

    /// The farthest a paddle's centre may be from the horizontal centre line:
    /// half of what the window's height leaves beside the paddle's.
    pub open spec fn spec_paddle_travel(self) -> int {
        (self.window.y - self.paddle_size.y) / 2
    }

    pub fn paddle_travel(&self) -> (t: i64)
        requires
            self.wf(),
        ensures
            t == self.spec_paddle_travel(),
            0 <= t,
            2 * t <= self.window.y - self.paddle_size.y,
    {
        (self.window.y - self.paddle_size.y) / 2
    }

    /// The distance of each paddle's centre from the origin.
    pub open spec fn spec_paddle_reach(self) -> int {
        self.paddle_offset_permille * self.window.x / 1000
    }

    /// The paddles stand between the origin and the window's side edges.
    pub proof fn lemma_paddle_reach_bounds(self)
        requires
            self.wf(),
        ensures
            0 <= self.spec_paddle_reach() <= self.window.x / 2,
            0 <= self.paddle_offset_permille * self.window.x <= 500 * EXTENT_LIMIT,
    {
        assert(0 <= self.paddle_offset_permille * self.window.x <= 500 * self.window.x)
            by (nonlinear_arith)
            requires
                0 <= self.paddle_offset_permille <= 500,
                0 <= self.window.x,
        ;
    }

    pub fn paddle_reach(&self) -> (r: i64)
        requires
            self.wf(),
        ensures
            r == self.spec_paddle_reach(),
            0 <= r <= self.window.x / 2,
    {
        proof {
            self.lemma_paddle_reach_bounds();
        }
        self.paddle_offset_permille * self.window.x / 1000
    }
}

} // verus!
