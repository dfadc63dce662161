//! The serve: the velocity the ball is given at the start of every round.
//!
//! A serve is decided by one number drawn by the caller. Its lowest bit picks
//! the player the ball flies toward, the next bit picks up or down, and the
//! rest picks the vertical speed within the configured range. The horizontal
//! speed is what the fixed serve speed leaves over.

use vstd::prelude::*;
use crate::config::Config;
use crate::entity::Side;
use crate::geometry::{magnitude, Vec2};
use crate::numeric::{
    floor_sqrt, is_floor_sqrt, isqrt, lemma_floor_sqrt_exists, lemma_floor_sqrt_monotonic,
    lemma_square_monotonic,
};

verus! {

/// The player toward whom the serve decided by `draw` flies.
pub open spec fn serve_target(draw: u64) -> Side {
    if draw % 2 == 0 {
        Side::Left
    } else {
        Side::Right
    }
}

/// Whether the serve decided by `draw` goes upward.
pub open spec fn serve_rises(draw: u64) -> bool {
    (draw / 2) % 2 == 1
}

/// The vertical speed of the serve decided by `draw`: a value of the
/// configured range.
pub open spec fn serve_vertical_speed(config: Config, draw: u64) -> int {
    config.serve_min_vertical + ((draw / 4) as int) % (config.serve_max_vertical
        - config.serve_min_vertical + 1)
}

/// The horizontal speed that goes with a vertical speed: the largest whole
/// number that keeps the velocity's length within the serve speed.
pub open spec fn horizontal_share(config: Config, vertical: int) -> int {
    floor_sqrt(config.serve_speed * config.serve_speed - vertical * vertical)
}

/// The velocity of the serve decided by `draw`.
pub open spec fn serve_velocity(config: Config, draw: u64) -> Vec2 {
    let v = serve_vertical_speed(config, draw);
    let h = horizontal_share(config, v);
    Vec2 {
        x: (if serve_target(draw) == Side::Left {
            -h
        } else {
            h
        }) as i64,
        y: (if serve_rises(draw) {
            v
        } else {
            -v
        }) as i64,
    }
}

/// A vertical speed below the serve speed leaves a horizontal share of at
/// least 1, and the two together are as long as the serve speed allows.
pub proof fn lemma_horizontal_share(config: Config, vertical: int)
    requires
        config.wf(),
        0 <= vertical < config.serve_speed,
    ensures
        is_floor_sqrt(
            config.serve_speed * config.serve_speed - vertical * vertical,
            horizontal_share(config, vertical),
        ),
        1 <= horizontal_share(config, vertical) <= config.serve_speed,
{
    let s = config.serve_speed as int;
    let n = s * s - vertical * vertical;
    lemma_square_monotonic(vertical + 1, s);
    assert((vertical + 1) * (vertical + 1) == vertical * vertical + 2 * vertical + 1)
        by (nonlinear_arith);
    assert(n >= 1);
    lemma_floor_sqrt_exists(n);
    let h = floor_sqrt(n);
    if h < 1 {
        assert((h + 1) * (h + 1) == 1);
    }
    if h > s {
        lemma_square_monotonic(s + 1, h);
        assert(vertical * vertical >= 0) by (nonlinear_arith);
        assert((s + 1) * (s + 1) > s * s) by (nonlinear_arith)
            requires
                0 <= s,
        ;
    }
}

/// Every serve is neither level nor straight up or down: both components are
/// non-zero, the vertical speed lies in the configured range, and the
/// horizontal speed lies between the shares that the greatest and the least
/// vertical speed leave.
pub proof fn lemma_serve_bounds(config: Config, draw: u64)
    requires
        config.wf(),
    ensures
        ({
            let v = serve_velocity(config, draw);
            &&& config.serve_min_vertical <= magnitude(v.y as int) <= config.serve_max_vertical
            &&& 1 <= horizontal_share(config, config.serve_max_vertical as int)
            &&& horizontal_share(config, config.serve_max_vertical as int) <= magnitude(v.x as int)
            &&& magnitude(v.x as int) <= horizontal_share(config, config.serve_min_vertical as int)
            &&& horizontal_share(config, config.serve_min_vertical as int) <= config.serve_speed
            &&& v.x != 0
            &&& v.y != 0
            &&& (v.x < 0 <==> serve_target(draw) == Side::Left)
            &&& (v.y > 0 <==> serve_rises(draw))
        }),
{
    let s = config.serve_speed as int;
    let lo = config.serve_min_vertical as int;
    let hi = config.serve_max_vertical as int;
    let v = serve_vertical_speed(config, draw);
    assert(lo <= v <= hi);
    lemma_horizontal_share(config, v);
    lemma_horizontal_share(config, lo);
    lemma_horizontal_share(config, hi);
    lemma_square_monotonic(lo, v);
    lemma_square_monotonic(v, hi);
    lemma_floor_sqrt_monotonic(
        s * s - hi * hi,
        s * s - v * v,
        horizontal_share(config, hi),
        horizontal_share(config, v),
    );
    lemma_floor_sqrt_monotonic(
        s * s - v * v,
        s * s - lo * lo,
        horizontal_share(config, v),
        horizontal_share(config, lo),
    );
}

/// Computes the velocity of the serve decided by `draw`.
pub fn serve(config: &Config, draw: u64) -> (v: Vec2)
    requires
        config.wf(),
    ensures
        v == serve_velocity(*config, draw),
        v.x != 0,
        v.y != 0,
        magnitude(v.x as int) <= config.serve_speed,
        magnitude(v.y as int) <= config.serve_max_vertical,
        v.x * v.x + v.y * v.y <= config.serve_speed * config.serve_speed,
        config.serve_speed * config.serve_speed < (magnitude(v.x as int) + 1) * (magnitude(
            v.x as int,
        ) + 1) + v.y * v.y,
{
    let span: i64 = config.serve_max_vertical - config.serve_min_vertical + 1;
    let pick: u64 = (draw / 4) % (span as u64);
    let vertical: i64 = config.serve_min_vertical + (pick as i64);
    proof {
        lemma_horizontal_share(*config, vertical as int);
        lemma_square_monotonic(vertical as int, config.serve_speed as int);
        lemma_square_monotonic(config.serve_speed as int, 1_073_741_824);
        assert(1_073_741_824 * 1_073_741_824 == 1_152_921_504_606_846_976int) by (nonlinear_arith);
        assert(vertical * vertical >= 0) by (nonlinear_arith);
    }
    let speed_squared: i64 = config.serve_speed * config.serve_speed;
    let vertical_squared: i64 = vertical * vertical;
    let horizontal: i64 = isqrt(speed_squared - vertical_squared);
    let x: i64 = if draw % 2 == 0 {
        -horizontal
    } else {
        horizontal
    };
    let y: i64 = if (draw / 2) % 2 == 1 {
        vertical
    } else {
        -vertical
    };
    proof {
        assert(x * x == horizontal * horizontal) by (nonlinear_arith)
            requires
                x == horizontal || x == -horizontal,
        ;
        assert(y * y == vertical * vertical) by (nonlinear_arith)
            requires
                y == vertical || y == -vertical,
        ;
    }
    Vec2 { x, y }
}

} // verus!
