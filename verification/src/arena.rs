//! The layout of the table: where the walls, the paddles, the ball and the
//! dashes of the centre line stand when a game begins.
//!
//! Walls and dashes follow from the configuration alone and never change.

use vstd::prelude::*;
use crate::config::{Config, WALL_INSET};
use crate::entity::{Collidable, Entity, Role, Side, WallSide};
use crate::geometry::{magnitude, Vec2};
use crate::serve::{serve, serve_velocity};
use vstd::arithmetic::div_mod::lemma_fundamental_div_mod;
use vstd::arithmetic::mul::lemma_mul_inequality;

verus! {

/// The most steps the centre line may take down from the top edge.
pub const DASH_STEP_LIMIT: i64 = 65_535;

/// The wall on one edge of the window. Its centre sits `WALL_INSET` inside the
/// edge and it is as thick as the ball is wide. The side walls end the round;
/// top and bottom reflect.
pub open spec fn wall_at(config: Config, side: WallSide) -> Entity {
    let half_width = config.window.x / 2;
    let half_height = config.window.y / 2;
    let thickness = config.ball_size.x;
    match side {
        WallSide::Left => Entity {
            role: Role::Wall(WallSide::Left),
            position: Vec2 { x: (-half_width + WALL_INSET) as i64, y: 0 },
            size: Vec2 { x: thickness, y: config.window.y },
            velocity: Vec2 { x: 0, y: 0 },
            collidable: Collidable::End,
        },
        WallSide::Right => Entity {
            role: Role::Wall(WallSide::Right),
            position: Vec2 { x: (half_width - WALL_INSET) as i64, y: 0 },
            size: Vec2 { x: thickness, y: config.window.y },
            velocity: Vec2 { x: 0, y: 0 },
            collidable: Collidable::End,
        },
        WallSide::Top => Entity {
            role: Role::Wall(WallSide::Top),
            position: Vec2 { x: 0, y: (half_height - WALL_INSET) as i64 },
            size: Vec2 { x: config.window.x, y: thickness },
            velocity: Vec2 { x: 0, y: 0 },
            collidable: Collidable::Reflect,
        },
        WallSide::Bottom => Entity {
            role: Role::Wall(WallSide::Bottom),
            position: Vec2 { x: 0, y: (-half_height + WALL_INSET) as i64 },
            size: Vec2 { x: config.window.x, y: thickness },
            velocity: Vec2 { x: 0, y: 0 },
            collidable: Collidable::Reflect,
        },
    }
}

/// A player's paddle as the game begins: at rest on the centre line, at the
/// configured distance from the origin on the player's side.
pub open spec fn paddle_at(config: Config, side: Side) -> Entity {
    Entity {
        role: Role::Paddle(side),
        position: Vec2 {
            x: (match side {
                Side::Left => -config.spec_paddle_reach(),
                Side::Right => config.spec_paddle_reach(),
            }) as i64,
            y: 0,
        },
        size: config.paddle_size,
        velocity: Vec2 { x: 0, y: 0 },
        collidable: Collidable::Reflect,
    }
}

/// The ball as a round begins: at the origin, with the velocity of the serve
/// that `draw` decides.
pub open spec fn ball_served(config: Config, draw: u64) -> Entity {
    Entity {
        role: Role::Ball,
        position: Vec2 { x: 0, y: 0 },
        size: config.ball_size,
        velocity: serve_velocity(config, draw),
        collidable: Collidable::Passive,
    }
}

/// The distance from one dash to the next: a dash and a gap.
pub open spec fn dash_step(config: Config) -> int {
    config.dash_size.y + config.dash_padding
}

/// The number of steps the centre line takes down from the top edge: as many
/// as fit in the window's height, and no more than `DASH_STEP_LIMIT`. The
/// line has one dash more than it takes steps.
pub open spec fn dash_steps(config: Config) -> int {
    let fit = (config.window.y as int) / dash_step(config);
    if fit > DASH_STEP_LIMIT {
        DASH_STEP_LIMIT as int
    } else {
        fit
    }
}

/// The dash that stands `index` steps below the top edge.
pub open spec fn dash_at(config: Config, index: int) -> Entity {
    Entity {
        role: Role::Dash,
        position: Vec2 { x: 0, y: (config.window.y / 2 - index * dash_step(config)) as i64 },
        size: config.dash_size,
        velocity: Vec2 { x: 0, y: 0 },
        collidable: Collidable::Passive,
    }
}

/// The whole centre line, from the top edge downward.
pub open spec fn dash_line(config: Config) -> Seq<Entity> {
    Seq::new((dash_steps(config) + 1) as nat, |i: int| dash_at(config, i))
}

/// Builds the wall on one edge of the window.
pub fn wall(config: &Config, side: WallSide) -> (e: Entity)
    requires
        config.wf(),
    ensures
        e == wall_at(*config, side),
        e.wf(),
{
    let half_width: i64 = config.window.x / 2;
    let half_height: i64 = config.window.y / 2;
    let thickness: i64 = config.ball_size.x;
    match side {
        WallSide::Left => Entity::fixed(
            Role::Wall(WallSide::Left),
            Vec2 { x: -half_width + WALL_INSET, y: 0 },
            Vec2 { x: thickness, y: config.window.y },
            Collidable::End,
        ),
        WallSide::Right => Entity::fixed(
            Role::Wall(WallSide::Right),
            Vec2 { x: half_width - WALL_INSET, y: 0 },
            Vec2 { x: thickness, y: config.window.y },
            Collidable::End,
        ),
        WallSide::Top => Entity::fixed(
            Role::Wall(WallSide::Top),
            Vec2 { x: 0, y: half_height - WALL_INSET },
            Vec2 { x: config.window.x, y: thickness },
            Collidable::Reflect,
        ),
        WallSide::Bottom => Entity::fixed(
            Role::Wall(WallSide::Bottom),
            Vec2 { x: 0, y: -half_height + WALL_INSET },
            Vec2 { x: config.window.x, y: thickness },
            Collidable::Reflect,
        ),
    }
}

/// Builds a player's paddle as the game begins.
pub fn paddle(config: &Config, side: Side) -> (e: Entity)
    requires
        config.wf(),
    ensures
        e == paddle_at(*config, side),
        e.wf(),
{
    let reach: i64 = config.paddle_reach();
    let x: i64 = match side {
        Side::Left => -reach,
        Side::Right => reach,
    };
    Entity::fixed(Role::Paddle(side), Vec2 { x, y: 0 }, config.paddle_size, Collidable::Reflect)
}

/// Builds the ball as a round begins.
pub fn ball(config: &Config, draw: u64) -> (e: Entity)
    requires
        config.wf(),
    ensures
        e == ball_served(*config, draw),
        e.wf(),
        e.velocity.x != 0,
        e.velocity.y != 0,
        magnitude(e.velocity.x as int) <= config.serve_speed,
        magnitude(e.velocity.y as int) <= config.serve_max_vertical,
{
    Entity {
        role: Role::Ball,
        position: Vec2 { x: 0, y: 0 },
        size: config.ball_size,
        velocity: serve(config, draw),
        collidable: Collidable::Passive,
    }
}

/// Builds the four walls: left, right, top, bottom.
pub fn walls(config: &Config) -> (all: Vec<Entity>)
    requires
        config.wf(),
    ensures
        all@ == seq![
            wall_at(*config, WallSide::Left),
            wall_at(*config, WallSide::Right),
            wall_at(*config, WallSide::Top),
            wall_at(*config, WallSide::Bottom),
        ],
{
    let mut all: Vec<Entity> = Vec::new();
    all.push(wall(config, WallSide::Left));
    all.push(wall(config, WallSide::Right));
    all.push(wall(config, WallSide::Top));
    all.push(wall(config, WallSide::Bottom));
    assert(all@ == seq![
        wall_at(*config, WallSide::Left),
        wall_at(*config, WallSide::Right),
        wall_at(*config, WallSide::Top),
        wall_at(*config, WallSide::Bottom),
    ]);
    all
}

/// Builds the dashed centre line, from the top edge downward.
pub fn dashes(config: &Config) -> (line: Vec<Entity>)
    requires
        config.wf(),
    ensures
        line@ == dash_line(*config),
        line@.len() == dash_steps(*config) + 1,
        forall|i: int| 0 <= i < line@.len() ==> #[trigger] line@[i] == dash_at(*config, i),
        forall|i: int| 0 <= i < line@.len() ==> (#[trigger] line@[i]).wf(),
{
    let step: i64 = config.dash_size.y + config.dash_padding;
    let fit: i64 = config.window.y / step;
    let steps: i64 = if fit > DASH_STEP_LIMIT {
        DASH_STEP_LIMIT
    } else {
        fit
    };
    let top: i64 = config.window.y / 2;
    proof {
        lemma_fundamental_div_mod(config.window.y as int, step as int);
        lemma_mul_inequality(steps as int, fit as int, step as int);
        assert(step * fit == fit * step) by (nonlinear_arith);
    }
    let mut line: Vec<Entity> = Vec::new();
    let mut i: i64 = 0;
    while i <= steps
        invariant
            config.wf(),
            0 <= i <= steps + 1,
            0 <= steps <= DASH_STEP_LIMIT,
            steps * step <= config.window.y,
            step == dash_step(*config),
            1 <= step,
            top == config.window.y / 2,
            line@.len() == i,
            forall|k: int| 0 <= k < line@.len() ==> #[trigger] line@[k] == dash_at(*config, k),
            forall|k: int| 0 <= k < line@.len() ==> (#[trigger] line@[k]).wf(),
        decreases steps + 1 - i,
    {
        proof {
            lemma_mul_inequality(i as int, steps as int, step as int);
            assert(0 <= i * step) by (nonlinear_arith)
                requires
                    0 <= i,
                    0 <= step,
            ;
        }
        let y: i64 = top - i * step;
        line.push(Entity::fixed(Role::Dash, Vec2 { x: 0, y }, config.dash_size, Collidable::Passive));
        i += 1;
    }
    assert(line@ =~= dash_line(*config));
    line
}

} // verus!
