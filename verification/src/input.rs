//! From keys to paddle movement.
//!
//! A held key asks for the paddle's full speed. The request is shortened where
//! the full step would carry the paddle past the end of its travel, so that a
//! paddle that moves by its velocity never leaves the window.

use vstd::prelude::*;
use crate::config::Config;
use crate::entity::Entity;
use crate::geometry::{magnitude, Vec2};
use crate::numeric::{clamp, clamped};

verus! {

/// What a player's two keys are doing during one tick.
#[derive(Clone, Copy, Debug, PartialEq, Eq, Structural)]
pub enum KeyState {
    /// Neither key is held.
    Idle,
    Up,
    Down,
    /// Both keys are held. They cancel: the paddle stays.
    Both,
}

impl KeyState {
    /// The state of a player's keys, from whether each is held.
    pub open spec fn spec_from_keys(up: bool, down: bool) -> KeyState {
        if up && down {
            KeyState::Both
        } else if up {
            KeyState::Up
        } else if down {
            KeyState::Down
        } else {
            KeyState::Idle
        }
    }

    #[verifier::when_used_as_spec(spec_from_keys)]
    pub fn from_keys(up: bool, down: bool) -> (keys: KeyState)
        ensures
            keys == KeyState::spec_from_keys(up, down),
    {
        if up && down {
            KeyState::Both
        } else if up {
            KeyState::Up
        } else if down {
            KeyState::Down
        } else {
            KeyState::Idle
        }
    }
}

/// The vertical velocity the keys ask for: the paddle speed upward or
/// downward, or nothing.
pub open spec fn requested_velocity(config: Config, keys: KeyState) -> int {
    match keys {
        KeyState::Up => config.paddle_speed as int,
        KeyState::Down => -config.paddle_speed,
        KeyState::Idle | KeyState::Both => 0,
    }
}

/// The paddle's centre is within its travel.
pub open spec fn within_travel(config: Config, y: int) -> bool {
    magnitude(y) <= config.spec_paddle_travel()
}

/// The vertical velocity a paddle at height `y` is given: the requested one,
/// cut short where the paddle would pass the end of its travel.
pub open spec fn paddle_velocity(config: Config, y: int, keys: KeyState) -> int {
    clamped(
        y + requested_velocity(config, keys),
        -config.spec_paddle_travel(),
        config.spec_paddle_travel(),
    ) - y
}

/// A paddle after the input mapper has seen its player's keys: its vertical
/// velocity is set, and nothing else of it has changed.
pub open spec fn steered(config: Config, paddle: Entity, keys: KeyState) -> Entity {
    Entity {
        velocity: Vec2 {
            x: paddle.velocity.x,
            y: paddle_velocity(config, paddle.position.y as int, keys) as i64,
        },
        ..paddle
    }
}

/// Where a paddle that starts at height `y` stands after one tick for each
/// entry of `inputs`, in order.
pub open spec fn paddle_track(config: Config, y: int, inputs: Seq<KeyState>) -> int
    decreases inputs.len(),
{
    if inputs.len() == 0 {
        y
    } else {
        let before = paddle_track(config, y, inputs.drop_last());
        before + paddle_velocity(config, before, inputs.last())
    }
}

/// One step never carries a paddle out of its travel, and away from the ends
/// the paddle moves exactly as the keys ask.
pub proof fn lemma_paddle_step(config: Config, y: int, keys: KeyState)
    requires
        config.wf(),
        within_travel(config, y),
    ensures
        within_travel(config, y + paddle_velocity(config, y, keys)),
        magnitude(paddle_velocity(config, y, keys)) <= config.paddle_speed,
        within_travel(config, y + requested_velocity(config, keys)) ==> paddle_velocity(
            config,
            y,
            keys,
        ) == requested_velocity(config, keys),
        keys is Idle || keys is Both ==> paddle_velocity(config, y, keys) == 0,
{
}

/// Whatever keys are pressed, and for however long, a paddle that starts
/// within its travel stays there: its centre is never farther from the centre
/// line than half of what the window's height leaves beside the paddle's.
pub proof fn lemma_paddle_stays_in_window(config: Config, y: int, inputs: Seq<KeyState>)
    requires
        config.wf(),
        within_travel(config, y),
    ensures
        within_travel(config, paddle_track(config, y, inputs)),
        2 * magnitude(paddle_track(config, y, inputs)) <= config.window.y - config.paddle_size.y,
    decreases inputs.len(),
{
    if inputs.len() > 0 {
        lemma_paddle_stays_in_window(config, y, inputs.drop_last());
        lemma_paddle_step(config, paddle_track(config, y, inputs.drop_last()), inputs.last());
    }
}

/// Sets a paddle's vertical velocity from its player's keys. Nothing else of
/// the paddle changes; in particular it does not move.
pub fn steer(config: &Config, paddle: Entity, keys: KeyState) -> (out: Entity)
    requires
        config.wf(),
        paddle.wf(),
        within_travel(*config, paddle.position.y as int),
    ensures
        out == steered(*config, paddle, keys),
        out.velocity.y == paddle_velocity(*config, paddle.position.y as int, keys),
        magnitude(out.velocity.y as int) <= config.paddle_speed,
        within_travel(*config, out.position.y + out.velocity.y),
        out.wf(),
{
    let travel: i64 = config.paddle_travel();
    let wanted: i64 = match keys {
        KeyState::Up => config.paddle_speed,
        KeyState::Down => -config.paddle_speed,
        KeyState::Idle | KeyState::Both => 0,
    };
    let target: i64 = clamp(paddle.position.y + wanted, -travel, travel);
    Entity {
        velocity: Vec2 { x: paddle.velocity.x, y: target - paddle.position.y },
        ..paddle
    }
}

} // verus!
