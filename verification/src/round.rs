//! The round: when it ends, who scores, and how the next one begins.
//!
//! A round is played until the ball leaves play. That happens when the
//! collision engine reports that the ball touched an entity that ends the
//! round, or when the ball's centre is found outside the window. The ball is
//! then put back on the origin and served again, within the same tick: no tick
//! is ever spent between two rounds.

use vstd::prelude::*;
use crate::arena::ball_served;
use crate::config::Config;
use crate::entity::{Entity, Side};
use crate::geometry::{magnitude, Vec2};
use crate::serve::serve;

verus! {

/// The points of both players.
#[derive(Clone, Copy, Debug, PartialEq, Eq, Structural)]
pub struct Score {
    pub left: u64,
    pub right: u64,
}

/// A count one higher, unless it is already the highest there is.
pub open spec fn one_more(points: u64) -> u64 {
    if points < u64::MAX {
        (points + 1) as u64
    } else {
        points
    }
}

impl Score {
    /// The score with one more point for `side`, and the other player's
    /// points as they were.
    pub open spec fn spec_credited(self, side: Side) -> Score {
        match side {
            Side::Left => Score { left: one_more(self.left), right: self.right },
            Side::Right => Score { left: self.left, right: one_more(self.right) },
        }
    }

    /// Nobody has scored yet.
    pub fn new() -> (score: Score)
        ensures
            score == (Score { left: 0, right: 0 }),
    {
        Score { left: 0, right: 0 }
    }

    #[verifier::when_used_as_spec(spec_credited)]
    pub fn credited(self, side: Side) -> (score: Score)
        ensures
            score == self.spec_credited(side),
    {
        match side {
            Side::Left => Score {
                left: if self.left < u64::MAX {
                    self.left + 1
                } else {
                    self.left
                },
                right: self.right,
            },
            Side::Right => Score {
                left: self.left,
                right: if self.right < u64::MAX {
                    self.right + 1
                } else {
                    self.right
                },
            },
        }
    }

    /// The points of one player.
    pub open spec fn points_of(self, side: Side) -> u64 {
        match side {
            Side::Left => self.left,
            Side::Right => self.right,
        }
    }

    #[verifier::when_used_as_spec(points_of)]
    pub fn points(self, side: Side) -> (points: u64)
        ensures
            points == self.points_of(side),
    {
        match side {
            Side::Left => self.left,
            Side::Right => self.right,
        }
    }
}

/// The position lies within the window, edges included.
pub open spec fn in_window(config: Config, position: Vec2) -> bool {
    &&& 2 * magnitude(position.x as int) <= config.window.x
    &&& 2 * magnitude(position.y as int) <= config.window.y
}

/// The player who scores when the ball is lost at `position`: the one who
/// defends the other half of the table. The centre line counts as the right
/// half.
pub open spec fn scorer_at(position: Vec2) -> Side {
    if position.x < 0 {
        Side::Right
    } else {
        Side::Left
    }
}

/// Who scored in this tick, if anybody: the player the collision engine
/// named, else the player who gains from where the ball left the window.
pub open spec fn round_end(config: Config, signalled: Option<Side>, ball: Entity) -> Option<Side> {
    if signalled is Some {
        signalled
    } else if !in_window(config, ball.position) {
        Some(scorer_at(ball.position))
    } else {
        None
    }
}

/// Decides whether a position lies within the window.
pub fn is_in_window(config: &Config, position: Vec2) -> (inside: bool)
    requires
        config.wf(),
        position.bounded(),
    ensures
        inside == in_window(*config, position),
{
    let x: i64 = if position.x < 0 {
        -position.x
    } else {
        position.x
    };
    let y: i64 = if position.y < 0 {
        -position.y
    } else {
        position.y
    };
    2 * x <= config.window.x && 2 * y <= config.window.y
}

/// Ends the round if it is over and begins the next.
///
/// `signalled` is what the collision engine reported in this tick, `ball` is
/// the ball after it has moved, and `draw` decides the serve should one be
/// due. While the round goes on, ball and score come back unchanged and no
/// event is returned. Otherwise the event names the player who scored, that
/// player has one point more, and the ball lies on the origin with the
/// velocity of the new serve, which is non-zero in both components; of the
/// ball nothing else changes.
pub fn referee(
    config: &Config,
    signalled: Option<Side>,
    ball: Entity,
    score: Score,
    draw: u64,
) -> (next: (Entity, Score, Option<Side>))
    requires
        config.wf(),
        ball.wf(),
    ensures
        next.2 == round_end(*config, signalled, ball),
        next.2 is None ==> next.0 == ball && next.1 == score,
        next.2 is Some ==> {
            &&& next.0 == (Entity {
                position: Vec2 { x: 0, y: 0 },
                velocity: ball_served(*config, draw).velocity,
                ..ball
            })
            &&& next.0.velocity.x != 0
            &&& next.0.velocity.y != 0
            &&& magnitude(next.0.velocity.x as int) <= config.serve_speed
            &&& magnitude(next.0.velocity.y as int) <= config.serve_max_vertical
            &&& next.1 == score.spec_credited(next.2->Some_0)
        },
        next.0.wf(),
{
    let event: Option<Side> = match signalled {
        Some(side) => Some(side),
        None => if is_in_window(config, ball.position) {
            None
        } else if ball.position.x < 0 {
            Some(Side::Right)
        } else {
            Some(Side::Left)
        },
    };
    match event {
        Some(side) => {
            let served = Entity {
                position: Vec2 { x: 0, y: 0 },
                velocity: serve(config, draw),
                ..ball
            };
            (served, score.credited(side), event)
        },
        None => (ball, score, event),
    }
}

} // verus!
