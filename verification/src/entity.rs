//! The simulated objects: what each one is, where it is, and how the ball
//! responds to touching it.

use vstd::prelude::*;
use crate::geometry::Vec2;

verus! {

/// One of the two players, or the half of the field that player defends.
#[derive(Clone, Copy, Debug, PartialEq, Eq, Structural)]
pub enum Side {
    Left,
    Right,
}

impl Side {
    /// The other player.
    pub open spec fn spec_opponent(self) -> Side {
        match self {
            Side::Left => Side::Right,
            Side::Right => Side::Left,
        }
    }

    #[verifier::when_used_as_spec(spec_opponent)]
    pub fn opponent(self) -> (other: Side)
        ensures
            other == self.spec_opponent(),
    {
        match self {
            Side::Left => Side::Right,
            Side::Right => Side::Left,
        }
    }
}

/// The four edges of the playing field.
#[derive(Clone, Copy, Debug, PartialEq, Eq, Structural)]
pub enum WallSide {
    Left,
    Right,
    Top,
    Bottom,
}

/// What an entity is.
#[derive(Clone, Copy, Debug, PartialEq, Eq, Structural)]
pub enum Role {
    Paddle(Side),
    Ball,
    Wall(WallSide),
    /// One segment of the dashed centre line. Decoration only.
    Dash,
}

/// How the ball responds when its box overlaps an entity's box.
#[derive(Clone, Copy, Debug, PartialEq, Eq, Structural)]
pub enum Collidable {
    /// The ball bounces off.
    Reflect,
    /// The ball has left play: the round is over.
    End,
    /// Nothing happens.
    Passive,
}

/// A simulated object: a box with a centre, a full size and a velocity.
#[derive(Clone, Copy, Debug, PartialEq, Eq, Structural)]
pub struct Entity {
    pub role: Role,
    pub position: Vec2,
    pub size: Vec2,
    pub velocity: Vec2,
    pub collidable: Collidable,
}

impl Entity {
    /// The box has a positive size, and position and velocity are within the
    /// coordinate limit.
    pub open spec fn wf(self) -> bool {
        &&& self.position.bounded()
        &&& self.size.positive()
        &&& self.velocity.bounded()
    }

    /// An entity at rest.
    pub fn fixed(role: Role, position: Vec2, size: Vec2, collidable: Collidable) -> (e: Entity)
        ensures
            e == (Entity { role, position, size, velocity: Vec2 { x: 0, y: 0 }, collidable }),
    {
        Entity { role, position, size, velocity: Vec2 { x: 0, y: 0 }, collidable }
    }

    /// The player that scores when the ball ends the round on this entity: the
    /// opponent of the side the entity stands on. An entity on the centre line
    /// counts as standing on the right.
    pub open spec fn spec_scorer(self) -> Side {
        match self.role {
            Role::Wall(WallSide::Left) => Side::Right,
            Role::Wall(WallSide::Right) => Side::Left,
            Role::Paddle(side) => side.spec_opponent(),
            _ => if self.position.x < 0 {
                Side::Right
            } else {
                Side::Left
            },
        }
    }

    #[verifier::when_used_as_spec(spec_scorer)]
    pub fn scorer(self) -> (side: Side)
        ensures
            side == self.spec_scorer(),
    {
        match self.role {
            Role::Wall(WallSide::Left) => Side::Right,
            Role::Wall(WallSide::Right) => Side::Left,
            Role::Paddle(side) => side.opponent(),
            _ => if self.position.x < 0 {
                Side::Right
            } else {
                Side::Left
            },
        }
    }
}

} // verus!
