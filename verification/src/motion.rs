//! Movement: every tick an entity's position advances by its velocity.

use vstd::prelude::*;
use crate::entity::Entity;
use crate::geometry::{Vec2, COORD_LIMIT};

verus! {

/// A position one tick later.
pub open spec fn advanced(position: Vec2, velocity: Vec2) -> Vec2 {
    Vec2 { x: (position.x + velocity.x) as i64, y: (position.y + velocity.y) as i64 }
}

/// An entity one tick later: moved by its velocity and otherwise the same.
pub open spec fn moved(entity: Entity) -> Entity {
    Entity { position: advanced(entity.position, entity.velocity), ..entity }
}

/// The step from `position` by `velocity` ends within the coordinate limit.
pub open spec fn can_advance(position: Vec2, velocity: Vec2) -> bool {
    &&& -COORD_LIMIT <= position.x + velocity.x <= COORD_LIMIT
    &&& -COORD_LIMIT <= position.y + velocity.y <= COORD_LIMIT
}

/// Moves an entity by its velocity. Nothing is clamped and nothing else of
/// the entity changes.
pub fn integrate(entity: Entity) -> (out: Entity)
    requires
        entity.wf(),
        can_advance(entity.position, entity.velocity),
    ensures
        out == moved(entity),
        out.position.x == entity.position.x + entity.velocity.x,
        out.position.y == entity.position.y + entity.velocity.y,
        out.wf(),
{
    Entity {
        position: Vec2 {
            x: entity.position.x + entity.velocity.x,
            y: entity.position.y + entity.velocity.y,
        },
        ..entity
    }
}

} // verus!
