//! The collision engine: which entities the ball touches, and what follows.
//!
//! The ball is tested against each entity once, in the order given and at the
//! position it has at the start of the tick. A reflecting entity turns the
//! ball's velocity round, an ending entity ends the round, a passive one does
//! nothing. The ball is not moved here.

use vstd::prelude::*;
use crate::config::Config;
use crate::entity::{Collidable, Entity, Role, Side};
use crate::geometry::{axis_penetration, boxes_overlap, magnitude, overlaps, penetration, Vec2};
use crate::numeric::clamped;
use vstd::arithmetic::div_mod::{
    lemma_div_basics, lemma_div_is_ordered, lemma_div_multiples_vanish, lemma_div_pos_is_pos,
};
use vstd::arithmetic::mul::lemma_mul_inequality;

verus! {

/// The direction in which a bounce turns the ball round.
#[derive(Clone, Copy, Debug, PartialEq, Eq, Structural)]
pub enum Axis {
    /// The ball met an upright face: its horizontal velocity is inverted.
    Horizontal,
    /// The ball met a level face: its vertical velocity is inverted.
    Vertical,
}

/// What the collision engine hands on: the ball's velocity after all bounces,
/// and the player who scored if the round is over.
#[derive(Clone, Copy, Debug, PartialEq, Eq)]
pub struct Outcome {
    pub velocity: Vec2,
    pub round_end: Option<Side>,
}

/// The ball's box overlaps the other entity's box.
pub open spec fn touches(ball: Entity, other: Entity) -> bool {
    boxes_overlap(ball.position, ball.size, other.position, other.size)
}

/// The axis along which the two boxes reach less far into each other. Where
/// they reach equally far along both, the bounce is vertical.
pub open spec fn contact_axis(ball: Entity, other: Entity) -> Axis {
    if penetration(
        ball.position.x as int,
        ball.size.x as int,
        other.position.x as int,
        other.size.x as int,
    ) < penetration(
        ball.position.y as int,
        ball.size.y as int,
        other.position.y as int,
        other.size.y as int,
    ) {
        Axis::Horizontal
    } else {
        Axis::Vertical
    }
}

/// The vertical velocity a paddle adds to a ball whose centre stands `offset`
/// above the paddle's, where `reach` is the sum of the two heights: the share
/// `2 * offset / reach` of the gain, with fractions dropped toward zero. It is
/// nothing at the paddle's centre and would be the full gain where the boxes
/// just stop touching.
pub open spec fn spin_at(gain: int, offset: int, reach: int) -> int {
    if offset >= 0 {
        (gain * (2 * offset)) / reach
    } else {
        -((gain * (2 * (-offset))) / reach)
    }
}

/// The vertical velocity a paddle adds to a ball that meets its face.
pub open spec fn spin(config: Config, ball: Entity, paddle: Entity) -> int {
    spin_at(
        config.spin_gain as int,
        ball.position.y - paddle.position.y,
        ball.size.y + paddle.size.y,
    )
}

/// The ball's velocity after it has bounced off `other`.
///
/// Off an upright face the horizontal component changes sign; a paddle also
/// adds its spin to the vertical component, which is then held within the
/// configured greatest vertical speed. Off a level face the vertical component
/// changes sign and nothing more.
pub open spec fn bounced(config: Config, ball: Entity, other: Entity) -> Vec2 {
    match contact_axis(ball, other) {
        Axis::Horizontal => Vec2 {
            x: (-ball.velocity.x) as i64,
            y: if other.role is Paddle {
                clamped(
                    ball.velocity.y + spin(config, ball, other),
                    -config.max_vertical_speed,
                    config.max_vertical_speed as int,
                ) as i64
            } else {
                ball.velocity.y
            },
        },
        Axis::Vertical => Vec2 { x: ball.velocity.x, y: (-ball.velocity.y) as i64 },
    }
}

/// The outcome so far, after the ball has also been tested against `other`.
/// Of several entities that end the round, the first decides who scored.
pub open spec fn respond(config: Config, ball: Entity, sofar: Outcome, other: Entity) -> Outcome {
    if !touches(ball, other) {
        sofar
    } else {
        match other.collidable {
            Collidable::Reflect => Outcome {
                velocity: bounced(config, Entity { velocity: sofar.velocity, ..ball }, other),
                round_end: sofar.round_end,
            },
            Collidable::End => Outcome {
                velocity: sofar.velocity,
                round_end: if sofar.round_end is None {
                    Some(other.spec_scorer())
                } else {
                    sofar.round_end
                },
            },
            Collidable::Passive => sofar,
        }
    }
}

/// The outcome of testing the ball against every entity of `others` in order.
pub open spec fn resolve(config: Config, ball: Entity, others: Seq<Entity>) -> Outcome
    decreases others.len(),
{
    if others.len() == 0 {
        Outcome { velocity: ball.velocity, round_end: None }
    } else {
        respond(config, ball, resolve(config, ball, others.drop_last()), others.last())
    }
}

/// The higher on the paddle the ball meets it, the more upward velocity it is
/// given: the spin never falls as the offset rises.
pub proof fn lemma_spin_grows_with_offset(gain: int, lower: int, higher: int, reach: int)
    requires
        0 <= gain,
        0 < reach,
        lower <= higher,
    ensures
        spin_at(gain, lower, reach) <= spin_at(gain, higher, reach),
{
    let low = if lower >= 0 {
        gain * (2 * lower)
    } else {
        gain * (2 * (-lower))
    };
    let high = if higher >= 0 {
        gain * (2 * higher)
    } else {
        gain * (2 * (-higher))
    };
    assert(0 <= low && 0 <= high) by (nonlinear_arith)
        requires
            0 <= gain,
            low == gain * (2 * lower) && lower >= 0 || low == gain * (2 * (-lower)) && lower < 0,
            high == gain * (2 * higher) && higher >= 0 || high == gain * (2 * (-higher)) && higher
                < 0,
    ;
    lemma_div_pos_is_pos(low, reach);
    lemma_div_pos_is_pos(high, reach);
    if lower >= 0 {
        lemma_mul_inequality(2 * lower, 2 * higher, gain);
        assert(low == (2 * lower) * gain) by (nonlinear_arith)
            requires
                low == gain * (2 * lower),
        ;
        assert(high == (2 * higher) * gain) by (nonlinear_arith)
            requires
                high == gain * (2 * higher),
        ;
        lemma_div_is_ordered(low, high, reach);
    } else if higher < 0 {
        lemma_mul_inequality(2 * (-higher), 2 * (-lower), gain);
        assert(low == (2 * (-lower)) * gain) by (nonlinear_arith)
            requires
                low == gain * (2 * (-lower)),
        ;
        assert(high == (2 * (-higher)) * gain) by (nonlinear_arith)
            requires
                high == gain * (2 * (-higher)),
        ;
        lemma_div_is_ordered(high, low, reach);
    }
}

/// A hit on the paddle's centre adds nothing, hits at equal distances above
/// and below it add opposite velocities, and while the boxes touch the spin
/// stays within the gain.
pub proof fn lemma_spin_symmetric_and_bounded(gain: int, offset: int, reach: int)
    requires
        0 <= gain,
        0 < reach,
    ensures
        spin_at(gain, 0, reach) == 0,
        spin_at(gain, -offset, reach) == -spin_at(gain, offset, reach),
        offset >= 0 ==> spin_at(gain, offset, reach) >= 0,
        2 * magnitude(offset) < reach ==> magnitude(spin_at(gain, offset, reach)) <= gain,
{
    assert(gain * (2 * 0) == 0) by (nonlinear_arith);
    lemma_div_basics(reach);
    let size = magnitude(offset);
    let product = gain * (2 * size);
    assert(0 <= product) by (nonlinear_arith)
        requires
            0 <= gain,
            0 <= size,
            product == gain * (2 * size),
    ;
    lemma_div_pos_is_pos(product, reach);
    if 2 * size < reach {
        lemma_mul_inequality(2 * size, reach, gain);
        assert(product == (2 * size) * gain) by (nonlinear_arith)
            requires
                product == gain * (2 * size),
        ;
        lemma_div_is_ordered(product, reach * gain, reach);
        lemma_div_multiples_vanish(gain, reach);
    }
}

/// A ball that touches nothing that reflects or ends the round leaves the
/// engine as it came: with its velocity, and with the round still on.
pub proof fn lemma_free_ball_keeps_velocity(config: Config, ball: Entity, others: Seq<Entity>)
    requires
        forall|i: int|
            0 <= i < others.len() ==> !(touches(ball, #[trigger] others[i]) && !(
            others[i].collidable is Passive)),
    ensures
        resolve(config, ball, others) == (Outcome { velocity: ball.velocity, round_end: None }),
    decreases others.len(),
{
    if others.len() > 0 {
        let rest = others.drop_last();
        assert forall|i: int| 0 <= i < rest.len() implies !(touches(ball, #[trigger] rest[i]) && !(
        rest[i].collidable is Passive)) by {
            assert(rest[i] == others[i]);
        }
        lemma_free_ball_keeps_velocity(config, ball, rest);
        assert(others.last() == others[others.len() - 1]);
    }
}

/// A bounce off a level face is lossless: the vertical velocity changes sign
/// and keeps its size, the horizontal velocity is untouched, and the round
/// goes on.
pub proof fn lemma_level_face_bounce(config: Config, ball: Entity, other: Entity)
    requires
        ball.wf(),
        touches(ball, other),
        other.collidable is Reflect,
        contact_axis(ball, other) == Axis::Vertical,
    ensures
        resolve(config, ball, seq![other]) == (Outcome {
            velocity: Vec2 { x: ball.velocity.x, y: (-ball.velocity.y) as i64 },
            round_end: None,
        }),
        resolve(config, ball, seq![other]).velocity.y == -ball.velocity.y,
        magnitude(resolve(config, ball, seq![other]).velocity.y as int) == magnitude(
            ball.velocity.y as int,
        ),
{
    let others = seq![other];
    assert(others.drop_last().len() == 0);
    assert(others.last() == other);
    assert(resolve(config, ball, others.drop_last()) == (Outcome {
        velocity: ball.velocity,
        round_end: None,
    }));
    assert((Entity { velocity: ball.velocity, ..ball }) == ball);
}

/// A bounce off the upright face of anything but a paddle is lossless too: the
/// horizontal velocity changes sign and keeps its size, and the vertical
/// velocity is untouched.
pub proof fn lemma_upright_face_bounce(config: Config, ball: Entity, other: Entity)
    requires
        ball.wf(),
        touches(ball, other),
        other.collidable is Reflect,
        !(other.role is Paddle),
        contact_axis(ball, other) == Axis::Horizontal,
    ensures
        resolve(config, ball, seq![other]) == (Outcome {
            velocity: Vec2 { x: (-ball.velocity.x) as i64, y: ball.velocity.y },
            round_end: None,
        }),
        resolve(config, ball, seq![other]).velocity.x == -ball.velocity.x,
{
    let others = seq![other];
    assert(others.drop_last().len() == 0);
    assert(others.last() == other);
    assert(resolve(config, ball, others.drop_last()) == (Outcome {
        velocity: ball.velocity,
        round_end: None,
    }));
    assert((Entity { velocity: ball.velocity, ..ball }) == ball);
}

/// The engine reports the end of the round exactly when the ball touches an
/// entity that ends it.
pub proof fn lemma_round_ends_on_contact(config: Config, ball: Entity, others: Seq<Entity>)
    ensures
        resolve(config, ball, others).round_end is Some <==> exists|i: int|
            0 <= i < others.len() && touches(ball, #[trigger] others[i])
                && others[i].collidable is End,
    decreases others.len(),
{
    if others.len() > 0 {
        let rest = others.drop_last();
        lemma_round_ends_on_contact(config, ball, rest);
        let last = others.last();
        if resolve(config, ball, others).round_end is Some {
            if resolve(config, ball, rest).round_end is Some {
                let i = choose|i: int|
                    0 <= i < rest.len() && touches(ball, #[trigger] rest[i])
                        && rest[i].collidable is End;
                assert(others[i] == rest[i]);
            } else {
                assert(others[others.len() - 1] == last);
            }
        }
        if exists|i: int|
            0 <= i < others.len() && touches(ball, #[trigger] others[i])
                && others[i].collidable is End {
            let i = choose|i: int|
                0 <= i < others.len() && touches(ball, #[trigger] others[i])
                    && others[i].collidable is End;
            if i < rest.len() {
                assert(rest[i] == others[i]);
            }
        }
    }
}

/// Every entity of the sequence is well formed.
pub open spec fn all_wf(others: Seq<Entity>) -> bool {
    forall|i: int| 0 <= i < others.len() ==> (#[trigger] others[i]).wf()
}

/// Decides along which axis the ball bounces off `other`.
pub fn axis_of_contact(ball: &Entity, other: &Entity) -> (axis: Axis)
    requires
        ball.wf(),
        other.wf(),
    ensures
        axis == contact_axis(*ball, *other),
{
    let along_x: i64 = axis_penetration(ball.position.x, ball.size.x, other.position.x, other.size.x);
    let along_y: i64 = axis_penetration(ball.position.y, ball.size.y, other.position.y, other.size.y);
    if along_x < along_y {
        Axis::Horizontal
    } else {
        Axis::Vertical
    }
}

/// Computes the vertical velocity of a ball that leaves a paddle's face: the
/// old one plus the paddle's spin, held within the greatest vertical speed.
pub fn deflect(config: &Config, ball: &Entity, paddle: &Entity) -> (vy: i64)
    requires
        config.wf(),
        ball.wf(),
        paddle.wf(),
    ensures
        vy == clamped(
            ball.velocity.y + spin(*config, *ball, *paddle),
            -config.max_vertical_speed,
            config.max_vertical_speed as int,
        ),
        magnitude(vy as int) <= config.max_vertical_speed,
{
    let offset: i128 = (ball.position.y as i128) - (paddle.position.y as i128);
    let reach: i128 = (ball.size.y as i128) + (paddle.size.y as i128);
    let gain: i128 = config.spin_gain as i128;
    let cap: i128 = config.max_vertical_speed as i128;
    let doubled: i128 = if offset >= 0 {
        2 * offset
    } else {
        2 * (-offset)
    };
    assert(0 <= gain * doubled <= 1_073_741_824 * 4_398_046_511_104) by (nonlinear_arith)
        requires
            0 <= gain <= 1_073_741_824,
            0 <= doubled <= 4_398_046_511_104,
    ;
    let share: i128 = (gain * doubled) / reach;
    proof {
        let product: int = gain * doubled;
        assert(0 <= product / (reach as int) <= product) by (nonlinear_arith)
            requires
                0 <= product,
                reach >= 1,
        ;
    }
    let added: i128 = if offset >= 0 {
        share
    } else {
        -share
    };
    let sum: i128 = (ball.velocity.y as i128) + added;
    let held: i128 = if sum < -cap {
        -cap
    } else if sum > cap {
        cap
    } else {
        sum
    };
    held as i64
}

/// Computes the ball's velocity after a bounce off `other`.
pub fn bounce(config: &Config, ball: &Entity, other: &Entity) -> (velocity: Vec2)
    requires
        config.wf(),
        ball.wf(),
        other.wf(),
    ensures
        velocity == bounced(*config, *ball, *other),
        magnitude(velocity.x as int) == magnitude(ball.velocity.x as int),
        magnitude(velocity.y as int) == magnitude(ball.velocity.y as int) || magnitude(
            velocity.y as int,
        ) <= config.max_vertical_speed,
        velocity.bounded(),
{
    match axis_of_contact(ball, other) {
        Axis::Horizontal => {
            let y: i64 = match other.role {
                Role::Paddle(_) => deflect(config, ball, other),
                _ => ball.velocity.y,
            };
            Vec2 { x: -ball.velocity.x, y }
        },
        Axis::Vertical => Vec2 { x: ball.velocity.x, y: -ball.velocity.y },
    }
}

/// The vertical speed of the ball stays within the larger of what it was and
/// the greatest vertical speed a paddle may leave it with.
pub open spec fn vertical_within(config: Config, before: Vec2, after: Vec2) -> bool {
    magnitude(after.y as int) <= magnitude(before.y as int) || magnitude(after.y as int)
        <= config.max_vertical_speed
}

/// Runs the collision engine for one tick: tests the ball against each entity
/// of `others` once, in order, and returns the ball's new velocity together
/// with the player who scored, if an entity ended the round.
///
/// No bounce changes the ball's horizontal speed, only its direction.
pub fn collide(config: &Config, ball: &Entity, others: &Vec<Entity>) -> (outcome: Outcome)
    requires
        config.wf(),
        ball.wf(),
        all_wf(others@),
    ensures
        outcome == resolve(*config, *ball, others@),
        outcome.velocity.bounded(),
        magnitude(outcome.velocity.x as int) == magnitude(ball.velocity.x as int),
        vertical_within(*config, ball.velocity, outcome.velocity),
{
    let mut outcome = Outcome { velocity: ball.velocity, round_end: None };
    let mut i: usize = 0;
    while i < others.len()
        invariant
            0 <= i <= others.len(),
            config.wf(),
            ball.wf(),
            all_wf(others@),
            outcome == resolve(*config, *ball, others@.take(i as int)),
            outcome.velocity.bounded(),
            magnitude(outcome.velocity.x as int) == magnitude(ball.velocity.x as int),
            vertical_within(*config, ball.velocity, outcome.velocity),
        decreases others.len() - i,
    {
        let other: Entity = others[i];
        assert(others@.take(i as int + 1).drop_last() == others@.take(i as int));
        assert(others@.take(i as int + 1).last() == other);
        assert(other.wf());
        if overlaps(ball.position, ball.size, other.position, other.size) {
            match other.collidable {
                Collidable::Reflect => {
                    let current = Entity { velocity: outcome.velocity, ..*ball };
                    outcome = Outcome {
                        velocity: bounce(config, &current, &other),
                        round_end: outcome.round_end,
                    };
                },
                Collidable::End => {
                    if outcome.round_end.is_none() {
                        outcome = Outcome {
                            velocity: outcome.velocity,
                            round_end: Some(other.scorer()),
                        };
                    }
                },
                Collidable::Passive => {},
            }
        }
        i += 1;
    }
    assert(others@.take(others.len() as int) == others@);
    outcome
}

} // verus!
