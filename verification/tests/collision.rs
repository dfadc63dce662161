use pong::arena::{paddle, wall};
use pong::collision::{axis_of_contact, bounce, collide, deflect, Axis, Outcome};
use pong::config::Config;
use pong::entity::{Collidable, Entity, Role, Side, WallSide};
use pong::geometry::Vec2;

fn ball_at(x: i64, y: i64, vx: i64, vy: i64) -> Entity {
    Entity {
        role: Role::Ball,
        position: Vec2 { x, y },
        size: Config::classic().ball_size,
        velocity: Vec2 { x: vx, y: vy },
        collidable: Collidable::Passive,
    }
}

fn table() -> Vec<Entity> {
    let config = Config::classic();
    vec![
        paddle(&config, Side::Left),
        paddle(&config, Side::Right),
        wall(&config, WallSide::Left),
        wall(&config, WallSide::Right),
        wall(&config, WallSide::Top),
        wall(&config, WallSide::Bottom),
    ]
}

#[test]
fn free_ball_keeps_its_velocity() {
    let config = Config::classic();
    let others = table();
    for (x, y) in [(0, 0), (100, -200), (-470, 0), (474, 0), (0, 393), (0, -393), (-493, 300)] {
        let ball = ball_at(x, y, 5, -3);
        let outcome = collide(&config, &ball, &others);
        assert_eq!(outcome, Outcome { velocity: Vec2 { x: 5, y: -3 }, round_end: None });
    }
}

#[test]
fn empty_table_changes_nothing() {
    let config = Config::classic();
    let ball = ball_at(0, 0, 4, 4);
    let outcome = collide(&config, &ball, &Vec::new());
    assert_eq!(outcome, Outcome { velocity: Vec2 { x: 4, y: 4 }, round_end: None });
}

#[test]
fn top_and_bottom_walls_flip_vertical_velocity_only() {
    let config = Config::classic();
    let others = table();
    // The top wall's centre is at 399; ball and wall are 5 thick.
    let rising = ball_at(120, 395, 5, 3);
    assert_eq!(
        collide(&config, &rising, &others),
        Outcome { velocity: Vec2 { x: 5, y: -3 }, round_end: None }
    );
    let falling = ball_at(-120, -396, -5, -4);
    assert_eq!(
        collide(&config, &falling, &others),
        Outcome { velocity: Vec2 { x: -5, y: 4 }, round_end: None }
    );
}

#[test]
fn level_bounce_is_lossless() {
    let config = Config::classic();
    let top = wall(&config, WallSide::Top);
    for vy in [1, 2, 7, -7, 100] {
        let ball = ball_at(0, 396, 3, vy);
        assert_eq!(axis_of_contact(&ball, &top), Axis::Vertical);
        let after = bounce(&config, &ball, &top);
        assert_eq!(after, Vec2 { x: 3, y: -vy });
        assert_eq!(after.y.abs(), vy.abs());
    }
}

#[test]
fn upright_wall_bounce_is_lossless() {
    let config = Config::classic();
    let post = Entity::fixed(
        Role::Wall(WallSide::Right),
        Vec2 { x: 100, y: 0 },
        Vec2 { x: 4, y: 200 },
        Collidable::Reflect,
    );
    let ball = ball_at(96, 30, 5, -2);
    assert_eq!(axis_of_contact(&ball, &post), Axis::Horizontal);
    assert_eq!(bounce(&config, &ball, &post), Vec2 { x: -5, y: -2 });
    assert_eq!(
        collide(&config, &ball, &vec![post]),
        Outcome { velocity: Vec2 { x: -5, y: -2 }, round_end: None }
    );
}

#[test]
fn equal_penetration_bounces_vertically() {
    let config = Config::classic();
    let block = Entity::fixed(
        Role::Wall(WallSide::Top),
        Vec2 { x: 10, y: 10 },
        Vec2 { x: 20, y: 20 },
        Collidable::Reflect,
    );
    let ball = ball_at(0, 0, 2, 3);
    assert_eq!(axis_of_contact(&ball, &block), Axis::Vertical);
    assert_eq!(bounce(&config, &ball, &block), Vec2 { x: 2, y: -3 });
}

#[test]
fn paddle_face_reflects_and_centre_hit_adds_no_spin() {
    let config = Config::classic();
    let others = table();
    let ball = ball_at(475, 0, 5, 0);
    assert_eq!(
        collide(&config, &ball, &others),
        Outcome { velocity: Vec2 { x: -5, y: 0 }, round_end: None }
    );
    let left = ball_at(-475, 0, -5, 2);
    assert_eq!(
        collide(&config, &left, &others),
        Outcome { velocity: Vec2 { x: 5, y: 2 }, round_end: None }
    );
}

#[test]
fn hit_nearer_the_paddle_edge_leaves_steeper() {
    let config = Config::classic();
    let right = paddle(&config, Side::Right);
    let mut last = 0;
    for (offset, expected) in [(0, 0), (5, 0), (10, 1), (11, 2), (15, 2), (16, 3), (19, 3)] {
        let above = ball_at(475, offset, 5, 0);
        let below = ball_at(475, -offset, 5, 0);
        assert_eq!(deflect(&config, &above, &right), expected);
        assert_eq!(deflect(&config, &below, &right), -expected);
        assert_eq!(bounce(&config, &above, &right), Vec2 { x: -5, y: expected });
        assert_eq!(bounce(&config, &below, &right), Vec2 { x: -5, y: -expected });
        assert!(expected >= last);
        last = expected;
    }
}

#[test]
fn spin_adds_to_the_incoming_vertical_velocity() {
    let config = Config::classic();
    let right = paddle(&config, Side::Right);
    assert_eq!(deflect(&config, &ball_at(475, 20, 5, 0), &right), 3);
    assert_eq!(deflect(&config, &ball_at(475, 20, 5, 2), &right), 5);
    assert_eq!(deflect(&config, &ball_at(475, 20, 5, -2), &right), 1);
    assert_eq!(deflect(&config, &ball_at(475, -20, 5, 2), &right), -1);
}

#[test]
fn deflection_is_held_within_the_greatest_vertical_speed() {
    let config = Config::classic();
    let right = paddle(&config, Side::Right);
    assert_eq!(deflect(&config, &ball_at(475, 20, 5, 8), &right), 9);
    assert_eq!(deflect(&config, &ball_at(475, -20, 5, -8), &right), -9);
    assert_eq!(deflect(&config, &ball_at(475, 0, 5, 50), &right), 9);
}

#[test]
fn paddle_top_edge_bounces_vertically_without_spin() {
    let config = Config::classic();
    let right = paddle(&config, Side::Right);
    // Dead centre above the paddle: deeper along x than along y.
    let ball = ball_at(480, 20, 1, -6);
    assert_eq!(axis_of_contact(&ball, &right), Axis::Vertical);
    assert_eq!(bounce(&config, &ball, &right), Vec2 { x: 1, y: 6 });
}

#[test]
fn side_walls_end_the_round_and_name_the_scorer() {
    let config = Config::classic();
    let others = table();
    let lost_left = ball_at(-495, 100, -5, 1);
    assert_eq!(
        collide(&config, &lost_left, &others),
        Outcome { velocity: Vec2 { x: -5, y: 1 }, round_end: Some(Side::Right) }
    );
    let lost_right = ball_at(497, -100, 5, 1);
    assert_eq!(
        collide(&config, &lost_right, &others),
        Outcome { velocity: Vec2 { x: 5, y: 1 }, round_end: Some(Side::Left) }
    );
}

#[test]
fn corner_contact_reflects_and_ends_the_round() {
    let config = Config::classic();
    let others = table();
    let ball = ball_at(-496, 396, -5, 3);
    assert_eq!(
        collide(&config, &ball, &others),
        Outcome { velocity: Vec2 { x: -5, y: -3 }, round_end: Some(Side::Right) }
    );
}

#[test]
fn first_ending_entity_decides_the_scorer() {
    let config = Config::classic();
    let ball = ball_at(0, 0, 5, 0);
    let left_gate = Entity::fixed(
        Role::Wall(WallSide::Left),
        Vec2 { x: 0, y: 0 },
        Vec2 { x: 10, y: 10 },
        Collidable::End,
    );
    let right_gate = Entity { role: Role::Wall(WallSide::Right), ..left_gate };
    assert_eq!(
        collide(&config, &ball, &vec![left_gate, right_gate]).round_end,
        Some(Side::Right)
    );
    assert_eq!(
        collide(&config, &ball, &vec![right_gate, left_gate]).round_end,
        Some(Side::Left)
    );
}

#[test]
fn passive_entities_are_ignored() {
    let config = Config::classic();
    let dash = Entity::fixed(
        Role::Dash,
        Vec2 { x: 0, y: 0 },
        Vec2 { x: 1, y: 8 },
        Collidable::Passive,
    );
    let ball = ball_at(0, 0, 5, 5);
    assert_eq!(
        collide(&config, &ball, &vec![dash]),
        Outcome { velocity: Vec2 { x: 5, y: 5 }, round_end: None }
    );
}

#[test]
fn each_entity_is_resolved_once_and_in_order() {
    let config = Config::classic();
    let block = Entity::fixed(
        Role::Wall(WallSide::Top),
        Vec2 { x: 0, y: 4 },
        Vec2 { x: 100, y: 5 },
        Collidable::Reflect,
    );
    let ball = ball_at(0, 0, 2, 3);
    assert_eq!(collide(&config, &ball, &vec![block]).velocity, Vec2 { x: 2, y: -3 });
    // Listed twice it is two entities: two bounces, which cancel.
    assert_eq!(collide(&config, &ball, &vec![block, block]).velocity, Vec2 { x: 2, y: 3 });
}

#[test]
fn scorer_is_the_opponent_of_the_side_the_entity_stands_on() {
    let config = Config::classic();
    assert_eq!(wall(&config, WallSide::Left).scorer(), Side::Right);
    assert_eq!(wall(&config, WallSide::Right).scorer(), Side::Left);
    assert_eq!(paddle(&config, Side::Left).scorer(), Side::Right);
    assert_eq!(paddle(&config, Side::Right).scorer(), Side::Left);
    assert_eq!(wall(&config, WallSide::Top).scorer(), Side::Left);
    let low_left = Entity::fixed(
        Role::Dash,
        Vec2 { x: -1, y: 0 },
        Vec2 { x: 1, y: 1 },
        Collidable::End,
    );
    assert_eq!(low_left.scorer(), Side::Right);
    assert_eq!(Side::Left.opponent(), Side::Right);
    assert_eq!(Side::Right.opponent(), Side::Left);
}
