use pong::arena::paddle;
use pong::config::Config;
use pong::entity::{Entity, Side};
use pong::geometry::Vec2;
use pong::input::{steer, KeyState};
use pong::motion::integrate;

fn paddle_at_height(y: i64) -> Entity {
    let rest = paddle(&Config::classic(), Side::Left);
    Entity { position: Vec2 { x: rest.position.x, y }, ..rest }
}

#[test]
fn keys_map_to_states() {
    assert_eq!(KeyState::from_keys(false, false), KeyState::Idle);
    assert_eq!(KeyState::from_keys(true, false), KeyState::Up);
    assert_eq!(KeyState::from_keys(false, true), KeyState::Down);
    assert_eq!(KeyState::from_keys(true, true), KeyState::Both);
}

#[test]
fn steer_sets_the_paddle_speed() {
    let config = Config::classic();
    let rest = paddle_at_height(0);
    assert_eq!(steer(&config, rest, KeyState::Up).velocity, Vec2 { x: 0, y: 10 });
    assert_eq!(steer(&config, rest, KeyState::Down).velocity, Vec2 { x: 0, y: -10 });
    assert_eq!(steer(&config, rest, KeyState::Idle).velocity, Vec2 { x: 0, y: 0 });
    assert_eq!(steer(&config, rest, KeyState::Both).velocity, Vec2 { x: 0, y: 0 });
}

#[test]
fn steer_changes_nothing_but_the_velocity() {
    let config = Config::classic();
    let before = paddle_at_height(50);
    let after = steer(&config, before, KeyState::Up);
    assert_eq!(after, Entity { velocity: Vec2 { x: 0, y: 10 }, ..before });
    assert_eq!(after.position, before.position);
}

#[test]
fn steer_stops_a_moving_paddle_when_keys_are_released() {
    let config = Config::classic();
    let moving = Entity { velocity: Vec2 { x: 0, y: 10 }, ..paddle_at_height(0) };
    assert_eq!(steer(&config, moving, KeyState::Idle).velocity, Vec2 { x: 0, y: 0 });
}

#[test]
fn steer_shortens_the_step_at_the_end_of_travel() {
    let config = Config::classic();
    // Travel is (800 - 36) / 2 = 382.
    assert_eq!(config.paddle_travel(), 382);
    assert_eq!(steer(&config, paddle_at_height(375), KeyState::Up).velocity.y, 7);
    assert_eq!(steer(&config, paddle_at_height(372), KeyState::Up).velocity.y, 10);
    assert_eq!(steer(&config, paddle_at_height(382), KeyState::Up).velocity.y, 0);
    assert_eq!(steer(&config, paddle_at_height(382), KeyState::Down).velocity.y, -10);
    assert_eq!(steer(&config, paddle_at_height(-380), KeyState::Down).velocity.y, -2);
    assert_eq!(steer(&config, paddle_at_height(-382), KeyState::Down).velocity.y, 0);
}

#[test]
fn paddle_never_leaves_the_window() {
    let config = Config::classic();
    let limit = config.window.y / 2 - config.paddle_size.y / 2;
    let mut paddle = paddle_at_height(0);
    let pattern = [
        KeyState::Up,
        KeyState::Up,
        KeyState::Up,
        KeyState::Both,
        KeyState::Up,
        KeyState::Down,
        KeyState::Up,
        KeyState::Idle,
    ];
    for round in 0..200 {
        let keys = pattern[round % pattern.len()];
        paddle = integrate(steer(&config, paddle, keys));
        assert!(paddle.position.y.abs() <= limit);
    }
    assert_eq!(paddle.position.y, 382);
    for _ in 0..200 {
        paddle = integrate(steer(&config, paddle, KeyState::Down));
        assert!(paddle.position.y.abs() <= limit);
    }
    assert_eq!(paddle.position.y, -382);
}

#[test]
fn integrate_adds_velocity_to_position() {
    let before = Entity { velocity: Vec2 { x: 3, y: -4 }, ..paddle_at_height(10) };
    let after = integrate(before);
    assert_eq!(after.position, Vec2 { x: before.position.x + 3, y: 6 });
    assert_eq!(after.velocity, before.velocity);
    assert_eq!(after.size, before.size);
    let still = integrate(paddle_at_height(10));
    assert_eq!(still, paddle_at_height(10));
}
