use pong::arena::{ball, dashes, paddle, wall, walls};
use pong::config::Config;
use pong::entity::{Collidable, Entity, Role, Side, WallSide};
use pong::geometry::Vec2;
use pong::round::{is_in_window, referee, Score};
use pong::serve::serve;

#[test]
fn classic_configuration_is_valid() {
    let config = Config::classic();
    assert!(config.is_valid());
    assert_eq!(config.window, Vec2 { x: 1000, y: 800 });
    assert_eq!(config.ball_size, Vec2 { x: 5, y: 5 });
    assert_eq!(config.paddle_size, Vec2 { x: 6, y: 36 });
    assert_eq!(config.paddle_speed, 10);
    assert_eq!(config.dash_size, Vec2 { x: 1, y: 8 });
    assert_eq!(config.dash_padding, 20);
    assert_eq!(config.paddle_reach(), 480);
    assert_eq!(config.paddle_travel(), 382);
}

#[test]
fn unusable_configurations_are_told_apart() {
    let good = Config::classic();
    assert!(!Config { window: Vec2 { x: 0, y: 800 }, ..good }.is_valid());
    assert!(!Config { ball_size: Vec2 { x: 5, y: 0 }, ..good }.is_valid());
    assert!(!Config { paddle_size: Vec2 { x: 6, y: 801 }, ..good }.is_valid());
    assert!(!Config { paddle_speed: -1, ..good }.is_valid());
    assert!(!Config { paddle_offset_permille: 501, ..good }.is_valid());
    assert!(!Config { dash_padding: -1, ..good }.is_valid());
    assert!(!Config { serve_min_vertical: 0, ..good }.is_valid());
    assert!(!Config { serve_max_vertical: 7, ..good }.is_valid());
    assert!(!Config { serve_min_vertical: 6, ..good }.is_valid());
    assert!(!Config { max_vertical_speed: 4, ..good }.is_valid());
    assert!(!Config { spin_gain: -1, ..good }.is_valid());
    assert!(!Config { serve_speed: 1_073_741_825, ..good }.is_valid());
    assert!(Config { paddle_size: Vec2 { x: 6, y: 800 }, ..good }.is_valid());
    assert!(Config { spin_gain: 0, ..good }.is_valid());
}

#[test]
fn walls_stand_one_unit_inside_the_window() {
    let config = Config::classic();
    let still = Vec2 { x: 0, y: 0 };
    assert_eq!(
        walls(&config),
        vec![
            Entity {
                role: Role::Wall(WallSide::Left),
                position: Vec2 { x: -499, y: 0 },
                size: Vec2 { x: 5, y: 800 },
                velocity: still,
                collidable: Collidable::End,
            },
            Entity {
                role: Role::Wall(WallSide::Right),
                position: Vec2 { x: 499, y: 0 },
                size: Vec2 { x: 5, y: 800 },
                velocity: still,
                collidable: Collidable::End,
            },
            Entity {
                role: Role::Wall(WallSide::Top),
                position: Vec2 { x: 0, y: 399 },
                size: Vec2 { x: 1000, y: 5 },
                velocity: still,
                collidable: Collidable::Reflect,
            },
            Entity {
                role: Role::Wall(WallSide::Bottom),
                position: Vec2 { x: 0, y: -399 },
                size: Vec2 { x: 1000, y: 5 },
                velocity: still,
                collidable: Collidable::Reflect,
            },
        ]
    );
    assert_eq!(wall(&config, WallSide::Top), walls(&config)[2]);
}

#[test]
fn walls_of_an_odd_window_round_toward_the_centre() {
    let config = Config { window: Vec2 { x: 1001, y: 801 }, ..Config::classic() };
    assert_eq!(wall(&config, WallSide::Left).position, Vec2 { x: -499, y: 0 });
    assert_eq!(wall(&config, WallSide::Bottom).position, Vec2 { x: 0, y: -399 });
    assert_eq!(wall(&config, WallSide::Right).size, Vec2 { x: 5, y: 801 });
}

#[test]
fn paddles_start_at_rest_on_their_lines() {
    let config = Config::classic();
    assert_eq!(
        paddle(&config, Side::Left),
        Entity {
            role: Role::Paddle(Side::Left),
            position: Vec2 { x: -480, y: 0 },
            size: Vec2 { x: 6, y: 36 },
            velocity: Vec2 { x: 0, y: 0 },
            collidable: Collidable::Reflect,
        }
    );
    assert_eq!(paddle(&config, Side::Right).position, Vec2 { x: 480, y: 0 });
    let narrow = Config { window: Vec2 { x: 333, y: 800 }, ..config };
    // 480 thousandths of 333 is 159.84.
    assert_eq!(paddle(&narrow, Side::Right).position.x, 159);
    assert_eq!(paddle(&narrow, Side::Left).position.x, -159);
}

#[test]
fn ball_starts_on_the_origin_with_a_serve() {
    let config = Config::classic();
    let served = ball(&config, 19);
    assert_eq!(
        served,
        Entity {
            role: Role::Ball,
            position: Vec2 { x: 0, y: 0 },
            size: Vec2 { x: 5, y: 5 },
            velocity: Vec2 { x: 4, y: 5 },
            collidable: Collidable::Passive,
        }
    );
}

#[test]
fn centre_line_runs_from_the_top_edge_down() {
    let config = Config::classic();
    let line = dashes(&config);
    // 800 / (8 + 20) = 28 steps, so 29 dashes.
    assert_eq!(line.len(), 29);
    for (i, dash) in line.iter().enumerate() {
        assert_eq!(
            *dash,
            Entity {
                role: Role::Dash,
                position: Vec2 { x: 0, y: 400 - 28 * (i as i64) },
                size: Vec2 { x: 1, y: 8 },
                velocity: Vec2 { x: 0, y: 0 },
                collidable: Collidable::Passive,
            }
        );
    }
    assert_eq!(line[28].position.y, -384);
}

#[test]
fn centre_line_of_a_window_lower_than_a_step_has_one_dash() {
    let config = Config {
        window: Vec2 { x: 1000, y: 40 },
        dash_size: Vec2 { x: 1, y: 30 },
        dash_padding: 20,
        ..Config::classic()
    };
    let line = dashes(&config);
    assert_eq!(line.len(), 1);
    assert_eq!(line[0].position, Vec2 { x: 0, y: 20 });
}

#[test]
fn centre_line_takes_no_more_than_its_step_limit() {
    let config = Config {
        window: Vec2 { x: 1000, y: 100_000 },
        paddle_size: Vec2 { x: 6, y: 36 },
        dash_size: Vec2 { x: 1, y: 1 },
        dash_padding: 0,
        ..Config::classic()
    };
    let line = dashes(&config);
    assert_eq!(line.len(), 65_536);
    assert_eq!(line[65_535].position.y, 50_000 - 65_535);
}

#[test]
fn score_credits_one_player() {
    let score = Score::new();
    assert_eq!(score, Score { left: 0, right: 0 });
    let once = score.credited(Side::Right);
    assert_eq!(once, Score { left: 0, right: 1 });
    let twice = once.credited(Side::Left).credited(Side::Right);
    assert_eq!(twice, Score { left: 1, right: 2 });
    assert_eq!(twice.points(Side::Left), 1);
    assert_eq!(twice.points(Side::Right), 2);
}

#[test]
fn score_stops_at_the_highest_count() {
    let full = Score { left: u64::MAX, right: 3 };
    assert_eq!(full.credited(Side::Left), Score { left: u64::MAX, right: 3 });
    assert_eq!(full.credited(Side::Right), Score { left: u64::MAX, right: 4 });
    let nearly = Score { left: 0, right: u64::MAX - 1 };
    assert_eq!(nearly.credited(Side::Right), Score { left: 0, right: u64::MAX });
}

#[test]
fn window_includes_its_edges() {
    let config = Config::classic();
    assert!(is_in_window(&config, Vec2 { x: 0, y: 0 }));
    assert!(is_in_window(&config, Vec2 { x: 500, y: 400 }));
    assert!(is_in_window(&config, Vec2 { x: -500, y: -400 }));
    assert!(!is_in_window(&config, Vec2 { x: 501, y: 0 }));
    assert!(!is_in_window(&config, Vec2 { x: -501, y: 0 }));
    assert!(!is_in_window(&config, Vec2 { x: 0, y: 401 }));
    assert!(!is_in_window(&config, Vec2 { x: 0, y: -401 }));
    let odd = Config { window: Vec2 { x: 1001, y: 801 }, ..config };
    assert!(is_in_window(&odd, Vec2 { x: 500, y: 400 }));
    assert!(!is_in_window(&odd, Vec2 { x: 501, y: 400 }));
}

#[test]
fn referee_lets_a_live_round_go_on() {
    let config = Config::classic();
    let live = Entity { position: Vec2 { x: 200, y: -100 }, ..ball(&config, 3) };
    let score = Score { left: 2, right: 5 };
    assert_eq!(referee(&config, None, live, score, 19), (live, score, None));
}

#[test]
fn referee_resets_on_a_signalled_end() {
    let config = Config::classic();
    let lost = Entity { position: Vec2 { x: -495, y: 100 }, ..ball(&config, 0) };
    let score = Score { left: 2, right: 5 };
    let (next, points, event) = referee(&config, Some(Side::Right), lost, score, 19);
    assert_eq!(event, Some(Side::Right));
    assert_eq!(points, Score { left: 2, right: 6 });
    assert_eq!(next.position, Vec2 { x: 0, y: 0 });
    assert_eq!(next.velocity, serve(&config, 19));
    assert_eq!(next.velocity, Vec2 { x: 4, y: 5 });
    assert_eq!(next.size, lost.size);
    assert_eq!(next.role, Role::Ball);
}

#[test]
fn referee_resets_when_the_ball_is_outside_the_window() {
    let config = Config::classic();
    let score = Score::new();
    let cases = [
        (Vec2 { x: -501, y: 0 }, Side::Right),
        (Vec2 { x: 501, y: 0 }, Side::Left),
        (Vec2 { x: -3, y: 401 }, Side::Right),
        (Vec2 { x: 3, y: -401 }, Side::Left),
        (Vec2 { x: 0, y: 401 }, Side::Left),
    ];
    for (position, scorer) in cases {
        let lost = Entity { position, ..ball(&config, 0) };
        let (next, points, event) = referee(&config, None, lost, score, 2);
        assert_eq!(event, Some(scorer));
        assert_eq!(points, score.credited(scorer));
        assert_eq!(next.position, Vec2 { x: 0, y: 0 });
        assert_eq!(next.velocity, Vec2 { x: -6, y: 1 });
    }
}

#[test]
fn referee_prefers_the_signalled_scorer() {
    let config = Config::classic();
    let lost = Entity { position: Vec2 { x: -501, y: 0 }, ..ball(&config, 0) };
    let (_, points, event) = referee(&config, Some(Side::Left), lost, Score::new(), 2);
    assert_eq!(event, Some(Side::Left));
    assert_eq!(points, Score { left: 1, right: 0 });
}
