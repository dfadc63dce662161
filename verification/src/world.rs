//! The whole game: the ball, both paddles and the score, advanced one tick at
//! a time.
//!
//! A tick runs four steps in a fixed order. The input mapper gives each paddle
//! its velocity. The collision engine tests the ball, where it stands, against
//! the paddles and the walls and turns its velocity. Ball and paddles then
//! move by their velocities. Last, the round ends if the engine said so or if
//! the ball has left the window, and the ball is served anew.

use vstd::prelude::*;
use crate::arena::{ball, ball_served, dash_line, dashes, paddle, paddle_at, wall, wall_at};
use crate::collision::{collide, lemma_free_ball_keeps_velocity, resolve, touches};
use crate::config::{Config, EXTENT_LIMIT};
use crate::entity::{Collidable, Entity, Role, Side, WallSide};
use crate::geometry::{magnitude, Vec2};
use crate::input::{steer, steered, within_travel, KeyState};
use crate::motion::{integrate, moved};
use crate::round::{in_window, one_more, referee, round_end, scorer_at, Score};
use crate::serve::{lemma_serve_bounds, serve_velocity};

verus! {

/// The state of a game between two ticks.
#[derive(Clone, Copy, Debug, PartialEq, Eq, Structural)]
pub struct World {
    pub config: Config,
    pub ball: Entity,
    pub left: Entity,
    pub right: Entity,
    pub score: Score,
}

/// The ball is the configured ball, lies within the window, and moves
/// sideways: its horizontal velocity is never zero.
pub open spec fn ball_in_play(config: Config, ball: Entity) -> bool {
    &&& ball.role == Role::Ball
    &&& ball.collidable == Collidable::Passive
    &&& ball.size == config.ball_size
    &&& in_window(config, ball.position)
    &&& ball.velocity.x != 0
    &&& magnitude(ball.velocity.x as int) <= EXTENT_LIMIT
    &&& magnitude(ball.velocity.y as int) <= EXTENT_LIMIT
}

/// The paddle is the configured paddle of its side, stands on its side's
/// line within its travel, and moves up and down only, no faster than the
/// paddle speed.
pub open spec fn paddle_in_play(config: Config, paddle: Entity, side: Side) -> bool {
    &&& paddle.role == Role::Paddle(side)
    &&& paddle.collidable == Collidable::Reflect
    &&& paddle.size == config.paddle_size
    &&& paddle.position.x == paddle_at(config, side).position.x
    &&& within_travel(config, paddle.position.y as int)
    &&& paddle.velocity.x == 0
    &&& magnitude(paddle.velocity.y as int) <= config.paddle_speed
}

/// What the ball is tested against in a tick, in this order: the left paddle,
/// the right paddle, then the left, right, top and bottom wall.
pub open spec fn obstacles(config: Config, left: Entity, right: Entity) -> Seq<Entity> {
    seq![
        left,
        right,
        wall_at(config, WallSide::Left),
        wall_at(config, WallSide::Right),
        wall_at(config, WallSide::Top),
        wall_at(config, WallSide::Bottom),
    ]
}

/// `v` lies within `limit` of zero.
fn within(v: i64, limit: i64) -> (ok: bool)
    requires
        0 <= limit,
    ensures
        ok == (magnitude(v as int) <= limit),
{
    -limit <= v && v <= limit
}

/// Decides `ball_in_play`.
fn ball_is_in_play(config: &Config, ball: &Entity) -> (ok: bool)
    requires
        config.wf(),
    ensures
        ok == ball_in_play(*config, *ball),
{
    let half_width: i64 = config.window.x / 2;
    let half_height: i64 = config.window.y / 2;
    ball.role == Role::Ball && ball.collidable == Collidable::Passive && ball.size
        == config.ball_size && within(ball.position.x, half_width) && within(
        ball.position.y,
        half_height,
    ) && ball.velocity.x != 0 && within(ball.velocity.x, EXTENT_LIMIT) && within(
        ball.velocity.y,
        EXTENT_LIMIT,
    )
}

/// Decides `paddle_in_play` for the paddle whose line is at `x`.
fn paddle_is_in_play(config: &Config, paddle: &Entity, side: Side, x: i64) -> (ok: bool)
    requires
        config.wf(),
        x == paddle_at(*config, side).position.x,
    ensures
        ok == paddle_in_play(*config, *paddle, side),
{
    let travel: i64 = config.paddle_travel();
    paddle.role == Role::Paddle(side) && paddle.collidable == Collidable::Reflect && paddle.size
        == config.paddle_size && paddle.position.x == x && within(paddle.position.y, travel)
        && paddle.velocity.x == 0 && within(paddle.velocity.y, config.paddle_speed)
}

/// Of the paddles and walls only the side walls end the round, and the left
/// one is asked first: the engine names the right player when the ball
/// touches the left wall, else the left player when it touches the right
/// wall, else nobody.
pub proof fn lemma_side_walls_decide(config: Config, ball: Entity, left: Entity, right: Entity)
    requires
        left.collidable is Reflect,
        right.collidable is Reflect,
    ensures
        resolve(config, ball, obstacles(config, left, right)).round_end == (if touches(
            ball,
            wall_at(config, WallSide::Left),
        ) {
            Some(Side::Right)
        } else if touches(ball, wall_at(config, WallSide::Right)) {
            Some(Side::Left)
        } else {
            None
        }),
{
    let all = obstacles(config, left, right);
    let upto_top = all.drop_last();
    let upto_right = upto_top.drop_last();
    let upto_left = upto_right.drop_last();
    let paddles = upto_left.drop_last();
    let first = paddles.drop_last();
    assert(all.last() == wall_at(config, WallSide::Bottom));
    assert(upto_top.last() == wall_at(config, WallSide::Top));
    assert(upto_right.last() == wall_at(config, WallSide::Right));
    assert(upto_left.last() == wall_at(config, WallSide::Left));
    assert(paddles.last() == right);
    assert(first.last() == left);
    assert(first.drop_last().len() == 0);
    assert(resolve(config, ball, first.drop_last()).round_end is None);
    assert(resolve(config, ball, first).round_end is None);
    assert(resolve(config, ball, paddles).round_end is None);
    assert(resolve(config, ball, upto_left).round_end == (if touches(
        ball,
        wall_at(config, WallSide::Left),
    ) {
        Some(Side::Right)
    } else {
        None
    }));
    assert(resolve(config, ball, upto_top).round_end == resolve(
        config,
        ball,
        upto_right,
    ).round_end);
    assert(resolve(config, ball, all).round_end == resolve(config, ball, upto_top).round_end);
}

impl World {
    /// The configuration is usable and ball and paddles are in play.
    pub open spec fn wf(self) -> bool {
        &&& self.config.wf()
        &&& ball_in_play(self.config, self.ball)
        &&& paddle_in_play(self.config, self.left, Side::Left)
        &&& paddle_in_play(self.config, self.right, Side::Right)
    }

    /// The paddles after the input mapper has run.
    pub open spec fn steered_left(self, keys: KeyState) -> Entity {
        steered(self.config, self.left, keys)
    }

    pub open spec fn steered_right(self, keys: KeyState) -> Entity {
        steered(self.config, self.right, keys)
    }

    /// The ball after the collision engine and the integrator have run: with
    /// the velocity the engine left it, one step along that velocity.
    pub open spec fn ball_moved(self, left_keys: KeyState, right_keys: KeyState) -> Entity {
        moved(
            Entity {
                velocity: resolve(
                    self.config,
                    self.ball,
                    obstacles(
                        self.config,
                        self.steered_left(left_keys),
                        self.steered_right(right_keys),
                    ),
                ).velocity,
                ..self.ball
            },
        )
    }

    /// The player who scores in the coming tick, or `None` while the round
    /// goes on.
    pub open spec fn spec_event(self, left_keys: KeyState, right_keys: KeyState) -> Option<Side> {
        round_end(
            self.config,
            resolve(
                self.config,
                self.ball,
                obstacles(
                    self.config,
                    self.steered_left(left_keys),
                    self.steered_right(right_keys),
                ),
            ).round_end,
            self.ball_moved(left_keys, right_keys),
        )
    }

    /// The game one tick later.
    pub open spec fn spec_next(self, left_keys: KeyState, right_keys: KeyState, draw: u64) -> World {
        let flown = self.ball_moved(left_keys, right_keys);
        World {
            config: self.config,
            ball: match self.spec_event(left_keys, right_keys) {
                Some(_) => Entity {
                    position: Vec2 { x: 0, y: 0 },
                    velocity: ball_served(self.config, draw).velocity,
                    ..flown
                },
                None => flown,
            },
            left: moved(self.steered_left(left_keys)),
            right: moved(self.steered_right(right_keys)),
            score: match self.spec_event(left_keys, right_keys) {
                Some(side) => self.score.spec_credited(side),
                None => self.score,
            },
        }
    }

    /// In a well-formed game every entity is well formed and has room for
    /// its next step.
    pub proof fn lemma_entities_wf(self)
        requires
            self.wf(),
        ensures
            self.ball.wf(),
            self.left.wf(),
            self.right.wf(),
            2 * magnitude(self.ball.position.x as int) <= EXTENT_LIMIT,
            2 * magnitude(self.ball.position.y as int) <= EXTENT_LIMIT,
            magnitude(self.left.position.y as int) <= EXTENT_LIMIT,
            magnitude(self.right.position.y as int) <= EXTENT_LIMIT,
    {
        self.config.lemma_paddle_reach_bounds();
    }

    /// Every entity of the game, for whoever draws it: the left paddle, the
    /// right paddle, the ball, the four walls, and the dashes of the centre
    /// line from the top downward.
    pub open spec fn spec_entities(self) -> Seq<Entity> {
        seq![
            self.left,
            self.right,
            self.ball,
            wall_at(self.config, WallSide::Left),
            wall_at(self.config, WallSide::Right),
            wall_at(self.config, WallSide::Top),
            wall_at(self.config, WallSide::Bottom),
        ] + dash_line(self.config)
    }

    /// Lists every entity of the game.
    pub fn entities(&self) -> (all: Vec<Entity>)
        requires
            self.config.wf(),
        ensures
            all@ == self.spec_entities(),
    {
        let mut all: Vec<Entity> = Vec::new();
        all.push(self.left);
        all.push(self.right);
        all.push(self.ball);
        all.push(wall(&self.config, WallSide::Left));
        all.push(wall(&self.config, WallSide::Right));
        all.push(wall(&self.config, WallSide::Top));
        all.push(wall(&self.config, WallSide::Bottom));
        let mut line = dashes(&self.config);
        all.append(&mut line);
        assert(all@ =~= self.spec_entities());
        all
    }

    /// Says whether the game is well formed.
    pub fn is_valid(&self) -> (ok: bool)
        ensures
            ok == self.wf(),
    {
        if !self.config.is_valid() {
            return false;
        }
        proof {
            self.config.lemma_paddle_reach_bounds();
        }
        let reach: i64 = self.config.paddle_reach();
        ball_is_in_play(&self.config, &self.ball) && paddle_is_in_play(
            &self.config,
            &self.left,
            Side::Left,
            -reach,
        ) && paddle_is_in_play(&self.config, &self.right, Side::Right, reach)
    }

    /// A ball that touches neither a paddle nor a wall flies straight on: the
    /// tick leaves its velocity alone and moves it one step along it.
    pub proof fn lemma_free_flight(self, left_keys: KeyState, right_keys: KeyState)
        requires
            self.wf(),
            !touches(self.ball, self.left),
            !touches(self.ball, self.right),
            !touches(self.ball, wall_at(self.config, WallSide::Left)),
            !touches(self.ball, wall_at(self.config, WallSide::Right)),
            !touches(self.ball, wall_at(self.config, WallSide::Top)),
            !touches(self.ball, wall_at(self.config, WallSide::Bottom)),
        ensures
            self.ball_moved(left_keys, right_keys) == moved(self.ball),
            self.ball_moved(left_keys, right_keys).velocity == self.ball.velocity,
    {
        lemma_free_ball_keeps_velocity(
            self.config,
            self.ball,
            obstacles(self.config, self.steered_left(left_keys), self.steered_right(right_keys)),
        );
    }

    /// The round ends in a tick exactly when the ball, where it stands,
    /// touches a side wall, or when its step carries it out of the window.
    /// Then one reset takes place: one player gets the point, and the ball
    /// lies on the origin with a fresh serve, non-zero in both components,
    /// before the next tick moves anything. A ball on the left wall gives the
    /// point to the right player, a ball on the right wall alone to the left.
    pub proof fn lemma_round_end(self, left_keys: KeyState, right_keys: KeyState, draw: u64)
        requires
            self.wf(),
        ensures
            ({
                let on_left = touches(self.ball, wall_at(self.config, WallSide::Left));
                let on_right = touches(self.ball, wall_at(self.config, WallSide::Right));
                let flown = self.ball_moved(left_keys, right_keys);
                let event = self.spec_event(left_keys, right_keys);
                let next = self.spec_next(left_keys, right_keys, draw);
                &&& event is Some <==> on_left || on_right || !in_window(self.config, flown.position)
                &&& on_left ==> event == Some(Side::Right)
                &&& !on_left && on_right ==> event == Some(Side::Left)
                &&& !on_left && !on_right && !in_window(self.config, flown.position) ==> event
                    == Some(scorer_at(flown.position))
                &&& event is Some ==> {
                    &&& next.ball.position == (Vec2 { x: 0, y: 0 })
                    &&& next.ball.velocity == serve_velocity(self.config, draw)
                    &&& next.ball.velocity.x != 0
                    &&& next.ball.velocity.y != 0
                    &&& next.score == self.score.spec_credited(event->Some_0)
                    &&& next.score.points_of(event->Some_0) == one_more(
                        self.score.points_of(event->Some_0),
                    )
                    &&& next.score.points_of((event->Some_0).spec_opponent())
                        == self.score.points_of((event->Some_0).spec_opponent())
                }
                &&& event is None ==> next.score == self.score && next.ball == flown
            }),
    {
        lemma_side_walls_decide(
            self.config,
            self.ball,
            self.steered_left(left_keys),
            self.steered_right(right_keys),
        );
        lemma_serve_bounds(self.config, draw);
    }

    /// A new game: the paddles at rest on the centre line, the ball on the
    /// origin with the serve that `draw` decides, and no points yet.
    pub fn new(config: Config, draw: u64) -> (world: World)
        requires
            config.wf(),
        ensures
            world == (World {
                config,
                ball: ball_served(config, draw),
                left: paddle_at(config, Side::Left),
                right: paddle_at(config, Side::Right),
                score: Score { left: 0, right: 0 },
            }),
            world.wf(),
    {
        World {
            config,
            ball: ball(&config, draw),
            left: paddle(&config, Side::Left),
            right: paddle(&config, Side::Right),
            score: Score::new(),
        }
    }

    /// Advances the game by one tick and returns the player who scored in it,
    /// if the round ended.
    ///
    /// When a player scores, the ball is back on the origin with the serve
    /// that `draw` decides, which is non-zero in both components, and that
    /// player alone has one point more. Otherwise the score stands and the
    /// ball is one step along the velocity the collision engine left it.
    pub fn tick(&mut self, left_keys: KeyState, right_keys: KeyState, draw: u64) -> (event: Option<
        Side,
    >)
        requires
            old(self).wf(),
        ensures
            *final(self) == old(self).spec_next(left_keys, right_keys, draw),
            event == old(self).spec_event(left_keys, right_keys),
            final(self).wf(),
            event is Some ==> {
                &&& final(self).ball.position == (Vec2 { x: 0, y: 0 })
                &&& final(self).ball.velocity == ball_served(old(self).config, draw).velocity
                &&& final(self).ball.velocity.x != 0
                &&& final(self).ball.velocity.y != 0
                &&& final(self).score == old(self).score.spec_credited(event->Some_0)
            },
            event is None ==> {
                &&& final(self).score == old(self).score
                &&& final(self).ball == old(self).ball_moved(left_keys, right_keys)
                &&& final(self).ball.position.x == old(self).ball.position.x
                    + final(self).ball.velocity.x
                &&& final(self).ball.position.y == old(self).ball.position.y
                    + final(self).ball.velocity.y
            },
    {
        proof {
            self.lemma_entities_wf();
        }
        let config = self.config;
        let left = steer(&config, self.left, left_keys);
        let right = steer(&config, self.right, right_keys);

        let mut others: Vec<Entity> = Vec::new();
        others.push(left);
        others.push(right);
        others.push(wall(&config, WallSide::Left));
        others.push(wall(&config, WallSide::Right));
        others.push(wall(&config, WallSide::Top));
        others.push(wall(&config, WallSide::Bottom));
        assert(others@ == obstacles(config, left, right));
        assert(self.ball.wf());
        let outcome = collide(&config, &self.ball, &others);

        let turned = Entity { velocity: outcome.velocity, ..self.ball };
        let flown = integrate(turned);
        let (next_ball, next_score, event) = referee(
            &config,
            outcome.round_end,
            flown,
            self.score,
            draw,
        );
        self.ball = next_ball;
        self.left = integrate(left);
        self.right = integrate(right);
        self.score = next_score;
        event
    }
}

} // verus!
