//! The match: collisions, scoring, serves, and the order of a frame.

use vstd::prelude::*;
use crate::ball::{Ball, BallModel};
use crate::config::{Config, PADDLE_MARGIN};
use crate::paddle::{Paddle, PaddleModel};
use crate::serve::Serve;
use crate::vector::{fits, half, halve, narrow, Vector2I, VectorModel};

verus! {

/// What the simulation reads from its surroundings before a frame: the size
/// of the field, the state of the player's two direction keys, and the
/// randomly chosen serve to use at each edge should the ball reach it.
#[derive(Clone, Copy, Debug, PartialEq, Eq, Structural)]
pub struct FrameContext {
    pub field_width: i32,
    pub field_height: i32,
    pub input_up: bool,
    pub input_down: bool,
    pub right_serve: Serve,
    pub left_serve: Serve,
}

/// What a [`MatchState`] stands for, over unbounded integers.
pub struct MatchModel {
    pub ball: BallModel,
    pub left_paddle: PaddleModel,
    pub right_paddle: PaddleModel,
    pub left_score: nat,
    pub right_score: nat,
}

impl MatchModel {
    /// Every entity can be stored, and each score in a `u32`.
    pub open spec fn representable(self) -> bool {
        &&& self.ball.representable()
        &&& self.left_paddle.representable()
        &&& self.right_paddle.representable()
        &&& self.left_score <= u32::MAX
        &&& self.right_score <= u32::MAX
    }

    /// The match at the start: both paddles centred vertically, each
    /// [`PADDLE_MARGIN`] away from the side it defends, the ball at the
    /// centre of the field with its speed as velocity on both axes, no
    /// points scored. The right paddle is the player's, the left one the
    /// computer's.
    pub open spec fn initial(config: Config) -> MatchModel {
        let size = VectorModel { x: config.paddle_width as int, y: config.paddle_height as int };
        let top: int = half(config.field_height as int) - half(config.paddle_height as int);
        MatchModel {
            ball: BallModel {
                position: VectorModel {
                    x: half(config.field_width as int),
                    y: half(config.field_height as int),
                },
                radius: config.ball_radius as int,
                velocity: VectorModel {
                    x: config.ball_speed as int,
                    y: config.ball_speed as int,
                },
            },
            left_paddle: PaddleModel {
                position: VectorModel { x: PADDLE_MARGIN as int, y: top },
                size,
                speed: VectorModel { x: 0, y: config.cpu_speed as int },
            },
            right_paddle: PaddleModel {
                position: VectorModel {
                    x: config.field_width - config.paddle_width - PADDLE_MARGIN,
                    y: top,
                },
                size,
                speed: VectorModel { x: 0, y: config.player_speed as int },
            },
            left_score: 0,
            right_score: 0,
        }
    }

    /// The match after the paddles and the ball have moved: the right paddle
    /// by the player's input, the left paddle after the ball as it stands
    /// before its own move, then the ball.
    pub open spec fn advance(self, context: FrameContext) -> MatchModel {
        MatchModel {
            right_paddle: self.right_paddle.move_player(
                context.input_up,
                context.input_down,
                context.field_height as int,
            ),
            left_paddle: self.left_paddle.track_ball(
                self.ball.position,
                self.ball.radius,
                context.field_height as int,
            ),
            ball: self.ball.update(context.field_width as int, context.field_height as int),
            ..self
        }
    }

    /// The match after the collision response: where the ball overlaps
    /// either paddle its horizontal velocity is negated, once, and its
    /// vertical velocity is kept.
    pub open spec fn check_collisions(self, overlaps_left: bool, overlaps_right: bool) -> MatchModel {
        if overlaps_left || overlaps_right {
            MatchModel { ball: self.ball.reflect_x(), ..self }
        } else {
            self
        }
    }

    /// The match with one more point for the player who defends the left
    /// side.
    pub open spec fn score_left(self) -> MatchModel {
        MatchModel { left_score: self.left_score + 1, ..self }
    }

    /// The match with one more point for the player who defends the right
    /// side.
    pub open spec fn score_right(self) -> MatchModel {
        MatchModel { right_score: self.right_score + 1, ..self }
    }

    /// The match after a serve.
    pub open spec fn reset_ball(self, field_width: int, field_height: int, serve: Serve) -> MatchModel {
        MatchModel { ball: self.ball.serve(field_width, field_height, serve), ..self }
    }

    /// The match after the test at the right edge: where the ball meets that
    /// edge, the player who defends the left side scores, and the ball is
    /// served.
    pub open spec fn settle_right_edge(
        self,
        field_width: int,
        field_height: int,
        serve: Serve,
    ) -> MatchModel {
        if self.ball.meets_right_edge(field_width) {
            self.score_left().reset_ball(field_width, field_height, serve)
        } else {
            self
        }
    }

    /// The match after the test at the left edge: where the ball meets that
    /// edge, the player who defends the right side scores, and the ball is
    /// served.
    pub open spec fn settle_left_edge(
        self,
        field_width: int,
        field_height: int,
        serve: Serve,
    ) -> MatchModel {
        if self.ball.meets_left_edge() {
            self.score_right().reset_ball(field_width, field_height, serve)
        } else {
            self
        }
    }

    /// The match after both scoring tests, the right edge first. The second
    /// test sees the ball as the first one left it.
    pub open spec fn check_scoring(self, context: FrameContext) -> MatchModel {
        self.settle_right_edge(
            context.field_width as int,
            context.field_height as int,
            context.right_serve,
        ).settle_left_edge(
            context.field_width as int,
            context.field_height as int,
            context.left_serve,
        )
    }

    /// Every state that [`MatchModel::check_scoring`] passes through can be
    /// stored.
    pub open spec fn can_check_scoring(self, context: FrameContext) -> bool {
        &&& self.settle_right_edge(
            context.field_width as int,
            context.field_height as int,
            context.right_serve,
        ).representable()
        &&& self.check_scoring(context).representable()
    }

    /// The match after the collision response and both scoring tests.
    pub open spec fn update(
        self,
        context: FrameContext,
        overlaps_left: bool,
        overlaps_right: bool,
    ) -> MatchModel {
        self.check_collisions(overlaps_left, overlaps_right).check_scoring(context)
    }

    /// Every state that [`MatchModel::update`] passes through can be stored.
    pub open spec fn can_update(
        self,
        context: FrameContext,
        overlaps_left: bool,
        overlaps_right: bool,
    ) -> bool {
        &&& self.check_collisions(overlaps_left, overlaps_right).representable()
        &&& self.check_collisions(overlaps_left, overlaps_right).can_check_scoring(context)
    }
}

/// The match: the ball, the computer's paddle on the left, the player's
/// paddle on the right, and the points of the player who defends each side.
#[derive(Clone, Copy, Debug, PartialEq, Eq, Structural)]
pub struct MatchState {
    pub ball: Ball,
    pub left_paddle: Paddle,
    pub right_paddle: Paddle,
    pub left_score: u32,
    pub right_score: u32,
}

impl View for MatchState {
    type V = MatchModel;

    open spec fn view(&self) -> MatchModel {
        MatchModel {
            ball: self.ball@,
            left_paddle: self.left_paddle@,
            right_paddle: self.right_paddle@,
            left_score: self.left_score as nat,
            right_score: self.right_score as nat,
        }
    }
}

impl MatchState {
    /// Sets up a match, or nothing where the right paddle's place cannot be
    /// stored.
    pub fn new(config: &Config) -> (state: Option<MatchState>)
        ensures
            state is Some <==> MatchModel::initial(*config).representable(),
            state matches Some(s) ==> s@ == MatchModel::initial(*config),
    {
        let right_x: i64 = config.field_width as i64 - config.paddle_width as i64
            - PADDLE_MARGIN as i64;
        if !fits(right_x) {
            return None;
        }
        let size = Vector2I { x: config.paddle_width, y: config.paddle_height };
        let top: i32 = halve(config.field_height) - halve(config.paddle_height);
        Some(
            MatchState {
                ball: Ball {
                    position: Vector2I {
                        x: halve(config.field_width),
                        y: halve(config.field_height),
                    },
                    radius: config.ball_radius,
                    velocity: Vector2I { x: config.ball_speed, y: config.ball_speed },
                },
                left_paddle: Paddle {
                    position: Vector2I { x: PADDLE_MARGIN, y: top },
                    size,
                    speed: Vector2I { x: 0, y: config.cpu_speed },
                },
                right_paddle: Paddle {
                    position: Vector2I { x: narrow(right_x), y: top },
                    size,
                    speed: Vector2I { x: 0, y: config.player_speed },
                },
                left_score: 0,
                right_score: 0,
            },
        )
    }

    /// Whether [`MatchState::advance`] may be called.
    pub fn can_advance(&self, context: &FrameContext) -> (ok: bool)
        ensures
            ok == self@.advance(*context).representable(),
    {
        self.right_paddle.can_move_player(
            context.input_up,
            context.input_down,
            context.field_height,
        ) && self.left_paddle.can_track_ball(
            self.ball.position,
            self.ball.radius,
            context.field_height,
        ) && self.ball.can_update(context.field_width, context.field_height)
    }

    /// Moves the entities by one frame: the right paddle by the player's
    /// input, the left paddle after the ball, then the ball.
    pub fn advance(&mut self, context: &FrameContext)
        requires
            old(self)@.advance(*context).representable(),
        ensures
            final(self)@ == old(self)@.advance(*context),
    {
        self.right_paddle.move_player(context.input_up, context.input_down, context.field_height);
        self.left_paddle.track_ball(self.ball.position, self.ball.radius, context.field_height);
        self.ball.update(context.field_width, context.field_height);
    }

    /// Whether [`MatchState::check_collisions`] may be called.
    pub fn can_check_collisions(&self, overlaps_left: bool, overlaps_right: bool) -> (ok: bool)
        ensures
            ok == self@.check_collisions(overlaps_left, overlaps_right).representable(),
    {
        !(overlaps_left || overlaps_right) || self.ball.velocity.x != i32::MIN
    }

    /// Responds to a collision. `overlaps_left` and `overlaps_right` say
    /// whether the ball's circle overlaps the rectangle of the left and of
    /// the right paddle. Where either does, the ball's horizontal velocity is
    /// negated, once; its vertical velocity is never changed.
    pub fn check_collisions(&mut self, overlaps_left: bool, overlaps_right: bool)
        requires
            old(self)@.check_collisions(overlaps_left, overlaps_right).representable(),
        ensures
            final(self)@ == old(self)@.check_collisions(overlaps_left, overlaps_right),
            final(self).ball.velocity.x == if overlaps_left || overlaps_right {
                -old(self).ball.velocity.x
            } else {
                old(self).ball.velocity.x as int
            },
            final(self).ball.velocity.y == old(self).ball.velocity.y,
    {
        if overlaps_left || overlaps_right {
            self.ball.velocity.x = -self.ball.velocity.x;
        }
    }

    /// Whether [`MatchState::reset_ball`] may be called.
    pub fn can_reset_ball(&self, field_width: i32, field_height: i32, serve: Serve) -> (ok: bool)
        ensures
            ok == self@.reset_ball(field_width as int, field_height as int, serve).representable(),
    {
        self.ball.can_serve(field_width, field_height, serve)
    }

    /// Serves: the ball goes to the centre of the field, and each component
    /// of its velocity is multiplied by the sign that `serve` holds for it.
    pub fn reset_ball(&mut self, field_width: i32, field_height: i32, serve: Serve)
        requires
            old(self)@.reset_ball(field_width as int, field_height as int, serve).representable(),
        ensures
            final(self)@ == old(self)@.reset_ball(field_width as int, field_height as int, serve),
    {
        self.ball.serve(field_width, field_height, serve);
    }

    /// Whether [`MatchState::settle_right_edge`] may be called.
    pub fn can_settle_right_edge(
        &self,
        field_width: i32,
        field_height: i32,
        serve: Serve,
    ) -> (ok: bool)
        ensures
            ok == self@.settle_right_edge(
                field_width as int,
                field_height as int,
                serve,
            ).representable(),
    {
        if self.ball.meets_right_edge(field_width) {
            self.left_score < u32::MAX && self.ball.can_serve(field_width, field_height, serve)
        } else {
            true
        }
    }

    /// Where the ball meets the right edge, gives a point to the player who
    /// defends the left side and serves.
    pub fn settle_right_edge(&mut self, field_width: i32, field_height: i32, serve: Serve)
        requires
            old(self)@.settle_right_edge(
                field_width as int,
                field_height as int,
                serve,
            ).representable(),
        ensures
            final(self)@ == old(self)@.settle_right_edge(
                field_width as int,
                field_height as int,
                serve,
            ),
    {
        if self.ball.meets_right_edge(field_width) {
            self.left_score = self.left_score + 1;
            self.reset_ball(field_width, field_height, serve);
        }
    }

    /// Whether [`MatchState::settle_left_edge`] may be called.
    pub fn can_settle_left_edge(
        &self,
        field_width: i32,
        field_height: i32,
        serve: Serve,
    ) -> (ok: bool)
        ensures
            ok == self@.settle_left_edge(
                field_width as int,
                field_height as int,
                serve,
            ).representable(),
    {
        if self.ball.meets_left_edge() {
            self.right_score < u32::MAX && self.ball.can_serve(field_width, field_height, serve)
        } else {
            true
        }
    }

    /// Where the ball meets the left edge, gives a point to the player who
    /// defends the right side and serves.
    pub fn settle_left_edge(&mut self, field_width: i32, field_height: i32, serve: Serve)
        requires
            old(self)@.settle_left_edge(
                field_width as int,
                field_height as int,
                serve,
            ).representable(),
        ensures
            final(self)@ == old(self)@.settle_left_edge(
                field_width as int,
                field_height as int,
                serve,
            ),
    {
        if self.ball.meets_left_edge() {
            self.right_score = self.right_score + 1;
            self.reset_ball(field_width, field_height, serve);
        }
    }

    /// Whether [`MatchState::check_scoring`] may be called.
    pub fn can_check_scoring(&self, context: &FrameContext) -> (ok: bool)
        ensures
            ok == self@.can_check_scoring(*context),
    {
        let width: i32 = context.field_width;
        let height: i32 = context.field_height;
        if self.can_settle_right_edge(width, height, context.right_serve) {
            let mut next = *self;
            next.settle_right_edge(width, height, context.right_serve);
            next.can_settle_left_edge(width, height, context.left_serve)
        } else {
            false
        }
    }

    /// Runs both scoring tests, the right edge first, then the left. Each
    /// test that finds the ball at its edge gives a point to the player who
    /// defends the other side and serves with the serve that `context` holds
    /// for that edge. The second test sees the ball as the first one left it,
    /// so both may score in one call.
    pub fn check_scoring(&mut self, context: &FrameContext)
        requires
            old(self)@.can_check_scoring(*context),
        ensures
            final(self)@ == old(self)@.check_scoring(*context),
    {
        self.settle_right_edge(context.field_width, context.field_height, context.right_serve);
        self.settle_left_edge(context.field_width, context.field_height, context.left_serve);
    }

    /// Whether [`MatchState::update`] may be called.
    pub fn can_update(
        &self,
        context: &FrameContext,
        overlaps_left: bool,
        overlaps_right: bool,
    ) -> (ok: bool)
        ensures
            ok == self@.can_update(*context, overlaps_left, overlaps_right),
    {
        if self.can_check_collisions(overlaps_left, overlaps_right) {
            let mut next = *self;
            next.check_collisions(overlaps_left, overlaps_right);
            next.can_check_scoring(context)
        } else {
            false
        }
    }

    /// Settles collisions and scoring once the entities have moved: the
    /// collision response first, then both scoring tests.
    pub fn update(&mut self, context: &FrameContext, overlaps_left: bool, overlaps_right: bool)
        requires
            old(self)@.can_update(*context, overlaps_left, overlaps_right),
        ensures
            final(self)@ == old(self)@.update(*context, overlaps_left, overlaps_right),
    {
        self.check_collisions(overlaps_left, overlaps_right);
        self.check_scoring(context);
    }
}

/// What the scoring tests do to a match. A ball that meets neither edge
/// leaves it as it is. A ball that meets the left edge but not the right one
/// gives the right side one point and is served once. A ball that meets the
/// right edge gives the left side one point and is served once, provided the
/// centre of the field, where the served ball stands, is clear of the left
/// edge.
pub proof fn lemma_scoring_serves_once(state: MatchModel, context: FrameContext)
    ensures
        !state.ball.meets_left_or_right(context.field_width as int) ==> state.check_scoring(
            context,
        ) == state,
        !state.ball.meets_right_edge(context.field_width as int) && state.ball.meets_left_edge()
            ==> state.check_scoring(context) == state.score_right().reset_ball(
            context.field_width as int,
            context.field_height as int,
            context.left_serve,
        ),
        state.ball.meets_right_edge(context.field_width as int) && half(
            context.field_width as int,
        ) - state.ball.radius > 0 ==> state.check_scoring(context) == state.score_left().reset_ball(
            context.field_width as int,
            context.field_height as int,
            context.right_serve,
        ),
{
}

} // verus!
