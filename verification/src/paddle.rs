//! The paddles: player moves, ball tracking, and the clamp to the field.

use vstd::prelude::*;
use crate::vector::{fits, fits_i32, magnitude, narrow, Vector2I, VectorModel};

verus! {

/// What a [`Paddle`] stands for, over unbounded integers.
pub struct PaddleModel {
    pub position: VectorModel,
    pub size: VectorModel,
    pub speed: VectorModel,
}

impl PaddleModel {
    /// Every component can be stored in an `i32`.
    pub open spec fn representable(self) -> bool {
        self.position.representable() && self.size.representable() && self.speed.representable()
    }

    /// The paddle with its top edge at `y`.
    pub open spec fn at_height(self, y: int) -> PaddleModel {
        PaddleModel { position: VectorModel { x: self.position.x, y }, ..self }
    }

    /// The paddle lies between the top edge (`0`) and the bottom edge
    /// (`field_height`) of the field.
    pub open spec fn within_field(self, field_height: int) -> bool {
        0 <= self.position.y <= field_height - self.size.y
    }

    /// The paddle after the clamp: a paddle whose bottom edge reaches or
    /// passes the bottom of the field is put flush with it, and a paddle
    /// whose top edge then is at or above the top of the field is put at `0`.
    pub open spec fn clamp_to_field(self, field_height: int) -> PaddleModel {
        let lowered: int = if self.position.y + self.size.y >= field_height {
            field_height - self.size.y
        } else {
            self.position.y
        };
        self.at_height(
            if lowered <= 0 {
                0
            } else {
                lowered
            },
        )
    }

    /// The paddle after the player's input, before the clamp: one step up
    /// for `input_up`, then one step down for `input_down`. With both set
    /// the two steps cancel.
    pub open spec fn shift_by_input(self, input_up: bool, input_down: bool) -> PaddleModel {
        let raised: int = if input_up {
            self.position.y - self.speed.y
        } else {
            self.position.y
        };
        self.at_height(
            if input_down {
                raised + self.speed.y
            } else {
                raised
            },
        )
    }

    /// The paddle after the player's input and the clamp.
    pub open spec fn move_player(
        self,
        input_up: bool,
        input_down: bool,
        field_height: int,
    ) -> PaddleModel {
        self.shift_by_input(input_up, input_down).clamp_to_field(field_height)
    }

    /// The paddle after following the ball, before the clamp. The ball's
    /// reach is its vertical position plus its radius. Where the reach is at
    /// or below the paddle's bottom edge the paddle takes one step down;
    /// where the reach is at or above the top edge of the paddle as it then
    /// stands, the paddle takes one step up.
    pub open spec fn shift_towards(self, ball_position: VectorModel, ball_radius: int) -> PaddleModel {
        let reach: int = ball_position.y + ball_radius;
        let lowered: int = if reach >= self.position.y + self.size.y {
            self.position.y + self.speed.y
        } else {
            self.position.y
        };
        self.at_height(
            if reach <= lowered {
                lowered - self.speed.y
            } else {
                lowered
            },
        )
    }

    /// The paddle after following the ball and the clamp.
    pub open spec fn track_ball(
        self,
        ball_position: VectorModel,
        ball_radius: int,
        field_height: int,
    ) -> PaddleModel {
        self.shift_towards(ball_position, ball_radius).clamp_to_field(field_height)
    }
}

/// The two paddles differ at most in their vertical position.
pub open spec fn same_build(before: PaddleModel, after: PaddleModel) -> bool {
    after == before.at_height(after.position.y)
}

/// A paddle: the top-left corner of a rectangle, its size, and the distance
/// it travels per frame. Only the vertical speed is used.
#[derive(Clone, Copy, Debug, PartialEq, Eq, Structural)]
pub struct Paddle {
    pub position: Vector2I,
    pub size: Vector2I,
    pub speed: Vector2I,
}

impl View for Paddle {
    type V = PaddleModel;

    open spec fn view(&self) -> PaddleModel {
        PaddleModel { position: self.position@, size: self.size@, speed: self.speed@ }
    }
}

impl Paddle {
    /// A paddle with its top-left corner at `position`.
    pub fn new(position: Vector2I, size: Vector2I, speed: Vector2I) -> (paddle: Paddle)
        ensures
            paddle.position == position,
            paddle.size == size,
            paddle.speed == speed,
    {
        Paddle { position, size, speed }
    }

    /// Whether the paddle lies between the top and the bottom edge of the
    /// field.
    pub fn within_field(&self, field_height: i32) -> (inside: bool)
        ensures
            inside == self@.within_field(field_height as int),
    {
        let y: i64 = self.position.y as i64;
        0 <= y && y <= field_height as i64 - self.size.y as i64
    }

    /// The vertical position that the clamp gives a paddle of this size
    /// whose top edge is at `y`.
    fn clamped(&self, y: i64, field_height: i32) -> (r: i64)
        requires
            -0x2_0000_0000 <= y <= 0x2_0000_0000,
        ensures
            r == self@.at_height(y as int).clamp_to_field(field_height as int).position.y,
    {
        let height: i64 = self.size.y as i64;
        let lowered: i64 = if y + height >= field_height as i64 {
            field_height as i64 - height
        } else {
            y
        };
        if lowered <= 0 {
            0
        } else {
            lowered
        }
    }

    /// The vertical position after the player's input, before the clamp.
    fn shifted_by_input(&self, input_up: bool, input_down: bool) -> (r: i64)
        ensures
            r == self@.shift_by_input(input_up, input_down).position.y,
    {
        let step: i64 = self.speed.y as i64;
        let raised: i64 = if input_up {
            self.position.y as i64 - step
        } else {
            self.position.y as i64
        };
        if input_down {
            raised + step
        } else {
            raised
        }
    }

    /// The vertical position after following the ball, before the clamp.
    fn shifted_towards(&self, ball_position: Vector2I, ball_radius: i32) -> (r: i64)
        ensures
            r == self@.shift_towards(ball_position@, ball_radius as int).position.y,
    {
        let step: i64 = self.speed.y as i64;
        let reach: i64 = ball_position.y as i64 + ball_radius as i64;
        let top: i64 = self.position.y as i64;
        let lowered: i64 = if reach >= top + self.size.y as i64 {
            top + step
        } else {
            top
        };
        if reach <= lowered {
            lowered - step
        } else {
            lowered
        }
    }

    /// Keeps the paddle inside the field: flush with the bottom edge where it
    /// reaches or passes it, and at `0` where its top edge then is at or
    /// above the top of the field.
    pub fn clamp_to_field(&mut self, field_height: i32)
        ensures
            final(self)@ == old(self)@.clamp_to_field(field_height as int),
            field_height >= old(self).size.y ==> final(self)@.within_field(field_height as int),
    {
        self.position.y = narrow(self.clamped(self.position.y as i64, field_height));
    }

    /// Whether [`Paddle::move_player`] may be called.
    pub fn can_move_player(&self, input_up: bool, input_down: bool, field_height: i32) -> (ok: bool)
        ensures
            ok == self@.move_player(input_up, input_down, field_height as int).representable(),
    {
        fits(self.clamped(self.shifted_by_input(input_up, input_down), field_height))
    }

    /// Moves the paddle by the player's input: one step up for `input_up`,
    /// one step down for `input_down`, both where both are set. Then keeps it
    /// inside the field.
    pub fn move_player(&mut self, input_up: bool, input_down: bool, field_height: i32)
        requires
            old(self)@.move_player(input_up, input_down, field_height as int).representable(),
        ensures
            final(self)@ == old(self)@.move_player(input_up, input_down, field_height as int),
            field_height >= old(self).size.y ==> final(self)@.within_field(field_height as int),
    {
        self.position.y = narrow(
            self.clamped(self.shifted_by_input(input_up, input_down), field_height),
        );
    }

    /// Whether [`Paddle::track_ball`] may be called.
    pub fn can_track_ball(
        &self,
        ball_position: Vector2I,
        ball_radius: i32,
        field_height: i32,
    ) -> (ok: bool)
        ensures
            ok == self@.track_ball(
                ball_position@,
                ball_radius as int,
                field_height as int,
            ).representable(),
    {
        fits(self.clamped(self.shifted_towards(ball_position, ball_radius), field_height))
    }

    /// Moves the paddle after the ball: one step down where the ball's reach
    /// (its vertical position plus its radius) is at or below the paddle's
    /// bottom edge, one step up where it is at or above the top edge. The
    /// two tests run one after the other. Then keeps the paddle inside the
    /// field.
    pub fn track_ball(&mut self, ball_position: Vector2I, ball_radius: i32, field_height: i32)
        requires
            old(self)@.track_ball(
                ball_position@,
                ball_radius as int,
                field_height as int,
            ).representable(),
        ensures
            final(self)@ == old(self)@.track_ball(
                ball_position@,
                ball_radius as int,
                field_height as int,
            ),
            field_height >= old(self).size.y ==> final(self)@.within_field(field_height as int),
    {
        self.position.y = narrow(
            self.clamped(self.shifted_towards(ball_position, ball_radius), field_height),
        );
    }
}

/// After the clamp a paddle lies between the top and the bottom edge of any
/// field that is at least as high as the paddle, and nothing but its vertical
/// position has changed.
pub proof fn lemma_clamp_keeps_paddle_in_field(paddle: PaddleModel, field_height: int)
    requires
        field_height >= paddle.size.y,
    ensures
        paddle.clamp_to_field(field_height).within_field(field_height),
        paddle.clamp_to_field(field_height) == paddle.at_height(
            paddle.clamp_to_field(field_height).position.y,
        ),
{
}

/// The clamp changes nothing in a paddle that it has already placed.
pub proof fn lemma_clamp_is_idempotent(paddle: PaddleModel, field_height: int)
    ensures
        paddle.clamp_to_field(field_height).clamp_to_field(field_height) == paddle.clamp_to_field(
            field_height,
        ),
{
}

/// A paddle that lies inside the field and is moved by the player or after
/// the ball ends at most one step away from where it was, and inside the
/// field again.
pub proof fn lemma_paddle_moves_at_most_one_step(
    paddle: PaddleModel,
    input_up: bool,
    input_down: bool,
    ball_position: VectorModel,
    ball_radius: int,
    field_height: int,
)
    requires
        paddle.within_field(field_height),
    ensures
        paddle.move_player(input_up, input_down, field_height).within_field(field_height),
        magnitude(
            paddle.move_player(input_up, input_down, field_height).position.y - paddle.position.y,
        ) <= magnitude(paddle.speed.y),
        paddle.track_ball(ball_position, ball_radius, field_height).within_field(field_height),
        magnitude(
            paddle.track_ball(ball_position, ball_radius, field_height).position.y
                - paddle.position.y,
        ) <= magnitude(paddle.speed.y),
{
}

/// A paddle can be stored after any clamp, and one whose height is not
/// negative after any move.
pub proof fn lemma_paddle_moves_are_representable(
    paddle: PaddleModel,
    input_up: bool,
    input_down: bool,
    ball_position: VectorModel,
    ball_radius: int,
    field_height: int,
)
    requires
        paddle.representable(),
        field_height <= i32::MAX,
    ensures
        paddle.clamp_to_field(field_height).representable(),
        paddle.size.y >= 0 ==> paddle.move_player(
            input_up,
            input_down,
            field_height,
        ).representable(),
        paddle.size.y >= 0 ==> paddle.track_ball(
            ball_position,
            ball_radius,
            field_height,
        ).representable(),
{
}

/// A paddle whose step is not negative and smaller than its height takes at
/// most one of its two steps when it follows the ball: down where the ball's
/// reach is at or below its bottom edge, up where the reach is at or above
/// its top edge, none in between. The clamp follows.
pub proof fn lemma_tracking_takes_one_step(
    paddle: PaddleModel,
    ball_position: VectorModel,
    ball_radius: int,
    field_height: int,
)
    requires
        0 <= paddle.speed.y < paddle.size.y,
    ensures
        paddle.track_ball(ball_position, ball_radius, field_height) == paddle.at_height(
            if ball_position.y + ball_radius >= paddle.position.y + paddle.size.y {
                paddle.position.y + paddle.speed.y
            } else if ball_position.y + ball_radius <= paddle.position.y {
                paddle.position.y - paddle.speed.y
            } else {
                paddle.position.y
            },
        ).clamp_to_field(field_height),
{
}

} // verus!
