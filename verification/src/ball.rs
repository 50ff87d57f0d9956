//! The ball: motion and wall bounces.

use vstd::prelude::*;
use crate::serve::{lemma_sign_keeps_or_negates, Serve};
use crate::vector::{fits, fits_i32, half, halve, magnitude, narrow, Vector2I, VectorModel};

verus! {

/// What a [`Ball`] stands for, over unbounded integers.
pub struct BallModel {
    pub position: VectorModel,
    pub radius: int,
    pub velocity: VectorModel,
}

impl BallModel {
    /// Every component can be stored in an `i32`.
    pub open spec fn representable(self) -> bool {
        self.position.representable() && fits_i32(self.radius) && self.velocity.representable()
    }

    /// The ball after one step of motion: the velocity is added to the
    /// position, axis by axis.
    pub open spec fn integrate(self) -> BallModel {
        BallModel {
            position: VectorModel {
                x: self.position.x + self.velocity.x,
                y: self.position.y + self.velocity.y,
            },
            ..self
        }
    }

    /// The ball touches or has passed the top edge (`0`) or the bottom edge
    /// (`field_height`) of the field.
    pub open spec fn meets_top_or_bottom(self, field_height: int) -> bool {
        self.position.y + self.radius >= field_height || self.position.y - self.radius <= 0
    }

    /// The ball touches or has passed the right edge (`field_width`) of the
    /// field.
    pub open spec fn meets_right_edge(self, field_width: int) -> bool {
        self.position.x + self.radius >= field_width
    }

    /// The ball touches or has passed the left edge (`0`) of the field.
    pub open spec fn meets_left_edge(self) -> bool {
        self.position.x - self.radius <= 0
    }

    /// The ball touches or has passed the left or the right edge of the field.
    pub open spec fn meets_left_or_right(self, field_width: int) -> bool {
        self.meets_right_edge(field_width) || self.meets_left_edge()
    }

    /// The ball with its horizontal velocity negated.
    pub open spec fn reflect_x(self) -> BallModel {
        BallModel { velocity: VectorModel { x: -self.velocity.x, y: self.velocity.y }, ..self }
    }

    /// The ball with its vertical velocity negated.
    pub open spec fn reflect_y(self) -> BallModel {
        BallModel { velocity: VectorModel { x: self.velocity.x, y: -self.velocity.y }, ..self }
    }

    /// The ball after the wall test at its current position: the vertical
    /// velocity is negated where the ball meets the top or the bottom edge,
    /// the horizontal velocity where it meets the left or the right edge. The
    /// comparisons are inclusive, and the position is left as it is.
    pub open spec fn bounce_off_walls(self, field_width: int, field_height: int) -> BallModel {
        let vertical = if self.meets_top_or_bottom(field_height) {
            self.reflect_y()
        } else {
            self
        };
        if vertical.meets_left_or_right(field_width) {
            vertical.reflect_x()
        } else {
            vertical
        }
    }

    /// The ball after one frame: motion first, then the wall test at the new
    /// position.
    pub open spec fn update(self, field_width: int, field_height: int) -> BallModel {
        self.integrate().bounce_off_walls(field_width, field_height)
    }

    /// The ball after a serve: it stands at the centre of the field, and each
    /// velocity component is multiplied by the sign chosen for it.
    pub open spec fn serve(self, field_width: int, field_height: int, serve: Serve) -> BallModel {
        BallModel {
            position: VectorModel { x: half(field_width), y: half(field_height) },
            radius: self.radius,
            velocity: VectorModel {
                x: self.velocity.x * serve.sign_x.factor(),
                y: self.velocity.y * serve.sign_y.factor(),
            },
        }
    }

    /// The ball keeps to a field of at most `bound` by `bound` vertically:
    /// now and after one more step it is at most one step outside it. Its
    /// radius is not negative, and a step past `bound` can be stored on
    /// either axis.
    pub open spec fn steady(self, bound: int) -> bool {
        let step: int = magnitude(self.velocity.y);
        &&& self.representable()
        &&& self.radius >= 0
        &&& bound >= 0
        &&& bound + magnitude(self.velocity.x) <= i32::MAX
        &&& bound + step <= i32::MAX
        &&& -step <= self.position.y <= bound + step
        &&& -step <= self.position.y + self.velocity.y <= bound + step
    }

    /// The ball is where a match in a field of at most `bound` by `bound`
    /// leaves it between two frames: steady, and horizontally inside the
    /// field.
    pub open spec fn confined(self, bound: int) -> bool {
        self.steady(bound) && 0 <= self.position.x <= bound
    }
}

/// The two balls have the same radius and, on each axis, velocities of the
/// same magnitude.
pub open spec fn same_speed(before: BallModel, after: BallModel) -> bool {
    &&& after.radius == before.radius
    &&& magnitude(after.velocity.x) == magnitude(before.velocity.x)
    &&& magnitude(after.velocity.y) == magnitude(before.velocity.y)
}

/// The ball: the centre of a circle, its radius, and the distance it travels
/// per frame on each axis.
#[derive(Clone, Copy, Debug, PartialEq, Eq, Structural)]
pub struct Ball {
    pub position: Vector2I,
    pub radius: i32,
    pub velocity: Vector2I,
}

impl View for Ball {
    type V = BallModel;

    open spec fn view(&self) -> BallModel {
        BallModel {
            position: self.position@,
            radius: self.radius as int,
            velocity: self.velocity@,
        }
    }
}

impl Ball {
    /// A ball at `position` with the given radius and velocity.
    pub fn new(position: Vector2I, radius: i32, velocity: Vector2I) -> (ball: Ball)
        ensures
            ball.position == position,
            ball.radius == radius,
            ball.velocity == velocity,
    {
        Ball { position, radius, velocity }
    }

    /// Whether [`Ball::integrate`] may be called.
    pub fn can_integrate(&self) -> (ok: bool)
        ensures
            ok == self@.integrate().representable(),
    {
        fits(self.position.x as i64 + self.velocity.x as i64) && fits(
            self.position.y as i64 + self.velocity.y as i64,
        )
    }

    /// Moves the ball by its velocity.
    pub fn integrate(&mut self)
        requires
            old(self)@.integrate().representable(),
        ensures
            final(self)@ == old(self)@.integrate(),
    {
        self.position.x = self.position.x + self.velocity.x;
        self.position.y = self.position.y + self.velocity.y;
    }

    /// Whether the ball touches or has passed the top or the bottom edge.
    pub fn meets_top_or_bottom(&self, field_height: i32) -> (hit: bool)
        ensures
            hit == self@.meets_top_or_bottom(field_height as int),
    {
        let y: i64 = self.position.y as i64;
        let r: i64 = self.radius as i64;
        y + r >= field_height as i64 || y - r <= 0
    }

    /// Whether the ball touches or has passed the right edge.
    pub fn meets_right_edge(&self, field_width: i32) -> (hit: bool)
        ensures
            hit == self@.meets_right_edge(field_width as int),
    {
        self.position.x as i64 + self.radius as i64 >= field_width as i64
    }

    /// Whether the ball touches or has passed the left edge.
    pub fn meets_left_edge(&self) -> (hit: bool)
        ensures
            hit == self@.meets_left_edge(),
    {
        self.position.x as i64 - self.radius as i64 <= 0
    }

    /// Whether the ball touches or has passed the left or the right edge.
    pub fn meets_left_or_right(&self, field_width: i32) -> (hit: bool)
        ensures
            hit == self@.meets_left_or_right(field_width as int),
    {
        self.meets_right_edge(field_width) || self.meets_left_edge()
    }

    /// Whether [`Ball::bounce_off_walls`] may be called.
    pub fn can_bounce_off_walls(&self, field_width: i32, field_height: i32) -> (ok: bool)
        ensures
            ok == self@.bounce_off_walls(field_width as int, field_height as int).representable(),
    {
        let vertical = !self.meets_top_or_bottom(field_height) || self.velocity.y != i32::MIN;
        let horizontal = !self.meets_left_or_right(field_width) || self.velocity.x != i32::MIN;
        vertical && horizontal
    }

    /// Reverses the ball where it meets an edge of the field: vertically at
    /// the top and the bottom edge, horizontally at the left and the right
    /// edge. A ball that still meets an edge at the next call is reversed
    /// again.
    pub fn bounce_off_walls(&mut self, field_width: i32, field_height: i32)
        requires
            old(self)@.bounce_off_walls(field_width as int, field_height as int).representable(),
        ensures
            final(self)@ == old(self)@.bounce_off_walls(field_width as int, field_height as int),
    {
        if self.meets_top_or_bottom(field_height) {
            self.velocity.y = -self.velocity.y;
        }
        if self.meets_left_or_right(field_width) {
            self.velocity.x = -self.velocity.x;
        }
    }

    /// Whether [`Ball::update`] may be called.
    pub fn can_update(&self, field_width: i32, field_height: i32) -> (ok: bool)
        ensures
            ok == self@.update(field_width as int, field_height as int).representable(),
    {
        if self.can_integrate() {
            let mut moved = *self;
            moved.integrate();
            moved.can_bounce_off_walls(field_width, field_height)
        } else {
            false
        }
    }

    /// Advances the ball by one frame: it moves by its velocity and is then
    /// reversed where it meets an edge of the field.
    pub fn update(&mut self, field_width: i32, field_height: i32)
        requires
            old(self)@.update(field_width as int, field_height as int).representable(),
        ensures
            final(self)@ == old(self)@.update(field_width as int, field_height as int),
    {
        self.integrate();
        self.bounce_off_walls(field_width, field_height);
    }

    /// Whether [`Ball::serve`] may be called.
    pub fn can_serve(&self, field_width: i32, field_height: i32, serve: Serve) -> (ok: bool)
        ensures
            ok == self@.serve(field_width as int, field_height as int, serve).representable(),
    {
        fits(serve.sign_x.apply(self.velocity.x)) && fits(serve.sign_y.apply(self.velocity.y))
    }

    /// Puts the ball at the centre of the field and multiplies each velocity
    /// component by the sign that `serve` holds for it.
    pub fn serve(&mut self, field_width: i32, field_height: i32, serve: Serve)
        requires
            old(self)@.serve(field_width as int, field_height as int, serve).representable(),
        ensures
            final(self)@ == old(self)@.serve(field_width as int, field_height as int, serve),
    {
        self.position.x = halve(field_width);
        self.position.y = halve(field_height);
        self.velocity.x = narrow(serve.sign_x.apply(self.velocity.x));
        self.velocity.y = narrow(serve.sign_y.apply(self.velocity.y));
    }
}

/// Applying the wall test twice to a ball that has not moved gives the ball
/// back: a ball that stays at an edge is reversed at every test.
pub proof fn lemma_bounce_twice_restores(ball: BallModel, field_width: int, field_height: int)
    ensures
        ball.bounce_off_walls(field_width, field_height).bounce_off_walls(
            field_width,
            field_height,
        ) == ball,
{
}

/// No operation on the ball changes its radius or the magnitude of a
/// velocity component: a component keeps its value or changes its sign.
pub proof fn lemma_ball_operations_keep_speed(
    ball: BallModel,
    field_width: int,
    field_height: int,
    serve: Serve,
)
    ensures
        same_speed(ball, ball.integrate()),
        same_speed(ball, ball.bounce_off_walls(field_width, field_height)),
        same_speed(ball, ball.update(field_width, field_height)),
        same_speed(ball, ball.reflect_x()),
        same_speed(ball, ball.serve(field_width, field_height, serve)),
{
    lemma_sign_keeps_or_negates(ball.velocity.x, serve.sign_x);
    lemma_sign_keeps_or_negates(ball.velocity.y, serve.sign_y);
}

/// A confined ball in a field within the bound can take one step. It is
/// then steady, and inside the field horizontally unless it meets the left
/// or the right edge.
pub proof fn lemma_confined_ball_can_update(
    ball: BallModel,
    field_width: int,
    field_height: int,
    bound: int,
)
    requires
        ball.confined(bound),
        0 <= field_width <= bound,
        0 <= field_height <= bound,
    ensures
        ball.update(field_width, field_height).steady(bound),
        !ball.update(field_width, field_height).meets_left_or_right(field_width)
            ==> ball.update(field_width, field_height).confined(bound),
{
}

/// A steady ball is steady after a collision response, where it was.
pub proof fn lemma_steady_ball_can_reflect(ball: BallModel, bound: int)
    requires
        ball.steady(bound),
    ensures
        ball.reflect_x().steady(bound),
        ball.reflect_x().position == ball.position,
{
}

/// A steady ball is confined after a serve in a field within the bound.
pub proof fn lemma_steady_ball_can_serve(
    ball: BallModel,
    field_width: int,
    field_height: int,
    serve: Serve,
    bound: int,
)
    requires
        ball.steady(bound),
        0 <= field_width <= bound,
        0 <= field_height <= bound,
    ensures
        ball.serve(field_width, field_height, serve).confined(bound),
{
    lemma_sign_keeps_or_negates(ball.velocity.x, serve.sign_x);
    lemma_sign_keeps_or_negates(ball.velocity.y, serve.sign_y);
}

} // verus!
