//! The direction choices of a serve.

use vstd::prelude::*;

verus! {

/// One of the two signs that a serve applies to a velocity component.
#[derive(Clone, Copy, Debug, PartialEq, Eq, Structural)]
pub enum Sign {
    Negative,
    Positive,
}

impl Sign {
    /// The factor that the sign stands for: `-1` or `+1`.
    pub open spec fn factor(self) -> int {
        match self {
            Sign::Negative => -1,
            Sign::Positive => 1,
        }
    }

    /// The sign that the draw `0` or `1` selects, in that order, and nothing
    /// for any other integer.
    pub open spec fn of_draw(draw: int) -> Option<Sign> {
        if draw == 0 {
            Some(Sign::Negative)
        } else if draw == 1 {
            Some(Sign::Positive)
        } else {
            None
        }
    }

    /// Turns an integer drawn from the closed range `0..=1` into a sign.
    pub fn from_draw(draw: i32) -> (sign: Option<Sign>)
        ensures
            sign == Sign::of_draw(draw as int),
    {
        if draw == 0 {
            Some(Sign::Negative)
        } else if draw == 1 {
            Some(Sign::Positive)
        } else {
            None
        }
    }

    /// The factor as a machine integer.
    pub fn to_factor(self) -> (f: i32)
        ensures
            f == self.factor(),
    {
        match self {
            Sign::Negative => -1,
            Sign::Positive => 1,
        }
    }

    /// `value` multiplied by the factor, in wide arithmetic.
    pub(crate) fn apply(self, value: i32) -> (r: i64)
        ensures
            r == value * self.factor(),
    {
        proof {
            lemma_sign_keeps_or_negates(value as int, self);
        }
        match self {
            Sign::Negative => -(value as i64),
            Sign::Positive => value as i64,
        }
    }
}

/// A value multiplied by the factor of a sign is that value or its negation.
pub proof fn lemma_sign_keeps_or_negates(value: int, sign: Sign)
    ensures
        sign == Sign::Positive ==> value * sign.factor() == value,
        sign == Sign::Negative ==> value * sign.factor() == -value,
{
    assert(value * 1 == value && value * (-1) == -value) by (nonlinear_arith);
}

/// The two independent choices that one serve consumes: a sign for the
/// horizontal velocity and a sign for the vertical velocity.
#[derive(Clone, Copy, Debug, PartialEq, Eq, Structural)]
pub struct Serve {
    pub sign_x: Sign,
    pub sign_y: Sign,
}

impl Serve {
    /// The serve that two draws from `0..=1` select, or nothing when either
    /// draw is outside that range.
    pub open spec fn of_draws(draw_x: int, draw_y: int) -> Option<Serve> {
        match (Sign::of_draw(draw_x), Sign::of_draw(draw_y)) {
            (Some(sign_x), Some(sign_y)) => Some(Serve { sign_x, sign_y }),
            _ => None,
        }
    }

    /// Builds a serve from two integers drawn independently from `0..=1`.
    pub fn from_draws(draw_x: i32, draw_y: i32) -> (serve: Option<Serve>)
        ensures
            serve == Serve::of_draws(draw_x as int, draw_y as int),
    {
        match (Sign::from_draw(draw_x), Sign::from_draw(draw_y)) {
            (Some(sign_x), Some(sign_y)) => Some(Serve { sign_x, sign_y }),
            _ => None,
        }
    }
}

} // verus!
