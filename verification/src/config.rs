//! The values a match is set up with.

use vstd::prelude::*;

verus! {

/// Width of the field.
pub const FIELD_WIDTH: i32 = 1280;

/// Height of the field.
pub const FIELD_HEIGHT: i32 = 800;

/// Width of each paddle.
pub const PADDLE_WIDTH: i32 = 25;

/// Height of each paddle.
pub const PADDLE_HEIGHT: i32 = 120;

/// Distance the player's paddle travels per frame.
pub const PLAYER_SPEED: i32 = 7;

/// Distance the computer's paddle travels per frame.
pub const CPU_SPEED: i32 = 5;

/// Radius of the ball.
pub const BALL_RADIUS: i32 = 20;

/// Distance the ball travels per frame on each axis.
pub const BALL_SPEED: i32 = 7;

/// Gap between a paddle and the side of the field that it defends.
pub const PADDLE_MARGIN: i32 = 10;

/// The values a match is set up with. The player's paddle is the faster of
/// the two by default.
#[derive(Clone, Copy, Debug, PartialEq, Eq, Structural)]
pub struct Config {
    pub field_width: i32,
    pub field_height: i32,
    pub paddle_width: i32,
    pub paddle_height: i32,
    pub player_speed: i32,
    pub cpu_speed: i32,
    pub ball_radius: i32,
    pub ball_speed: i32,
}

impl Config {
    /// The standard set-up.
    pub open spec fn standard() -> Config {
        Config {
            field_width: 1280,
            field_height: 800,
            paddle_width: 25,
            paddle_height: 120,
            player_speed: 7,
            cpu_speed: 5,
            ball_radius: 20,
            ball_speed: 7,
        }
    }
}

impl Default for Config {
    /// The standard set-up.
    fn default() -> (config: Config)
        ensures
            config == Config::standard(),
    {
        Config {
            field_width: FIELD_WIDTH,
            field_height: FIELD_HEIGHT,
            paddle_width: PADDLE_WIDTH,
            paddle_height: PADDLE_HEIGHT,
            player_speed: PLAYER_SPEED,
            cpu_speed: CPU_SPEED,
            ball_radius: BALL_RADIUS,
            ball_speed: BALL_SPEED,
        }
    }
}

} // verus!
