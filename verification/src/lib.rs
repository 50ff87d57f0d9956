//! The simulation core of a two-paddle ball game on an integer grid.
//!
//! A frame has two halves. [`MatchState::advance`] moves the paddles and the
//! ball. The caller then finds out whether the ball's circle overlaps each
//! paddle's rectangle, and [`MatchState::update`] responds to what was found
//! and settles the score. What a frame reads from outside beforehand (the
//! size of the field, the keys, the randomly drawn serves) comes in a
//! [`FrameContext`].
//!
//! Each entity is a plain value with public fields. Its view (`@`) is the same
//! value over unbounded integers, and every operation is specified as a total
//! function on views. An executable operation requires that the view it is
//! about to produce can be stored, and a companion query (`can_` and the
//! operation's name) decides that requirement at run time.

pub mod ball;
pub mod config;
pub mod laws;
pub mod match_state;
pub mod paddle;
pub mod serve;
pub mod vector;

pub use ball::Ball;
pub use config::Config;
pub use match_state::{FrameContext, MatchState};
pub use paddle::Paddle;
pub use serve::{Serve, Sign};
pub use vector::Vector2I;
