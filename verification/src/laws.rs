//! What holds of a match over any number of frames.

use vstd::prelude::*;
use crate::ball::{
    lemma_ball_operations_keep_speed, lemma_confined_ball_can_update,
    lemma_steady_ball_can_reflect, lemma_steady_ball_can_serve, same_speed,
};
use crate::config::Config;
use crate::match_state::{FrameContext, MatchModel};
use crate::paddle::{lemma_paddle_moves_are_representable, same_build};
use crate::vector::magnitude;

verus! {

/// Everything that one frame takes from outside the simulation: what is
/// read before it, and whether the ball was found to overlap each paddle
/// once the entities had moved.
pub struct Frame {
    pub context: FrameContext,
    pub overlaps_left: bool,
    pub overlaps_right: bool,
}

impl MatchModel {
    /// The match after one frame: the entities move, then collisions and
    /// scoring are settled.
    pub open spec fn frame(self, frame: Frame) -> MatchModel {
        self.advance(frame.context).update(
            frame.context,
            frame.overlaps_left,
            frame.overlaps_right,
        )
    }

    /// The match after the given frames, in order.
    pub open spec fn run(self, frames: Seq<Frame>) -> MatchModel
        decreases frames.len(),
    {
        if frames.len() == 0 {
            self
        } else {
            self.run(frames.drop_last()).frame(frames.last())
        }
    }
}

/// What is fixed when a match is set up is the same in both states: the
/// ball's radius and the magnitude of its velocity on each axis, and each
/// paddle's horizontal position, size and speed.
pub open spec fn frame_invariants(before: MatchModel, after: MatchModel) -> bool {
    &&& same_speed(before.ball, after.ball)
    &&& same_build(before.left_paddle, after.left_paddle)
    &&& same_build(before.right_paddle, after.right_paddle)
}

/// One frame changes neither the ball's radius nor the magnitude of its
/// velocity on either axis, and of a paddle nothing but its vertical
/// position. Each score stays or goes up by one.
pub proof fn lemma_frame_keeps_invariants(state: MatchModel, frame: Frame)
    ensures
        frame_invariants(state, state.frame(frame)),
        state.left_score <= state.frame(frame).left_score <= state.left_score + 1,
        state.right_score <= state.frame(frame).right_score <= state.right_score + 1,
{
    let context = frame.context;
    let moved = state.advance(context);
    let struck = moved.check_collisions(frame.overlaps_left, frame.overlaps_right);
    let width: int = context.field_width as int;
    let height: int = context.field_height as int;
    let settled = struck.settle_right_edge(width, height, context.right_serve);
    lemma_ball_operations_keep_speed(state.ball, width, height, context.right_serve);
    lemma_ball_operations_keep_speed(moved.ball, width, height, context.right_serve);
    lemma_ball_operations_keep_speed(struck.ball, width, height, context.right_serve);
    lemma_ball_operations_keep_speed(settled.ball, width, height, context.left_serve);
}

/// Over any number of frames the ball keeps its radius and the magnitude of
/// its velocity on each axis: only the sign of a component changes. Each
/// paddle keeps its horizontal position, its size and its speed.
pub proof fn lemma_speed_is_invariant(state: MatchModel, frames: Seq<Frame>)
    ensures
        frame_invariants(state, state.run(frames)),
    decreases frames.len(),
{
    if frames.len() > 0 {
        lemma_speed_is_invariant(state, frames.drop_last());
        lemma_frame_keeps_invariants(state.run(frames.drop_last()), frames.last());
    }
}

/// Scores only go up: after any number of frames each score is at least
/// what it was, and has grown by at most one per frame.
pub proof fn lemma_scores_only_increase(state: MatchModel, frames: Seq<Frame>)
    ensures
        state.left_score <= state.run(frames).left_score <= state.left_score + frames.len(),
        state.right_score <= state.run(frames).right_score <= state.right_score + frames.len(),
    decreases frames.len(),
{
    if frames.len() > 0 {
        lemma_scores_only_increase(state, frames.drop_last());
        lemma_frame_keeps_invariants(state.run(frames.drop_last()), frames.last());
    }
}

/// After every frame both paddles lie between the top and the bottom edge of
/// the field, provided the field of that frame is at least as high as the
/// paddles were when the match began.
pub proof fn lemma_paddles_stay_in_field(state: MatchModel, frames: Seq<Frame>)
    requires
        frames.len() > 0,
        frames.last().context.field_height >= state.left_paddle.size.y,
        frames.last().context.field_height >= state.right_paddle.size.y,
    ensures
        state.run(frames).left_paddle.within_field(frames.last().context.field_height as int),
        state.run(frames).right_paddle.within_field(frames.last().context.field_height as int),
{
    lemma_speed_is_invariant(state, frames.drop_last());
}

impl FrameContext {
    /// The field is at most `bound` wide and high, and neither dimension is
    /// negative.
    pub open spec fn within(self, bound: int) -> bool {
        0 <= self.field_width <= bound && 0 <= self.field_height <= bound
    }
}

impl MatchModel {
    /// The match can be stored, its ball is confined, and no paddle has a
    /// negative height.
    pub open spec fn confined(self, bound: int) -> bool {
        &&& self.representable()
        &&& self.ball.confined(bound)
        &&& self.left_paddle.size.y >= 0
        &&& self.right_paddle.size.y >= 0
    }

    /// Every state that the frame passes through can be stored: the frame
    /// can be executed.
    pub open spec fn can_frame(self, frame: Frame) -> bool {
        &&& self.advance(frame.context).representable()
        &&& self.advance(frame.context).can_update(
            frame.context,
            frame.overlaps_left,
            frame.overlaps_right,
        )
    }

    /// Every one of the frames, in order, can be executed.
    pub open spec fn can_run(self, frames: Seq<Frame>) -> bool
        decreases frames.len(),
    {
        if frames.len() == 0 {
            true
        } else {
            self.can_run(frames.drop_last()) && self.run(frames.drop_last()).can_frame(
                frames.last(),
            )
        }
    }
}

/// A frame of a confined match in a field within the bound can be executed
/// as long as neither score is at its limit, and leaves the match confined.
pub proof fn lemma_confined_match_can_run_a_frame(state: MatchModel, frame: Frame, bound: int)
    requires
        state.confined(bound),
        frame.context.within(bound),
        state.left_score < u32::MAX,
        state.right_score < u32::MAX,
    ensures
        state.can_frame(frame),
        state.frame(frame).confined(bound),
{
    let context = frame.context;
    let width: int = context.field_width as int;
    let height: int = context.field_height as int;
    let moved = state.advance(context);
    assert({
        &&& moved.representable()
        &&& moved.ball.steady(bound)
        &&& !moved.ball.meets_left_or_right(width) ==> moved.ball.confined(bound)
    }) by {
        lemma_confined_ball_can_update(state.ball, width, height, bound);
        lemma_paddle_moves_are_representable(
            state.left_paddle,
            context.input_up,
            context.input_down,
            state.ball.position,
            state.ball.radius,
            height,
        );
        lemma_paddle_moves_are_representable(
            state.right_paddle,
            context.input_up,
            context.input_down,
            state.ball.position,
            state.ball.radius,
            height,
        );
    }
    let struck = moved.check_collisions(frame.overlaps_left, frame.overlaps_right);
    assert({
        &&& struck.representable()
        &&& struck.ball.steady(bound)
        &&& struck.ball.position == moved.ball.position
    }) by {
        lemma_steady_ball_can_reflect(moved.ball, bound);
    }
    let settled = struck.settle_right_edge(width, height, context.right_serve);
    assert({
        &&& settled.representable()
        &&& settled.ball.steady(bound)
        &&& !settled.ball.meets_left_edge() ==> settled.ball.confined(bound)
    }) by {
        lemma_steady_ball_can_serve(struck.ball, width, height, context.right_serve, bound);
    }
    let scored = settled.settle_left_edge(width, height, context.left_serve);
    assert(scored.representable() && scored.ball.confined(bound)) by {
        lemma_steady_ball_can_serve(settled.ball, width, height, context.left_serve, bound);
    }
}

/// A confined match can be run for any number of frames whose fields are
/// within the bound, as long as both scores have room for one point per
/// frame: every operation on the way can be executed, and the match is
/// confined at the end.
pub proof fn lemma_confined_match_can_run(state: MatchModel, frames: Seq<Frame>, bound: int)
    requires
        state.confined(bound),
        forall|i: int| 0 <= i < frames.len() ==> (#[trigger] frames[i]).context.within(bound),
        state.left_score + frames.len() <= u32::MAX,
        state.right_score + frames.len() <= u32::MAX,
    ensures
        state.can_run(frames),
        state.run(frames).confined(bound),
    decreases frames.len(),
{
    if frames.len() > 0 {
        let earlier = frames.drop_last();
        assert forall|i: int| 0 <= i < earlier.len() implies (#[trigger] earlier[i]).context.within(
            bound,
        ) by {
            assert(earlier[i] == frames[i]);
        }
        lemma_confined_match_can_run(state, earlier, bound);
        lemma_scores_only_increase(state, earlier);
        lemma_confined_match_can_run_a_frame(state.run(earlier), frames.last(), bound);
    }
}

/// A match set up in a field within the bound is confined, provided it can
/// be stored, the ball's radius and the paddles' height are not negative,
/// and one step of the ball past the bound can be stored.
pub proof fn lemma_new_match_is_confined(config: Config, bound: int)
    requires
        MatchModel::initial(config).representable(),
        0 <= config.field_width <= bound,
        0 <= config.field_height <= bound,
        config.ball_radius >= 0,
        config.paddle_height >= 0,
        bound + magnitude(config.ball_speed as int) <= i32::MAX,
    ensures
        MatchModel::initial(config).confined(bound),
{
}

} // verus!
