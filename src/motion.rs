use vstd::prelude::*;

use crate::input::{ControllerView, InputController};

verus! {

/// How much of each body direction one tick's horizontal velocity holds:
/// `forward` times the body's look vector plus `side` times its side vector.
/// Each is -1, 0 or 1.
#[derive(Clone, Copy, Debug, PartialEq, Eq, Structural)]
pub struct MoveAxes {
    pub forward: i8,
    pub side: i8,
}

/// One direction's coefficient: plus one for the key that adds the vector,
/// minus one for the key that subtracts it, so that both held cancel.
pub open spec fn axis(adds: bool, subtracts: bool) -> int {
    (if adds { 1int } else { 0int }) - (if subtracts { 1int } else { 0int })
}

impl ControllerView {
    /// The coefficients of the look and side vectors for this state:
    /// forward adds look, backward subtracts it, left adds side, right subtracts it.
    pub open spec fn move_axes(self) -> (int, int) {
        (axis(self.move_forward, self.move_backward), axis(self.move_left, self.move_right))
    }
}

/// The horizontal velocity of one tick, in a model where vectors have
/// integer coordinates: the sum of the look and side vectors weighted by `axes`.
pub open spec fn horizontal_velocity(axes: (int, int), look: (int, int, int), side: (int, int, int)) -> (int, int, int) {
    (
        axes.0 * look.0 + axes.1 * side.0,
        axes.0 * look.1 + axes.1 * side.1,
        axes.0 * look.2 + axes.1 * side.2,
    )
}

/// With no movement key held the horizontal velocity is zero, whatever way
/// the body faces.
pub proof fn lemma_no_keys_no_motion(
    state: ControllerView,
    look: (int, int, int),
    side: (int, int, int),
)
    requires
        !state.move_forward,
        !state.move_backward,
        !state.move_left,
        !state.move_right,
    ensures
        horizontal_velocity(state.move_axes(), look, side) == (0int, 0int, 0int),
{
}

/// Forward and backward held together add nothing: the velocity is what it
/// would be with neither held, and the look vector's share is zero.
pub proof fn lemma_opposite_keys_cancel(
    state: ControllerView,
    look: (int, int, int),
    side: (int, int, int),
)
    requires
        state.move_forward,
        state.move_backward,
    ensures
        state.move_axes().0 == 0,
        horizontal_velocity(state.move_axes(), look, side) == horizontal_velocity(
            ControllerView { move_forward: false, move_backward: false, ..state }.move_axes(),
            look,
            side,
        ),
        !state.move_left && !state.move_right ==> horizontal_velocity(
            state.move_axes(),
            look,
            side,
        ) == (0int, 0int, 0int),
{
    if !state.move_left && !state.move_right {
        assert(state.move_axes() == (0int, 0int));
    }
}

fn axis_of(adds: bool, subtracts: bool) -> (r: i8)
    ensures
        r == axis(adds, subtracts),
{
    let mut r: i8 = 0;
    if adds {
        r = r + 1;
    }
    if subtracts {
        r = r - 1;
    }
    r
}

impl InputController {
    /// The coefficients that the next tick gives the body's look and side vectors.
    pub fn move_axes(&self) -> (r: MoveAxes)
        ensures
            (r.forward as int, r.side as int) == self@.move_axes(),
    {
        MoveAxes {
            forward: axis_of(self.move_forward, self.move_backward),
            side: axis_of(self.move_left, self.move_right),
        }
    }
}

} // verus!
