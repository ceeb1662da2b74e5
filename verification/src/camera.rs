//! Camera movement: turning the pressed movement keys into a direction.
//!
//! The host's camera system reads the keyboard each frame and moves the
//! camera along the direction computed here, scaled by the frame time.
//! Only the decision from key states to a direction is logic of this
//! library; the scaling and the transform update belong to the host.

use vstd::prelude::*;

verus! {

/// A movement direction in the tile plane, one unit per pressed axis key.
#[derive(Clone, Copy, PartialEq, Eq, Structural, Debug)]
pub struct MoveDirection {
    pub x: i32,
    pub y: i32,
}

/// The contribution of one axis: the positive key adds one,
/// the negative key subtracts one, both together cancel out.
pub open spec fn axis_value(negative: bool, positive: bool) -> int {
    (if positive { 1int } else { 0int }) - (if negative { 1int } else { 0int })
}

/// Computes the camera movement direction from the four movement keys:
/// `up`/`down` drive the y axis, `left`/`right` drive the x axis.
pub fn movement_direction(up: bool, down: bool, left: bool, right: bool) -> (d: MoveDirection)
    ensures
        d.x == axis_value(left, right),
        d.y == axis_value(down, up),
{
    let mut x: i32 = 0;
    let mut y: i32 = 0;
    if up {
        y = y + 1;
    }
    if down {
        y = y - 1;
    }
    if left {
        x = x - 1;
    }
    if right {
        x = x + 1;
    }
    MoveDirection { x, y }
}

} // verus!
