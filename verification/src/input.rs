use vstd::prelude::*;

verus! {

/// How the player aims the weapon.
#[derive(Clone, Copy, PartialEq, Eq, Debug, Structural)]
pub enum AimMode {
    Mouse,
    Keyboard,
}

/// The movement direction along one axis, as the sign of the step.
///
/// The negative key wins over the positive one when both are held.
pub open spec fn axis_spec(negative: bool, positive: bool) -> int {
    if negative {
        -1
    } else if positive {
        1
    } else {
        0
    }
}

/// One axis of movement: no key gives no motion, one key moves toward its
/// own side, and holding both keys moves toward the negative side.
pub proof fn lemma_axis_keys(negative: bool, positive: bool)
    ensures
        -1 <= axis_spec(negative, positive) <= 1,
        !negative && !positive ==> axis_spec(negative, positive) == 0,
        !negative && positive ==> axis_spec(negative, positive) == 1,
        negative ==> axis_spec(negative, positive) == -1,
{
}

/// Decodes the held movement keys into a direction whose components are
/// `-1`, `0` or `1`: left before right on the horizontal axis, up before
/// down on the vertical axis (screen coordinates grow downwards).
pub fn keyboard_direction(left: bool, right: bool, up: bool, down: bool) -> (dir: (i8, i8))
    ensures
        dir.0 == axis_spec(left, right),
        dir.1 == axis_spec(up, down),
{
    let x: i8 = if left {
        -1
    } else if right {
        1
    } else {
        0
    };
    let y: i8 = if up {
        -1
    } else if down {
        1
    } else {
        0
    };
    (x, y)
}

} // verus!
