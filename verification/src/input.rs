use vstd::prelude::*;

verus! {

/// One level-triggered reading of the raw input lines: two directional axes
/// given as independent booleans, plus the single designated action button.
pub struct RawKeys {
    pub up: bool,
    pub down: bool,
    pub left: bool,
    pub right: bool,
    pub action: bool,
}

/// A transient signed 2D step, produced fresh each tick and consumed
/// immediately; each component is the sign of one directional axis.
pub struct StepVector {
    pub dx: i8,
    pub dy: i8,
}

impl StepVector {
    /// Both components are in {-1, 0, +1}.
    pub open spec fn wf(self) -> bool {
        -1 <= self.dx <= 1 && -1 <= self.dy <= 1
    }
}

/// The sign of one axis: +1 when only the positive direction is asserted,
/// -1 when only the negative one is, 0 otherwise (opposing lines cancel).
pub open spec fn axis_sign(positive: bool, negative: bool) -> int {
    if positive && !negative {
        1
    } else if negative && !positive {
        -1
    } else {
        0
    }
}

/// The step vector that a raw reading translates to: x grows rightward,
/// y grows downward.
pub open spec fn step_of(k: RawKeys) -> StepVector {
    StepVector { dx: axis_sign(k.right, k.left) as i8, dy: axis_sign(k.down, k.up) as i8 }
}

/// Translates one raw reading into its step vector and action flag.
/// No debouncing and no edge detection: every tick re-samples level state.
pub fn sample(k: &RawKeys) -> (s: (StepVector, bool))
    ensures
        s.0 == step_of(*k),
        s.0.wf(),
        s.1 == k.action,
{
    let dx: i8 = if k.right && !k.left {
        1
    } else if k.left && !k.right {
        -1
    } else {
        0
    };
    let dy: i8 = if k.down && !k.up {
        1
    } else if k.up && !k.down {
        -1
    } else {
        0
    };
    (StepVector { dx, dy }, k.action)
}

} // verus!
