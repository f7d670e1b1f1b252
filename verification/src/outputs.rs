//! The output / tick-edge logic. A tick event is the firing on which
//! the walk has just landed back on the origin (macro state 0,
//! substep 0). On a tick the indicator line goes high and exactly one
//! of the two actuator lines strikes, chosen by the freshly toggled
//! tock flag — alternating left and right like a mechanical
//! escapement. On every other firing all three lines are low.

use vstd::prelude::*;

verus! {

/// Desired levels of the three output lines for one firing.
#[derive(Clone, Copy, PartialEq, Eq, Structural, Debug)]
pub struct PinDrive {
    /// The indicator line: high exactly on a tick event.
    pub indicator: bool,
    /// The first actuator line: strikes on ticks with the tock flag
    /// set.
    pub strike_a: bool,
    /// The second actuator line: strikes on ticks with the tock flag
    /// clear.
    pub strike_b: bool,
}

/// Whether a packed state is the tick-event state.
pub open spec fn spec_is_tick(state: int) -> bool {
    state == 0
}

/// The line levels for one firing, given whether it is a tick event
/// and the (already toggled) tock flag.
pub open spec fn spec_drive(is_tick: bool, tock: bool) -> PinDrive {
    PinDrive { indicator: is_tick, strike_a: is_tick && tock, strike_b: is_tick && !tock }
}

/// Compute the line levels for one firing.
pub fn drive_for(is_tick: bool, tock: bool) -> (d: PinDrive)
    ensures
        d == spec_drive(is_tick, tock),
{
    PinDrive { indicator: is_tick, strike_a: is_tick && tock, strike_b: is_tick && !tock }
}

/// On a tick exactly one actuator strikes; otherwise neither does and
/// the indicator is low.
pub proof fn lemma_one_strike_per_tick(is_tick: bool, tock: bool)
    ensures
        is_tick ==> (spec_drive(is_tick, tock).strike_a != spec_drive(is_tick, tock).strike_b),
        !is_tick ==> !spec_drive(is_tick, tock).indicator && !spec_drive(is_tick, tock).strike_a
            && !spec_drive(is_tick, tock).strike_b,
{
}

} // verus!
