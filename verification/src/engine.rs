//! The state-transition engine. The automaton's position is a packed
//! state `macro_index << 1 | substep` with four macro states and two
//! substeps per macro dwell slot. Once per timer firing the packed
//! state is incremented; exactly when the substep wraps, a weighted
//! transition table — indexed by the macro state the automaton was in
//! before the increment and by a 4-bit pseudo-random draw — selects
//! the next macro state.

use vstd::prelude::*;

verus! {

/// The operating mode: the stuttering weighted walk, or the dormant
/// deterministic alternative that always advances around the ring.
#[derive(Clone, Copy, PartialEq, Eq, Structural, Debug)]
pub enum Mode {
    /// The weighted random walk (the normal mode).
    Stutter,
    /// Deterministic stepping: each transition moves one macro state
    /// around the ring, whatever the draw.
    Steady,
}

/// Number of packed states: four macro states times two substeps.
pub const PACKED_STATES: u8 = 8;

/// A packed state is in range.
pub open spec fn valid_state(state: int) -> bool {
    0 <= state < 8
}

/// A 4-bit draw is in range.
pub open spec fn valid_draw(draw: int) -> bool {
    0 <= draw < 16
}

/// The macro index held in a packed state.
pub open spec fn macro_of(state: int) -> int {
    state / 2
}

/// The substep held in a packed state.
pub open spec fn substep_of(state: int) -> int {
    state % 2
}

/// The transition table, one row per current macro state, one column
/// per 4-bit draw; the entry is the next macro state. The stutter
/// rows encode the weighted walk (row 0 sends 14 of 16 draws to
/// state 1, one to itself, one back to 3, and so on); the steady mode
/// always advances by one around the ring.
pub open spec fn spec_table(row: int, draw: int, mode: Mode) -> int {
    match mode {
        Mode::Stutter => if row == 0 {
            if draw == 0 {
                0
            } else if draw == 15 {
                3
            } else {
                1
            }
        } else if row == 1 {
            if draw == 0 {
                0
            } else if draw == 1 {
                1
            } else if draw == 15 {
                3
            } else {
                2
            }
        } else if row == 2 {
            if draw <= 1 {
                2
            } else {
                3
            }
        } else {
            if draw == 14 {
                1
            } else if draw == 15 {
                2
            } else {
                0
            }
        },
        Mode::Steady => (row + 1) % 4,
    }
}

/// Whether incrementing `state` wraps the substep, so that a macro
/// transition fires on this firing.
pub open spec fn spec_transition_fires(state: int) -> bool {
    (state + 1) % 2 == 0
}

/// The packed state after one firing: increment, and on a substep
/// wrap look up the next macro state in the table row of the
/// pre-increment macro index.
pub open spec fn spec_advance(state: int, draw: int, mode: Mode) -> int {
    if !spec_transition_fires(state) {
        state + 1
    } else {
        2 * spec_table(macro_of(state), draw, mode)
    }
}

/// One table lookup.
pub fn table_lookup(row: u8, draw: u8, mode: Mode) -> (next: u8)
    requires
        row < 4,
        valid_draw(draw as int),
    ensures
        next as int == spec_table(row as int, draw as int, mode),
        next < 4,
{
    match mode {
        Mode::Stutter => {
            if row == 0 {
                if draw == 0 {
                    0
                } else if draw == 15 {
                    3
                } else {
                    1
                }
            } else if row == 1 {
                if draw == 0 {
                    0
                } else if draw == 1 {
                    1
                } else if draw == 15 {
                    3
                } else {
                    2
                }
            } else if row == 2 {
                if draw <= 1 {
                    2
                } else {
                    3
                }
            } else {
                if draw == 14 {
                    1
                } else if draw == 15 {
                    2
                } else {
                    0
                }
            }
        },
        Mode::Steady => (row + 1) % 4,
    }
}

/// Advance the packed state by one firing. Returns the new packed
/// state and whether a macro transition fired. The table row read on
/// a transition is the pre-increment macro index; from any valid
/// packed state the transition branch is only reached from an odd
/// state, so the row index is always in range.
pub fn advance(state: u8, draw: u8, mode: Mode) -> (res: (u8, bool))
    requires
        valid_state(state as int),
        valid_draw(draw as int),
    ensures
        res.0 as int == spec_advance(state as int, draw as int, mode),
        res.1 == spec_transition_fires(state as int),
        valid_state(res.0 as int),
{
    let s1 = state + 1;
    if s1 % 2 != 0 {
        (s1, false)
    } else {
        let row = s1 / 2 - 1;
        let next = table_lookup(row, draw, mode);
        (2 * next, true)
    }
}

/// The advance dichotomy: either no transition fires and only the
/// substep moves — the macro index is unchanged — or one fires and
/// the new macro index is exactly one table lookup on the current
/// draw, with the substep reset to zero. Nothing else enters the
/// decision.
pub proof fn lemma_advance_dichotomy(state: int, draw: int, mode: Mode)
    requires
        valid_state(state),
        valid_draw(draw),
    ensures
        !spec_transition_fires(state) ==> spec_advance(state, draw, mode) == state + 1
            && macro_of(spec_advance(state, draw, mode)) == macro_of(state),
        spec_transition_fires(state) ==> macro_of(spec_advance(state, draw, mode)) == spec_table(
            macro_of(state),
            draw,
            mode,
        ) && substep_of(spec_advance(state, draw, mode)) == 0,
{
    if spec_transition_fires(state) {
        lemma_table_range(macro_of(state), draw, mode);
    }
}

/// Every table entry is a legal macro state.
pub proof fn lemma_table_range(row: int, draw: int, mode: Mode)
    requires
        0 <= row < 4,
        valid_draw(draw),
    ensures
        0 <= spec_table(row, draw, mode) < 4,
{
}

/// A tick pulse is exactly one period wide: from the origin state the
/// next firing always moves to substep 1, never back to the origin,
/// so two consecutive firings are never both tick events and
/// consecutive tick events are at least two periods apart.
pub proof fn lemma_pulse_width_one(draw: int, mode: Mode)
    requires
        valid_draw(draw),
    ensures
        spec_advance(0, draw, mode) == 1,
        spec_advance(0, draw, mode) != 0,
{
}

} // verus!
