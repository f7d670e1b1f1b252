//! The tick automaton: the state owned by the periodic interrupt
//! context. Every firing draws four pseudo-random bits, advances the
//! packed state, records a visit when a macro transition fires, and
//! computes the output line levels for this period — in that fixed
//! order, atomically with respect to the reporter.

use vstd::prelude::*;

use crate::counters::VisitCounters;
use crate::engine::{advance, macro_of, spec_advance, spec_transition_fires, valid_state, Mode};
use crate::lfsr::{spec_draw, spec_step4, RandomSource, DEFAULT_SEED};
use crate::outputs::{drive_for, spec_drive, spec_is_tick, PinDrive};

verus! {

/// The automaton's whole interrupt-local state: the pseudo-random
/// source, the packed walk state, the tock flag, and the shared visit
/// counters. The ghost fields count the macro transitions and the
/// tick events that have occurred since construction.
pub struct Automaton {
    /// The pseudo-random bit source, stepped once per firing.
    pub lfsr: RandomSource,
    /// The packed walk state, `macro_index << 1 | substep`.
    pub state: u8,
    /// The tock flag: toggled on every tick event, it selects which
    /// actuator strikes.
    pub tock: bool,
    /// The per-macro-state visit counters the reporter reads.
    pub counters: VisitCounters,
    /// The operating mode of the transition table.
    pub mode: Mode,
    /// How many macro transitions have occurred.
    pub transitions: Ghost<nat>,
    /// How many tick events have occurred.
    pub ticks: Ghost<nat>,
}

impl Automaton {
    /// Well-formedness, established at construction and preserved by
    /// every firing: the random source has not collapsed to zero, the
    /// packed state is in range, the counters sum to the number of
    /// macro transitions, and the tock flag is the parity of the tick
    /// events.
    pub open spec fn wf(self) -> bool {
        &&& self.lfsr.wf()
        &&& valid_state(self.state as int)
        &&& self.counters.total() == self.transitions@
        &&& self.tock == (self.ticks@ % 2 == 1)
    }

    /// The draw the next firing will consume.
    pub open spec fn spec_draw_now(self) -> int {
        spec_draw(self.lfsr.reg)
    }

    /// The packed state after the next firing.
    pub open spec fn spec_next_state(self) -> int {
        spec_advance(self.state as int, self.spec_draw_now(), self.mode)
    }

    /// Whether the next firing fires a macro transition.
    pub open spec fn spec_fires(self) -> bool {
        spec_transition_fires(self.state as int)
    }

    /// Whether the next firing is a tick event.
    pub open spec fn spec_tick_event(self) -> bool {
        spec_is_tick(self.spec_next_state())
    }

    /// A fresh automaton with the given seed and mode: at the origin
    /// state, tock clear, all counters zero.
    pub fn with_seed_and_mode(seed: u16, mode: Mode) -> (a: Automaton)
        requires
            seed != 0,
        ensures
            a.wf(),
            a.lfsr.reg == seed,
            a.state == 0,
            !a.tock,
            forall|i: int| 0 <= i < 4 ==> a.counters.count(i) == 0,
            a.mode == mode,
            a.transitions@ == 0,
            a.ticks@ == 0,
    {
        Automaton {
            lfsr: RandomSource::new(seed),
            state: 0,
            tock: false,
            counters: VisitCounters::new(),
            mode,
            transitions: Ghost(0),
            ticks: Ghost(0),
        }
    }

    /// A fresh automaton with the default seed, in stutter mode.
    pub fn new() -> (a: Automaton)
        ensures
            a.wf(),
            a.lfsr.reg == DEFAULT_SEED,
            a.state == 0,
            !a.tock,
            forall|i: int| 0 <= i < 4 ==> a.counters.count(i) == 0,
            a.mode == Mode::Stutter,
            a.transitions@ == 0,
            a.ticks@ == 0,
    {
        Automaton::with_seed_and_mode(DEFAULT_SEED, Mode::Stutter)
    }

    /// One periodic firing: draw four bits, advance the packed state,
    /// on a macro transition record the visit of the state landed on,
    /// on a tick event toggle the tock flag, and return the output
    /// line levels for this period.
    pub fn tick(&mut self) -> (drive: PinDrive)
        requires
            old(self).wf(),
            old(self).counters.total() < u32::MAX,
        ensures
            final(self).wf(),
            final(self).mode == old(self).mode,
            final(self).lfsr.reg == spec_step4(old(self).lfsr.reg),
            final(self).state as int == old(self).spec_next_state(),
            final(self).tock == (if old(self).spec_tick_event() {
                !old(self).tock
            } else {
                old(self).tock
            }),
            final(self).ticks@ == old(self).ticks@ + (if old(self).spec_tick_event() {
                1int
            } else {
                0int
            }),
            final(self).transitions@ == old(self).transitions@ + (if old(self).spec_fires() {
                1int
            } else {
                0int
            }),
            forall|i: int|
                0 <= i < 4 ==> final(self).counters.count(i) == old(self).counters.count(i) + (
                if old(self).spec_fires() && i == macro_of(old(self).spec_next_state()) {
                    1int
                } else {
                    0int
                }),
            forall|i: int|
                0 <= i < 4 ==> final(self).counters.count(i) >= old(self).counters.count(i),
            drive == spec_drive(old(self).spec_tick_event(), final(self).tock),
    {
        let draw = self.lfsr.next4();
        let (next, fired) = advance(self.state, draw, self.mode);
        self.state = next;
        if fired {
            self.counters.record(next / 2);
            proof {
                self.transitions@ = self.transitions@ + 1;
            }
        }
        let is_tick = next == 0;
        if is_tick {
            self.tock = !self.tock;
            proof {
                self.ticks@ = self.ticks@ + 1;
            }
        }
        drive_for(is_tick, self.tock)
    }
}

/// The lifetime counter law: for every well-formed automaton the sum
/// of the visit counters equals the number of macro transitions that
/// have occurred. Together with the firing contract — each counter
/// grows monotonically, by one exactly when a transition lands on its
/// state — this pins the counters to the history of the walk.
pub proof fn lemma_total_counts_transitions(a: Automaton)
    requires
        a.wf(),
    ensures
        a.counters.total() == a.transitions@,
{
}

/// The tock flag strictly alternates between consecutive tick events:
/// whenever one more tick event has occurred, the flag has flipped.
pub proof fn lemma_tock_alternates(before: Automaton, after: Automaton)
    requires
        before.wf(),
        after.wf(),
        after.ticks@ == before.ticks@ + 1,
    ensures
        after.tock == !before.tock,
{
}

} // verus!
