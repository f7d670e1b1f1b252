//! The shared visit counters: one unsigned counter per macro state,
//! incremented exactly once per macro transition that lands on that
//! state, never decremented and never reset. The tick automaton
//! writes them; the reporter reads them.

use vstd::prelude::*;

verus! {

/// Four visit counters, one per macro state.
#[derive(Clone, Copy, PartialEq, Eq, Structural, Debug)]
pub struct VisitCounters {
    pub c0: u32,
    pub c1: u32,
    pub c2: u32,
    pub c3: u32,
}

impl VisitCounters {
    /// The counter of macro state `i`.
    pub open spec fn count(self, i: int) -> int {
        if i == 0 {
            self.c0 as int
        } else if i == 1 {
            self.c1 as int
        } else if i == 2 {
            self.c2 as int
        } else {
            self.c3 as int
        }
    }

    /// The sum of all four counters.
    pub open spec fn total(self) -> int {
        self.c0 + self.c1 + self.c2 + self.c3
    }

    /// Fresh counters, all zero.
    pub fn new() -> (c: Self)
        ensures
            forall|i: int| 0 <= i < 4 ==> c.count(i) == 0,
            c.total() == 0,
    {
        VisitCounters { c0: 0, c1: 0, c2: 0, c3: 0 }
    }

    /// Read the counter of macro state `i`.
    pub fn get(&self, i: u8) -> (n: u32)
        requires
            i < 4,
        ensures
            n as int == self.count(i as int),
    {
        match i {
            0 => self.c0,
            1 => self.c1,
            2 => self.c2,
            _ => self.c3,
        }
    }

    /// Record one visit of macro state `i`: that counter grows by
    /// exactly one, the others are untouched.
    pub fn record(&mut self, i: u8)
        requires
            i < 4,
            old(self).total() < u32::MAX,
        ensures
            forall|j: int|
                0 <= j < 4 ==> final(self).count(j) == old(self).count(j) + (if j == i as int {
                    1int
                } else {
                    0int
                }),
            final(self).total() == old(self).total() + 1,
    {
        match i {
            0 => self.c0 = self.c0 + 1,
            1 => self.c1 = self.c1 + 1,
            2 => self.c2 = self.c2 + 1,
            _ => self.c3 = self.c3 + 1,
        }
    }
}

} // verus!
