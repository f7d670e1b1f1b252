//! The pseudo-random bit source: a 16-bit linear-feedback shift
//! register (Fibonacci form, tap mask `0xB400`). Each invocation
//! extracts four feedback bits, most significant first. The register
//! must never hold zero: zero is the absorbing fixed point of the
//! shift, so the seed is required to be non-zero and every step is
//! proved to preserve non-zeroness.

use vstd::prelude::*;

verus! {

/// Tap mask of the feedback polynomial, applied after each right
/// shift whenever the bit shifted out was one.
pub const TAP_MASK: u16 = 0xB400;

/// Default seed of the generator.
pub const DEFAULT_SEED: u16 = 0xACE1;

/// Register value after one shift step.
pub open spec fn spec_step(r: u16) -> u16 {
    if r & 1 == 1 {
        (r >> 1) ^ TAP_MASK
    } else {
        r >> 1
    }
}

/// The bit a step extracts from register value `r`.
pub open spec fn spec_bit(r: u16) -> u16 {
    r & 1
}

/// Register value after four shift steps.
pub open spec fn spec_step4(r: u16) -> u16 {
    spec_step(spec_step(spec_step(spec_step(r))))
}

/// The 4-bit draw extracted from register value `r`: the four bits
/// the next four steps emit, most significant first.
pub open spec fn spec_draw(r: u16) -> int {
    8 * spec_bit(r) + 4 * spec_bit(spec_step(r)) + 2 * spec_bit(spec_step(spec_step(r)))
        + spec_bit(spec_step(spec_step(spec_step(r))))
}

/// A non-zero register can never step into the all-zero state: if the
/// extracted bit is zero the register was at least two, so the shift
/// keeps a set bit; if it is one, the tap mask sets the top bit.
pub proof fn lemma_step_nonzero(r: u16)
    requires
        r != 0,
    ensures
        spec_step(r) != 0,
{
    assert((if r & 1 == 1 {
        (r >> 1) ^ 0xB400u16
    } else {
        r >> 1
    }) != 0) by (bit_vector)
        requires
            r != 0,
    ;
}

/// Four steps keep a non-zero register non-zero.
pub proof fn lemma_step4_nonzero(r: u16)
    requires
        r != 0,
    ensures
        spec_step4(r) != 0,
{
    lemma_step_nonzero(r);
    lemma_step_nonzero(spec_step(r));
    lemma_step_nonzero(spec_step(spec_step(r)));
    lemma_step_nonzero(spec_step(spec_step(spec_step(r))));
}

/// The pseudo-random source. Deterministic given the seed; no
/// external entropy.
pub struct RandomSource {
    /// The shift register. Non-zero whenever the source is well
    /// formed.
    pub reg: u16,
}

impl RandomSource {
    /// The one invariant: the register has not reached the absorbing
    /// zero state.
    pub open spec fn wf(self) -> bool {
        self.reg != 0
    }

    /// A fresh source. Zero seeds are excluded: a zero register would
    /// emit zero bits forever.
    pub fn new(seed: u16) -> (s: Self)
        requires
            seed != 0,
        ensures
            s.reg == seed,
            s.wf(),
    {
        RandomSource { reg: seed }
    }

    /// One shift step: extract the low bit, shift right, and fold the
    /// tap mask back in when the extracted bit was one.
    fn step(&mut self) -> (b: u16)
        ensures
            final(self).reg == spec_step(old(self).reg),
            b == spec_bit(old(self).reg),
            b <= 1,
    {
        proof {
            let r = self.reg;
            assert(r & 1 <= 1) by (bit_vector);
        }
        let lsb = self.reg & 1;
        self.reg = self.reg >> 1;
        if lsb != 0 {
            self.reg = self.reg ^ TAP_MASK;
        }
        lsb
    }

    /// Advance the register by four steps and return the four
    /// extracted bits as one value, most significant first.
    pub fn next4(&mut self) -> (draw: u8)
        ensures
            final(self).reg == spec_step4(old(self).reg),
            draw as int == spec_draw(old(self).reg),
            draw < 16,
            old(self).wf() ==> final(self).wf(),
    {
        let b0 = self.step();
        let b1 = self.step();
        let b2 = self.step();
        let b3 = self.step();
        proof {
            if old(self).wf() {
                lemma_step4_nonzero(old(self).reg);
            }
        }
        let val: u16 = 8 * b0 + 4 * b1 + 2 * b2 + b3;
        val as u8
    }
}

} // verus!
