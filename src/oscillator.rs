//! Phase-accumulating oscillator.
use vstd::prelude::*;

use crate::MAX_PERIOD;

verus! {

/// One phase register. The normalised phase is `phase / period`, where
/// `period` is the sample rate in frequency units; it stays in `[0, 1)`.
#[derive(Clone, Copy, Debug, PartialEq, Eq)]
pub struct Oscillator {
    pub phase: u64,
    pub period: u64,
}

/// The phase after adding `increment` to `phase`: one subtraction of a whole
/// period when the sum reaches it.
pub open spec fn wrapped(phase: int, increment: int, period: int) -> int {
    if phase + increment >= period {
        phase + increment - period
    } else {
        phase + increment
    }
}

impl Oscillator {
    /// A valid oscillator: a positive period and a phase inside it.
    pub open spec fn wf(&self) -> bool {
        0 < self.period <= MAX_PERIOD && self.phase < self.period
    }

    /// An oscillator at phase zero with the given period.
    pub fn new(period: u64) -> (r: Oscillator)
        requires
            0 < period <= MAX_PERIOD,
        ensures
            r.wf(),
            r.phase == 0,
            r.period == period,
    {
        Oscillator { phase: 0, period }
    }

    /// Emits the current phase, then advances it by `increment` (less than one
    /// period), wrapping once.
    pub fn advance(&mut self, increment: u64) -> (r: u64)
        requires
            old(self).wf(),
            increment < old(self).period,
        ensures
            r == old(self).phase,
            final(self).wf(),
            final(self).period == old(self).period,
            final(self).phase == wrapped(old(self).phase as int, increment as int, old(self).period as int),
            final(self).phase as int == (old(self).phase + increment) % (old(self).period as int),
    {
        let emitted = self.phase;
        let next = self.phase + increment;
        if next >= self.period {
            self.phase = next - self.period;
        } else {
            self.phase = next;
        }
        proof {
            let p = self.period as int;
            let s = emitted + increment;
            if s >= p {
                vstd::arithmetic::div_mod::lemma_mod_multiples_vanish(1, s - p, p);
                vstd::arithmetic::div_mod::lemma_small_mod((s - p) as nat, p as nat);
            } else {
                vstd::arithmetic::div_mod::lemma_small_mod(s as nat, p as nat);
            }
        }
        emitted
    }

    /// Keeps the normalised phase when the period changes: the phase is scaled
    /// to the new period, rounding down.
    pub fn set_period(&mut self, period: u64)
        requires
            old(self).wf(),
            0 < period <= MAX_PERIOD,
        ensures
            final(self).wf(),
            final(self).period == period,
            final(self).phase as int == (old(self).phase as int * period as int) / (old(self).period as int),
    {
        proof {
            let a = self.phase as int;
            let b = period as int;
            let c = self.period as int;
            assert(a * b < b * c) by (nonlinear_arith)
                requires a < c, 0 < b;
            assert(0 <= a * b <= (MAX_PERIOD as int) * (MAX_PERIOD as int)) by (nonlinear_arith)
                requires a < c, c <= MAX_PERIOD, b <= MAX_PERIOD, 0 <= a, 0 <= b;
            vstd::arithmetic::div_mod::lemma_div_by_multiple_is_strongly_ordered(a * b, b * c, b, c);
            vstd::arithmetic::div_mod::lemma_div_multiples_vanish(b, c);
        }
        let scaled = (self.phase as u128 * period as u128) / self.period as u128;
        self.phase = scaled as u64;
        self.period = period;
    }
}

} // verus!
