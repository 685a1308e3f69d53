//! One cycle of a waveform, sampled at equal steps of phase.
use vstd::prelude::*;

use crate::{AMP_ONE, MAX_PERIOD};

verus! {

/// The most samples a wavetable may hold.
pub const MAX_TABLE_LEN: usize = 65536;

/// One cycle of a waveform: sample `i` is the value at normalised phase
/// `i / len`, in `[-AMP_ONE, AMP_ONE]`.
pub struct Wavetable {
    values: Vec<i32>,
}

/// Whether `values` can be a wavetable: not empty, not too long, and every
/// sample within the amplitude range.
pub open spec fn valid_samples(values: Seq<i32>) -> bool {
    &&& 0 < values.len() <= MAX_TABLE_LEN
    &&& forall|i: int| 0 <= i < values.len() ==> -AMP_ONE <= #[trigger] values[i] <= AMP_ONE
}

/// The sample that a table plays at `phase` out of `period`.
pub open spec fn wave_at(table: Seq<i32>, phase: int, period: int) -> int {
    table[phase * table.len() / period] as int
}

impl View for Wavetable {
    type V = Seq<i32>;

    closed spec fn view(&self) -> Seq<i32> {
        self.values@
    }
}

impl Wavetable {
    #[verifier::type_invariant]
    closed spec fn inv(&self) -> bool {
        valid_samples(self.values@)
    }

    /// A wavetable of `values`, or `None` where they are not valid samples.
    pub fn from_samples(values: Vec<i32>) -> (r: Option<Wavetable>)
        ensures
            r is Some <==> valid_samples(values@),
            r matches Some(t) ==> t@ == values@,
    {
        if values.len() == 0 || values.len() > MAX_TABLE_LEN {
            return None;
        }
        let mut i: usize = 0;
        while i < values.len()
            invariant
                0 <= i <= values.len(),
                forall|j: int| 0 <= j < i ==> -AMP_ONE <= #[trigger] values@[j] <= AMP_ONE,
            decreases values.len() - i,
        {
            if values[i] < -AMP_ONE || values[i] > AMP_ONE {
                return None;
            }
            i = i + 1;
        }
        Some(Wavetable { values })
    }

    /// Number of samples in one cycle.
    pub fn len(&self) -> (r: usize)
        ensures
            r == self@.len(),
            0 < r <= MAX_TABLE_LEN,
    {
        proof {
            use_type_invariant(self);
        }
        self.values.len()
    }

    /// The sample at `phase` out of `period`.
    pub fn sample(&self, phase: u64, period: u64) -> (r: i32)
        requires
            phase < period <= MAX_PERIOD,
        ensures
            r as int == wave_at(self@, phase as int, period as int),
            -AMP_ONE <= r <= AMP_ONE,
    {
        proof {
            use_type_invariant(self);
        }
        let n = self.values.len();
        proof {
            let a = phase as int;
            let l = n as int;
            let p = period as int;
            assert(a * l < p * l) by (nonlinear_arith)
                requires a < p, 0 < l;
            assert(0 <= a * l <= MAX_PERIOD * MAX_TABLE_LEN) by (nonlinear_arith)
                requires 0 <= a < p, p <= MAX_PERIOD, 0 < l <= MAX_TABLE_LEN;
            vstd::arithmetic::div_mod::lemma_div_by_multiple_is_strongly_ordered(a * l, p * l, l, p);
            assert(p * l == l * p) by (nonlinear_arith);
            vstd::arithmetic::div_mod::lemma_div_multiples_vanish(l, p);
            vstd::arithmetic::div_mod::lemma_div_pos_is_pos(a * l, p);
        }
        let idx = ((phase as u128 * n as u128) / period as u128) as usize;
        self.values[idx]
    }
}

} // verus!
