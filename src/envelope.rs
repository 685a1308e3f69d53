//! ADSR envelope: a five-stage machine advanced once per sample.
use vstd::prelude::*;

use crate::LEVEL_ONE;

verus! {

/// Stage of an envelope. `Idle` is both the initial and the terminal stage,
/// and marks a voice as free.
#[derive(Clone, Copy, Debug, PartialEq, Eq, Structural)]
pub enum Stage {
    Attack,
    Decay,
    Sustain,
    Release,
    Idle,
}

/// Per-sample envelope parameters: the three times are in samples, the
/// sustain level in level units.
#[derive(Clone, Copy, Debug, PartialEq, Eq)]
pub struct EnvelopeParams {
    pub attack: u32,
    pub decay: u32,
    pub sustain: u32,
    pub release: u32,
}

/// Current level and stage of one envelope.
#[derive(Clone, Copy, Debug, PartialEq, Eq)]
pub struct Envelope {
    pub level: u32,
    pub stage: Stage,
}

/// Level change per sample for a stage lasting `time` samples: a whole level
/// of `LEVEL_ONE` spread over `time` samples, rounded up so that the stage
/// ends within `time` samples. A time of zero counts as one sample.
pub open spec fn slope(time: u32) -> int {
    let t: int = if time == 0 { 1 } else { time as int };
    (LEVEL_ONE as int + t - 1) / t
}

/// The sustain level actually used: at most `LEVEL_ONE`.
pub open spec fn sustain_level(sustain: u32) -> int {
    if sustain > LEVEL_ONE { LEVEL_ONE as int } else { sustain as int }
}

/// The envelope one sample later. The attack ends on the sample at which the
/// level reaches `LEVEL_ONE`, where it is held; the decay ends at the sustain
/// level, which the sustain stage then follows as it changes; the release
/// ends at zero, in `Idle`, which no sample leaves.
pub open spec fn next_envelope(e: Envelope, p: EnvelopeParams) -> Envelope {
    let s = sustain_level(p.sustain);
    match e.stage {
        Stage::Attack => {
            let l = e.level + slope(p.attack);
            if l >= LEVEL_ONE {
                Envelope { level: LEVEL_ONE, stage: Stage::Decay }
            } else {
                Envelope { level: l as u32, stage: Stage::Attack }
            }
        },
        Stage::Decay => {
            let l = e.level - slope(p.decay);
            if l <= s {
                Envelope { level: s as u32, stage: Stage::Sustain }
            } else {
                Envelope { level: l as u32, stage: Stage::Decay }
            }
        },
        Stage::Sustain => Envelope { level: s as u32, stage: Stage::Sustain },
        Stage::Release => {
            let l = e.level - slope(p.release);
            if l <= 0 {
                Envelope { level: 0, stage: Stage::Idle }
            } else {
                Envelope { level: l as u32, stage: Stage::Release }
            }
        },
        Stage::Idle => e,
    }
}

/// The envelope after a note-on: the stage restarts at `Attack` from the
/// current level, so that the output does not jump.
pub open spec fn triggered(e: Envelope) -> Envelope {
    Envelope { level: e.level, stage: Stage::Attack }
}

/// The envelope after a note-off: any sounding stage moves to `Release`; an
/// idle envelope stays as it is.
pub open spec fn released(e: Envelope) -> Envelope {
    if e.stage == Stage::Idle {
        e
    } else {
        Envelope { level: e.level, stage: Stage::Release }
    }
}

/// Level change per sample for a stage lasting `time` samples (see `slope`).
fn step_size(time: u32) -> (r: u32)
    ensures
        r as int == slope(time),
        1 <= r <= LEVEL_ONE,
{
    let t: u64 = if time == 0 { 1 } else { time as u64 };
    let q = (LEVEL_ONE as u64 + (t - 1)) / t;
    proof {
        let n = LEVEL_ONE as int + t - 1;
        let ti = t as int;
        vstd::arithmetic::div_mod::lemma_div_is_ordered(ti, n, ti);
        vstd::arithmetic::div_mod::lemma_div_by_self(ti);
        assert(n <= ti * LEVEL_ONE) by (nonlinear_arith)
            requires n == LEVEL_ONE as int + ti - 1, ti >= 1;
        vstd::arithmetic::div_mod::lemma_div_is_ordered(n, ti * LEVEL_ONE, ti);
        vstd::arithmetic::div_mod::lemma_div_multiples_vanish(LEVEL_ONE as int, ti);
    }
    let r = q as u32;
    r
}

impl Envelope {
    /// A valid envelope: the level lies in `[0, LEVEL_ONE]`, and it is zero
    /// whenever the envelope is idle.
    pub open spec fn wf(&self) -> bool {
        &&& self.level <= LEVEL_ONE
        &&& (self.stage == Stage::Idle ==> self.level == 0)
    }

    /// A silent, idle envelope.
    pub fn new() -> (r: Envelope)
        ensures
            r.wf(),
            r == (Envelope { level: 0, stage: Stage::Idle }),
    {
        Envelope { level: 0, stage: Stage::Idle }
    }

    /// Advances the envelope by one sample and returns the new level.
    pub fn advance(&mut self, p: &EnvelopeParams) -> (r: u32)
        requires
            old(self).wf(),
        ensures
            *final(self) == next_envelope(*old(self), *p),
            final(self).wf(),
            r == final(self).level,
    {
        let sustain: u32 = if p.sustain > LEVEL_ONE { LEVEL_ONE } else { p.sustain };
        match self.stage {
            Stage::Attack => {
                let l = self.level + step_size(p.attack);
                if l >= LEVEL_ONE {
                    self.level = LEVEL_ONE;
                    self.stage = Stage::Decay;
                } else {
                    self.level = l;
                }
            },
            Stage::Decay => {
                let d = step_size(p.decay);
                if self.level <= sustain || self.level - sustain <= d {
                    self.level = sustain;
                    self.stage = Stage::Sustain;
                } else {
                    self.level = self.level - d;
                }
            },
            Stage::Sustain => {
                self.level = sustain;
            },
            Stage::Release => {
                let d = step_size(p.release);
                if self.level <= d {
                    self.level = 0;
                    self.stage = Stage::Idle;
                } else {
                    self.level = self.level - d;
                }
            },
            Stage::Idle => {},
        }
        self.level
    }

    /// Restarts the attack from the current level (note-on).
    pub fn trigger(&mut self)
        requires
            old(self).wf(),
        ensures
            *final(self) == triggered(*old(self)),
            final(self).wf(),
    {
        self.stage = Stage::Attack;
    }

    /// Moves a sounding envelope into its release (note-off).
    pub fn release(&mut self)
        requires
            old(self).wf(),
        ensures
            *final(self) == released(*old(self)),
            final(self).wf(),
    {
        if self.stage != Stage::Idle {
            self.stage = Stage::Release;
        }
    }
}

} // verus!
