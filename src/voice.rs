//! A voice: two oscillators in a linear FM chain, shaped by one envelope and
//! bound to a note.
use vstd::prelude::*;

use crate::arith::{div_toward_zero, lemma_trunc_div_bound, reduce_mod, trunc_div};
use crate::envelope::{next_envelope, released, triggered, Envelope, EnvelopeParams, Stage};
use crate::oscillator::Oscillator;
use crate::wavetable::{wave_at, Wavetable};
use crate::{AMP_ONE, FREQ_SCALE, LEVEL_ONE, PARAM_ONE};

verus! {

/// Note frequency of a voice that has not played yet: 440 Hz.
pub const DEFAULT_NOTE_FREQUENCY: u32 = 440000;

/// One voice. `carrier` is operator 1, whose output is heard; `modulator` is
/// operator 2, whose output bends the carrier's frequency. A voice is free
/// when its envelope is idle; `assigned_note` may then still name the last
/// note it played.
#[derive(Clone, Copy, Debug, PartialEq, Eq)]
pub struct Voice {
    pub carrier: Oscillator,
    pub modulator: Oscillator,
    pub envelope: Envelope,
    pub assigned_note: Option<u8>,
    pub note_frequency: u32,
}

/// Frequency of the modulator: the note frequency times the ratio.
pub open spec fn mod_frequency(note_frequency: int, ratio: int) -> int {
    note_frequency * ratio / (PARAM_ONE as int)
}

/// Frequency deviation of the carrier: the modulator's output (out of
/// `AMP_ONE`) times the depth (out of `PARAM_ONE`) times the note frequency.
pub open spec fn deviation(mod_out: int, depth: int, note_frequency: int) -> int {
    trunc_div(mod_out * depth * note_frequency, AMP_ONE * PARAM_ONE)
}

/// Instantaneous carrier frequency: the modulator's frequency plus the
/// deviation that the modulator's output gives. This is linear FM: the
/// carrier runs at `note_frequency * ratio`, bent by the modulator; with no
/// depth it is a plain oscillator at that frequency.
pub open spec fn carrier_frequency(note_frequency: int, ratio: int, depth: int, mod_out: int) -> int {
    mod_frequency(note_frequency, ratio) + deviation(mod_out, depth, note_frequency)
}

/// A waveform sample weighted by an envelope level.
pub open spec fn scaled_output(sample: int, level: int) -> int {
    trunc_div(sample * level, LEVEL_ONE as int)
}

/// An oscillator advanced by `f` frequency units, whatever their sign.
pub open spec fn advanced(o: Oscillator, f: int) -> Oscillator {
    Oscillator { phase: ((o.phase + f) % (o.period as int)) as u64, period: o.period }
}

/// Whether a voice is free for a new note.
pub open spec fn is_free(v: Voice) -> bool {
    v.envelope.stage == Stage::Idle
}

/// The voice one sample later: envelope first, then modulator, then carrier.
pub open spec fn next_voice(v: Voice, table: Seq<i32>, ratio: u32, depth: u32, p: EnvelopeParams) -> Voice {
    let m = wave_at(table, v.modulator.phase as int, v.modulator.period as int);
    Voice {
        envelope: next_envelope(v.envelope, p),
        modulator: advanced(v.modulator, mod_frequency(v.note_frequency as int, ratio as int)),
        carrier: advanced(
            v.carrier,
            carrier_frequency(v.note_frequency as int, ratio as int, depth as int, m),
        ),
        ..v
    }
}

/// What a voice emits for one sample: the carrier's sample at its current
/// phase, weighted by the envelope's new level.
pub open spec fn voice_output(v: Voice, table: Seq<i32>, p: EnvelopeParams) -> int {
    scaled_output(
        wave_at(table, v.carrier.phase as int, v.carrier.period as int),
        next_envelope(v.envelope, p).level as int,
    )
}

/// A voice bound to `note` at `frequency`, its envelope restarted.
pub open spec fn note_on_voice(v: Voice, note: u8, frequency: u32) -> Voice {
    Voice {
        envelope: triggered(v.envelope),
        assigned_note: Some(note),
        note_frequency: frequency,
        ..v
    }
}

/// A voice after a note-off for `note`: released if it is bound to that note.
pub open spec fn note_off_voice(v: Voice, note: u8) -> Voice {
    if v.assigned_note == Some(note) {
        Voice { envelope: released(v.envelope), ..v }
    } else {
        v
    }
}

/// The modulator's frequency (see `mod_frequency`).
fn modulator_frequency(note_frequency: u32, ratio: u32) -> (r: i128)
    ensures
        r == mod_frequency(note_frequency as int, ratio as int),
        0 <= r <= 0x1_0000_0000 * 0x1_0000_0000int,
{
    proof {
        let x = note_frequency as int * ratio as int;
        assert(0 <= x <= 0x1_0000_0000 * 0x1_0000_0000int) by (nonlinear_arith)
            requires x == note_frequency as int * ratio as int, note_frequency <= 0xffff_ffff, ratio <= 0xffff_ffff;
        vstd::arithmetic::div_mod::lemma_div_basics_5(x, PARAM_ONE as int);
        vstd::arithmetic::div_mod::lemma_div_pos_is_pos(x, PARAM_ONE as int);
    }
    let a = note_frequency as u128 * ratio as u128;
    (a / PARAM_ONE as u128) as i128
}

/// A voice whose oscillators move to `period`, each keeping its normalised
/// phase (rounded down).
pub open spec fn with_period(v: Voice, period: int) -> Voice {
    Voice {
        carrier: Oscillator { phase: (v.carrier.phase * period / (v.carrier.period as int)) as u64, period: period as u64 },
        modulator: Oscillator { phase: (v.modulator.phase * period / (v.modulator.period as int)) as u64, period: period as u64 },
        ..v
    }
}

/// A voice returned to silence: zero phases, an idle envelope at level zero,
/// no bound note.
pub open spec fn silenced(v: Voice) -> Voice {
    Voice {
        carrier: Oscillator { phase: 0, period: v.carrier.period },
        modulator: Oscillator { phase: 0, period: v.modulator.period },
        envelope: Envelope { level: 0, stage: Stage::Idle },
        assigned_note: None,
        note_frequency: v.note_frequency,
    }
}

impl Voice {
    /// A valid voice: valid parts, both oscillators at one period.
    pub open spec fn wf(&self) -> bool {
        &&& self.carrier.wf()
        &&& self.modulator.wf()
        &&& self.carrier.period == self.modulator.period
        &&& self.envelope.wf()
    }

    /// A free, silent voice at a sample rate of 1 Hz, to be set before use.
    pub fn new() -> (r: Voice)
        ensures
            r.wf(),
            r.carrier == (Oscillator { phase: 0, period: FREQ_SCALE }),
            r.modulator == (Oscillator { phase: 0, period: FREQ_SCALE }),
            r.envelope == (Envelope { level: 0, stage: Stage::Idle }),
            r.assigned_note is None,
            r.note_frequency == DEFAULT_NOTE_FREQUENCY,
    {
        Voice {
            carrier: Oscillator::new(FREQ_SCALE),
            modulator: Oscillator::new(FREQ_SCALE),
            envelope: Envelope::new(),
            assigned_note: None,
            note_frequency: DEFAULT_NOTE_FREQUENCY,
        }
    }

    /// Sets the sample rate in hertz; both phases keep their normalised value.
    pub fn set_sample_rate(&mut self, rate: u32)
        requires
            old(self).wf(),
            0 < rate,
        ensures
            final(self).wf(),
            *final(self) == with_period(*old(self), rate as int * FREQ_SCALE),
    {
        let period = rate as u64 * FREQ_SCALE;
        self.carrier.set_period(period);
        self.modulator.set_period(period);
    }

    /// Returns the voice to silence: zero phases, an idle envelope at level
    /// zero, no bound note.
    pub fn reset(&mut self)
        requires
            old(self).wf(),
        ensures
            final(self).wf(),
            *final(self) == silenced(*old(self)),
    {
        self.carrier.phase = 0;
        self.modulator.phase = 0;
        self.envelope = Envelope::new();
        self.assigned_note = None;
    }

    /// Carrier step: emits the wavetable's sample at the carrier's phase, then
    /// advances the carrier by `frequency`.
    pub fn calculate_sine(&mut self, table: &Wavetable, frequency: i128) -> (r: i32)
        requires
            old(self).wf(),
        ensures
            final(self).wf(),
            r as int == wave_at(table@, old(self).carrier.phase as int, old(self).carrier.period as int),
            -AMP_ONE <= r <= AMP_ONE,
            *final(self) == (Voice { carrier: advanced(old(self).carrier, frequency as int), ..*old(self) }),
    {
        let sample = table.sample(self.carrier.phase, self.carrier.period);
        let increment = reduce_mod(frequency, self.carrier.period);
        let ghost before = self.carrier;
        self.carrier.advance(increment);
        proof {
            vstd::arithmetic::div_mod::lemma_add_mod_noop_right(before.phase as int, frequency as int, before.period as int);
        }
        sample
    }

    /// Modulator step: advances the modulator at `input_frequency` times
    /// `ratio`, and returns the carrier's frequency deviation that the
    /// modulator's output at its previous phase gives at `depth`.
    pub fn calculate_frequency(&mut self, table: &Wavetable, input_frequency: u32, ratio: u32, depth: u32) -> (r: i128)
        requires
            old(self).wf(),
        ensures
            final(self).wf(),
            r == deviation(
                wave_at(table@, old(self).modulator.phase as int, old(self).modulator.period as int),
                depth as int,
                input_frequency as int,
            ),
            *final(self) == (Voice {
                modulator: advanced(old(self).modulator, mod_frequency(input_frequency as int, ratio as int)),
                ..*old(self)
            }),
            -0x1_0000_0000 * 0x1_0000_0000int <= r <= 0x1_0000_0000 * 0x1_0000_0000int,
    {
        let m = table.sample(self.modulator.phase, self.modulator.period);
        let f = modulator_frequency(input_frequency, ratio);
        let increment = reduce_mod(f, self.modulator.period);
        let ghost before = self.modulator;
        self.modulator.advance(increment);
        proof {
            vstd::arithmetic::div_mod::lemma_add_mod_noop_right(before.phase as int, f as int, before.period as int);
            let x = m as int;
            let y = depth as int;
            let z = input_frequency as int;
            let k = 0x1_0000_0000 * 0x1_0000_0000int;
            assert(-0x8000 * 0x1_0000_0000 <= x * y <= 0x8000 * 0x1_0000_0000) by (nonlinear_arith)
                requires -0x8000 <= x <= 0x8000, 0 <= y <= 0xffff_ffff;
            assert(-(k * (AMP_ONE * PARAM_ONE)) <= x * y * z <= k * (AMP_ONE * PARAM_ONE)) by (nonlinear_arith)
                requires -0x8000 <= x <= 0x8000, 0 <= y <= 0xffff_ffff, 0 <= z <= 0xffff_ffff,
                    k == 0x1_0000_0000 * 0x1_0000_0000int, AMP_ONE * PARAM_ONE == 0x8000 * 1000;
            lemma_trunc_div_bound(x * y * z, AMP_ONE * PARAM_ONE, k);
        }
        let product = m as i128 * depth as i128 * input_frequency as i128;
        div_toward_zero(product, AMP_ONE as u128 * PARAM_ONE as u128)
    }

    /// Envelope step: advances the envelope by one sample, returns its level.
    pub fn calculate_envelope(&mut self, p: &EnvelopeParams) -> (r: u32)
        requires
            old(self).wf(),
        ensures
            final(self).wf(),
            *final(self) == (Voice { envelope: next_envelope(old(self).envelope, *p), ..*old(self) }),
            r == final(self).envelope.level,
    {
        self.envelope.advance(p)
    }

    /// Renders one sample: envelope, then modulator, then carrier, whose
    /// sample weighted by the envelope level is returned.
    pub fn render(&mut self, table: &Wavetable, ratio: u32, depth: u32, p: &EnvelopeParams) -> (r: i64)
        requires
            old(self).wf(),
        ensures
            final(self).wf(),
            *final(self) == next_voice(*old(self), table@, ratio, depth, *p),
            r == voice_output(*old(self), table@, *p),
            -AMP_ONE <= r <= AMP_ONE,
    {
        let level = self.calculate_envelope(p);
        let note_frequency = self.note_frequency;
        let dev = self.calculate_frequency(table, note_frequency, ratio, depth);
        let base = modulator_frequency(note_frequency, ratio);
        let sample = self.calculate_sine(table, base + dev);
        proof {
            let x = sample as int;
            let y = level as int;
            assert(-(0x8000 * (LEVEL_ONE as int)) <= x * y <= 0x8000 * (LEVEL_ONE as int)) by (nonlinear_arith)
                requires -0x8000 <= x <= 0x8000, 0 <= y <= LEVEL_ONE;
            lemma_trunc_div_bound(x * y, LEVEL_ONE as int, 0x8000);
        }
        let out = div_toward_zero(sample as i128 * level as i128, LEVEL_ONE as u128);
        out as i64
    }

    /// Binds the voice to `note` at `frequency` and restarts its envelope.
    pub fn note_on(&mut self, note: u8, frequency: u32)
        requires
            old(self).wf(),
        ensures
            final(self).wf(),
            *final(self) == note_on_voice(*old(self), note, frequency),
    {
        self.assigned_note = Some(note);
        self.note_frequency = frequency;
        self.envelope.trigger();
    }

    /// Releases the voice if it is bound to `note`.
    pub fn note_off(&mut self, note: u8)
        requires
            old(self).wf(),
        ensures
            final(self).wf(),
            *final(self) == note_off_voice(*old(self), note),
    {
        if self.assigned_note == Some(note) {
            self.envelope.release();
        }
    }
}

} // verus!
