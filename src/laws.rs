//! Properties of the engine that hold over all inputs.
use vstd::prelude::*;

use crate::envelope::{next_envelope, released, sustain_level, triggered, Envelope, EnvelopeParams, Stage};
use crate::oscillator::{wrapped, Oscillator};
use crate::synth::{accepts, apply_event, note_off_pool, note_on_pool, render_pool, slot_for, first_accepting, EventKind, NoteEvent, Snapshot};
use crate::voice::{
    advanced, deviation, is_free, mod_frequency, next_voice, scaled_output, voice_output, Voice,
};
use crate::wavetable::wave_at;
use crate::{LEVEL_ONE, PARAM_ONE};

verus! {

/// An oscillator after advancing by each increment of `increments` in turn.
pub open spec fn advance_all(o: Oscillator, increments: Seq<u64>) -> Oscillator
    decreases increments.len(),
{
    if increments.len() == 0 {
        o
    } else {
        let prev = advance_all(o, increments.drop_last());
        Oscillator {
            phase: wrapped(prev.phase as int, increments.last() as int, prev.period as int) as u64,
            period: prev.period,
        }
    }
}

/// Phase invariant: advancing an oscillator by any sequence of increments,
/// each below one period, keeps its phase in `[0, period)`, that is the
/// normalised phase in `[0, 1)`.
pub proof fn lemma_phase_stays_in_cycle(o: Oscillator, increments: Seq<u64>)
    requires
        o.wf(),
        forall|i: int| 0 <= i < increments.len() ==> #[trigger] increments[i] < o.period,
    ensures
        advance_all(o, increments).wf(),
        advance_all(o, increments).period == o.period,
    decreases increments.len(),
{
    if increments.len() > 0 {
        let rest = increments.drop_last();
        assert forall|i: int| 0 <= i < rest.len() implies #[trigger] rest[i] < o.period by {
            assert(rest[i] == increments[i]);
        }
        lemma_phase_stays_in_cycle(o, rest);
        assert(increments.last() == increments[increments.len() - 1]);
    }
}

/// An envelope after one sample for each parameter snapshot of `params`.
pub open spec fn run_envelope(e: Envelope, params: Seq<EnvelopeParams>) -> Envelope
    decreases params.len(),
{
    if params.len() == 0 {
        e
    } else {
        next_envelope(run_envelope(e, params.drop_last()), params.last())
    }
}

/// Envelope boundedness: from a valid envelope, any run of samples (with any
/// time parameters, zero included) keeps the level in `[0, LEVEL_ONE]`, and
/// so do note-on and note-off at any point.
pub proof fn lemma_envelope_bounded(e: Envelope, params: Seq<EnvelopeParams>)
    requires
        e.wf(),
    ensures
        run_envelope(e, params).wf(),
        run_envelope(e, params).level <= LEVEL_ONE,
        triggered(run_envelope(e, params)).wf(),
        released(run_envelope(e, params)).wf(),
    decreases params.len(),
{
    if params.len() > 0 {
        lemma_envelope_bounded(e, params.drop_last());
        lemma_envelope_step_bounded(run_envelope(e, params.drop_last()), params.last());
    }
}

/// One envelope step keeps a valid envelope valid.
pub proof fn lemma_envelope_step_bounded(e: Envelope, p: EnvelopeParams)
    requires
        e.wf(),
    ensures
        next_envelope(e, p).wf(),
{
}

/// Within a stage the level moves one way: it does not fall during the
/// attack, does not rise during the release, nor during the decay while the
/// sustain level is not above it, and equals the sustain level while
/// sustaining.
pub proof fn lemma_envelope_monotone(e: Envelope, p: EnvelopeParams)
    requires
        e.wf(),
    ensures
        e.stage == Stage::Attack ==> next_envelope(e, p).level >= e.level,
        e.stage == Stage::Decay && sustain_level(p.sustain) <= e.level ==> next_envelope(e, p).level <= e.level,
        e.stage == Stage::Sustain ==> next_envelope(e, p).level == sustain_level(p.sustain),
        e.stage == Stage::Release ==> next_envelope(e, p).level <= e.level,
        e.stage == Stage::Idle ==> next_envelope(e, p) == e,
{
}

/// Idle until retriggered: a free voice stays free through a rendered sample
/// and through any event but a note-on.
pub proof fn lemma_idle_until_note_on(
    voices: Seq<Voice>,
    i: int,
    table: Seq<i32>,
    s: Snapshot,
    e: NoteEvent,
    pitches: Seq<u32>,
)
    requires
        0 <= i < voices.len(),
        is_free(voices[i]),
        e.kind != EventKind::NoteOn,
    ensures
        is_free(render_pool(voices, table, s)[i]),
        is_free(apply_event(voices, e, pitches)[i]),
        render_pool(voices, table, s)[i].envelope == voices[i].envelope,
        apply_event(voices, e, pitches)[i].envelope == voices[i].envelope,
{
}

/// The binding of each voice: whether it is free, and the note it is bound to.
pub open spec fn bindings(voices: Seq<Voice>) -> Seq<(bool, Option<u8>)> {
    voices.map_values(|v: Voice| (is_free(v), v.assigned_note))
}

/// The pool after a note-on for each note of `notes` in turn.
pub open spec fn note_ons(voices: Seq<Voice>, notes: Seq<u8>, pitches: Seq<u32>) -> Seq<Voice>
    decreases notes.len(),
{
    if notes.len() == 0 {
        voices
    } else {
        let prev = note_ons(voices, notes.drop_last(), pitches);
        note_on_pool(prev, notes.last(), pitches[notes.last() as int])
    }
}

/// The slot that a note-on takes depends on the voices' bindings alone.
pub proof fn lemma_slot_depends_on_bindings(a: Seq<Voice>, b: Seq<Voice>, note: u8)
    requires
        bindings(a) == bindings(b),
    ensures
        slot_for(a, note) == slot_for(b, note),
{
    assert(a.len() == bindings(a).len());
    lemma_first_accepting_same(a, b, note, 0);
}

proof fn lemma_first_accepting_same(a: Seq<Voice>, b: Seq<Voice>, note: u8, from: int)
    requires
        bindings(a) == bindings(b),
        0 <= from,
    ensures
        first_accepting(a, note, from) == first_accepting(b, note, from),
    decreases a.len() - from,
{
    assert(a.len() == bindings(a).len() && b.len() == bindings(b).len());
    if from < a.len() {
        assert(bindings(a)[from] == bindings(b)[from]);
        lemma_first_accepting_same(a, b, note, from + 1);
    }
}

/// When no voice is free or bound to the note, a note-on steals voice 0.
pub proof fn lemma_full_pool_steals_first(voices: Seq<Voice>, note: u8)
    requires
        forall|i: int| 0 <= i < voices.len() ==> !accepts(#[trigger] voices[i], note),
    ensures
        slot_for(voices, note) == 0,
{
    lemma_first_accepting_none(voices, note, 0);
}

proof fn lemma_first_accepting_none(voices: Seq<Voice>, note: u8, from: int)
    requires
        0 <= from,
        forall|i: int| 0 <= i < voices.len() ==> !accepts(#[trigger] voices[i], note),
    ensures
        first_accepting(voices, note, from) == 0,
    decreases voices.len() - from,
{
    if from < voices.len() {
        assert(!accepts(voices[from], note));
        lemma_first_accepting_none(voices, note, from + 1);
    }
}

/// Voice-stealing determinism: from pools with the same bindings, the same
/// sequence of note-ons leads to the same bindings, whatever the voices'
/// levels, phases and frequencies.
pub proof fn lemma_note_ons_deterministic(a: Seq<Voice>, b: Seq<Voice>, notes: Seq<u8>, pitches: Seq<u32>)
    requires
        bindings(a) == bindings(b),
        a.len() > 0,
        forall|i: int| 0 <= i < notes.len() ==> (#[trigger] notes[i]) < pitches.len(),
    ensures
        bindings(note_ons(a, notes, pitches)) == bindings(note_ons(b, notes, pitches)),
        note_ons(a, notes, pitches).len() == a.len(),
    decreases notes.len(),
{
    if notes.len() > 0 {
        let rest = notes.drop_last();
        assert forall|i: int| 0 <= i < rest.len() implies (#[trigger] rest[i]) < pitches.len() by {
            assert(rest[i] == notes[i]);
        }
        lemma_note_ons_deterministic(a, b, rest, pitches);
        let pa = note_ons(a, rest, pitches);
        let pb = note_ons(b, rest, pitches);
        let n = notes.last();
        assert(pa.len() == bindings(pa).len() && pb.len() == bindings(pb).len());
        lemma_slot_depends_on_bindings(pa, pb, n);
        lemma_slot_in_range(pa, n);
        let k = slot_for(pa, n);
        let f = pitches[n as int];
        let ra = note_on_pool(pa, n, f);
        let rb = note_on_pool(pb, n, f);
        assert forall|j: int| 0 <= j < ra.len() implies bindings(ra)[j] == bindings(rb)[j] by {
            assert(bindings(pa)[j] == bindings(pb)[j]);
        }
        assert(bindings(ra) =~= bindings(rb));
    }
}

/// The slot that a note-on takes is the first voice, in pool order, that is
/// free or bound to the note; where no voice is, it is voice 0.
pub proof fn lemma_slot_is_first_accepting(voices: Seq<Voice>, note: u8)
    requires
        voices.len() > 0,
    ensures
        0 <= slot_for(voices, note) < voices.len(),
        forall|j: int| 0 <= j < slot_for(voices, note) ==> !accepts(#[trigger] voices[j], note),
        accepts(voices[slot_for(voices, note)], note) || (slot_for(voices, note) == 0 && forall|j: int|
            0 <= j < voices.len() ==> !accepts(#[trigger] voices[j], note)),
{
    lemma_first_accepting_first(voices, note, 0);
}

proof fn lemma_first_accepting_first(voices: Seq<Voice>, note: u8, from: int)
    requires
        voices.len() > 0,
        0 <= from <= voices.len(),
        forall|j: int| 0 <= j < from ==> !accepts(#[trigger] voices[j], note),
    ensures
        0 <= first_accepting(voices, note, from) < voices.len(),
        forall|j: int| 0 <= j < first_accepting(voices, note, from) ==> !accepts(#[trigger] voices[j], note),
        accepts(voices[first_accepting(voices, note, from)], note) || (first_accepting(voices, note, from) == 0
            && forall|j: int| 0 <= j < voices.len() ==> !accepts(#[trigger] voices[j], note)),
    decreases voices.len() - from,
{
    if from < voices.len() && !accepts(voices[from], note) {
        lemma_first_accepting_first(voices, note, from + 1);
    }
}

/// The slot that a note-on takes lies in the pool.
pub proof fn lemma_slot_in_range(voices: Seq<Voice>, note: u8)
    requires
        voices.len() > 0,
    ensures
        0 <= slot_for(voices, note) < voices.len(),
{
    lemma_first_accepting_range(voices, note, 0);
}

proof fn lemma_first_accepting_range(voices: Seq<Voice>, note: u8, from: int)
    requires
        voices.len() > 0,
        0 <= from,
    ensures
        0 <= first_accepting(voices, note, from) < voices.len(),
    decreases voices.len() - from,
{
    if from < voices.len() {
        lemma_first_accepting_range(voices, note, from + 1);
    }
}

/// Note-off touches bound voices only: for a note that no voice is bound to,
/// it changes nothing.
pub proof fn lemma_note_off_unbound_is_noop(voices: Seq<Voice>, note: u8)
    requires
        forall|i: int| 0 <= i < voices.len() ==> (#[trigger] voices[i]).assigned_note != Some(note),
    ensures
        note_off_pool(voices, note) == voices,
{
    assert(note_off_pool(voices, note) =~= voices);
}

/// With a ratio of one and no depth, the carrier runs at exactly the note
/// frequency, as a plain oscillator fed that frequency would, and the voice
/// emits that oscillator's sample weighted by the envelope.
pub proof fn lemma_zero_depth_plain_carrier(v: Voice, table: Seq<i32>, p: EnvelopeParams)
    ensures
        next_voice(v, table, PARAM_ONE as u32, 0, p).carrier == advanced(v.carrier, v.note_frequency as int),
        next_voice(v, table, PARAM_ONE as u32, 0, p).modulator == advanced(v.modulator, v.note_frequency as int),
        voice_output(v, table, p) == scaled_output(
            wave_at(table, v.carrier.phase as int, v.carrier.period as int),
            next_envelope(v.envelope, p).level as int,
        ),
{
    let nf = v.note_frequency as int;
    vstd::arithmetic::div_mod::lemma_div_multiples_vanish(nf, PARAM_ONE as int);
    assert(nf * PARAM_ONE == PARAM_ONE * nf) by (nonlinear_arith);
    assert(mod_frequency(nf, PARAM_ONE as int) == nf);
    let m = wave_at(table, v.modulator.phase as int, v.modulator.period as int);
    assert(m * 0 * nf == 0) by (nonlinear_arith);
    assert(deviation(m, 0, nf) == 0);
}

} // verus!
