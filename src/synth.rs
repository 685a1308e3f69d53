//! The voice pool: note events onto voices, and the mono mix.
use vstd::prelude::*;

use crate::arith::{div_toward_zero, lemma_trunc_div_bound, trunc_div};
use crate::envelope::{Envelope, EnvelopeParams, Stage};
use crate::oscillator::Oscillator;
use crate::voice::{
    is_free, next_voice, note_off_voice, note_on_voice, silenced, voice_output, with_period, Voice,
    DEFAULT_NOTE_FREQUENCY,
};
use crate::wavetable::Wavetable;
use crate::{AMP_ONE, FREQ_SCALE, PARAM_ONE};

verus! {

/// The most voices a pool may hold.
pub const MAX_VOICES: usize = 64;

/// Number of MIDI notes: valid notes are `0..NOTE_COUNT`.
pub const NOTE_COUNT: usize = 128;

/// Kind of a note event.
#[derive(Clone, Copy, Debug, PartialEq, Eq, Structural)]
pub enum EventKind {
    NoteOn,
    NoteOff,
}

/// A note event, `timing` samples into the current block. The velocity is
/// accepted but does not shape the sound.
#[derive(Clone, Copy, Debug, PartialEq, Eq)]
pub struct NoteEvent {
    pub kind: EventKind,
    pub note: u8,
    pub velocity: u8,
    pub timing: u32,
}

/// Parameter values for one sample: gain, ratio and depth in thousandths,
/// and the envelope's parameters.
#[derive(Clone, Copy, Debug, PartialEq, Eq)]
pub struct Snapshot {
    pub gain: u32,
    pub ratio: u32,
    pub depth: u32,
    pub envelope: EnvelopeParams,
}

/// A fixed pool of voices. `pitches[n]` is the frequency of MIDI note `n`.
pub struct Synth {
    pub voices: Vec<Voice>,
    pub pitches: Vec<u32>,
    pub sample_rate: u32,
}

/// Whether voice `v` may take `note`: it is free, or already bound to it.
pub open spec fn accepts(v: Voice, note: u8) -> bool {
    is_free(v) || v.assigned_note == Some(note)
}

/// The first voice from `from` on that accepts `note`, or voice 0 when none does.
pub open spec fn first_accepting(voices: Seq<Voice>, note: u8, from: int) -> int
    decreases voices.len() - from,
{
    if from >= voices.len() {
        0
    } else if accepts(voices[from], note) {
        from
    } else {
        first_accepting(voices, note, from + 1)
    }
}

/// The slot that a note-on for `note` takes: the first, in pool order, that
/// is free or bound to the same note; where there is none, voice 0 is stolen.
pub open spec fn slot_for(voices: Seq<Voice>, note: u8) -> int {
    first_accepting(voices, note, 0)
}

/// The pool after a note-on.
pub open spec fn note_on_pool(voices: Seq<Voice>, note: u8, frequency: u32) -> Seq<Voice> {
    let k = slot_for(voices, note);
    voices.update(k, note_on_voice(voices[k], note, frequency))
}

/// The pool after a note-off: every voice bound to the note is released.
pub open spec fn note_off_pool(voices: Seq<Voice>, note: u8) -> Seq<Voice> {
    voices.map_values(|v: Voice| note_off_voice(v, note))
}

/// The pool after one event; events for notes out of range change nothing.
pub open spec fn apply_event(voices: Seq<Voice>, e: NoteEvent, pitches: Seq<u32>) -> Seq<Voice> {
    if e.note >= NOTE_COUNT {
        voices
    } else {
        match e.kind {
            EventKind::NoteOn => note_on_pool(voices, e.note, pitches[e.note as int]),
            EventKind::NoteOff => note_off_pool(voices, e.note),
        }
    }
}

/// The pool after the events `from..to` of `events`, in order.
pub open spec fn apply_events(voices: Seq<Voice>, events: Seq<NoteEvent>, from: int, to: int, pitches: Seq<u32>) -> Seq<Voice>
    decreases to - from,
{
    if to <= from {
        voices
    } else {
        apply_event(apply_events(voices, events, from, to - 1, pitches), events[to - 1], pitches)
    }
}

/// Every voice one sample later.
pub open spec fn render_pool(voices: Seq<Voice>, table: Seq<i32>, s: Snapshot) -> Seq<Voice> {
    voices.map_values(|v: Voice| next_voice(v, table, s.ratio, s.depth, s.envelope))
}

/// Sum of the outputs of the first `n` voices.
pub open spec fn voices_sum(voices: Seq<Voice>, table: Seq<i32>, p: EnvelopeParams, n: int) -> int
    decreases n,
{
    if n <= 0 {
        0
    } else {
        voices_sum(voices, table, p, n - 1) + voice_output(voices[n - 1], table, p)
    }
}

/// The mixed sample: the sum of all voice outputs times the gain.
pub open spec fn mix(voices: Seq<Voice>, table: Seq<i32>, s: Snapshot) -> int {
    trunc_div(voices_sum(voices, table, s.envelope, voices.len() as int) * s.gain, PARAM_ONE as int)
}

/// The index past the events from `from` on that are due at `sample`.
pub open spec fn due_end(events: Seq<NoteEvent>, from: int, sample: int) -> int
    decreases events.len() - from,
{
    if from >= events.len() || events[from].timing > sample {
        from
    } else {
        due_end(events, from + 1, sample)
    }
}

/// The pool, the index of the next event, and the output after the first `k`
/// samples of a block: before each sample every event due at it is applied,
/// then the sample is rendered.
pub open spec fn run_block(
    voices: Seq<Voice>,
    table: Seq<i32>,
    events: Seq<NoteEvent>,
    snapshots: Seq<Snapshot>,
    pitches: Seq<u32>,
    k: int,
) -> (Seq<Voice>, int, Seq<i64>)
    decreases k,
{
    if k <= 0 {
        (voices, 0, Seq::empty())
    } else {
        let prev = run_block(voices, table, events, snapshots, pitches, k - 1);
        let end = due_end(events, prev.1, k - 1);
        let applied = apply_events(prev.0, events, prev.1, end, pitches);
        (
            render_pool(applied, table, snapshots[k - 1]),
            end,
            prev.2.push(mix(applied, table, snapshots[k - 1]) as i64),
        )
    }
}

/// A valid pool of voices, all at `sample_rate`.
pub open spec fn pool_wf(voices: Seq<Voice>, sample_rate: u32) -> bool {
    &&& 0 < voices.len() <= MAX_VOICES
    &&& forall|i: int|
        0 <= i < voices.len() ==> (#[trigger] voices[i]).wf() && voices[i].carrier.period
            == sample_rate as int * FREQ_SCALE
}

impl Synth {
    /// A valid synthesizer: a valid pool, a positive sample rate and one pitch
    /// for each note.
    pub open spec fn wf(&self) -> bool {
        &&& 0 < self.sample_rate
        &&& pool_wf(self.voices@, self.sample_rate)
        &&& self.pitches@.len() == NOTE_COUNT
    }
}


/// A fresh voice at `period`: silent, free, at the default note frequency.
pub open spec fn fresh_voice(period: int) -> Voice {
    Voice {
        carrier: Oscillator { phase: 0, period: period as u64 },
        modulator: Oscillator { phase: 0, period: period as u64 },
        envelope: Envelope { level: 0, stage: Stage::Idle },
        assigned_note: None,
        note_frequency: DEFAULT_NOTE_FREQUENCY,
    }
}

impl Synth {
    /// A pool of `voice_count` free voices at `sample_rate` hertz, with
    /// `pitches[n]` the frequency of note `n`.
    pub fn new(voice_count: usize, sample_rate: u32, pitches: Vec<u32>) -> (r: Synth)
        requires
            0 < voice_count <= MAX_VOICES,
            0 < sample_rate,
            pitches@.len() == NOTE_COUNT,
        ensures
            r.wf(),
            r.sample_rate == sample_rate,
            r.pitches@ == pitches@,
            r.voices@.len() == voice_count,
            forall|i: int| 0 <= i < voice_count ==> #[trigger] r.voices@[i] == fresh_voice(sample_rate as int * FREQ_SCALE),
    {
        let period = sample_rate as u64 * FREQ_SCALE;
        let mut voices: Vec<Voice> = Vec::new();
        let mut i: usize = 0;
        while i < voice_count
            invariant
                0 <= i <= voice_count <= MAX_VOICES,
                period == sample_rate as int * FREQ_SCALE,
                0 < sample_rate,
                voices@.len() == i,
                forall|j: int| 0 <= j < i ==> #[trigger] voices@[j] == fresh_voice(period as int),
            decreases voice_count - i,
        {
            let v = Voice {
                carrier: Oscillator::new(period),
                modulator: Oscillator::new(period),
                envelope: Envelope::new(),
                assigned_note: None,
                note_frequency: DEFAULT_NOTE_FREQUENCY,
            };
            voices.push(v);
            i = i + 1;
        }
        Synth { voices, pitches, sample_rate }
    }

    /// Number of voices in the pool.
    pub fn voice_count(&self) -> (r: usize)
        ensures
            r == self.voices@.len(),
    {
        self.voices.len()
    }

    /// A copy of voice `i`.
    pub fn voice(&self, i: usize) -> (r: Voice)
        requires
            i < self.voices@.len(),
        ensures
            r == self.voices@[i as int],
    {
        self.voices[i]
    }

    /// Sets the sample rate of every voice; phases keep their normalised value.
    pub fn set_sample_rate(&mut self, rate: u32)
        requires
            old(self).wf(),
            0 < rate,
        ensures
            final(self).wf(),
            final(self).sample_rate == rate,
            final(self).pitches@ == old(self).pitches@,
            final(self).voices@.len() == old(self).voices@.len(),
            forall|i: int| 0 <= i < old(self).voices@.len() ==>
                #[trigger] final(self).voices@[i] == with_period(old(self).voices@[i], rate as int * FREQ_SCALE),
    {
        let n = self.voices.len();
        let mut i: usize = 0;
        while i < n
            invariant
                0 <= i <= n == old(self).voices@.len() == self.voices@.len(),
                0 < rate,
                self.pitches@ == old(self).pitches@,
                self.sample_rate == old(self).sample_rate,
                pool_wf(old(self).voices@, old(self).sample_rate),
                forall|j: int| 0 <= j < i ==> (#[trigger] self.voices@[j]) == with_period(old(self).voices@[j], rate as int * FREQ_SCALE)
                    && self.voices@[j].wf() && self.voices@[j].carrier.period == rate as int * FREQ_SCALE,
                forall|j: int| i <= j < n ==> #[trigger] self.voices@[j] == old(self).voices@[j],
            decreases n - i,
        {
            let mut v = self.voices[i];
            v.set_sample_rate(rate);
            self.voices[i] = v;
            i = i + 1;
        }
        self.sample_rate = rate;
    }

    /// Returns every voice to silence (see `silenced`).
    pub fn reset(&mut self)
        requires
            old(self).wf(),
        ensures
            final(self).wf(),
            final(self).sample_rate == old(self).sample_rate,
            final(self).pitches@ == old(self).pitches@,
            final(self).voices@ == old(self).voices@.map_values(|v: Voice| silenced(v)),
    {
        let n = self.voices.len();
        let mut i: usize = 0;
        while i < n
            invariant
                0 <= i <= n == old(self).voices@.len() == self.voices@.len(),
                self.pitches@ == old(self).pitches@,
                self.sample_rate == old(self).sample_rate,
                old(self).wf(),
                forall|j: int| 0 <= j < i ==> #[trigger] self.voices@[j] == silenced(old(self).voices@[j]),
                forall|j: int| i <= j < n ==> #[trigger] self.voices@[j] == old(self).voices@[j],
            decreases n - i,
        {
            let mut v = self.voices[i];
            v.reset();
            self.voices[i] = v;
            i = i + 1;
        }
        assert(self.voices@ =~= old(self).voices@.map_values(|v: Voice| silenced(v)));
    }

    /// The slot that a note-on for `note` takes (see `slot_for`).
    pub fn slot_for_note(&self, note: u8) -> (r: usize)
        requires
            self.wf(),
        ensures
            r as int == slot_for(self.voices@, note),
            r < self.voices@.len(),
    {
        let n = self.voices.len();
        let mut i: usize = 0;
        while i < n
            invariant
                0 <= i <= n == self.voices@.len(),
                slot_for(self.voices@, note) == first_accepting(self.voices@, note, i as int),
            decreases n - i,
        {
            let v = self.voices[i];
            if v.envelope.stage == Stage::Idle || v.assigned_note == Some(note) {
                return i;
            }
            i = i + 1;
        }
        0
    }

    /// Note-on: binds `note` to the slot that `slot_for` picks and restarts
    /// that voice's envelope. A note out of range changes nothing. The
    /// velocity does not shape the sound.
    pub fn note_on(&mut self, note: u8, velocity: u8)
        requires
            old(self).wf(),
        ensures
            final(self).wf(),
            final(self).sample_rate == old(self).sample_rate,
            final(self).pitches@ == old(self).pitches@,
            final(self).voices@ == (if note < NOTE_COUNT {
                note_on_pool(old(self).voices@, note, old(self).pitches@[note as int])
            } else {
                old(self).voices@
            }),
    {
        if note as usize >= NOTE_COUNT {
            return;
        }
        let k = self.slot_for_note(note);
        let frequency = self.pitches[note as usize];
        let mut v = self.voices[k];
        v.note_on(note, frequency);
        self.voices[k] = v;
    }

    /// Note-off: releases every voice bound to `note`. A note out of range
    /// changes nothing.
    pub fn note_off(&mut self, note: u8)
        requires
            old(self).wf(),
        ensures
            final(self).wf(),
            final(self).sample_rate == old(self).sample_rate,
            final(self).pitches@ == old(self).pitches@,
            final(self).voices@ == (if note < NOTE_COUNT {
                note_off_pool(old(self).voices@, note)
            } else {
                old(self).voices@
            }),
    {
        if note as usize >= NOTE_COUNT {
            return;
        }
        let n = self.voices.len();
        let mut i: usize = 0;
        while i < n
            invariant
                0 <= i <= n == old(self).voices@.len() == self.voices@.len(),
                self.pitches@ == old(self).pitches@,
                self.sample_rate == old(self).sample_rate,
                old(self).wf(),
                forall|j: int| 0 <= j < i ==> #[trigger] self.voices@[j] == note_off_voice(old(self).voices@[j], note),
                forall|j: int| i <= j < n ==> #[trigger] self.voices@[j] == old(self).voices@[j],
            decreases n - i,
        {
            let mut v = self.voices[i];
            v.note_off(note);
            self.voices[i] = v;
            i = i + 1;
        }
        assert(self.voices@ =~= note_off_pool(old(self).voices@, note));
    }

    /// Applies one note event (see `apply_event`).
    pub fn apply_event(&mut self, e: &NoteEvent)
        requires
            old(self).wf(),
        ensures
            final(self).wf(),
            final(self).sample_rate == old(self).sample_rate,
            final(self).pitches@ == old(self).pitches@,
            final(self).voices@ == apply_event(old(self).voices@, *e, old(self).pitches@),
    {
        match e.kind {
            EventKind::NoteOn => self.note_on(e.note, e.velocity),
            EventKind::NoteOff => self.note_off(e.note),
        }
    }

    /// Renders one sample: advances every voice and returns the sum of their
    /// outputs times the gain (see `mix`).
    pub fn render_sample(&mut self, table: &Wavetable, s: &Snapshot) -> (r: i64)
        requires
            old(self).wf(),
        ensures
            final(self).wf(),
            final(self).sample_rate == old(self).sample_rate,
            final(self).pitches@ == old(self).pitches@,
            final(self).voices@ == render_pool(old(self).voices@, table@, *s),
            r as int == mix(old(self).voices@, table@, *s),
    {
        let n = self.voices.len();
        let mut sum: i64 = 0;
        let mut i: usize = 0;
        while i < n
            invariant
                0 <= i <= n == old(self).voices@.len() == self.voices@.len(),
                n <= MAX_VOICES,
                self.pitches@ == old(self).pitches@,
                self.sample_rate == old(self).sample_rate,
                old(self).wf(),
                sum == voices_sum(old(self).voices@, table@, s.envelope, i as int),
                -(i * AMP_ONE) <= sum <= i * AMP_ONE,
                forall|j: int| 0 <= j < i ==> #[trigger] self.voices@[j] == next_voice(old(self).voices@[j], table@, s.ratio, s.depth, s.envelope),
                forall|j: int| i <= j < n ==> #[trigger] self.voices@[j] == old(self).voices@[j],
            decreases n - i,
        {
            let mut v = self.voices[i];
            let out = v.render(table, s.ratio, s.depth, &s.envelope);
            self.voices[i] = v;
            sum = sum + out;
            i = i + 1;
        }
        assert(self.voices@ =~= render_pool(old(self).voices@, table@, *s));
        proof {
            let x = sum as int;
            let g = s.gain as int;
            let k = (MAX_VOICES * AMP_ONE) as int * 0x1_0000_0000;
            assert(-(k * (PARAM_ONE as int)) <= x * g <= k * (PARAM_ONE as int)) by (nonlinear_arith)
                requires -(MAX_VOICES * AMP_ONE) <= x <= MAX_VOICES * AMP_ONE, 0 <= g <= 0xffff_ffff,
                    k == (MAX_VOICES * AMP_ONE) as int * 0x1_0000_0000;
            lemma_trunc_div_bound(x * g, PARAM_ONE as int, k);
        }
        let r = div_toward_zero(sum as i128 * s.gain as i128, PARAM_ONE as u128);
        r as i64
    }

    /// Applies, in order, the events from `next` on that are due at `sample`,
    /// and returns the index past them.
    fn apply_due_events(&mut self, events: &Vec<NoteEvent>, next: usize, sample: usize) -> (r: usize)
        requires
            old(self).wf(),
            next <= events@.len(),
        ensures
            final(self).wf(),
            final(self).sample_rate == old(self).sample_rate,
            final(self).pitches@ == old(self).pitches@,
            next <= r <= events@.len(),
            r == due_end(events@, next as int, sample as int),
            final(self).voices@ == apply_events(old(self).voices@, events@, next as int, r as int, old(self).pitches@),
    {
        let mut k: usize = next;
        while k < events.len() && (events[k].timing as usize) <= sample
            invariant
                next <= k <= events@.len(),
                self.wf(),
                self.sample_rate == old(self).sample_rate,
                self.pitches@ == old(self).pitches@,
                self.voices@ == apply_events(old(self).voices@, events@, next as int, k as int, old(self).pitches@),
                due_end(events@, next as int, sample as int) == due_end(events@, k as int, sample as int),
            decreases events@.len() - k,
        {
            self.apply_event(&events[k]);
            k = k + 1;
        }
        k
    }

    /// Renders a block of `snapshots.len()` samples. Before each sample, the
    /// events whose timing is at most that sample's index are applied in
    /// order; then the sample is rendered with that sample's snapshot. Events
    /// are expected in non-decreasing timing order; one that comes after a
    /// later-timed event waits for it.
    pub fn process_block(&mut self, table: &Wavetable, events: &Vec<NoteEvent>, snapshots: &Vec<Snapshot>) -> (out: Vec<i64>)
        requires
            old(self).wf(),
        ensures
            final(self).wf(),
            final(self).sample_rate == old(self).sample_rate,
            final(self).pitches@ == old(self).pitches@,
            final(self).voices@ == run_block(old(self).voices@, table@, events@, snapshots@, old(self).pitches@, snapshots@.len() as int).0,
            out@ == run_block(old(self).voices@, table@, events@, snapshots@, old(self).pitches@, snapshots@.len() as int).2,
    {
        let mut out: Vec<i64> = Vec::new();
        let mut next: usize = 0;
        let mut i: usize = 0;
        while i < snapshots.len()
            invariant
                0 <= i <= snapshots@.len(),
                0 <= next <= events@.len(),
                self.wf(),
                self.sample_rate == old(self).sample_rate,
                self.pitches@ == old(self).pitches@,
                run_block(old(self).voices@, table@, events@, snapshots@, old(self).pitches@, i as int)
                    == (self.voices@, next as int, out@),
            decreases snapshots@.len() - i,
        {
            next = self.apply_due_events(events, next, i);
            let y = self.render_sample(table, &snapshots[i]);
            out.push(y);
            i = i + 1;
        }
        out
    }
}

} // verus!
