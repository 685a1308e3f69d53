use fm_two::envelope::{Envelope, EnvelopeParams, Stage};
use fm_two::oscillator::Oscillator;
use fm_two::synth::{EventKind, NoteEvent, Snapshot, Synth};
use fm_two::voice::Voice;
use fm_two::wavetable::Wavetable;
use fm_two::{AMP_ONE, LEVEL_ONE};

fn sine_table(len: usize) -> Wavetable {
    let values: Vec<i32> = (0..len)
        .map(|i| {
            let x = (i as f64 / len as f64) * std::f64::consts::TAU;
            (x.sin() * AMP_ONE as f64).round() as i32
        })
        .collect();
    Wavetable::from_samples(values).expect("valid sine table")
}

fn pitches() -> Vec<u32> {
    (0..128)
        .map(|n| (440.0f64 * 2f64.powf((n as f64 - 69.0) / 12.0) * 1000.0).round() as u32)
        .collect()
}

fn snapshot(attack: u32, decay: u32, sustain: u32, release: u32) -> Snapshot {
    Snapshot {
        gain: 1000,
        ratio: 1000,
        depth: 0,
        envelope: EnvelopeParams { attack, decay, sustain, release },
    }
}

fn adsr() -> Snapshot {
    // attack 0.1 s, decay 0.1 s, sustain 0.5, release 0.2 s at 48 kHz
    snapshot(4800, 4800, LEVEL_ONE / 2, 9600)
}

fn note_on(note: u8, timing: u32) -> NoteEvent {
    NoteEvent { kind: EventKind::NoteOn, note, velocity: 100, timing }
}

fn note_off(note: u8, timing: u32) -> NoteEvent {
    NoteEvent { kind: EventKind::NoteOff, note, velocity: 0, timing }
}

#[test]
fn attack_reaches_decay_after_one_tenth_second() {
    let table = sine_table(4096);
    let mut synth = Synth::new(2, 48000, pitches());
    synth.note_on(69, 100);
    assert_eq!(synth.voice(0).note_frequency, 440000);
    let s = adsr();
    for _ in 0..4799 {
        synth.render_sample(&table, &s);
    }
    assert_eq!(synth.voice(0).envelope.stage, Stage::Attack);
    assert!(synth.voice(0).envelope.level < LEVEL_ONE);
    synth.render_sample(&table, &s);
    assert_eq!(synth.voice(0).envelope.stage, Stage::Decay);
    assert_eq!(synth.voice(0).envelope.level, LEVEL_ONE);
}

#[test]
fn third_note_steals_first_voice() {
    let mut synth = Synth::new(2, 48000, pitches());
    synth.note_on(60, 100);
    synth.note_on(64, 100);
    assert_eq!(synth.voice(0).assigned_note, Some(60));
    assert_eq!(synth.voice(1).assigned_note, Some(64));
    assert_eq!(synth.slot_for_note(67), 0);
    synth.note_on(67, 100);
    assert_eq!(synth.voice(0).assigned_note, Some(67));
    assert_eq!(synth.voice(0).envelope.stage, Stage::Attack);
    assert_eq!(synth.voice(1).assigned_note, Some(64));
}

#[test]
fn note_off_in_same_block_releases_without_skipping() {
    let table = sine_table(4096);
    let s = adsr();
    let events = vec![note_on(60, 0), note_off(60, 100)];

    let mut early = Synth::new(2, 48000, pitches());
    let out = early.process_block(&table, &events, &vec![s; 100]);
    assert_eq!(out.len(), 100);
    assert_eq!(early.voice(0).envelope.stage, Stage::Attack);
    assert_eq!(early.voice(0).envelope.level, 100 * 223697);

    let mut full = Synth::new(2, 48000, pitches());
    let out = full.process_block(&table, &events, &vec![s; 200]);
    assert_eq!(out.len(), 200);
    let v = full.voice(0);
    assert_eq!(v.envelope.stage, Stage::Release);
    assert_eq!(v.envelope.level, 100 * 223697 - 100 * 111849);
    assert_eq!(full.voice(1).envelope.stage, Stage::Idle);
}

#[test]
fn zero_depth_gives_plain_carrier() {
    let table = sine_table(4096);
    let p = EnvelopeParams { attack: 480, decay: 480, sustain: LEVEL_ONE / 2, release: 960 };
    let mut voice = Voice::new();
    voice.set_sample_rate(48000);
    voice.note_on(69, 440000);
    let mut plain = Oscillator::new(48000 * 1000);
    for _ in 0..3000 {
        let expected_sample = table.sample(plain.phase, plain.period) as i64;
        plain.advance(440000);
        let out = voice.render(&table, 1000, 0, &p);
        let level = voice.envelope.level as i64;
        assert_eq!(out, expected_sample * level / LEVEL_ONE as i64);
        assert_eq!(voice.carrier, plain);
    }
}

#[test]
fn nonzero_depth_bends_the_carrier() {
    let table = sine_table(4096);
    let p = EnvelopeParams { attack: 480, decay: 480, sustain: LEVEL_ONE / 2, release: 960 };
    let mut voice = Voice::new();
    voice.set_sample_rate(48000);
    voice.note_on(69, 440000);
    let mut plain = Oscillator::new(48000 * 1000);
    let mut differs = false;
    for _ in 0..100 {
        voice.render(&table, 1000, 2000, &p);
        plain.advance(440000);
        differs = differs || voice.carrier != plain;
    }
    assert!(differs);
}

#[test]
fn phase_stays_below_period() {
    let mut osc = Oscillator::new(1000);
    for inc in [999u64, 999, 1, 0, 500, 500, 998, 999] {
        let before = osc.phase;
        let emitted = osc.advance(inc);
        assert_eq!(emitted, before);
        assert!(osc.phase < osc.period);
        assert_eq!(osc.phase, (before + inc) % 1000);
    }
}

#[test]
fn first_carrier_call_emits_zero_phase() {
    let table = sine_table(1024);
    let mut voice = Voice::new();
    voice.set_sample_rate(48000);
    assert_eq!(voice.calculate_sine(&table, 440000), 0);
    assert_eq!(voice.carrier.phase, 440000);
}

#[test]
fn negative_carrier_frequency_wraps_upward() {
    let table = sine_table(1024);
    let mut voice = Voice::new();
    voice.set_sample_rate(48000);
    voice.calculate_sine(&table, -1000);
    assert_eq!(voice.carrier.phase, 48000 * 1000 - 1000);
    voice.calculate_sine(&table, 3 * 48000 * 1000 + 2000);
    assert_eq!(voice.carrier.phase, 1000);
}

#[test]
fn modulator_deviation_is_exact() {
    let values: Vec<i32> = vec![AMP_ONE / 2, -AMP_ONE / 2];
    let table = Wavetable::from_samples(values).unwrap();
    let mut voice = Voice::new();
    voice.set_sample_rate(48000);
    // modulator output 0.5, depth 2.0, note 440 Hz: deviation 440 Hz
    let dev = voice.calculate_frequency(&table, 440000, 500, 2000);
    assert_eq!(dev, 440000);
    assert_eq!(voice.modulator.phase, 220000);
    // half a period on, the modulator output is -0.5
    let mut v2 = Voice::new();
    v2.set_sample_rate(48000);
    v2.modulator.phase = 24000 * 1000;
    assert_eq!(v2.calculate_frequency(&table, 440000, 500, 2000), -440000);
}

#[test]
fn envelope_stays_bounded_with_zero_times() {
    let mut env = Envelope::new();
    let p = EnvelopeParams { attack: 0, decay: 0, sustain: LEVEL_ONE * 2, release: 0 };
    env.trigger();
    assert_eq!(env.advance(&p), LEVEL_ONE);
    assert_eq!(env.stage, Stage::Decay);
    assert_eq!(env.advance(&p), LEVEL_ONE);
    assert_eq!(env.stage, Stage::Sustain);
    env.release();
    assert_eq!(env.advance(&p), 0);
    assert_eq!(env.stage, Stage::Idle);
    assert_eq!(env.advance(&p), 0);
    assert_eq!(env.stage, Stage::Idle);
}

#[test]
fn envelope_runs_through_every_stage() {
    let mut env = Envelope::new();
    let p = EnvelopeParams { attack: 4, decay: 4, sustain: LEVEL_ONE / 2, release: 2 };
    env.trigger();
    let mut seen = Vec::new();
    for _ in 0..20 {
        let level = env.advance(&p);
        assert!(level <= LEVEL_ONE);
        seen.push((env.stage, level));
    }
    assert_eq!(seen[0], (Stage::Attack, LEVEL_ONE / 4));
    assert_eq!(seen[3], (Stage::Decay, LEVEL_ONE));
    assert_eq!(seen[4], (Stage::Decay, LEVEL_ONE - LEVEL_ONE / 4));
    assert_eq!(seen[5], (Stage::Sustain, LEVEL_ONE / 2));
    env.release();
    assert_eq!(env.advance(&p), 0);
    assert_eq!(env.stage, Stage::Idle);
}

#[test]
fn decay_to_raised_sustain_jumps_up() {
    let mut env = Envelope { level: LEVEL_ONE / 4, stage: Stage::Decay };
    let p = EnvelopeParams { attack: 10, decay: 10, sustain: LEVEL_ONE / 2, release: 10 };
    assert_eq!(env.advance(&p), LEVEL_ONE / 2);
    assert_eq!(env.stage, Stage::Sustain);
}

#[test]
fn retrigger_keeps_level() {
    let mut voice = Voice::new();
    voice.set_sample_rate(48000);
    voice.note_on(60, 261626);
    let p = EnvelopeParams { attack: 10, decay: 10, sustain: LEVEL_ONE / 2, release: 10 };
    for _ in 0..5 {
        voice.calculate_envelope(&p);
    }
    voice.note_off(60);
    voice.calculate_envelope(&p);
    let level = voice.envelope.level;
    assert_eq!(voice.envelope.stage, Stage::Release);
    voice.note_on(60, 261626);
    assert_eq!(voice.envelope.stage, Stage::Attack);
    assert_eq!(voice.envelope.level, level);
}

#[test]
fn idle_voice_ignores_note_off_and_rendering() {
    let table = sine_table(256);
    let mut synth = Synth::new(2, 48000, pitches());
    let s = snapshot(1, 1, 0, 1);
    synth.note_on(60, 100);
    synth.note_off(60);
    synth.render_sample(&table, &s);
    let v = synth.voice(0);
    assert_eq!(v.envelope.stage, Stage::Idle);
    assert_eq!(v.assigned_note, Some(60));
    synth.note_off(60);
    assert_eq!(synth.voice(0).envelope, Envelope { level: 0, stage: Stage::Idle });
    for _ in 0..10 {
        synth.render_sample(&table, &s);
        assert_eq!(synth.voice(0).envelope.stage, Stage::Idle);
    }
    synth.note_on(62, 100);
    assert_eq!(synth.voice(0).envelope.stage, Stage::Attack);
}

#[test]
fn steal_assignment_is_reproducible() {
    let notes = [60u8, 64, 67, 72, 64, 60, 55];
    let run = |synth: &mut Synth| -> Vec<Option<u8>> {
        for n in notes {
            synth.note_on(n, 90);
        }
        (0..synth.voice_count()).map(|i| synth.voice(i).assigned_note).collect()
    };
    let mut a = Synth::new(2, 48000, pitches());
    let mut b = Synth::new(2, 44100, pitches());
    let ra = run(&mut a);
    let rb = run(&mut b);
    assert_eq!(ra, rb);
    assert_eq!(ra, vec![Some(55), Some(64)]);
}

#[test]
fn same_note_reuses_its_voice() {
    let mut synth = Synth::new(3, 48000, pitches());
    synth.note_on(60, 100);
    synth.note_on(64, 100);
    synth.note_on(64, 100);
    assert_eq!(synth.voice(1).assigned_note, Some(64));
    assert_eq!(synth.voice(2).assigned_note, None);
    assert_eq!(synth.voice(2).envelope.stage, Stage::Idle);
}

#[test]
fn note_off_for_unbound_note_changes_nothing() {
    let table = sine_table(256);
    let mut synth = Synth::new(2, 48000, pitches());
    synth.note_on(60, 100);
    synth.render_sample(&table, &adsr());
    let before: Vec<Voice> = (0..2).map(|i| synth.voice(i)).collect();
    synth.note_off(61);
    let after: Vec<Voice> = (0..2).map(|i| synth.voice(i)).collect();
    assert_eq!(before, after);
}

#[test]
fn note_off_releases_every_bound_voice() {
    let mut synth = Synth::new(2, 48000, pitches());
    synth.note_on(60, 100);
    synth.voices[1].note_on(60, 261626);
    synth.note_off(60);
    assert_eq!(synth.voice(0).envelope.stage, Stage::Release);
    assert_eq!(synth.voice(1).envelope.stage, Stage::Release);
}

#[test]
fn out_of_range_notes_are_ignored() {
    let mut synth = Synth::new(2, 48000, pitches());
    synth.note_on(128, 100);
    synth.note_on(255, 100);
    assert_eq!(synth.voice(0).envelope.stage, Stage::Idle);
    assert_eq!(synth.voice(0).assigned_note, None);
    synth.apply_event(&note_on(200, 0));
    assert_eq!(synth.voice(0).envelope.stage, Stage::Idle);
}

#[test]
fn mix_sums_voices_and_applies_gain() {
    let table = Wavetable::from_samples(vec![AMP_ONE / 2]).unwrap();
    let mut synth = Synth::new(2, 48000, pitches());
    synth.note_on(60, 100);
    synth.note_on(64, 100);
    let s = Snapshot { gain: 2500, ratio: 1000, depth: 0, envelope: EnvelopeParams { attack: 0, decay: 10, sustain: 0, release: 10 } };
    // both voices jump to full level and emit 0.5: sum 1.0, times gain 2.5
    let out = synth.render_sample(&table, &s);
    assert_eq!(out, (AMP_ONE as i64) * 5 / 2);
}

#[test]
fn events_wait_for_their_sample() {
    let table = sine_table(256);
    let s = adsr();
    let mut synth = Synth::new(2, 48000, pitches());
    let out = synth.process_block(&table, &vec![note_on(60, 10)], &vec![s; 10]);
    assert_eq!(out, vec![0i64; 10]);
    assert_eq!(synth.voice(0).envelope.stage, Stage::Idle);
    assert_eq!(synth.voice(0).assigned_note, None);
}

#[test]
fn wavetable_rejects_invalid_samples() {
    assert!(Wavetable::from_samples(vec![]).is_none());
    assert!(Wavetable::from_samples(vec![0, AMP_ONE + 1]).is_none());
    assert!(Wavetable::from_samples(vec![-AMP_ONE - 1]).is_none());
    assert!(Wavetable::from_samples(vec![0; 65537]).is_none());
    let t = Wavetable::from_samples(vec![AMP_ONE, -AMP_ONE]).unwrap();
    assert_eq!(t.len(), 2);
    assert_eq!(t.sample(0, 100), AMP_ONE);
    assert_eq!(t.sample(49, 100), AMP_ONE);
    assert_eq!(t.sample(50, 100), -AMP_ONE);
}

#[test]
fn set_sample_rate_keeps_normalised_phase() {
    let mut voice = Voice::new();
    voice.set_sample_rate(48000);
    voice.carrier.phase = 12000 * 1000;
    voice.set_sample_rate(96000);
    assert_eq!(voice.carrier.period, 96000 * 1000);
    assert_eq!(voice.carrier.phase, 24000 * 1000);
}

#[test]
fn reset_silences_every_voice() {
    let table = sine_table(256);
    let mut synth = Synth::new(2, 48000, pitches());
    synth.note_on(60, 100);
    synth.note_on(64, 100);
    for _ in 0..50 {
        synth.render_sample(&table, &adsr());
    }
    synth.reset();
    for i in 0..2 {
        let v = synth.voice(i);
        assert_eq!(v.carrier.phase, 0);
        assert_eq!(v.modulator.phase, 0);
        assert_eq!(v.envelope, Envelope { level: 0, stage: Stage::Idle });
        assert_eq!(v.assigned_note, None);
    }
}

#[test]
fn new_voice_is_free_and_silent() {
    let v = Voice::new();
    assert_eq!(v.envelope.stage, Stage::Idle);
    assert_eq!(v.envelope.level, 0);
    assert_eq!(v.note_frequency, 440000);
    assert_eq!(v.carrier.phase, 0);
}
