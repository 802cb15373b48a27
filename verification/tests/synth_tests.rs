use monosynth::notes::{MidiMessage, NoteState, NOTE_OFF_STATUS, NOTE_ON_STATUS};
use monosynth::oscillator::{Oscillator, Sample};
use monosynth::synth::{Synth, DEFAULT_SAMPLE_RATE, MAX_SAMPLE_RATE};

fn on(note: u8) -> MidiMessage {
    MidiMessage { status: NOTE_ON_STATUS, data1: note, data2: 100 }
}

fn off(note: u8) -> MidiMessage {
    MidiMessage { status: NOTE_OFF_STATUS, data1: note, data2: 0 }
}

#[test]
fn note_on_then_matching_note_off_goes_idle() {
    let mut s = Synth::default();
    s.process_midi_event(on(60));
    assert_eq!(s.notes.current_note, Some(60));
    s.process_midi_event(off(60));
    assert_eq!(s.notes.current_note, None);
}

#[test]
fn mismatched_note_off_is_a_no_op() {
    let mut s = Synth::default();
    s.process_midi_event(on(60));
    s.process_midi_event(on(64));
    s.process_midi_event(off(60));
    assert_eq!(s.notes.current_note, Some(64));
    s.process_midi_event(off(64));
    assert_eq!(s.notes.current_note, None);
}

#[test]
fn note_state_tracks_on_and_off_directly() {
    let mut n = NoteState::new();
    assert_eq!(n.current_note, None);
    n.note_on(60);
    assert_eq!(n.current_note, Some(60));
    assert_eq!(n.note_duration, 0);
    n.note_off(61);
    assert_eq!(n.current_note, Some(60));
    n.note_off(60);
    assert_eq!(n.current_note, None);
}

#[test]
fn unknown_status_bytes_are_ignored() {
    let mut s = Synth::default();
    s.process_midi_event(on(60));
    for status in [0u8, 1, 129, 143, 145, 176, 224, 255] {
        s.process_midi_event(MidiMessage { status, data1: 60, data2: 0 });
        assert_eq!(s.notes.current_note, Some(60));
    }
}

#[test]
fn velocity_byte_is_accepted_but_unused() {
    let mut a = Synth::default();
    let mut b = Synth::default();
    a.process_midi_event(MidiMessage { status: NOTE_ON_STATUS, data1: 69, data2: 1 });
    b.process_midi_event(MidiMessage { status: NOTE_ON_STATUS, data1: 69, data2: 127 });
    let out_a = a.render(8, 1);
    let out_b = b.render(8, 1);
    assert_eq!(out_a, out_b);
}

#[test]
fn batched_events_apply_in_order() {
    let mut s = Synth::default();
    s.process_events(&vec![on(60), on(64), off(60)]);
    assert_eq!(s.notes.current_note, Some(64));
    s.process_events(&vec![off(64), on(57)]);
    assert_eq!(s.notes.current_note, Some(57));
}

#[test]
fn idle_render_is_silence_on_every_channel() {
    let mut s = Synth::default();
    let out = s.render(8, 2);
    assert_eq!(out.len(), 2);
    for channel in &out {
        assert_eq!(channel.len(), 8);
        for sample in channel {
            assert_eq!(*sample, None);
        }
    }
    // Rendering while idle changes nothing.
    assert_eq!(s.notes.current_note, None);
    assert_eq!(s.notes.note_duration, 0);
}

#[test]
fn sounding_render_is_bit_identical_on_every_channel() {
    let mut s = Synth::default();
    s.process_midi_event(on(69));
    let out = s.render(16, 3);
    assert_eq!(out.len(), 3);
    for channel in &out {
        assert_eq!(channel.len(), 16);
        assert_eq!(*channel, out[0]);
        for sample in channel {
            assert!(sample.is_some());
        }
    }
}

#[test]
fn note_duration_counts_rendered_samples_once_per_sample() {
    let mut s = Synth::default();
    s.process_midi_event(on(69));
    s.render(16, 2);
    assert_eq!(s.notes.note_duration, 16);
    s.render(8, 4);
    assert_eq!(s.notes.note_duration, 24);
    s.process_midi_event(on(70));
    assert_eq!(s.notes.note_duration, 0);
}

#[test]
fn end_to_end_four_sine_samples_at_440_hz() {
    // sample_rate = 44100, NoteOn(69), render 4 samples with the sine
    // oscillator: the samples equal sin(2*pi * i * 440/44100) for i = 0..3.
    let mut s = Synth::new(Oscillator::new_sine());
    assert_eq!(s.sample_rate, DEFAULT_SAMPLE_RATE);
    s.process_events(&vec![on(69)]);
    let out = s.render(4, 1);
    assert_eq!(out.len(), 1);
    assert_eq!(out[0].len(), 4);
    let tau = 2.0 * std::f64::consts::PI;
    for (i, sample) in out[0].iter().enumerate() {
        match sample {
            Some(Sample::Sine { phase }) => {
                assert_eq!(phase.num, i as u64 * 28_160_000_000);
                assert_eq!(phase.den, 2_822_400_000_000);
                let value = (tau * (phase.num as f64 / phase.den as f64)).sin();
                let expected = (tau * (i as f64 * 440.0 / 44100.0)).sin();
                assert_eq!(value, expected);
            },
            _ => panic!("expected a sine sample"),
        }
    }
}

#[test]
fn sawtooth_synth_renders_phases_and_harmonics() {
    let mut s = Synth::new(Oscillator::new_sawtooth());
    s.process_midi_event(on(69));
    let out = s.render(3, 2);
    for (i, sample) in out[1].iter().enumerate() {
        match sample {
            Some(Sample::Sawtooth { phase, harmonic_count }) => {
                assert_eq!(phase.num, i as u64 * 28_160_000_000);
                assert_eq!(phase.den, 2_822_400_000_000);
                assert_eq!(*harmonic_count, 50);
            },
            _ => panic!("expected a sawtooth sample"),
        }
    }
}

#[test]
fn sample_rate_changes_take_effect_immediately() {
    let mut s = Synth::new(Oscillator::new_sawtooth());
    assert!(48000 <= MAX_SAMPLE_RATE);
    s.set_sample_rate(48000);
    assert_eq!(s.sample_rate, 48000);
    s.process_midi_event(on(69));
    let out = s.render(1, 1);
    match out[0][0] {
        // 48000 / 2 / 440 = 54.5..., one more harmonic than at 44100.
        Some(Sample::Sawtooth { harmonic_count, .. }) => assert_eq!(harmonic_count, 54),
        _ => panic!("expected a sawtooth sample"),
    }
}

#[test]
fn rendering_zero_samples_or_channels_is_empty() {
    let mut s = Synth::default();
    s.process_midi_event(on(69));
    let out = s.render(0, 2);
    assert_eq!(out.len(), 2);
    assert_eq!(out[0].len(), 0);
    let out = s.render(4, 0);
    assert_eq!(out.len(), 0);
}
