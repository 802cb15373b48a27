use monosynth::pitch::{midi_pitch_to_freq, Frequency, PITCH_DEN};

fn hz(f: Frequency) -> f64 {
    f.num as f64 / f.den as f64
}

#[test]
fn a4_is_exactly_440_hz() {
    let f = midi_pitch_to_freq(69);
    assert_eq!(f.den, PITCH_DEN);
    assert_eq!(f.num, 28_160_000_000);
    assert_eq!(hz(f), 440.0);
}

#[test]
fn a5_is_exactly_880_hz() {
    assert_eq!(hz(midi_pitch_to_freq(81)), 880.0);
}

#[test]
fn a3_is_exactly_220_hz() {
    assert_eq!(hz(midi_pitch_to_freq(57)), 220.0);
}

#[test]
fn octave_up_doubles_every_frequency() {
    for pitch in 0u8..=115 {
        let low = midi_pitch_to_freq(pitch);
        let high = midi_pitch_to_freq(pitch + 12);
        assert_eq!(low.den, high.den);
        assert_eq!(high.num, 2 * low.num);
    }
}

#[test]
fn middle_c_frequency() {
    // Note 60 is three semitones above the A at 220 Hz:
    // 440 * 2^-1 * 2^(3/12) hertz, about 261.6255.
    let f = midi_pitch_to_freq(60);
    assert_eq!(f.num, 16_744_034_560);
    assert_eq!(f.den, PITCH_DEN);
    let value = hz(f);
    assert!((value - 261.6255653) < 0.001 && (261.6255653 - value) < 0.001);
}

#[test]
fn lowest_and_highest_notes_are_positive_and_finite() {
    let lo = midi_pitch_to_freq(0);
    let hi = midi_pitch_to_freq(127);
    assert!(lo.num >= 1);
    assert!(hz(lo) > 8.0 && hz(lo) < 8.5);
    assert!(hz(hi) > 12500.0 && hz(hi) < 12600.0);
}
