use monosynth::oscillator::{Oscillator, Sample, SawtoothOscillator, SineOscillator};
use monosynth::pitch::Frequency;

#[test]
fn sine_phase_follows_fract_of_k_steps() {
    // With frequency f and sample rate sr, the phase before the k-th
    // sample is exactly fract(k * f / sr): numerator (k*440) mod 44100
    // over denominator 44100.
    let mut o = SineOscillator::new();
    o.change_frequency(Frequency { num: 440, den: 1 });
    for k in 0u64..500 {
        let p = o.next_sample(44100);
        assert_eq!(p.den, 44100);
        assert_eq!(p.num, (k * 440) % 44100);
    }
}

#[test]
fn sine_phase_stays_in_unit_interval() {
    // For any sequence of calls, frequency changes included (even above
    // the sample rate), the phase stays a fraction in [0, 1).
    let mut o = SineOscillator::new();
    o.change_frequency(Frequency { num: 997, den: 3 });
    for _ in 0..100 {
        let p = o.next_sample(48000);
        assert!(p.num < p.den);
        assert!(o.phase.num < o.phase.den);
    }
    o.change_frequency(Frequency { num: 123_456, den: 1 });
    for _ in 0..100 {
        let p = o.next_sample(100);
        assert!(p.num < p.den);
        assert!(o.phase.num < o.phase.den);
    }
}

#[test]
fn sine_silent_frequency_keeps_phase() {
    let mut o = SineOscillator::new();
    o.change_frequency(Frequency { num: 11025, den: 1 });
    let _ = o.next_sample(44100);
    let _ = o.next_sample(44100);
    // Phase is now 1/2; a silent frequency leaves it there.
    o.change_frequency(Frequency { num: 0, den: 1 });
    let p = o.next_sample(44100);
    assert_eq!(p.num * 2, p.den);
    let p = o.next_sample(44100);
    assert_eq!(p.num * 2, p.den);
}

#[test]
fn sawtooth_harmonic_count_at_a4() {
    // 44100 / 2 / 440 = 50.11..., so 50 harmonics stay below Nyquist.
    let mut o = SawtoothOscillator::new();
    o.change_frequency(Frequency { num: 440, den: 1 });
    let t = o.next_sample(44100);
    assert_eq!(t.harmonic_count, 50);
}

#[test]
fn sawtooth_harmonic_count_does_not_increase_with_frequency() {
    let sr = 44100u64;
    let mut counts = Vec::new();
    for num in [1u64, 20, 220, 440, 1000, 2000, 11025, 22050, 30000] {
        let mut o = SawtoothOscillator::new();
        o.change_frequency(Frequency { num, den: 1 });
        counts.push(o.next_sample(sr).harmonic_count);
    }
    assert_eq!(counts, vec![22050, 1102, 100, 50, 22, 11, 2, 1, 0]);
    for w in counts.windows(2) {
        assert!(w[1] <= w[0]);
    }
}

#[test]
fn sawtooth_silent_or_ultrasonic_frequency_yields_no_harmonics() {
    let mut o = SawtoothOscillator::new();
    let t = o.next_sample(44100);
    assert_eq!(t.harmonic_count, 0);
    o.change_frequency(Frequency { num: 30000, den: 1 });
    let t = o.next_sample(44100);
    assert_eq!(t.harmonic_count, 0);
}

#[test]
fn sawtooth_phase_advances_like_sine() {
    let mut saw = SawtoothOscillator::new();
    let mut sine = SineOscillator::new();
    saw.change_frequency(Frequency { num: 733, den: 2 });
    sine.change_frequency(Frequency { num: 733, den: 2 });
    for _ in 0..64 {
        let t = saw.next_sample(48000);
        let p = sine.next_sample(48000);
        assert_eq!(t.phase, p);
    }
}

#[test]
fn oscillator_dispatch_matches_variants() {
    let mut o = Oscillator::new_sine();
    o.change_frequency(Frequency { num: 440, den: 1 });
    match o.next_sample(44100) {
        Sample::Sine { phase } => assert_eq!(phase.num, 0),
        Sample::Sawtooth { .. } => panic!("sine oscillator produced a sawtooth sample"),
    }
    let mut o = Oscillator::new_sawtooth();
    o.change_frequency(Frequency { num: 440, den: 1 });
    match o.next_sample(44100) {
        Sample::Sawtooth { phase, harmonic_count } => {
            assert_eq!(phase.num, 0);
            assert_eq!(harmonic_count, 50);
        },
        Sample::Sine { .. } => panic!("sawtooth oscillator produced a sine sample"),
    }
}
