//! Phase-accumulating signal generators.
//!
//! An oscillator owns a frequency and a phase. The phase is a position
//! within one waveform period, a fraction in `[0, 1)` stored as the exact
//! rational `num / den`. Each sample advances the phase by
//! `frequency / sample_rate` and keeps only the fractional part, which is
//! exact modular arithmetic on the numerator once the phase is expressed
//! over the denominator `frequency.den * sample_rate`. A sample is
//! described by the phase at which it is taken (plus, for the sawtooth,
//! how many harmonics stay below the Nyquist limit); turning that into an
//! amplitude is the host layer's trigonometry.

use vstd::prelude::*;
use vstd::arithmetic::div_mod::{
    lemma_add_mod_noop, lemma_div_denominator, lemma_div_multiples_vanish,
    lemma_div_nonincreasing, lemma_div_pos_is_pos, lemma_fundamental_div_mod,
    lemma_mod_division_less_than_divisor, lemma_mod_twice, lemma_multiply_divide_lt,
    lemma_small_mod,
};
use vstd::arithmetic::mul::{
    lemma_mul_nonnegative, lemma_mul_strict_inequality, lemma_mul_strictly_positive,
    lemma_mul_upper_bound,
};
use crate::pitch::Frequency;

verus! {

/// A position within one waveform period: the exact fraction `num / den`,
/// always in `[0, 1)`.
#[derive(Clone, Copy, PartialEq, Eq, Structural, Debug)]
pub struct Phase {
    pub num: u64,
    pub den: u64,
}

impl Phase {
    /// The phase is a well-formed fraction in `[0, 1)`.
    pub open spec fn wf(self) -> bool {
        self.num < self.den
    }

    /// The phase at the start of a waveform period.
    pub fn zero() -> (p: Phase)
        ensures
            p.num == 0,
            p.den == 1,
            p.wf(),
    {
        Phase { num: 0, den: 1 }
    }
}

/// Numerator of the phase `p` re-expressed over the denominator `d`,
/// rounding down: exact whenever `p.den` divides `d`, and in particular
/// the identity when `p.den == d`.
pub open spec fn rescaled_num(p: Phase, d: int) -> int {
    (p.num * d) / (p.den as int)
}

/// A rescaled phase numerator stays a fraction in `[0, 1)`: it lies in
/// `[0, d)`.
pub proof fn lemma_rescaled_bounds(p: Phase, d: int)
    requires
        p.wf(),
        1 <= d,
    ensures
        0 <= rescaled_num(p, d) < d,
{
    lemma_mul_nonnegative(p.num as int, d);
    lemma_div_pos_is_pos(p.num * d, p.den as int);
    lemma_mul_strict_inequality(p.num as int, p.den as int, d);
    assert(p.num * d < p.den * d);
    assert(p.den * d == p.den as int * d) by (nonlinear_arith);
    lemma_multiply_divide_lt(p.num * d, p.den as int, d);
}

/// Adding to a value already reduced modulo `m` and reducing again is the
/// same as adding first and reducing once.
pub proof fn lemma_mod_add_step(x: int, y: int, m: int)
    requires
        1 <= m,
    ensures
        ((x % m) + y) % m == (x + y) % m,
{
    lemma_add_mod_noop(x, y, m);
    lemma_add_mod_noop(x % m, y, m);
    lemma_mod_twice(x, m);
}

/// The phase numerator after `k` sample steps over denominator `den`,
/// starting from `start` and advancing by `freq_num` each step, as the
/// repeated calls to `next_sample` produce it.
pub open spec fn phase_num_after(start: int, freq_num: int, den: int, k: nat) -> int
    decreases k,
{
    if k == 0 {
        start
    } else {
        (phase_num_after(start, freq_num, den, (k - 1) as nat) + freq_num) % den
    }
}

/// After `k` sample steps the phase numerator is `(start + k*freq_num) % den`:
/// with frequency `f` and sample rate `sr` (so `freq_num/den == f/sr`), the
/// phase after `k` calls is exactly the fractional part of `k * f / sr`
/// offset by the starting phase.
pub proof fn lemma_phase_after_steps(start: int, freq_num: int, den: int, k: nat)
    requires
        1 <= den,
        0 <= start < den,
        0 <= freq_num,
    ensures
        phase_num_after(start, freq_num, den, k) == (start + k * freq_num) % den,
    decreases k,
{
    if k == 0 {
        assert(k * freq_num == 0) by (nonlinear_arith)
            requires
                k == 0,
        ;
        lemma_small_mod(start as nat, den as nat);
    } else {
        let k1 = (k - 1) as nat;
        lemma_phase_after_steps(start, freq_num, den, k1);
        lemma_mod_add_step(start + k1 * freq_num, freq_num, den);
        assert(start + k1 * freq_num + freq_num == start + k * freq_num) by (nonlinear_arith)
            requires
                k1 == k - 1,
        ;
    }
}

impl Phase {
    /// One sample step: re-express the phase over the denominator
    /// `freq.den * sample_rate`, return it as the point where the sample
    /// is taken, then advance by `freq / sample_rate` and keep the
    /// fractional part.
    fn step(&mut self, freq: Frequency, sample_rate: u64) -> (out: Phase)
        requires
            old(self).wf(),
            freq.wf(),
            1 <= sample_rate,
            freq.den * sample_rate <= u64::MAX,
        ensures
            out.den == freq.den * sample_rate,
            out.num == rescaled_num(*old(self), out.den as int),
            out.wf(),
            final(self).den == out.den,
            final(self).num == (out.num + freq.num) % (out.den as int),
            final(self).wf(),
    {
        proof {
            lemma_mul_strictly_positive(freq.den as int, sample_rate as int);
        }
        let d: u64 = freq.den * sample_rate;
        proof {
            lemma_rescaled_bounds(*old(self), d as int);
        }
        let out_num: u64 = if self.den == d {
            proof {
                lemma_div_multiples_vanish(self.num as int, d as int);
                assert(self.num as int * d as int == d as int * self.num as int)
                    by (nonlinear_arith);
            }
            self.num
        } else {
            proof {
                lemma_mul_upper_bound(self.num as int, u64::MAX as int, d as int, u64::MAX as int);
            }
            let wide: u128 = (self.num as u128) * (d as u128) / (self.den as u128);
            wide as u64
        };
        proof {
            lemma_mod_division_less_than_divisor(out_num + freq.num, d as int);
        }
        let next: u64 = (((out_num as u128) + (freq.num as u128)) % (d as u128)) as u64;
        self.num = next;
        self.den = d;
        Phase { num: out_num, den: d }
    }
}

/// A pure tone generator: the sample taken at phase `p` is `sin(2π·p)`,
/// inherently free of harmonics above the fundamental.
#[derive(Clone, Copy, Debug)]
pub struct SineOscillator {
    pub frequency: Frequency,
    pub phase: Phase,
}

impl SineOscillator {
    pub open spec fn wf(self) -> bool {
        self.frequency.wf() && self.phase.wf()
    }

    /// Creates a new sine wave signal generator, silent and at the start
    /// of its period.
    pub fn new() -> (o: SineOscillator)
        ensures
            o.frequency.num == 0,
            o.frequency.den == 1,
            o.phase.num == 0,
            o.phase.den == 1,
            o.wf(),
    {
        SineOscillator { frequency: Frequency::silent(), phase: Phase::zero() }
    }

    /// Change the frequency of later samples; the phase keeps its value so
    /// the waveform stays continuous.
    pub fn change_frequency(&mut self, frequency: Frequency)
        requires
            frequency.wf(),
        ensures
            final(self).frequency == frequency,
            final(self).phase == old(self).phase,
    {
        self.frequency = frequency;
    }

    /// Produce one sample: return the phase at which it is taken (the
    /// sample's value is `sin(2π·phase)`), then advance the phase by
    /// `frequency / sample_rate`, keeping only the fractional part.
    pub fn next_sample(&mut self, sample_rate: u64) -> (out: Phase)
        requires
            old(self).wf(),
            1 <= sample_rate,
            old(self).frequency.den * sample_rate <= u64::MAX,
        ensures
            final(self).frequency == old(self).frequency,
            out.den == old(self).frequency.den * sample_rate,
            out.num == rescaled_num(old(self).phase, out.den as int),
            out.wf(),
            final(self).phase.den == out.den,
            final(self).phase.num == (out.num + old(self).frequency.num) % (out.den as int),
            final(self).wf(),
    {
        let freq = self.frequency;
        self.phase.step(freq, sample_rate)
    }
}

/// How many harmonics of `f` lie below the Nyquist limit `sample_rate / 2`:
/// `floor(sample_rate / 2 / f)`, and zero for a silent frequency, so that a
/// zero or vanishing frequency yields silence instead of an unbounded
/// harmonic sum.
pub open spec fn harmonic_count_spec(f: Frequency, sample_rate: int) -> int {
    if f.num == 0 {
        0
    } else {
        (sample_rate * f.den) / (2 * f.num)
    }
}

/// A sawtooth sample point: the phase at which the sample is taken and the
/// Nyquist-limited harmonic count for the frequency it was taken at. The
/// sample's value is the additive synthesis sum
/// `Σ_{i=1}^{harmonic_count-1} sin(2π·phase·i) / i / 2`.
#[derive(Clone, Copy, PartialEq, Eq, Structural, Debug)]
pub struct SawtoothTone {
    pub phase: Phase,
    pub harmonic_count: u64,
}

/// A band-limited sawtooth generator: additive synthesis that sums
/// decaying harmonics up to the Nyquist-imposed limit, so the sampled
/// signal stays alias-free.
#[derive(Clone, Copy, Debug)]
pub struct SawtoothOscillator {
    pub frequency: Frequency,
    pub phase: Phase,
}

impl SawtoothOscillator {
    pub open spec fn wf(self) -> bool {
        self.frequency.wf() && self.phase.wf()
    }

    /// Creates a new sawtooth wave signal generator, silent and at the
    /// start of its period.
    pub fn new() -> (o: SawtoothOscillator)
        ensures
            o.frequency.num == 0,
            o.frequency.den == 1,
            o.phase.num == 0,
            o.phase.den == 1,
            o.wf(),
    {
        SawtoothOscillator { frequency: Frequency::silent(), phase: Phase::zero() }
    }

    /// Change the frequency of later samples; the phase keeps its value so
    /// the waveform stays continuous.
    pub fn change_frequency(&mut self, frequency: Frequency)
        requires
            frequency.wf(),
        ensures
            final(self).frequency == frequency,
            final(self).phase == old(self).phase,
    {
        self.frequency = frequency;
    }

    /// Produce one sample: return the phase at which it is taken together
    /// with the harmonic count below the Nyquist limit (recomputed every
    /// sample, since it depends on the current frequency), then advance the
    /// phase by `frequency / sample_rate`, keeping only the fractional part.
    pub fn next_sample(&mut self, sample_rate: u64) -> (out: SawtoothTone)
        requires
            old(self).wf(),
            1 <= sample_rate,
            old(self).frequency.den * sample_rate <= u64::MAX,
        ensures
            final(self).frequency == old(self).frequency,
            out.phase.den == old(self).frequency.den * sample_rate,
            out.phase.num == rescaled_num(old(self).phase, out.phase.den as int),
            out.phase.wf(),
            out.harmonic_count == harmonic_count_spec(old(self).frequency, sample_rate as int),
            final(self).phase.den == out.phase.den,
            final(self).phase.num == (out.phase.num + old(self).frequency.num) % (
            out.phase.den as int),
            final(self).wf(),
    {
        let harmonic_count: u64 = if self.frequency.num == 0 {
            0
        } else {
            proof {
                lemma_mul_upper_bound(
                    sample_rate as int,
                    u64::MAX as int,
                    self.frequency.den as int,
                    u64::MAX as int,
                );
                lemma_div_pos_is_pos(
                    sample_rate * self.frequency.den,
                    2 * self.frequency.num,
                );
                lemma_div_nonincreasing(
                    sample_rate * self.frequency.den,
                    2 * self.frequency.num,
                );
                assert(sample_rate * self.frequency.den <= u64::MAX) by (nonlinear_arith)
                    requires
                        self.frequency.den * sample_rate <= u64::MAX,
                ;
            }
            let wide: u128 = ((sample_rate as u128) * (self.frequency.den as u128)) / (2
                * (self.frequency.num as u128));
            wide as u64
        };
        let freq = self.frequency;
        let phase = self.phase.step(freq, sample_rate);
        SawtoothTone { phase, harmonic_count }
    }
}

/// For a fixed sample rate the Nyquist-limited harmonic count never
/// increases as the frequency increases: a lower note keeps at least as
/// many harmonics as a higher one. (Frequencies compare as the rationals
/// they stand for; the count can stay equal across nearby frequencies,
/// since it is an integer floor.)
pub proof fn lemma_harmonic_count_nonincreasing(f1: Frequency, f2: Frequency, sample_rate: int)
    requires
        f1.wf(),
        f2.wf(),
        1 <= f1.num,
        f1.num * f2.den <= f2.num * f1.den,
        0 <= sample_rate,
    ensures
        harmonic_count_spec(f2, sample_rate) <= harmonic_count_spec(f1, sample_rate),
{
    assert(1 <= f2.num) by (nonlinear_arith)
        requires
            1 <= f1.num,
            1 <= f2.den,
            f1.num * f2.den <= f2.num * f1.den,
    ;
    let a = sample_rate * f2.den;
    let b = 2 * f2.num;
    let c = sample_rate * f1.den;
    let e = 2 * f1.num;
    assert(a * e <= c * b) by (nonlinear_arith)
        requires
            f1.num * f2.den <= f2.num * f1.den,
            0 <= sample_rate,
            a == sample_rate * f2.den,
            b == 2 * f2.num,
            c == sample_rate * f1.den,
            e == 2 * f1.num,
    ;
    let q = c / e;
    lemma_fundamental_div_mod(c, e);
    lemma_mod_division_less_than_divisor(c, e);
    assert(e * (q + 1) == e * q + e) by (nonlinear_arith);
    assert(c < e * (q + 1));
    assert(a * e < (e * (q + 1)) * b) by (nonlinear_arith)
        requires
            a * e <= c * b,
            c < e * (q + 1),
            0 < b,
    ;
    assert(a < (q + 1) * b) by (nonlinear_arith)
        requires
            a * e < (e * (q + 1)) * b,
            0 < e,
    ;
    assert((q + 1) * b == b * (q + 1)) by (nonlinear_arith);
    lemma_multiply_divide_lt(a, b, q + 1);
}

/// Raising a frequency by one octave halves the Nyquist-limited harmonic
/// count (rounding down), so the count strictly decreases whenever the
/// lower note still kept any harmonic. (Between frequencies closer than
/// an octave the integer count can plateau, so the decrease is strict
/// only up to the floor; `lemma_harmonic_count_nonincreasing` covers the
/// general comparison.)
pub proof fn lemma_harmonic_count_halves_per_octave(f1: Frequency, f2: Frequency, sample_rate: int)
    requires
        f1.wf(),
        1 <= f1.num,
        f2.den == f1.den,
        f2.num == 2 * f1.num,
        0 <= sample_rate,
    ensures
        harmonic_count_spec(f2, sample_rate) == harmonic_count_spec(f1, sample_rate) / 2,
        1 <= harmonic_count_spec(f1, sample_rate) ==> harmonic_count_spec(f2, sample_rate)
            < harmonic_count_spec(f1, sample_rate),
{
    let x = sample_rate * f1.den;
    lemma_mul_nonnegative(sample_rate, f1.den as int);
    lemma_div_denominator(x, 2 * f1.num, 2);
    assert((2 * f1.num) * 2 == 2 * (2 * f1.num)) by (nonlinear_arith);
    assert(harmonic_count_spec(f2, sample_rate) == (x / (2 * f1.num)) / 2);
}

/// One sample of the mono signal: the phase the oscillator was at when the
/// sample was taken, plus, for a sawtooth, its Nyquist-limited harmonic
/// count.
#[derive(Clone, Copy, PartialEq, Eq, Structural, Debug)]
pub enum Sample {
    Sine { phase: Phase },
    Sawtooth { phase: Phase, harmonic_count: u64 },
}

impl Sample {
    pub open spec fn phase(self) -> Phase {
        match self {
            Sample::Sine { phase } => phase,
            Sample::Sawtooth { phase, .. } => phase,
        }
    }

    pub open spec fn harmonic_count(self) -> u64 {
        match self {
            Sample::Sine { .. } => 0,
            Sample::Sawtooth { harmonic_count, .. } => harmonic_count,
        }
    }

    pub open spec fn is_sine(self) -> bool {
        match self {
            Sample::Sine { .. } => true,
            Sample::Sawtooth { .. } => false,
        }
    }
}

/// The closed set of oscillator variants behind one capability interface:
/// change the frequency, produce the next sample.
#[derive(Clone, Copy, Debug)]
pub enum Oscillator {
    Sine(SineOscillator),
    Sawtooth(SawtoothOscillator),
}

impl Oscillator {
    pub open spec fn frequency(self) -> Frequency {
        match self {
            Oscillator::Sine(o) => o.frequency,
            Oscillator::Sawtooth(o) => o.frequency,
        }
    }

    pub open spec fn phase(self) -> Phase {
        match self {
            Oscillator::Sine(o) => o.phase,
            Oscillator::Sawtooth(o) => o.phase,
        }
    }

    pub open spec fn is_sine(self) -> bool {
        match self {
            Oscillator::Sine(..) => true,
            Oscillator::Sawtooth(..) => false,
        }
    }

    pub open spec fn wf(self) -> bool {
        self.frequency().wf() && self.phase().wf()
    }

    /// The same oscillator with its frequency replaced and its phase kept.
    pub open spec fn with_frequency(self, f: Frequency) -> Oscillator {
        match self {
            Oscillator::Sine(o) => Oscillator::Sine(
                SineOscillator { frequency: f, phase: o.phase },
            ),
            Oscillator::Sawtooth(o) => Oscillator::Sawtooth(
                SawtoothOscillator { frequency: f, phase: o.phase },
            ),
        }
    }

    /// A fresh sine oscillator, silent and at phase zero.
    pub fn new_sine() -> (o: Oscillator)
        ensures
            o.is_sine(),
            o.frequency().num == 0,
            o.frequency().den == 1,
            o.phase().num == 0,
            o.phase().den == 1,
            o.wf(),
    {
        Oscillator::Sine(SineOscillator::new())
    }

    /// A fresh band-limited sawtooth oscillator, silent and at phase zero.
    pub fn new_sawtooth() -> (o: Oscillator)
        ensures
            !o.is_sine(),
            o.frequency().num == 0,
            o.frequency().den == 1,
            o.phase().num == 0,
            o.phase().den == 1,
            o.wf(),
    {
        Oscillator::Sawtooth(SawtoothOscillator::new())
    }

    /// Change the frequency of later samples, whichever waveform this
    /// oscillator produces; the phase keeps its value.
    pub fn change_frequency(&mut self, frequency: Frequency)
        requires
            frequency.wf(),
        ensures
            *final(self) == old(self).with_frequency(frequency),
            final(self).is_sine() == old(self).is_sine(),
            final(self).frequency() == frequency,
            final(self).phase() == old(self).phase(),
    {
        match *self {
            Oscillator::Sine(mut o) => {
                o.change_frequency(frequency);
                *self = Oscillator::Sine(o);
            },
            Oscillator::Sawtooth(mut o) => {
                o.change_frequency(frequency);
                *self = Oscillator::Sawtooth(o);
            },
        }
    }

    /// Produce one sample of whichever waveform this oscillator generates,
    /// advancing the phase by `frequency / sample_rate` and keeping only
    /// the fractional part.
    pub fn next_sample(&mut self, sample_rate: u64) -> (s: Sample)
        requires
            old(self).wf(),
            1 <= sample_rate,
            old(self).frequency().den * sample_rate <= u64::MAX,
        ensures
            final(self).is_sine() == old(self).is_sine(),
            final(self).frequency() == old(self).frequency(),
            final(self).phase().den == old(self).frequency().den * sample_rate,
            final(self).phase().num == (rescaled_num(
                old(self).phase(),
                final(self).phase().den as int,
            ) + old(self).frequency().num) % (final(self).phase().den as int),
            final(self).wf(),
            s.is_sine() == old(self).is_sine(),
            s.phase().den == final(self).phase().den,
            s.phase().num == rescaled_num(old(self).phase(), final(self).phase().den as int),
            s.phase().wf(),
            !s.is_sine() ==> s.harmonic_count() == harmonic_count_spec(
                old(self).frequency(),
                sample_rate as int,
            ),
    {
        match *self {
            Oscillator::Sine(mut o) => {
                let phase = o.next_sample(sample_rate);
                *self = Oscillator::Sine(o);
                Sample::Sine { phase }
            },
            Oscillator::Sawtooth(mut o) => {
                let tone = o.next_sample(sample_rate);
                *self = Oscillator::Sawtooth(o);
                Sample::Sawtooth { phase: tone.phase, harmonic_count: tone.harmonic_count }
            },
        }
    }
}

} // verus!
