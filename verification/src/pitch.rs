//! Conversion from MIDI note numbers to frequencies.
//!
//! The equal-tempered frequency of a note `p` is `440 * 2^((p - 69) / 12)`
//! hertz (note 69 is A4 at exactly 440 Hz). That value is irrational for
//! most notes, so frequencies are represented as exact rationals: the
//! twelve semitone ratios within one octave are fixed to a millionth, and
//! whole octaves scale the numerator by exact powers of two. Notes 69, 81,
//! 57 and every other note nine semitones above a C therefore map to their
//! mathematically exact frequency (440, 880, 220, ...), and moving up one
//! octave exactly doubles every frequency.

use vstd::prelude::*;
use vstd::arithmetic::div_mod::{
    lemma_div_is_ordered, lemma_div_plus_one, lemma_mod_add_multiples_vanish,
    lemma_mod_division_less_than_divisor,
};

verus! {

/// Denominator shared by every frequency the pitch converter produces:
/// millionths of a hertz, times 64 so that the six octaves below A4 keep
/// exact integer numerators.
pub const PITCH_DEN: u64 = 64_000_000;

/// A frequency in hertz, stored as the exact rational `num / den`.
/// A numerator of zero stands for "silent / uninitialized".
#[derive(Clone, Copy, PartialEq, Eq, Structural, Debug)]
pub struct Frequency {
    pub num: u64,
    pub den: u64,
}

impl Frequency {
    pub open spec fn wf(self) -> bool {
        self.den >= 1
    }

    /// The frequency of a silent, uninitialized oscillator.
    pub fn silent() -> (f: Frequency)
        ensures
            f.num == 0,
            f.den == 1,
            f.wf(),
    {
        Frequency { num: 0, den: 1 }
    }
}

/// `2^(r/12)` scaled by one million, rounded to the nearest integer, for a
/// semitone offset `0 <= r < 12` within one octave.
pub open spec fn semitone_ratio_micro(r: int) -> nat {
    if r == 0 {
        1_000_000
    } else if r == 1 {
        1_059_463
    } else if r == 2 {
        1_122_462
    } else if r == 3 {
        1_189_207
    } else if r == 4 {
        1_259_921
    } else if r == 5 {
        1_334_840
    } else if r == 6 {
        1_414_214
    } else if r == 7 {
        1_498_307
    } else if r == 8 {
        1_587_401
    } else if r == 9 {
        1_681_793
    } else if r == 10 {
        1_781_797
    } else if r == 11 {
        1_887_749
    } else {
        0
    }
}

/// `2^q` for the octave index `0 <= q <= 10` that a MIDI note can reach.
pub open spec fn octave_multiplier(q: int) -> nat {
    if q == 0 {
        1
    } else if q == 1 {
        2
    } else if q == 2 {
        4
    } else if q == 3 {
        8
    } else if q == 4 {
        16
    } else if q == 5 {
        32
    } else if q == 6 {
        64
    } else if q == 7 {
        128
    } else if q == 8 {
        256
    } else if q == 9 {
        512
    } else if q == 10 {
        1024
    } else {
        0
    }
}

/// Numerator (over `PITCH_DEN`) of the frequency of MIDI note `pitch`:
/// `(pitch - 69)` semitones away from A4 is split as `pitch + 3 == 12q + r`,
/// so the frequency is `440 * 2^(q - 6) * 2^(r/12)` hertz.
pub open spec fn pitch_frequency_num(pitch: int) -> nat {
    440 * octave_multiplier((pitch + 3) / 12) * semitone_ratio_micro((pitch + 3) % 12)
}

/// Convert a MIDI note's pitch into the equivalent frequency, with A4
/// (note 69) at exactly 440 Hz.
pub fn midi_pitch_to_freq(pitch: u8) -> (f: Frequency)
    requires
        pitch <= 127,
    ensures
        f.den == PITCH_DEN,
        f.num == pitch_frequency_num(pitch as int),
        1 <= f.num,
        f.wf(),
{
    let s: u64 = pitch as u64 + 3;
    let q: u64 = s / 12;
    let r: u64 = s % 12;
    proof {
        lemma_div_is_ordered(s as int, 130, 12);
        assert(q <= 10);
        lemma_mod_division_less_than_divisor(s as int, 12);
        assert(r < 12);
    }
    let oct: u64 = match q {
        0 => 1,
        1 => 2,
        2 => 4,
        3 => 8,
        4 => 16,
        5 => 32,
        6 => 64,
        7 => 128,
        8 => 256,
        9 => 512,
        _ => 1024,
    };
    let ratio: u64 = match r {
        0 => 1_000_000,
        1 => 1_059_463,
        2 => 1_122_462,
        3 => 1_189_207,
        4 => 1_259_921,
        5 => 1_334_840,
        6 => 1_414_214,
        7 => 1_498_307,
        8 => 1_587_401,
        9 => 1_681_793,
        10 => 1_781_797,
        _ => 1_887_749,
    };
    proof {
        assert(oct == octave_multiplier(q as int));
        assert(ratio == semitone_ratio_micro(r as int));
        assert((440 * oct) as int * (ratio as int) <= 450_560 * 1_887_749) by (nonlinear_arith)
            requires
                oct <= 1024,
                ratio <= 1_887_749,
        ;
        assert(440 * oct * ratio >= 1) by (nonlinear_arith)
            requires
                1 <= oct,
                1 <= ratio,
        ;
    }
    let num: u64 = 440 * oct * ratio;
    Frequency { num, den: PITCH_DEN }
}

/// Raising a note by one octave (twelve semitones) exactly doubles its
/// frequency: both notes share the denominator `PITCH_DEN`, and the higher
/// note's numerator is exactly twice the lower one's.
pub proof fn lemma_octave_doubles(pitch: int)
    requires
        0 <= pitch,
        pitch + 12 <= 127,
    ensures
        pitch_frequency_num(pitch + 12) == 2 * pitch_frequency_num(pitch),
{
    let s = pitch + 3;
    lemma_div_plus_one(s, 12);
    assert((s + 12) / 12 == s / 12 + 1);
    lemma_mod_add_multiples_vanish(s, 12);
    assert((s + 12) % 12 == s % 12);
    lemma_div_is_ordered(0, s, 12);
    lemma_div_is_ordered(s, 118, 12);
    let q = s / 12;
    assert(0 <= q <= 9);
    assert(octave_multiplier(q + 1) == 2 * octave_multiplier(q));
    let r = s % 12;
    let oct: int = octave_multiplier(q) as int;
    let ratio: int = semitone_ratio_micro(r) as int;
    assert(440 * (2 * oct) * ratio == 2 * (440 * oct * ratio)) by (nonlinear_arith);
}

} // verus!
