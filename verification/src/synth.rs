//! The monophonic synthesizer: a note tracker and an oscillator driven by
//! MIDI-style messages, and a per-block sample renderer.
//!
//! Per audio block the host first hands over the note events, then asks
//! for `num_samples` samples: while a note sounds the oscillator produces
//! them one by one, while idle the block is silence, and the identical
//! mono sequence is broadcast to every output channel.

use vstd::prelude::*;
use vstd::arithmetic::div_mod::{
    lemma_div_multiples_vanish, lemma_fundamental_div_mod, lemma_mod_division_less_than_divisor,
    lemma_small_mod,
};
use vstd::arithmetic::mul::{lemma_mul_strictly_positive, lemma_mul_upper_bound};
use crate::notes::{MidiMessage, NoteState, NOTE_OFF_STATUS, NOTE_ON_STATUS};
use crate::oscillator::{
    harmonic_count_spec, lemma_mod_add_step, lemma_rescaled_bounds, rescaled_num, Oscillator,
    Phase, Sample,
};
use crate::pitch::{midi_pitch_to_freq, pitch_frequency_num, Frequency, PITCH_DEN};

verus! {

/// Highest sample rate the synthesizer accepts; it keeps the phase
/// denominator `frequency.den * sample_rate` within `u64` for every
/// frequency the pitch converter can produce.
pub const MAX_SAMPLE_RATE: u64 = u64::MAX / PITCH_DEN;

/// The sample rate a fresh synthesizer starts with, until the host
/// announces the stream's real one.
pub const DEFAULT_SAMPLE_RATE: u64 = 44100;

/// A frequency denominator bounded by `PITCH_DEN` times a sample rate
/// bounded by `MAX_SAMPLE_RATE` multiply without overflowing `u64`.
proof fn lemma_phase_den_fits(den: int, sample_rate: int)
    requires
        1 <= den <= PITCH_DEN,
        1 <= sample_rate <= MAX_SAMPLE_RATE,
    ensures
        1 <= den * sample_rate <= u64::MAX,
{
    lemma_mul_strictly_positive(den, sample_rate);
    lemma_mul_upper_bound(den, PITCH_DEN as int, sample_rate, MAX_SAMPLE_RATE as int);
    lemma_fundamental_div_mod(u64::MAX as int, PITCH_DEN as int);
    lemma_mod_division_less_than_divisor(u64::MAX as int, PITCH_DEN as int);
}

/// The whole synthesizer: one instance owns the note tracker and the
/// oscillator and is mutated in place for the lifetime of the stream.
#[derive(Clone, Copy, Debug)]
pub struct Synth {
    pub sample_rate: u64,
    pub notes: NoteState,
    pub oscillator: Oscillator,
}

impl Synth {
    /// The sample rate is in range and the oscillator's frequency came
    /// from the pitch converter (or is the silent start value), so one
    /// block's phase denominator always fits in `u64`.
    pub open spec fn wf(self) -> bool {
        &&& 1 <= self.sample_rate <= MAX_SAMPLE_RATE
        &&& self.oscillator.wf()
        &&& self.oscillator.frequency().den <= PITCH_DEN
    }

    /// A fresh synthesizer around the given oscillator: idle, at the
    /// default sample rate.
    pub fn new(oscillator: Oscillator) -> (s: Synth)
        requires
            oscillator.wf(),
            oscillator.frequency().den <= PITCH_DEN,
        ensures
            s.sample_rate == DEFAULT_SAMPLE_RATE,
            s.notes.current_note.is_none(),
            s.notes.note_duration == 0,
            s.oscillator == oscillator,
            s.wf(),
    {
        Synth { sample_rate: DEFAULT_SAMPLE_RATE, notes: NoteState::new(), oscillator }
    }

    /// Use `rate` for all subsequent samples; it takes effect immediately
    /// and nothing else changes.
    pub fn set_sample_rate(&mut self, rate: u64)
        requires
            1 <= rate <= MAX_SAMPLE_RATE,
        ensures
            final(self).sample_rate == rate,
            final(self).notes == old(self).notes,
            final(self).oscillator == old(self).oscillator,
            old(self).wf() ==> final(self).wf(),
    {
        self.sample_rate = rate;
    }

    /// Start sounding `note`: the note tracker switches to it (replacing
    /// whatever was sounding) and the oscillator takes its frequency.
    pub fn note_on(&mut self, note: u8)
        requires
            old(self).wf(),
            note <= 127,
        ensures
            final(self).sample_rate == old(self).sample_rate,
            final(self).notes.current_note == Some(note),
            final(self).notes.note_duration == 0,
            *final(self) == synth_transition(
                *old(self),
                MidiMessage { status: NOTE_ON_STATUS, data1: note, data2: 0 },
            ),
            final(self).wf(),
    {
        self.notes.note_on(note);
        let f = midi_pitch_to_freq(note);
        self.oscillator.change_frequency(f);
    }

    /// Stop sounding `note` if it is the note currently sounding; a
    /// note-off for any other note is a no-op. The oscillator is untouched
    /// either way.
    pub fn note_off(&mut self, note: u8)
        ensures
            final(self).sample_rate == old(self).sample_rate,
            final(self).oscillator == old(self).oscillator,
            *final(self) == synth_transition(
                *old(self),
                MidiMessage { status: NOTE_OFF_STATUS, data1: note, data2: 0 },
            ),
            old(self).wf() ==> final(self).wf(),
    {
        self.notes.note_off(note);
    }

    /// Dispatch one three-byte message: status 144 starts a note, status
    /// 128 releases one, anything else is ignored. The velocity byte is
    /// accepted but unused.
    pub fn process_midi_event(&mut self, msg: MidiMessage)
        requires
            old(self).wf(),
            msg.status == NOTE_ON_STATUS ==> msg.data1 <= 127,
        ensures
            *final(self) == synth_transition(*old(self), msg),
            final(self).wf(),
    {
        if msg.status == NOTE_ON_STATUS {
            self.note_on(msg.data1);
        } else if msg.status == NOTE_OFF_STATUS {
            self.note_off(msg.data1);
        }
    }

    /// Consume an ordered batch of messages, in order, before a block is
    /// rendered.
    pub fn process_events(&mut self, events: &Vec<MidiMessage>)
        requires
            old(self).wf(),
            forall|j: int|
                0 <= j < events@.len() ==> ((#[trigger] events@[j]).status == NOTE_ON_STATUS
                    ==> events@[j].data1 <= 127),
        ensures
            *final(self) == synth_after_events(*old(self), events@),
            final(self).wf(),
    {
        let n = events.len();
        let mut i: usize = 0;
        while i < n
            invariant
                i <= n,
                n == events@.len(),
                forall|j: int|
                    0 <= j < events@.len() ==> ((#[trigger] events@[j]).status == NOTE_ON_STATUS
                        ==> events@[j].data1 <= 127),
                *self == synth_after_events(*old(self), events@.take(i as int)),
                self.wf(),
            decreases n - i,
        {
            let msg = events[i];
            proof {
                assert(events@.take(i + 1).drop_last() =~= events@.take(i as int));
                assert(events@.take(i + 1).last() == events@[i as int]);
            }
            self.process_midi_event(msg);
            i += 1;
        }
        proof {
            assert(events@.take(n as int) =~= events@);
        }
    }
}

/// The synthesizer state after dispatching one message: a note-on switches
/// the tracker to the note and retunes the oscillator to its frequency, a
/// note-off for the sounding note clears the tracker, anything else (a
/// note-off for another note included) changes nothing.
pub open spec fn synth_transition(s: Synth, msg: MidiMessage) -> Synth {
    if msg.status == NOTE_ON_STATUS {
        Synth {
            sample_rate: s.sample_rate,
            notes: NoteState { current_note: Some(msg.data1), note_duration: 0 },
            oscillator: s.oscillator.with_frequency(
                Frequency { num: pitch_frequency_num(msg.data1 as int) as u64, den: PITCH_DEN },
            ),
        }
    } else if msg.status == NOTE_OFF_STATUS && s.notes.current_note == Some(msg.data1) {
        Synth {
            sample_rate: s.sample_rate,
            notes: NoteState { current_note: None, note_duration: s.notes.note_duration },
            oscillator: s.oscillator,
        }
    } else {
        s
    }
}

/// The synthesizer state after dispatching a batch of messages in order.
pub open spec fn synth_after_events(s: Synth, events: Seq<MidiMessage>) -> Synth
    decreases events.len(),
{
    if events.len() == 0 {
        s
    } else {
        synth_transition(synth_after_events(s, events.drop_last()), events.last())
    }
}

/// The denominator over which one block's phases are expressed:
/// `frequency.den * sample_rate`.
pub open spec fn block_den(s: Synth) -> int {
    s.oscillator.frequency().den * s.sample_rate
}

/// The phase numerator (over `block_den`) at which a block starts: the
/// oscillator's current phase re-expressed over that denominator.
pub open spec fn block_start(s: Synth) -> int {
    rescaled_num(s.oscillator.phase(), block_den(s))
}

/// The `i`-th sample of a block rendered from state `s`: silence while
/// idle, otherwise the oscillator's sample at phase
/// `(block_start + i * frequency.num) mod block_den` over `block_den` —
/// exactly the fractional part of `start_phase + i * frequency / sample_rate`.
pub open spec fn mono_sample(s: Synth, i: int) -> Option<Sample> {
    if s.notes.current_note.is_none() {
        None
    } else {
        let d = block_den(s);
        let ph = Phase {
            num: ((block_start(s) + i * s.oscillator.frequency().num) % d) as u64,
            den: d as u64,
        };
        if s.oscillator.is_sine() {
            Some(Sample::Sine { phase: ph })
        } else {
            Some(
                Sample::Sawtooth {
                    phase: ph,
                    harmonic_count: harmonic_count_spec(
                        s.oscillator.frequency(),
                        s.sample_rate as int,
                    ) as u64,
                },
            )
        }
    }
}

/// How rendering a block of `n` samples changes the synthesizer: nothing
/// while idle; while sounding the note and frequency are kept, the
/// duration counter grows by one per rendered sample, and the phase
/// advances by `n` steps of `frequency / sample_rate`.
pub open spec fn render_post(pre: Synth, post: Synth, n: int) -> bool {
    &&& post.sample_rate == pre.sample_rate
    &&& (pre.notes.current_note.is_none() ==> post == pre)
    &&& (pre.notes.current_note.is_some() ==> {
        &&& post.notes.current_note == pre.notes.current_note
        &&& post.notes.note_duration == pre.notes.note_duration + n
        &&& post.oscillator.is_sine() == pre.oscillator.is_sine()
        &&& post.oscillator.frequency() == pre.oscillator.frequency()
        &&& (n == 0 ==> post.oscillator == pre.oscillator)
        &&& (n >= 1 ==> post.oscillator.phase().den == block_den(pre)
            && post.oscillator.phase().num == (block_start(pre) + n
                * pre.oscillator.frequency().num) % block_den(pre))
    })
}

impl Synth {
    /// Render the mono signal for one block: `num_samples` oscillator
    /// samples while a note sounds, `num_samples` times silence while
    /// idle.
    pub fn render_mono(&mut self, num_samples: usize) -> (out: Vec<Option<Sample>>)
        requires
            old(self).wf(),
            old(self).notes.note_duration + num_samples <= u64::MAX,
        ensures
            final(self).wf(),
            out@.len() == num_samples,
            forall|i: int| 0 <= i < num_samples ==> out@[i] == mono_sample(*old(self), i),
            render_post(*old(self), *final(self), num_samples as int),
    {
        let ghost pre = *old(self);
        let ghost f = pre.oscillator.frequency();
        let ghost d = block_den(pre);
        let ghost start = block_start(pre);
        let ghost sine = pre.oscillator.is_sine();
        let mut out: Vec<Option<Sample>> = Vec::new();
        let sounding: bool = match self.notes.current_note {
            Some(_) => true,
            None => false,
        };
        if sounding {
            proof {
                lemma_phase_den_fits(f.den as int, pre.sample_rate as int);
                lemma_rescaled_bounds(pre.oscillator.phase(), d);
            }
            let mut i: usize = 0;
            while i < num_samples
                invariant
                    i <= num_samples,
                    out@.len() == i,
                    self.sample_rate == pre.sample_rate,
                    self.notes == pre.notes,
                    pre.notes.current_note.is_some(),
                    self.oscillator.is_sine() == sine,
                    self.oscillator.frequency() == f,
                    self.oscillator.wf(),
                    self.wf(),
                    f == pre.oscillator.frequency(),
                    d == block_den(pre),
                    start == block_start(pre),
                    sine == pre.oscillator.is_sine(),
                    1 <= d <= u64::MAX,
                    0 <= start < d,
                    i == 0 ==> self.oscillator == pre.oscillator,
                    i >= 1 ==> self.oscillator.phase().den == d
                        && self.oscillator.phase().num == (start + i * f.num) % d,
                    forall|j: int| 0 <= j < i ==> #[trigger] out@[j] == mono_sample(pre, j),
                decreases num_samples - i,
            {
                let ghost prev = self.oscillator.phase();
                let s = self.oscillator.next_sample(self.sample_rate);
                proof {
                    if i == 0 {
                        assert(s.phase().num == start);
                        lemma_small_mod(start as nat, d as nat);
                        assert(0 * f.num == 0) by (nonlinear_arith);
                        assert(s.phase().num == (start + 0 * f.num) % d);
                    } else {
                        lemma_div_multiples_vanish(prev.num as int, d);
                        assert(prev.num * d == d * prev.num) by (nonlinear_arith);
                        assert(s.phase().num == (start + i * f.num) % d);
                    }
                    lemma_mod_add_step(start + i * f.num, f.num as int, d);
                    assert(start + i * f.num + f.num == start + (i + 1) * f.num)
                        by (nonlinear_arith);
                    if sine {
                        assert(s == Sample::Sine { phase: s.phase() });
                    } else {
                        assert(s == Sample::Sawtooth {
                            phase: s.phase(),
                            harmonic_count: s.harmonic_count(),
                        });
                    }
                    assert(Some(s) == mono_sample(pre, i as int));
                }
                out.push(Some(s));
                i += 1;
            }
            self.notes.note_duration = self.notes.note_duration + (num_samples as u64);
        } else {
            let mut i: usize = 0;
            while i < num_samples
                invariant
                    i <= num_samples,
                    out@.len() == i,
                    *self == pre,
                    pre.notes.current_note.is_none(),
                    forall|j: int| 0 <= j < i ==> #[trigger] out@[j] == mono_sample(pre, j),
                decreases num_samples - i,
            {
                out.push(None);
                i += 1;
            }
        }
        out
    }

    /// Render one block and broadcast the identical mono sample sequence
    /// to every one of `num_channels` output channels: while idle every
    /// channel is all silence, while sounding every channel carries the
    /// bit-identical oscillator sample sequence.
    pub fn render(&mut self, num_samples: usize, num_channels: usize) -> (output: Vec<
        Vec<Option<Sample>>,
    >)
        requires
            old(self).wf(),
            old(self).notes.note_duration + num_samples <= u64::MAX,
        ensures
            final(self).wf(),
            output@.len() == num_channels,
            forall|c: int| 0 <= c < num_channels ==> (#[trigger] output@[c])@.len() == num_samples,
            forall|c: int, i: int|
                0 <= c < num_channels && 0 <= i < num_samples ==> (#[trigger] output@[c]@[i])
                    == mono_sample(*old(self), i),
            forall|c: int| 0 <= c < num_channels ==> (#[trigger] output@[c])@ == output@[0]@,
            render_post(*old(self), *final(self), num_samples as int),
    {
        let mono = self.render_mono(num_samples);
        let mut output: Vec<Vec<Option<Sample>>> = Vec::new();
        let mut c: usize = 0;
        while c < num_channels
            invariant
                c <= num_channels,
                output@.len() == c,
                mono@.len() == num_samples,
                forall|k: int| 0 <= k < c ==> (#[trigger] output@[k])@ == mono@,
            decreases num_channels - c,
        {
            let mut chan: Vec<Option<Sample>> = Vec::new();
            let mut i: usize = 0;
            while i < num_samples
                invariant
                    i <= num_samples,
                    mono@.len() == num_samples,
                    chan@ == mono@.take(i as int),
                decreases num_samples - i,
            {
                let v = mono[i];
                proof {
                    assert(mono@.take(i + 1) =~= mono@.take(i as int).push(mono@[i as int]));
                }
                chan.push(v);
                i += 1;
            }
            proof {
                assert(mono@.take(num_samples as int) =~= mono@);
            }
            output.push(chan);
            c += 1;
        }
        output
    }
}

impl Default for Synth {
    /// A fresh synthesizer: idle, a silent sine oscillator at phase zero,
    /// the default sample rate.
    fn default() -> (s: Synth)
        ensures
            s.sample_rate == DEFAULT_SAMPLE_RATE,
            s.notes.current_note.is_none(),
            s.notes.note_duration == 0,
            s.oscillator.is_sine(),
            s.oscillator.frequency().num == 0,
            s.oscillator.phase().num == 0,
            s.wf(),
    {
        Synth::new(Oscillator::new_sine())
    }
}

} // verus!
