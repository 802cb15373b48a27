//! Monophonic note tracking.
//!
//! At most one note ever sounds. A note-on unconditionally replaces the
//! current note (last note wins, no note stack); a note-off clears the
//! state only when its note number equals the note currently sounding,
//! and is a no-op otherwise.

use vstd::prelude::*;

verus! {

/// Status byte of a MIDI note-off message.
pub const NOTE_OFF_STATUS: u8 = 128;

/// Status byte of a MIDI note-on message.
pub const NOTE_ON_STATUS: u8 = 144;

/// A fixed three-byte MIDI-style message: a status byte and two data
/// bytes. For note messages `data1` is the note number and `data2` the
/// velocity (accepted but unused by the oscillator core).
#[derive(Clone, Copy, Debug)]
pub struct MidiMessage {
    pub status: u8,
    pub data1: u8,
    pub data2: u8,
}

/// The monophonic note tracker: the note currently sounding (`None` when
/// idle) and a per-sample counter since that note started.
#[derive(Clone, Copy, Debug)]
pub struct NoteState {
    pub current_note: Option<u8>,
    pub note_duration: u64,
}

impl NoteState {
    /// The initial, idle state.
    pub fn new() -> (s: NoteState)
        ensures
            s.current_note.is_none(),
            s.note_duration == 0,
    {
        NoteState { current_note: None, note_duration: 0 }
    }

    /// Start sounding `note`, replacing whatever was sounding before, and
    /// reset the duration counter.
    pub fn note_on(&mut self, note: u8)
        ensures
            final(self).current_note == Some(note),
            final(self).note_duration == 0,
    {
        self.note_duration = 0;
        self.current_note = Some(note);
    }

    /// Stop sounding `note` if it is the note currently sounding; a
    /// note-off for any other note changes nothing.
    pub fn note_off(&mut self, note: u8)
        ensures
            old(self).current_note == Some(note) ==> final(self).current_note.is_none(),
            old(self).current_note != Some(note) ==> final(self).current_note
                == old(self).current_note,
            final(self).note_duration == old(self).note_duration,
    {
        match self.current_note {
            Some(n) => {
                if n == note {
                    self.current_note = None;
                }
            },
            None => {},
        }
    }
}

impl Default for NoteState {
    /// The initial, idle state.
    fn default() -> (s: NoteState)
        ensures
            s.current_note.is_none(),
            s.note_duration == 0,
    {
        NoteState { current_note: None, note_duration: 0 }
    }
}

} // verus!
