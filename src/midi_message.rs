use vstd::prelude::*;

verus! {

#[derive(Debug, Clone, Copy, PartialEq, Eq, Structural)]
pub enum MidiAction {
    NoteOn,
    NoteOff,
}

/// A note event, stamped with the sample offset inside the block at which it
/// takes effect.
#[derive(Debug, Clone, Copy)]
pub struct MidiMessage {
    timestamp: i32,
    midi_action: MidiAction,
    note_pitch: u8,
    velocity: u8,
}

/// Upper nibble of a status byte that starts a note-on message.
pub const NOTE_ON_STATUS: u8 = 0x90;

/// Upper nibble of a status byte that starts a note-off message.
pub const NOTE_OFF_STATUS: u8 = 0x80;

/// The kind of note event that a status byte and velocity stand for: a
/// velocity of zero is a note-off whatever the status says; otherwise the
/// status byte's upper nibble decides, and any other status is malformed.
pub open spec fn action_of(raw_midi_data: u8, velocity: u8) -> Option<MidiAction> {
    if velocity == 0 {
        Some(MidiAction::NoteOff)
    } else if raw_midi_data & 0xF0 == NOTE_ON_STATUS {
        Some(MidiAction::NoteOn)
    } else if raw_midi_data & 0xF0 == NOTE_OFF_STATUS {
        Some(MidiAction::NoteOff)
    } else {
        None
    }
}

impl MidiMessage {
    pub closed spec fn spec_timestamp(&self) -> i32 {
        self.timestamp
    }

    pub closed spec fn spec_action(&self) -> MidiAction {
        self.midi_action
    }

    pub closed spec fn spec_note_pitch(&self) -> u8 {
        self.note_pitch
    }

    pub closed spec fn spec_velocity(&self) -> u8 {
        self.velocity
    }

    /// Parses a note event; `None` where the status byte is neither note-on
    /// nor note-off and the velocity is not zero.
    pub fn new(timestamp: i32, raw_midi_data: &u8, note_pitch: u8, velocity: u8) -> (r: Option<
        Self,
    >)
        ensures
            r is None <==> action_of(*raw_midi_data, velocity) is None,
            r matches Some(m) ==> {
                &&& Some(m.spec_action()) == action_of(*raw_midi_data, velocity)
                &&& m.spec_timestamp() == timestamp
                &&& m.spec_note_pitch() == note_pitch
                &&& m.spec_velocity() == velocity
            },
    {
        let status = *raw_midi_data & 0xF0;
        let midi_action = if velocity == 0 {
            MidiAction::NoteOff
        } else if status == NOTE_ON_STATUS {
            MidiAction::NoteOn
        } else if status == NOTE_OFF_STATUS {
            MidiAction::NoteOff
        } else {
            return None;
        };
        Some(MidiMessage { timestamp, midi_action, note_pitch, velocity })
    }

    pub fn get_timestamp(&self) -> (r: i32)
        ensures
            r == self.spec_timestamp(),
    {
        self.timestamp
    }

    pub fn get_midi_action(&self) -> (r: MidiAction)
        ensures
            r == self.spec_action(),
    {
        self.midi_action
    }

    pub fn get_note_pitch(&self) -> (r: u8)
        ensures
            r == self.spec_note_pitch(),
    {
        self.note_pitch
    }

    pub fn get_velocity(&self) -> (r: u8)
        ensures
            r == self.spec_velocity(),
    {
        self.velocity
    }
}

/// MIDI note number of a note in an octave, by the convention that octave 0
/// starts at note 12.
pub open spec fn midi_note_of(octave: int, note_number: int) -> int {
    octave * 12 + note_number + 12
}

/// The MIDI note number of `note_number` in `octave`, kept to its low eight
/// bits as a byte.
pub fn get_midi_note_from_octave_and_note_number(octave: i32, note_number: i32) -> (r: u8)
    ensures
        r as int == midi_note_of(octave as int, note_number as int) % 256,
{
    let value = octave as i64 * 12 + note_number as i64 + 12;
    let wrapped = value % 256;
    let byte = if wrapped < 0 { wrapped + 256 } else { wrapped };
    byte as u8
}

} // verus!
