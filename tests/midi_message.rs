use gruvahlib::{get_midi_note_from_octave_and_note_number, MidiAction, MidiMessage};

#[test]
fn test_midi_note_octave_and_note_number() {
    let midi_note = get_midi_note_from_octave_and_note_number(2, 3);
    assert_eq!(midi_note, 39);
}

#[test]
fn test_midi_note_octave_and_note_number_2() {
    let midi_note = get_midi_note_from_octave_and_note_number(3, 0);
    assert_eq!(midi_note, 48);
}

#[test]
fn test_midi_note_octave_and_note_number_3() {
    let midi_note = get_midi_note_from_octave_and_note_number(1, 1);
    assert_eq!(midi_note, 25);
}

#[test]
fn midi_note_wraps_to_a_byte() {
    assert_eq!(get_midi_note_from_octave_and_note_number(21, 0), 8);
    assert_eq!(get_midi_note_from_octave_and_note_number(-2, 0), 244);
    assert_eq!(get_midi_note_from_octave_and_note_number(i32::MAX, i32::MAX), 255);
}

#[test]
fn note_on_status_parses() {
    let m = MidiMessage::new(7, &0x93, 60, 100).unwrap();
    assert_eq!(m.get_midi_action(), MidiAction::NoteOn);
    assert_eq!(m.get_timestamp(), 7);
    assert_eq!(m.get_note_pitch(), 60);
    assert_eq!(m.get_velocity(), 100);
}

#[test]
fn note_off_status_parses() {
    let m = MidiMessage::new(0, &0x85, 60, 100).unwrap();
    assert_eq!(m.get_midi_action(), MidiAction::NoteOff);
}

#[test]
fn zero_velocity_is_note_off() {
    let m = MidiMessage::new(0, &0x90, 60, 0).unwrap();
    assert_eq!(m.get_midi_action(), MidiAction::NoteOff);
    let m = MidiMessage::new(0, &0xB0, 60, 0).unwrap();
    assert_eq!(m.get_midi_action(), MidiAction::NoteOff);
}

#[test]
fn unknown_status_is_rejected() {
    assert!(MidiMessage::new(0, &0xB0, 60, 100).is_none());
    assert!(MidiMessage::new(0, &0x00, 60, 1).is_none());
}
