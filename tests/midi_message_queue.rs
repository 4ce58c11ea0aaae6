use gruvahlib::{MidiAction, MidiMessage, MidiMessageQueue};

fn note_on(timestamp: i32, pitch: u8) -> MidiMessage {
    MidiMessage::new(timestamp, &0x90, pitch, 100).unwrap()
}

#[test]
fn seventeenth_event_is_dropped() {
    let mut queue = MidiMessageQueue::new();
    for i in 0..16 {
        assert!(queue.add_midi_message(note_on(i, 40)));
    }
    assert!(!queue.add_midi_message(note_on(16, 40)));
    for i in 0..16 {
        let m = queue.get_latest_midi_message_if_timestamp(i).unwrap();
        assert_eq!(m.get_timestamp(), i);
    }
    assert!(queue.get_latest_midi_message_if_timestamp(16).is_none());
}

#[test]
fn slot_is_reused_after_take() {
    let mut queue = MidiMessageQueue::new();
    for i in 0..16 {
        assert!(queue.add_midi_message(note_on(i, 40)));
    }
    assert!(queue.get_latest_midi_message_if_timestamp(5).is_some());
    assert!(queue.add_midi_message(note_on(99, 41)));
    assert!(!queue.add_midi_message(note_on(100, 41)));
    assert_eq!(queue.get_latest_midi_message_if_timestamp(99).unwrap().get_note_pitch(), 41);
}

#[test]
fn same_offset_delivers_first_and_clears_both() {
    let mut queue = MidiMessageQueue::new();
    assert!(queue.add_midi_message(note_on(3, 40)));
    assert!(queue.add_midi_message(MidiMessage::new(3, &0x80, 41, 100).unwrap()));
    let m = queue.get_latest_midi_message_if_timestamp(3).unwrap();
    assert_eq!(m.get_note_pitch(), 40);
    assert_eq!(m.get_midi_action(), MidiAction::NoteOn);
    assert!(queue.get_latest_midi_message_if_timestamp(3).is_none());
    for i in 0..16 {
        assert!(queue.add_midi_message(note_on(i, 40)));
    }
}

#[test]
fn take_without_match_is_none() {
    let mut queue = MidiMessageQueue::new();
    assert!(queue.get_latest_midi_message_if_timestamp(0).is_none());
    assert!(queue.add_midi_message(note_on(2, 40)));
    assert!(queue.get_latest_midi_message_if_timestamp(1).is_none());
    assert!(queue.get_latest_midi_message_if_timestamp(2).is_some());
}
