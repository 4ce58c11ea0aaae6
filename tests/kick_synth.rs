use gruvahlib::{EnvelopeSegment, KickSynth, MidiMessage, PitchParam};

#[test]
fn note_on_retriggers_at_its_offset() {
    let mut synth = KickSynth::new(1000, 20.0_f32);
    synth.set_pitch(0, PitchParam::Timing(4));
    synth.set_frequency(0, 60.0);
    assert!(synth.queue_midi_message(&MidiMessage::new(3, &0x90, 36, 100).unwrap()));
    for i in 0..3 {
        let plan = synth.next_sample(i);
        assert!(!plan.retrigger);
        assert_eq!(plan.segment, EnvelopeSegment::Idle);
    }
    let plan = synth.next_sample(3);
    assert!(plan.retrigger);
    assert_eq!(plan.glide.from, 20.0);
    assert_eq!(plan.glide.to, 60.0);
    assert_eq!(plan.glide.elapsed, 0);
    assert_eq!(plan.glide.duration, 4);
    let plan = synth.next_sample(4);
    assert!(!plan.retrigger);
    assert_eq!(plan.glide.elapsed, 1);
}

#[test]
fn note_off_changes_nothing() {
    let mut synth = KickSynth::new(1000, 20_u32);
    assert!(synth.queue_midi_message(&MidiMessage::new(0, &0x80, 36, 100).unwrap()));
    let plan = synth.next_sample(0);
    assert!(!plan.retrigger);
    assert_eq!(plan.segment, EnvelopeSegment::Idle);
    assert!(!synth.process_midi_message(&MidiMessage::new(0, &0x90, 36, 0).unwrap()));
    assert!(synth.process_midi_message(&MidiMessage::new(0, &0x90, 36, 1).unwrap()));
}

#[test]
fn full_block_queue_drops_extra_events() {
    let mut synth = KickSynth::new(1000, 20_u32);
    for i in 0..16 {
        assert!(synth.queue_midi_message(&MidiMessage::new(i, &0x90, 36, 100).unwrap()));
    }
    assert!(!synth.queue_midi_message(&MidiMessage::new(16, &0x90, 36, 100).unwrap()));
    assert!(synth.process_midi_messages(0));
    assert!(!synth.process_midi_messages(0));
}

#[test]
fn settings_are_forwarded() {
    let mut synth = KickSynth::new(44100, 20_u32);
    assert_eq!(synth.get_sample_rate(), 44100);
    synth.set_pitch(1, PitchParam::Octave(2));
    synth.set_pitch(1, PitchParam::Note(3));
    assert_eq!(synth.stage_midi_note(1), 39);
    synth.set_attack(1);
    synth.set_decay(1);
    synth.set_release(1);
    assert!(synth.queue_midi_message(&MidiMessage::new(0, &0x90, 36, 100).unwrap()));
    let plan = synth.next_sample(0);
    assert!(plan.retrigger);
    assert_eq!(plan.segment, EnvelopeSegment::Finished);
}
