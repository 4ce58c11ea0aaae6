use gruvahlib::{Envelope, EnvelopeSegment, EnvelopeState};

fn settled_envelope(a: i32, d: i32, r: i32) -> Envelope {
    let mut env = Envelope::new(48000);
    env.set_attack(a);
    env.set_decay(d);
    env.set_release(r);
    // Lengths only move while a note plays: play notes until they settle.
    for _ in 0..100 {
        env.note_on();
        for _ in 0..100 {
            env.process_sample();
        }
    }
    env
}

#[test]
fn segments_follow_attack_decay_release() {
    let mut env = settled_envelope(2, 3, 4);
    env.note_on();
    let expected = [
        EnvelopeSegment::Attack { elapsed: 0, length: 2 },
        EnvelopeSegment::Attack { elapsed: 1, length: 2 },
        EnvelopeSegment::Decay { elapsed: 0, length: 3 },
        EnvelopeSegment::Decay { elapsed: 1, length: 3 },
        EnvelopeSegment::Decay { elapsed: 2, length: 3 },
        EnvelopeSegment::Release { elapsed: 0, length: 4 },
        EnvelopeSegment::Release { elapsed: 1, length: 4 },
        EnvelopeSegment::Release { elapsed: 2, length: 4 },
        EnvelopeSegment::Release { elapsed: 3, length: 4 },
        EnvelopeSegment::Finished,
    ];
    for e in expected.iter() {
        assert_eq!(env.process_sample(), *e);
    }
    assert_eq!(env.get_state(), EnvelopeState::NoteOff);
}

#[test]
fn silent_and_idle_after_release_until_next_note() {
    let mut env = settled_envelope(1, 1, 1);
    env.note_on();
    assert_eq!(env.get_state(), EnvelopeState::NoteOn);
    for _ in 0..3 {
        assert!(!env.process_sample().is_silent());
    }
    assert_eq!(env.process_sample(), EnvelopeSegment::Finished);
    for _ in 0..50 {
        let s = env.process_sample();
        assert_eq!(s, EnvelopeSegment::Idle);
        assert!(s.is_silent());
        assert_eq!(env.get_state(), EnvelopeState::NoteOff);
    }
    env.note_off();
    assert_eq!(env.process_sample(), EnvelopeSegment::Idle);
    env.note_on();
    assert_eq!(env.process_sample(), EnvelopeSegment::Attack { elapsed: 0, length: 1 });
}

#[test]
fn fresh_envelope_ends_at_once() {
    let mut env = Envelope::new(48000);
    assert_eq!(env.process_sample(), EnvelopeSegment::Idle);
    env.set_attack(10);
    env.note_on();
    assert_eq!(env.process_sample(), EnvelopeSegment::Finished);
    env.note_on();
    assert_eq!(env.process_sample(), EnvelopeSegment::Attack { elapsed: 0, length: 1 });
}

#[test]
fn zero_and_negative_lengths_count_as_one() {
    let mut env = settled_envelope(0, -5, 0);
    env.note_on();
    assert_eq!(env.process_sample(), EnvelopeSegment::Attack { elapsed: 0, length: 1 });
    assert_eq!(env.process_sample(), EnvelopeSegment::Decay { elapsed: 0, length: 1 });
    assert_eq!(env.process_sample(), EnvelopeSegment::Release { elapsed: 0, length: 1 });
    assert_eq!(env.process_sample(), EnvelopeSegment::Finished);
    assert_eq!(env.get_sample_rate(), 48000);
}
