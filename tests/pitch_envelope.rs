use gruvahlib::{PitchEnvelope, PitchGlide, PitchParam};

fn frequency_of(glide: PitchGlide<f32>) -> f32 {
    let fraction = match glide.duration {
        0 => 1.0,
        _ => glide.elapsed as f32 / glide.duration as f32,
    };
    glide.from + (glide.to - glide.from) * fraction
}

#[test]
fn test_get_frequency_0() {
    let mut pitch_envelope = PitchEnvelope::new(1000, 20.0_f32);

    pitch_envelope.set_pitch(0, PitchParam::Timing(10));
    pitch_envelope.set_frequency(0, 100.0);

    pitch_envelope.set_pitch(1, PitchParam::Timing(20));
    pitch_envelope.set_frequency(1, 200.0);

    pitch_envelope.set_pitch(2, PitchParam::Timing(30));
    pitch_envelope.set_frequency(2, 300.0);

    pitch_envelope.set_pitch(3, PitchParam::Timing(40));
    pitch_envelope.set_frequency(3, 400.0);

    pitch_envelope.note_on();

    for i in 0..150 {
        let frequency = frequency_of(pitch_envelope.get_frequency());
        println!("i: {}, frequency: {:?}", i, frequency);
        if i == 0 {
            assert_eq!(frequency, 20.0);
        }

        if i == 5 {
            assert_eq!(frequency, 60.0);
        }

        if i == 10 {
            assert_eq!(frequency, 100.0);
        }

        if i == 26 {
            assert_eq!(frequency, 180.0);
        }

        if i == 36 {
            assert_eq!(frequency, 220.0);
        }

        if i == 60 {
            assert_eq!(frequency, 300.0);
        }

        if i == 80 {
            assert_eq!(frequency, 350.0);
        }

        if i == 120 {
            assert_eq!(frequency, 400.0);
        }
    }
}

#[test]
fn glide_points_follow_stage_boundaries() {
    let mut env = PitchEnvelope::new(1000, 20_u32);
    env.set_pitch(0, PitchParam::Timing(2));
    env.set_frequency(0, 100);
    env.set_pitch(1, PitchParam::Timing(3));
    env.set_frequency(1, 200);
    env.note_on();
    let g = env.get_frequency();
    assert_eq!((g.from, g.to, g.elapsed, g.duration), (20, 100, 0, 2));
    env.get_frequency();
    let g = env.get_frequency();
    assert_eq!((g.from, g.to, g.elapsed, g.duration), (20, 100, 2, 2));
    let g = env.get_frequency();
    assert_eq!((g.from, g.to, g.elapsed, g.duration), (100, 200, 1, 3));
}

#[test]
fn zero_timing_counts_as_one_sample() {
    let mut env = PitchEnvelope::new(1000, 20_u32);
    env.set_pitch(0, PitchParam::Timing(0));
    assert_eq!(env.get_stage(0).timing, 1);
}

#[test]
fn stage_midi_note_follows_octave_and_note() {
    let mut env = PitchEnvelope::new(1000, 20_u32);
    env.set_pitch(2, PitchParam::Octave(3));
    env.set_pitch(2, PitchParam::Note(4));
    assert_eq!(env.stage_midi_note(2), 52);
    assert_eq!(env.get_stage(2).octave, 3);
    assert_eq!(env.get_stage(2).note, 4);
    assert_eq!(env.stage_midi_note(0), 12);
}

#[test]
fn holds_final_stage_after_last_boundary() {
    let mut env = PitchEnvelope::new(1000, 0_u32);
    for i in 0..4 {
        env.set_pitch(i, PitchParam::Timing(1));
        env.set_frequency(i, (i as u32 + 1) * 10);
    }
    env.note_on();
    let mut last = env.get_frequency();
    for _ in 0..20 {
        last = env.get_frequency();
    }
    assert_eq!((last.from, last.to), (40, 40));
}
