use gruvahlib::{get_note_number, ParamId, PitchField, SaturationType, WaveType};

#[test]
fn pitch_identifiers_name_their_stage() {
    assert_eq!(ParamId::parse("pitch_octave1"), Some(ParamId::Pitch(0, PitchField::Octave)));
    assert_eq!(ParamId::parse("pitchnote4"), Some(ParamId::Pitch(3, PitchField::Note)));
    assert_eq!(ParamId::parse("pitch_timing2"), Some(ParamId::Pitch(1, PitchField::Timing)));
}

#[test]
fn pitch_identifier_without_stage_is_rejected() {
    assert_eq!(ParamId::parse("pitch_octave"), None);
    assert_eq!(ParamId::parse("pitch_note5"), None);
    assert_eq!(ParamId::parse("pitch_note0"), None);
}

#[test]
fn plain_identifiers_match_exactly() {
    assert_eq!(ParamId::parse("amp_attack"), Some(ParamId::AmpAttack));
    assert_eq!(ParamId::parse("amp_decay"), Some(ParamId::AmpDecay));
    assert_eq!(ParamId::parse("amp_sustain"), Some(ParamId::AmpSustain));
    assert_eq!(ParamId::parse("amp_release"), Some(ParamId::AmpRelease));
    assert_eq!(
        ParamId::parse("amp_exponential_factor_a"),
        Some(ParamId::AmpExponentialFactorA)
    );
    assert_eq!(ParamId::parse("phase"), Some(ParamId::Phase));
    assert_eq!(ParamId::parse("waveType"), Some(ParamId::WaveType));
    assert_eq!(ParamId::parse("driveDb"), Some(ParamId::Drive));
    assert_eq!(ParamId::parse("saturationType"), Some(ParamId::SaturationType));
    assert_eq!(ParamId::parse("amp_attackx"), None);
    assert_eq!(ParamId::parse(""), None);
    assert_eq!(ParamId::parse("volume"), None);
}

#[test]
fn note_number_comes_from_last_digit() {
    assert_eq!(get_note_number("pitch_octave3"), Some(2));
    assert_eq!(get_note_number("x0"), Some(-1));
    assert_eq!(get_note_number("abc"), None);
    assert_eq!(get_note_number(""), None);
}

#[test]
fn selectors_name_presets() {
    assert_eq!(WaveType::from_selector(0), Some(WaveType::Sine));
    assert_eq!(WaveType::from_selector(1), Some(WaveType::Wave909));
    assert_eq!(WaveType::from_selector(2), None);
    assert_eq!(SaturationType::from_selector(0), Some(SaturationType::Bypass));
    assert_eq!(SaturationType::from_selector(1), Some(SaturationType::Soft));
    assert_eq!(SaturationType::from_selector(2), Some(SaturationType::Clip));
    assert_eq!(SaturationType::from_selector(3), Some(SaturationType::ExtremeClip));
    assert_eq!(SaturationType::from_selector(-1), None);
}
