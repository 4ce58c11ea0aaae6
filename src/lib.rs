//! Control logic of a single-voice kick-drum synthesiser: parameter smoothing,
//! envelope and pitch-glide sequencing, MIDI event parsing and the per-block
//! event buffer. The floating-point signal path is evaluated by the caller from
//! the plans that this crate computes.

pub mod envelope;
pub mod kick_synth;
pub mod midi_message;
pub mod midi_message_queue;
pub mod oscillator;
pub mod params;
pub mod pitch_envelope;
pub mod saturation;
pub mod target_pair;

pub use envelope::{Envelope, EnvelopeSegment, EnvelopeState};
pub use kick_synth::{KickSynth, SamplePlan};
pub use midi_message::{
    get_midi_note_from_octave_and_note_number, MidiAction, MidiMessage,
};
pub use midi_message_queue::MidiMessageQueue;
pub use oscillator::WaveType;
pub use params::{get_note_number, ParamId, PitchField};
pub use pitch_envelope::{PitchEnvelope, PitchEnvelopePart, PitchGlide, PitchParam};
pub use saturation::SaturationType;
pub use target_pair::TargetCurrentPair;
