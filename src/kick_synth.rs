use vstd::prelude::*;
use crate::envelope::{Envelope, EnvelopeSegment, EnvelopeState};
use crate::midi_message::{MidiAction, MidiMessage};
use crate::midi_message_queue::{
    after_add, after_take, first_free, taken_message, MidiMessageQueue, MIDI_QUEUE_SIZE,
};
use crate::pitch_envelope::{resting_part, PitchEnvelope, PitchGlide, PitchParam, PITCH_ENVELOPE_SIZE};

verus! {

/// What one sample of the voice is made of: whether the oscillator restarts
/// from its start phase first, the pitch glide point that sets its frequency,
/// and the amplitude envelope segment that scales it.
#[derive(Debug, Clone, Copy)]
pub struct SamplePlan<F> {
    pub retrigger: bool,
    pub glide: PitchGlide<F>,
    pub segment: EnvelopeSegment,
}

/// Whether an event was taken and it starts a note.
pub open spec fn starts_note(event: Option<MidiMessage>) -> bool {
    event matches Some(m) && m.spec_action() == MidiAction::NoteOn
}

/// Control state of the kick voice: the event buffer of the current block,
/// the amplitude envelope's timing and the pitch glide.
pub struct KickSynth<F> {
    amp_envelope: Envelope,
    pitch_envelope: PitchEnvelope<F>,
    midi_message_queue: MidiMessageQueue,
}

impl<F: Copy> KickSynth<F> {
    pub closed spec fn spec_amp(&self) -> Envelope {
        self.amp_envelope
    }

    pub closed spec fn spec_pitch(&self) -> PitchEnvelope<F> {
        self.pitch_envelope
    }

    /// The event slots of the current block.
    pub closed spec fn spec_queue(&self) -> Seq<Option<(i32, MidiMessage)>> {
        self.midi_message_queue@
    }

    /// Both envelopes stand at the start of a new note, with the settings of
    /// `before`.
    pub open spec fn restarted_from(&self, before: Self) -> bool {
        &&& self.spec_amp().spec_state() == EnvelopeState::NoteOn
        &&& self.spec_amp().spec_current_sample() == 0
        &&& self.spec_amp().spec_attack() == before.spec_amp().spec_attack()
        &&& self.spec_amp().spec_decay() == before.spec_amp().spec_decay()
        &&& self.spec_amp().spec_release() == before.spec_amp().spec_release()
        &&& self.spec_pitch().spec_current_sample() == 0
        &&& self.spec_pitch().spec_stage_start() == 0
        &&& self.spec_pitch().spec_stage_index() == 0
        &&& self.spec_pitch().spec_previous() == resting_part(before.spec_pitch().spec_baseline())
        &&& self.spec_pitch().spec_next() == before.spec_pitch().spec_stages()[0]
        &&& self.spec_pitch().spec_stages() == before.spec_pitch().spec_stages()
        &&& self.spec_pitch().spec_baseline() == before.spec_pitch().spec_baseline()
    }

    pub closed spec fn wf(&self) -> bool {
        &&& self.amp_envelope.wf()
        &&& self.pitch_envelope.wf()
        &&& self.midi_message_queue@.len() == MIDI_QUEUE_SIZE
    }

    /// A silent voice at `sample_rate` whose glides start from `baseline`.
    pub fn new(sample_rate: usize, baseline: F) -> (r: Self)
        ensures
            r.wf(),
            r.spec_amp().spec_state() == EnvelopeState::NoteOff,
            r.spec_amp().spec_sample_rate() == sample_rate,
            r.spec_pitch().spec_sample_rate() == sample_rate,
            r.spec_pitch().spec_baseline() == baseline,
            forall|i: int| 0 <= i < MIDI_QUEUE_SIZE ==> r.spec_queue()[i] is None,
    {
        let queue = MidiMessageQueue::new();
        proof {
            queue.lemma_len();
        }
        KickSynth {
            amp_envelope: Envelope::new(sample_rate),
            pitch_envelope: PitchEnvelope::new(sample_rate, baseline),
            midi_message_queue: queue,
        }
    }

    /// Queues an event for the current block; `false` where the queue was
    /// full and the event was dropped.
    pub fn queue_midi_message(&mut self, midi_message: &MidiMessage) -> (accepted: bool)
        requires
            old(self).wf(),
        ensures
            final(self).wf(),
            final(self).spec_queue() == after_add(old(self).spec_queue(), *midi_message),
            accepted <==> first_free(old(self).spec_queue()) is Some,
            final(self).spec_amp() == old(self).spec_amp(),
            final(self).spec_pitch() == old(self).spec_pitch(),
    {
        self.midi_message_queue.add_midi_message(*midi_message)
    }

    /// Applies an event: a note-on restarts both envelopes and asks for the
    /// oscillator to restart, which the result says; a note-off changes
    /// nothing, as the voice decays on its own.
    pub fn process_midi_message(&mut self, midi_message: &MidiMessage) -> (retrigger: bool)
        requires
            old(self).wf(),
        ensures
            final(self).wf(),
            retrigger <==> midi_message.spec_action() == MidiAction::NoteOn,
            retrigger ==> final(self).restarted_from(*old(self)),
            !retrigger ==> *final(self) == *old(self),
            final(self).spec_queue() == old(self).spec_queue(),
    {
        match midi_message.get_midi_action() {
            MidiAction::NoteOn => {
                self.amp_envelope.note_on();
                self.pitch_envelope.note_on();
                true
            },
            MidiAction::NoteOff => {
                self.amp_envelope.note_off();
                self.pitch_envelope.note_off();
                false
            },
        }
    }

    /// Takes the event due at `midi_message_timestamp` out of the queue, if
    /// there is one, and applies it; the result says whether the oscillator
    /// must restart.
    pub fn process_midi_messages(&mut self, midi_message_timestamp: i32) -> (retrigger: bool)
        requires
            old(self).wf(),
        ensures
            final(self).wf(),
            final(self).spec_queue() == after_take(old(self).spec_queue(), midi_message_timestamp),
            retrigger <==> starts_note(taken_message(old(self).spec_queue(), midi_message_timestamp)),
            retrigger ==> final(self).restarted_from(*old(self)),
            !retrigger ==> final(self).spec_amp() == old(self).spec_amp(),
            !retrigger ==> final(self).spec_pitch() == old(self).spec_pitch(),
    {
        let midi_message = self.midi_message_queue.get_latest_midi_message_if_timestamp(
            midi_message_timestamp,
        );
        match midi_message {
            Some(m) => self.process_midi_message(&m),
            None => false,
        }
    }

    /// Plans the sample at `offset` in the block: the event due there is
    /// applied first, then the pitch glide and the amplitude envelope each
    /// move on by one sample.
    pub fn next_sample(&mut self, offset: i32) -> (r: SamplePlan<F>)
        requires
            old(self).wf(),
        ensures
            final(self).wf(),
            final(self).spec_queue() == after_take(old(self).spec_queue(), offset),
            r.retrigger <==> starts_note(taken_message(old(self).spec_queue(), offset)),
            r.glide == if r.retrigger {
                old(self).spec_pitch().restarted_glide()
            } else {
                old(self).spec_pitch().spec_glide()
            },
            r.segment == if r.retrigger {
                old(self).spec_amp().segment_from(0)
            } else if old(self).spec_amp().spec_state() == EnvelopeState::NoteOff {
                EnvelopeSegment::Idle
            } else {
                old(self).spec_amp().segment_from(old(self).spec_amp().spec_current_sample())
            },
            final(self).spec_amp().spec_state() == if r.segment is Attack || r.segment is Decay
                || r.segment is Release {
                EnvelopeState::NoteOn
            } else {
                EnvelopeState::NoteOff
            },
            r.retrigger ==> final(self).spec_pitch().spec_current_sample() == 1,
            r.retrigger ==> final(self).spec_amp().spec_current_sample() == 1,
    {
        let retrigger = self.process_midi_messages(offset);
        let glide = self.pitch_envelope.get_frequency();
        let segment = self.amp_envelope.process_sample();
        SamplePlan { retrigger, glide, segment }
    }

    pub fn get_sample_rate(&self) -> (r: usize)
        requires
            self.wf(),
        ensures
            r == self.spec_amp().spec_sample_rate(),
    {
        self.amp_envelope.get_sample_rate()
    }

    /// Sets the attack length, in samples.
    pub fn set_attack(&mut self, attack_samples: i32)
        requires
            old(self).wf(),
        ensures
            final(self).wf(),
            final(self).spec_amp().spec_attack().spec_target() == if attack_samples < 1 {
                1
            } else {
                attack_samples
            },
            final(self).spec_pitch() == old(self).spec_pitch(),
            final(self).spec_queue() == old(self).spec_queue(),
    {
        self.amp_envelope.set_attack(attack_samples);
    }

    /// Sets the decay length, in samples.
    pub fn set_decay(&mut self, decay_samples: i32)
        requires
            old(self).wf(),
        ensures
            final(self).wf(),
            final(self).spec_amp().spec_decay().spec_target() == if decay_samples < 1 {
                1
            } else {
                decay_samples
            },
            final(self).spec_pitch() == old(self).spec_pitch(),
            final(self).spec_queue() == old(self).spec_queue(),
    {
        self.amp_envelope.set_decay(decay_samples);
    }

    /// Sets the release length, in samples.
    pub fn set_release(&mut self, release_samples: i32)
        requires
            old(self).wf(),
        ensures
            final(self).wf(),
            final(self).spec_amp().spec_release().spec_target() == if release_samples < 1 {
                1
            } else {
                release_samples
            },
            final(self).spec_pitch() == old(self).spec_pitch(),
            final(self).spec_queue() == old(self).spec_queue(),
    {
        self.amp_envelope.set_release(release_samples);
    }

    /// Changes the octave, note or length of a pitch stage.
    pub fn set_pitch(&mut self, note_number: i32, pitch_param: PitchParam)
        requires
            old(self).wf(),
            0 <= note_number < PITCH_ENVELOPE_SIZE,
        ensures
            final(self).wf(),
            final(self).spec_pitch().spec_stages() == old(self).spec_pitch().spec_stages().update(
                note_number as int,
                crate::pitch_envelope::with_param(
                    old(self).spec_pitch().spec_stages()[note_number as int],
                    pitch_param,
                ),
            ),
            final(self).spec_amp() == old(self).spec_amp(),
            final(self).spec_queue() == old(self).spec_queue(),
    {
        self.pitch_envelope.set_pitch(note_number, pitch_param);
    }

    /// Sets the frequency that a pitch stage glides to.
    pub fn set_frequency(&mut self, note_number: i32, frequency: F)
        requires
            old(self).wf(),
            0 <= note_number < PITCH_ENVELOPE_SIZE,
        ensures
            final(self).wf(),
            final(self).spec_pitch().spec_stages() == old(self).spec_pitch().spec_stages().update(
                note_number as int,
                crate::pitch_envelope::with_frequency(
                    old(self).spec_pitch().spec_stages()[note_number as int],
                    frequency,
                ),
            ),
            final(self).spec_amp() == old(self).spec_amp(),
            final(self).spec_queue() == old(self).spec_queue(),
    {
        self.pitch_envelope.set_frequency(note_number, frequency);
    }

    /// The MIDI note that the frequency of a pitch stage follows.
    pub fn stage_midi_note(&self, note_number: i32) -> (r: u8)
        requires
            self.wf(),
            0 <= note_number < PITCH_ENVELOPE_SIZE,
        ensures
            r as int == crate::midi_message::midi_note_of(
                self.spec_pitch().spec_stages()[note_number as int].octave as int,
                self.spec_pitch().spec_stages()[note_number as int].note as int,
            ) % 256,
    {
        self.pitch_envelope.stage_midi_note(note_number as usize)
    }
}

} // verus!
