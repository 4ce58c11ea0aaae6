use vstd::prelude::*;
use crate::target_pair::{step_toward, lemma_step_toward, TargetCurrentPair};

verus! {

#[derive(Debug, Clone, Copy, PartialEq, Eq, Structural)]
pub enum EnvelopeState {
    NoteOn,
    NoteOff,
}

/// Where the envelope stands on one sample, with the position inside the
/// segment and the segment's length, from which the gain follows:
/// attack rises from 0 to 1, decay falls from 1 to the sustain level, release
/// falls from the sustain level to 0. `Idle` and `Finished` are silent;
/// `Finished` is the sample on which the envelope ends.
#[derive(Debug, Clone, Copy, PartialEq, Eq, Structural)]
pub enum EnvelopeSegment {
    Idle,
    Attack { elapsed: i64, length: i64 },
    Decay { elapsed: i64, length: i64 },
    Release { elapsed: i64, length: i64 },
    Finished,
}

impl EnvelopeSegment {
    /// Whether the envelope contributes nothing on this sample.
    pub fn is_silent(&self) -> (r: bool)
        ensures
            r <==> (*self is Idle || *self is Finished),
    {
        match self {
            EnvelopeSegment::Idle | EnvelopeSegment::Finished => true,
            _ => false,
        }
    }
}

/// The segment that sample `s` of a note falls in, for attack, decay and
/// release lengths `a`, `d` and `r`.
pub open spec fn segment_at(s: int, a: int, d: int, r: int) -> EnvelopeSegment {
    if s < a {
        EnvelopeSegment::Attack { elapsed: s as i64, length: a as i64 }
    } else if s < a + d {
        EnvelopeSegment::Decay { elapsed: (s - a) as i64, length: d as i64 }
    } else if s < a + d + r {
        EnvelopeSegment::Release { elapsed: (s - a - d) as i64, length: r as i64 }
    } else {
        EnvelopeSegment::Finished
    }
}

/// A segment length of `samples`, of which there is at least one.
pub open spec fn at_least_one(samples: i32) -> i32 {
    if samples < 1 { 1 } else { samples }
}

/// Timing of the amplitude envelope of a one-shot voice: attack, decay and
/// release, each counted in samples and smoothed, with no sustain plateau.
pub struct Envelope {
    sample_rate: usize,
    current_sample: i64,
    attack_sample_timing: TargetCurrentPair<i32>,
    decay_sample_timing: TargetCurrentPair<i32>,
    release_sample_timing: TargetCurrentPair<i32>,
    envelope_state: EnvelopeState,
}

pub open spec fn timing_wf(t: TargetCurrentPair<i32>) -> bool {
    t.spec_target() >= 0 && t.spec_current() >= 0
}

impl Envelope {
    pub closed spec fn spec_sample_rate(&self) -> usize {
        self.sample_rate
    }

    pub closed spec fn spec_current_sample(&self) -> int {
        self.current_sample as int
    }

    pub closed spec fn spec_attack(&self) -> TargetCurrentPair<i32> {
        self.attack_sample_timing
    }

    pub closed spec fn spec_decay(&self) -> TargetCurrentPair<i32> {
        self.decay_sample_timing
    }

    pub closed spec fn spec_release(&self) -> TargetCurrentPair<i32> {
        self.release_sample_timing
    }

    pub closed spec fn spec_state(&self) -> EnvelopeState {
        self.envelope_state
    }

    /// Sum of the current attack, decay and release lengths: the sample on
    /// which a note ends.
    pub open spec fn spec_end(&self) -> int {
        self.spec_attack().spec_current() + self.spec_decay().spec_current()
            + self.spec_release().spec_current()
    }

    /// The segment of sample `s` of a note under the current lengths.
    pub open spec fn segment_from(&self, s: int) -> EnvelopeSegment {
        segment_at(
            s,
            self.spec_attack().spec_current() as int,
            self.spec_decay().spec_current() as int,
            self.spec_release().spec_current() as int,
        )
    }

    pub closed spec fn wf(&self) -> bool {
        &&& timing_wf(self.attack_sample_timing)
        &&& timing_wf(self.decay_sample_timing)
        &&& timing_wf(self.release_sample_timing)
        &&& 0 <= self.current_sample <= 3 * (i32::MAX as int) + 1
        &&& self.envelope_state == EnvelopeState::NoteOn ==> self.current_sample <= 3 * (
        i32::MAX as int)
    }

    pub fn new(sample_rate: usize) -> (r: Self)
        ensures
            r.wf(),
            r.spec_sample_rate() == sample_rate,
            r.spec_state() == EnvelopeState::NoteOff,
            r.spec_current_sample() == 0,
            r.spec_attack().spec_target() == 0 && r.spec_attack().spec_current() == 0,
            r.spec_decay().spec_target() == 0 && r.spec_decay().spec_current() == 0,
            r.spec_release().spec_target() == 0 && r.spec_release().spec_current() == 0,
    {
        Envelope {
            sample_rate,
            current_sample: 0,
            attack_sample_timing: TargetCurrentPair::new(0),
            decay_sample_timing: TargetCurrentPair::new(0),
            release_sample_timing: TargetCurrentPair::new(0),
            envelope_state: EnvelopeState::NoteOff,
        }
    }

    pub fn get_sample_rate(&self) -> (r: usize)
        ensures
            r == self.spec_sample_rate(),
    {
        self.sample_rate
    }

    pub fn get_state(&self) -> (r: EnvelopeState)
        ensures
            r == self.spec_state(),
    {
        self.envelope_state
    }

    fn clamp_to_one(samples: i32) -> (r: i32)
        ensures
            r == at_least_one(samples),
    {
        if samples < 1 {
            1
        } else {
            samples
        }
    }

    /// Sets the attack length in samples; a length under one sample counts
    /// as one.
    pub fn set_attack(&mut self, attack_samples: i32)
        requires
            old(self).wf(),
        ensures
            final(self).wf(),
            final(self).spec_attack().spec_target() == at_least_one(attack_samples),
            final(self).spec_attack().spec_current() == old(self).spec_attack().spec_current(),
            final(self).spec_decay() == old(self).spec_decay(),
            final(self).spec_release() == old(self).spec_release(),
            final(self).spec_state() == old(self).spec_state(),
            final(self).spec_current_sample() == old(self).spec_current_sample(),
            final(self).spec_sample_rate() == old(self).spec_sample_rate(),
    {
        self.attack_sample_timing.set_target(Self::clamp_to_one(attack_samples));
    }

    /// Sets the decay length in samples; a length under one sample counts as
    /// one.
    pub fn set_decay(&mut self, decay_samples: i32)
        requires
            old(self).wf(),
        ensures
            final(self).wf(),
            final(self).spec_decay().spec_target() == at_least_one(decay_samples),
            final(self).spec_decay().spec_current() == old(self).spec_decay().spec_current(),
            final(self).spec_attack() == old(self).spec_attack(),
            final(self).spec_release() == old(self).spec_release(),
            final(self).spec_state() == old(self).spec_state(),
            final(self).spec_current_sample() == old(self).spec_current_sample(),
            final(self).spec_sample_rate() == old(self).spec_sample_rate(),
    {
        self.decay_sample_timing.set_target(Self::clamp_to_one(decay_samples));
    }

    /// Sets the release length in samples; a length under one sample counts
    /// as one.
    pub fn set_release(&mut self, release_samples: i32)
        requires
            old(self).wf(),
        ensures
            final(self).wf(),
            final(self).spec_release().spec_target() == at_least_one(release_samples),
            final(self).spec_release().spec_current() == old(
                self,
            ).spec_release().spec_current(),
            final(self).spec_attack() == old(self).spec_attack(),
            final(self).spec_decay() == old(self).spec_decay(),
            final(self).spec_state() == old(self).spec_state(),
            final(self).spec_current_sample() == old(self).spec_current_sample(),
            final(self).spec_sample_rate() == old(self).spec_sample_rate(),
    {
        self.release_sample_timing.set_target(Self::clamp_to_one(release_samples));
    }

    /// Starts a note from its first sample.
    pub fn note_on(&mut self)
        requires
            old(self).wf(),
        ensures
            final(self).wf(),
            final(self).spec_state() == EnvelopeState::NoteOn,
            final(self).spec_current_sample() == 0,
            final(self).spec_attack() == old(self).spec_attack(),
            final(self).spec_decay() == old(self).spec_decay(),
            final(self).spec_release() == old(self).spec_release(),
            final(self).spec_sample_rate() == old(self).spec_sample_rate(),
    {
        self.current_sample = 0;
        self.envelope_state = EnvelopeState::NoteOn;
    }

    /// A percussive voice decays on its own schedule: releasing the key
    /// changes nothing.
    pub fn note_off(&mut self)
        ensures
            *final(self) == *old(self),
    {
    }

    /// Advances the envelope by one sample and says where that sample fell.
    /// While idle nothing moves. Otherwise the segment follows from the
    /// sample count and the current lengths, the lengths then take one
    /// smoothing step and the count moves on; once the count reaches the end
    /// of the release the envelope goes idle, and stays so until the next
    /// note starts.
    pub fn process_sample(&mut self) -> (r: EnvelopeSegment)
        requires
            old(self).wf(),
        ensures
            final(self).wf(),
            old(self).spec_state() == EnvelopeState::NoteOff ==> r == EnvelopeSegment::Idle
                && *final(self) == *old(self),
            old(self).spec_state() == EnvelopeState::NoteOn ==> {
                &&& r == segment_at(
                    old(self).spec_current_sample(),
                    old(self).spec_attack().spec_current() as int,
                    old(self).spec_decay().spec_current() as int,
                    old(self).spec_release().spec_current() as int,
                )
                &&& final(self).spec_current_sample() == old(self).spec_current_sample() + 1
                &&& final(self).spec_state() == if r is Finished {
                    EnvelopeState::NoteOff
                } else {
                    EnvelopeState::NoteOn
                }
                &&& final(self).spec_attack().spec_target() == old(self).spec_attack().spec_target()
                &&& final(self).spec_attack().spec_current() as int == step_toward(
                    old(self).spec_attack().spec_current() as int,
                    old(self).spec_attack().spec_target() as int,
                )
                &&& final(self).spec_decay().spec_target() == old(self).spec_decay().spec_target()
                &&& final(self).spec_decay().spec_current() as int == step_toward(
                    old(self).spec_decay().spec_current() as int,
                    old(self).spec_decay().spec_target() as int,
                )
                &&& final(self).spec_release().spec_target() == old(
                    self,
                ).spec_release().spec_target()
                &&& final(self).spec_release().spec_current() as int == step_toward(
                    old(self).spec_release().spec_current() as int,
                    old(self).spec_release().spec_target() as int,
                )
            },
            old(self).spec_state() == EnvelopeState::NoteOn && old(self).spec_current_sample()
                >= old(self).spec_end() ==> r == EnvelopeSegment::Finished
                && final(self).spec_state() == EnvelopeState::NoteOff,
            final(self).spec_sample_rate() == old(self).spec_sample_rate(),
    {
        if self.envelope_state == EnvelopeState::NoteOff {
            return EnvelopeSegment::Idle;
        }
        let s = self.current_sample;
        let a = self.attack_sample_timing.get() as i64;
        let d = self.decay_sample_timing.get() as i64;
        let rl = self.release_sample_timing.get() as i64;
        let segment = if s < a {
            EnvelopeSegment::Attack { elapsed: s, length: a }
        } else if s < a + d {
            EnvelopeSegment::Decay { elapsed: s - a, length: d }
        } else if s < a + d + rl {
            EnvelopeSegment::Release { elapsed: s - a - d, length: rl }
        } else {
            self.envelope_state = EnvelopeState::NoteOff;
            EnvelopeSegment::Finished
        };
        proof {
            lemma_step_toward(a as int, self.attack_sample_timing.spec_target() as int);
            lemma_step_toward(d as int, self.decay_sample_timing.spec_target() as int);
            lemma_step_toward(rl as int, self.release_sample_timing.spec_target() as int);
        }
        self.attack_sample_timing.update_to_target();
        self.decay_sample_timing.update_to_target();
        self.release_sample_timing.update_to_target();
        self.current_sample = s + 1;
        segment
    }
}

} // verus!
