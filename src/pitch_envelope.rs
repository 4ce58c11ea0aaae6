use vstd::prelude::*;
use crate::midi_message::{get_midi_note_from_octave_and_note_number, midi_note_of};

verus! {

/// Number of glide stages.
pub const PITCH_ENVELOPE_SIZE: usize = 4;

/// One glide stage: the frequency it glides to, the octave and note that
/// frequency follows, and how many samples the glide takes.
#[derive(Debug, Clone, Copy)]
pub struct PitchEnvelopePart<F> {
    pub frequency: F,
    pub octave: i32,
    pub note: i32,
    pub timing: usize,
}

impl<F: Copy> PitchEnvelopePart<F> {
    /// A stage at `frequency`, octave 0, note 0, taking no time.
    pub fn at(frequency: F) -> (r: Self)
        ensures
            r == resting_part(frequency),
    {
        PitchEnvelopePart { frequency, octave: 0, note: 0, timing: 0 }
    }
}

/// A stage at `frequency`, octave 0, note 0, taking no time.
pub open spec fn resting_part<F>(frequency: F) -> PitchEnvelopePart<F> {
    PitchEnvelopePart { frequency, octave: 0, note: 0, timing: 0 }
}

/// A change to one stage: its octave, its note, or its length in samples.
#[derive(Debug, Clone, Copy, PartialEq, Eq, Structural)]
pub enum PitchParam {
    Octave(i32),
    Note(i32),
    Timing(usize),
}

/// The frequency on one sample, as a point on a linear glide: it lies
/// `elapsed / duration` of the way from `from` to `to`, or at `to` where the
/// duration is zero.
#[derive(Debug, Clone, Copy)]
pub struct PitchGlide<F> {
    pub from: F,
    pub to: F,
    pub elapsed: usize,
    pub duration: usize,
}

/// `part` after `param` has been applied to it; a length under one sample
/// counts as one.
pub open spec fn with_param<F>(part: PitchEnvelopePart<F>, param: PitchParam) -> PitchEnvelopePart<F> {
    match param {
        PitchParam::Octave(o) => PitchEnvelopePart { octave: o, ..part },
        PitchParam::Note(n) => PitchEnvelopePart { note: n, ..part },
        PitchParam::Timing(t) => PitchEnvelopePart { timing: if t == 0 { 1 } else { t }, ..part },
    }
}

/// `part` gliding to `frequency` instead.
pub open spec fn with_frequency<F>(part: PitchEnvelopePart<F>, frequency: F) -> PitchEnvelopePart<F> {
    PitchEnvelopePart { frequency, ..part }
}

/// `x + 1`, held at the largest `usize`.
pub open spec fn saturating_next(x: usize) -> usize {
    if x < usize::MAX { (x + 1) as usize } else { x }
}

/// Four chained glide stages and the playhead that walks through them.
pub struct PitchEnvelope<F> {
    sample_rate: usize,
    current_sample: usize,
    pitches: [PitchEnvelopePart<F>; PITCH_ENVELOPE_SIZE],
    previous_pitch: PitchEnvelopePart<F>,
    next_pitch: PitchEnvelopePart<F>,
    previous_total_timing: usize,
    current_note_number: usize,
    baseline: F,
}

impl<F: Copy> PitchEnvelope<F> {
    pub closed spec fn spec_sample_rate(&self) -> usize {
        self.sample_rate
    }

    /// Samples since the note started.
    pub closed spec fn spec_current_sample(&self) -> usize {
        self.current_sample
    }

    /// The four stages, in order.
    pub closed spec fn spec_stages(&self) -> Seq<PitchEnvelopePart<F>> {
        self.pitches@
    }

    /// The stage the glide comes from.
    pub closed spec fn spec_previous(&self) -> PitchEnvelopePart<F> {
        self.previous_pitch
    }

    /// The stage the glide goes to.
    pub closed spec fn spec_next(&self) -> PitchEnvelopePart<F> {
        self.next_pitch
    }

    /// Sample at which the glide toward the next stage began.
    pub closed spec fn spec_stage_start(&self) -> usize {
        self.previous_total_timing
    }

    /// Index of the stage being glided to.
    pub closed spec fn spec_stage_index(&self) -> usize {
        self.current_note_number
    }

    /// Frequency that each note starts from.
    pub closed spec fn spec_baseline(&self) -> F {
        self.baseline
    }

    /// The glide point of the sample the playhead stands on.
    pub open spec fn spec_glide(&self) -> PitchGlide<F> {
        PitchGlide {
            from: self.spec_previous().frequency,
            to: self.spec_next().frequency,
            elapsed: (self.spec_current_sample() - self.spec_stage_start()) as usize,
            duration: self.spec_next().timing,
        }
    }

    /// The first glide point of a new note: from the baseline toward the
    /// first stage.
    pub open spec fn restarted_glide(&self) -> PitchGlide<F> {
        PitchGlide {
            from: self.spec_baseline(),
            to: self.spec_stages()[0].frequency,
            elapsed: 0,
            duration: self.spec_stages()[0].timing,
        }
    }

    pub closed spec fn wf(&self) -> bool {
        &&& self.previous_total_timing <= self.current_sample
        &&& self.current_note_number < PITCH_ENVELOPE_SIZE
    }

    /// An envelope whose stages all sit at `baseline` and take no time.
    pub fn new(sample_rate: usize, baseline: F) -> (r: Self)
        ensures
            r.wf(),
            r.spec_sample_rate() == sample_rate,
            r.spec_baseline() == baseline,
            r.spec_stages().len() == PITCH_ENVELOPE_SIZE,
            forall|i: int| 0 <= i < PITCH_ENVELOPE_SIZE ==> r.spec_stages()[i] == resting_part(baseline),
            r.spec_previous() == resting_part(baseline),
            r.spec_next() == r.spec_previous(),
            r.spec_current_sample() == 0,
            r.spec_stage_start() == 0,
            r.spec_stage_index() == 0,
    {
        let part = PitchEnvelopePart::at(baseline);
        PitchEnvelope {
            sample_rate,
            current_sample: 0,
            pitches: [part, part, part, part],
            previous_pitch: part,
            next_pitch: part,
            previous_total_timing: 0,
            current_note_number: 0,
            baseline,
        }
    }

    pub fn get_sample_rate(&self) -> (r: usize)
        ensures
            r == self.spec_sample_rate(),
    {
        self.sample_rate
    }

    /// Starts a glide from the baseline toward the first stage.
    pub fn note_on(&mut self)
        requires
            old(self).wf(),
        ensures
            final(self).wf(),
            final(self).spec_current_sample() == 0,
            final(self).spec_stage_start() == 0,
            final(self).spec_stage_index() == 0,
            final(self).spec_previous() == resting_part(old(self).spec_baseline()),
            final(self).spec_next() == old(self).spec_stages()[0],
            final(self).spec_stages() == old(self).spec_stages(),
            final(self).spec_baseline() == old(self).spec_baseline(),
            final(self).spec_sample_rate() == old(self).spec_sample_rate(),
    {
        self.current_sample = 0;
        self.current_note_number = 0;
        self.previous_total_timing = 0;
        self.previous_pitch = PitchEnvelopePart::at(self.baseline);
        self.next_pitch = self.pitches[0];
    }

    /// Releasing the key leaves the glide as it is.
    pub fn note_off(&self) {
    }

    /// The stage at `index`.
    pub fn get_stage(&self, index: usize) -> (r: PitchEnvelopePart<F>)
        requires
            index < PITCH_ENVELOPE_SIZE,
        ensures
            r == self.spec_stages()[index as int],
    {
        self.pitches[index]
    }

    /// The MIDI note that the frequency of the stage at `index` follows.
    pub fn stage_midi_note(&self, index: usize) -> (r: u8)
        requires
            index < PITCH_ENVELOPE_SIZE,
        ensures
            r as int == midi_note_of(
                self.spec_stages()[index as int].octave as int,
                self.spec_stages()[index as int].note as int,
            ) % 256,
    {
        let part = self.pitches[index];
        get_midi_note_from_octave_and_note_number(part.octave, part.note)
    }

    /// Changes the octave, the note or the length of stage `note_number`. A
    /// length under one sample counts as one. The stage's frequency is the
    /// caller's to set, from `stage_midi_note`.
    pub fn set_pitch(&mut self, note_number: i32, pitch_param: PitchParam)
        requires
            old(self).wf(),
            0 <= note_number < PITCH_ENVELOPE_SIZE,
        ensures
            final(self).wf(),
            final(self).spec_stages() == old(self).spec_stages().update(
                note_number as int,
                with_param(old(self).spec_stages()[note_number as int], pitch_param),
            ),
            final(self).spec_previous() == old(self).spec_previous(),
            final(self).spec_next() == old(self).spec_next(),
            final(self).spec_current_sample() == old(self).spec_current_sample(),
            final(self).spec_stage_start() == old(self).spec_stage_start(),
            final(self).spec_stage_index() == old(self).spec_stage_index(),
            final(self).spec_baseline() == old(self).spec_baseline(),
            final(self).spec_sample_rate() == old(self).spec_sample_rate(),
    {
        let index = note_number as usize;
        let mut part = self.pitches[index];
        match pitch_param {
            PitchParam::Octave(octave) => {
                part.octave = octave;
            },
            PitchParam::Note(note) => {
                part.note = note;
            },
            PitchParam::Timing(timing) => {
                part.timing = if timing == 0 { 1 } else { timing };
            },
        }
        self.pitches[index] = part;
    }

    /// Sets the frequency that stage `note_number` glides to.
    pub fn set_frequency(&mut self, note_number: i32, frequency: F)
        requires
            old(self).wf(),
            0 <= note_number < PITCH_ENVELOPE_SIZE,
        ensures
            final(self).wf(),
            final(self).spec_stages() == old(self).spec_stages().update(
                note_number as int,
                with_frequency(old(self).spec_stages()[note_number as int], frequency),
            ),
            final(self).spec_previous() == old(self).spec_previous(),
            final(self).spec_next() == old(self).spec_next(),
            final(self).spec_current_sample() == old(self).spec_current_sample(),
            final(self).spec_stage_start() == old(self).spec_stage_start(),
            final(self).spec_stage_index() == old(self).spec_stage_index(),
            final(self).spec_baseline() == old(self).spec_baseline(),
            final(self).spec_sample_rate() == old(self).spec_sample_rate(),
    {
        let index = note_number as usize;
        let mut part = self.pitches[index];
        part.frequency = frequency;
        self.pitches[index] = part;
    }

    /// The glide point of this sample; the playhead then moves on by one
    /// sample. Where this sample ends the current stage, the stage reached
    /// becomes the one glided from, and the next stage, or the last one again
    /// once none is left, the one glided to.
    pub fn get_frequency(&mut self) -> (r: PitchGlide<F>)
        requires
            old(self).wf(),
        ensures
            final(self).wf(),
            r == old(self).spec_glide(),
            final(self).spec_current_sample() == saturating_next(old(self).spec_current_sample()),
            r.elapsed == r.duration ==> {
                &&& final(self).spec_previous() == old(self).spec_next()
                &&& final(self).spec_next() == if old(self).spec_stage_index() + 1
                    < PITCH_ENVELOPE_SIZE {
                    old(self).spec_stages()[old(self).spec_stage_index() + 1]
                } else {
                    old(self).spec_next()
                }
                &&& final(self).spec_stage_index() == if old(self).spec_stage_index() + 1
                    < PITCH_ENVELOPE_SIZE {
                    old(self).spec_stage_index() + 1
                } else {
                    old(self).spec_stage_index() as int
                }
                &&& final(self).spec_stage_start() == old(self).spec_stage_start()
                    + old(self).spec_next().timing
            },
            r.elapsed != r.duration ==> {
                &&& final(self).spec_previous() == old(self).spec_previous()
                &&& final(self).spec_next() == old(self).spec_next()
                &&& final(self).spec_stage_index() == old(self).spec_stage_index()
                &&& final(self).spec_stage_start() == old(self).spec_stage_start()
            },
            final(self).spec_stage_start() >= old(self).spec_stage_start(),
            final(self).spec_stage_index() >= old(self).spec_stage_index(),
            final(self).spec_stages() == old(self).spec_stages(),
            final(self).spec_baseline() == old(self).spec_baseline(),
            final(self).spec_sample_rate() == old(self).spec_sample_rate(),
    {
        let elapsed = self.current_sample - self.previous_total_timing;
        let glide = PitchGlide {
            from: self.previous_pitch.frequency,
            to: self.next_pitch.frequency,
            elapsed,
            duration: self.next_pitch.timing,
        };
        if elapsed == self.next_pitch.timing {
            self.previous_pitch = self.next_pitch;
            if self.current_note_number + 1 < PITCH_ENVELOPE_SIZE {
                self.next_pitch = self.pitches[self.current_note_number + 1];
                self.current_note_number = self.current_note_number + 1;
            }
            self.previous_total_timing = self.current_sample;
        }
        if self.current_sample < usize::MAX {
            self.current_sample = self.current_sample + 1;
        }
        glide
    }
}

} // verus!
