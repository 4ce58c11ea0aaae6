use vstd::prelude::*;
use crate::midi_message::MidiMessage;

verus! {

/// Number of events that one block can hold.
pub const MIDI_QUEUE_SIZE: usize = 16;

/// A fixed set of event slots, filled in order and emptied as the block is
/// rendered; nothing is allocated once it exists.
pub struct MidiMessageQueue {
    midi_messages: [Option<(i32, MidiMessage)>; MIDI_QUEUE_SIZE],
}

/// Whether a slot holds an event stamped `timestamp`.
pub open spec fn holds_stamp(slot: Option<(i32, MidiMessage)>, timestamp: i32) -> bool {
    slot matches Some(e) && e.0 == timestamp
}

/// Index of the first slot of `s` that holds an event stamped `timestamp`.
pub open spec fn first_match(s: Seq<Option<(i32, MidiMessage)>>, timestamp: i32) -> Option<int>
    decreases s.len(),
{
    if s.len() == 0 {
        None
    } else if holds_stamp(s[0], timestamp) {
        Some(0)
    } else {
        match first_match(s.drop_first(), timestamp) {
            Some(i) => Some(i + 1),
            None => None,
        }
    }
}

/// Index of the first empty slot of `s`.
pub open spec fn first_free(s: Seq<Option<(i32, MidiMessage)>>) -> Option<int>
    decreases s.len(),
{
    if s.len() == 0 {
        None
    } else if s[0] is None {
        Some(0)
    } else {
        match first_free(s.drop_first()) {
            Some(i) => Some(i + 1),
            None => None,
        }
    }
}

/// Number of occupied slots of `s`.
pub open spec fn occupied(s: Seq<Option<(i32, MidiMessage)>>) -> nat
    decreases s.len(),
{
    if s.len() == 0 {
        0
    } else {
        (if s[0] is Some { 1nat } else { 0nat }) + occupied(s.drop_first())
    }
}

/// The slots after `m` has been offered to them.
pub open spec fn after_add(s: Seq<Option<(i32, MidiMessage)>>, m: MidiMessage) -> Seq<
    Option<(i32, MidiMessage)>,
> {
    match first_free(s) {
        Some(i) => s.update(i, Some((m.spec_timestamp(), m))),
        None => s,
    }
}

/// The slots after every event stamped `timestamp` has been taken out.
pub open spec fn after_take(s: Seq<Option<(i32, MidiMessage)>>, timestamp: i32) -> Seq<
    Option<(i32, MidiMessage)>,
> {
    Seq::new(s.len(), |j: int| if holds_stamp(s[j], timestamp) { None } else { s[j] })
}

/// The event that taking `timestamp` out of the slots hands back.
pub open spec fn taken_message(s: Seq<Option<(i32, MidiMessage)>>, timestamp: i32) -> Option<
    MidiMessage,
> {
    match first_match(s, timestamp) {
        Some(i) => Some(s[i]->Some_0.1),
        None => None,
    }
}

pub proof fn lemma_first_free(s: Seq<Option<(i32, MidiMessage)>>)
    ensures
        first_free(s) matches Some(i) ==> 0 <= i < s.len() && s[i] is None && forall|j: int|
            0 <= j < i ==> s[j] is Some,
        first_free(s) is None ==> forall|j: int| 0 <= j < s.len() ==> s[j] is Some,
    decreases s.len(),
{
    if s.len() > 0 {
        lemma_first_free(s.drop_first());
        assert forall|j: int| 0 < j < s.len() implies s[j] == s.drop_first()[j - 1] by {}
    }
}

pub proof fn lemma_first_match(s: Seq<Option<(i32, MidiMessage)>>, timestamp: i32)
    ensures
        first_match(s, timestamp) matches Some(i) ==> {
            &&& 0 <= i < s.len()
            &&& holds_stamp(s[i], timestamp)
            &&& forall|j: int| 0 <= j < i ==> !holds_stamp(s[j], timestamp)
        },
        first_match(s, timestamp) is None ==> forall|j: int|
            0 <= j < s.len() ==> !holds_stamp(s[j], timestamp),
    decreases s.len(),
{
    if s.len() > 0 {
        lemma_first_match(s.drop_first(), timestamp);
        assert forall|j: int| 0 < j < s.len() implies s[j] == s.drop_first()[j - 1] by {}
    }
}

pub proof fn lemma_occupied_full(s: Seq<Option<(i32, MidiMessage)>>)
    ensures
        first_free(s) is None <==> occupied(s) == s.len(),
        occupied(s) <= s.len(),
    decreases s.len(),
{
    if s.len() > 0 {
        lemma_occupied_full(s.drop_first());
    }
}

impl MidiMessageQueue {
    /// The slots in order, each empty or holding an event with its offset.
    pub closed spec fn view(&self) -> Seq<Option<(i32, MidiMessage)>> {
        self.midi_messages@
    }

    pub proof fn lemma_len(&self)
        ensures
            self@.len() == MIDI_QUEUE_SIZE,
    {
    }

    pub fn new() -> (r: Self)
        ensures
            r@.len() == MIDI_QUEUE_SIZE,
            forall|i: int| 0 <= i < r@.len() ==> r@[i] is None,
    {
        MidiMessageQueue { midi_messages: [None; MIDI_QUEUE_SIZE] }
    }

    /// Stores the event in the first empty slot. Where every slot is taken the
    /// event is dropped, the queue is left as it was, and `false` comes back.
    pub fn add_midi_message(&mut self, midi_message: MidiMessage) -> (accepted: bool)
        ensures
            final(self)@.len() == MIDI_QUEUE_SIZE,
            accepted <==> first_free(old(self)@) is Some,
            final(self)@ == after_add(old(self)@, midi_message),
    {
        proof {
            lemma_first_free(self@);
        }
        let mut i: usize = 0;
        while i < MIDI_QUEUE_SIZE
            invariant
                0 <= i <= MIDI_QUEUE_SIZE,
                self@ == old(self)@,
                self@.len() == MIDI_QUEUE_SIZE,
                forall|j: int| 0 <= j < i ==> self@[j] is Some,
            decreases MIDI_QUEUE_SIZE - i,
        {
            if self.midi_messages[i].is_none() {
                proof {
                    lemma_first_free(self@);
                    assert(first_free(self@) == Some(i as int)) by {
                        if let Some(k) = first_free(self@) {
                            assert(k >= i);
                            assert(k <= i);
                        }
                    }
                }
                self.midi_messages[i] = Some((midi_message.get_timestamp(), midi_message));
                assert(self@ == after_add(old(self)@, midi_message));
                return true;
            }
            i += 1;
        }
        false
    }

    /// Takes the event stamped `timestamp` out of the queue. Every slot that
    /// holds an event with that offset is emptied; the event of the first such
    /// slot comes back, the others are dropped.
    pub fn get_latest_midi_message_if_timestamp(&mut self, timestamp: i32) -> (r: Option<
        MidiMessage,
    >)
        ensures
            final(self)@.len() == MIDI_QUEUE_SIZE,
            final(self)@ == after_take(old(self)@, timestamp),
            r == taken_message(old(self)@, timestamp),
    {
        proof {
            lemma_first_match(self@, timestamp);
        }
        let mut output: Option<MidiMessage> = None;
        let mut i: usize = 0;
        while i < MIDI_QUEUE_SIZE
            invariant
                0 <= i <= MIDI_QUEUE_SIZE,
                self@.len() == MIDI_QUEUE_SIZE,
                old(self)@.len() == MIDI_QUEUE_SIZE,
                forall|j: int|
                    0 <= j < i ==> self@[j] == if holds_stamp(old(self)@[j], timestamp) {
                        None
                    } else {
                        old(self)@[j]
                    },
                forall|j: int| i <= j < MIDI_QUEUE_SIZE ==> self@[j] == old(self)@[j],
                match first_match(old(self)@, timestamp) {
                    Some(k) => if k < i {
                        output == Some(old(self)@[k]->Some_0.1)
                    } else {
                        output is None
                    },
                    None => output is None,
                },
            decreases MIDI_QUEUE_SIZE - i,
        {
            proof {
                lemma_first_match(old(self)@, timestamp);
            }
            if let Some((stamp, message)) = self.midi_messages[i] {
                if stamp == timestamp {
                    if output.is_none() {
                        output = Some(message);
                    }
                    self.midi_messages[i] = None;
                }
            }
            i += 1;
        }
        assert(self@ =~= after_take(old(self)@, timestamp));
        output
    }
}

pub proof fn lemma_occupied_update(
    s: Seq<Option<(i32, MidiMessage)>>,
    i: int,
    v: Option<(i32, MidiMessage)>,
)
    requires
        0 <= i < s.len(),
        s[i] is None,
        v is Some,
    ensures
        occupied(s.update(i, v)) == occupied(s) + 1,
    decreases s.len(),
{
    if i > 0 {
        lemma_occupied_update(s.drop_first(), i - 1, v);
        assert(s.update(i, v).drop_first() =~= s.drop_first().update(i - 1, v));
    } else {
        assert(s.update(i, v).drop_first() =~= s.drop_first());
    }
}

/// Offering an event to the slots stores it while one is free, which adds one
/// to the occupied count, and drops it, leaving the slots unchanged, once all
/// are taken: of events offered to an empty queue in one block, the first
/// `MIDI_QUEUE_SIZE` are kept and every later one is dropped.
pub proof fn lemma_add_until_full(s: Seq<Option<(i32, MidiMessage)>>, m: MidiMessage)
    requires
        s.len() == MIDI_QUEUE_SIZE,
    ensures
        occupied(s) < MIDI_QUEUE_SIZE ==> occupied(after_add(s, m)) == occupied(s) + 1
            && after_add(s, m).contains(Some((m.spec_timestamp(), m))),
        occupied(s) == MIDI_QUEUE_SIZE ==> after_add(s, m) == s,
{
    lemma_occupied_full(s);
    lemma_first_free(s);
    if let Some(i) = first_free(s) {
        lemma_occupied_update(s, i, Some((m.spec_timestamp(), m)));
        assert(after_add(s, m)[i] == Some((m.spec_timestamp(), m)));
    }
}

/// Two events with the same offset queued into an empty queue give one
/// delivered event, the first one, and leave both slots empty.
pub proof fn lemma_same_offset_delivers_first(
    s: Seq<Option<(i32, MidiMessage)>>,
    m1: MidiMessage,
    m2: MidiMessage,
)
    requires
        s.len() == MIDI_QUEUE_SIZE,
        forall|j: int| 0 <= j < s.len() ==> s[j] is None,
        m1.spec_timestamp() == m2.spec_timestamp(),
    ensures
        taken_message(after_add(after_add(s, m1), m2), m1.spec_timestamp()) == Some(m1),
        forall|j: int|
            0 <= j < MIDI_QUEUE_SIZE ==> after_take(
                after_add(after_add(s, m1), m2),
                m1.spec_timestamp(),
            )[j] is None,
{
    let t = m1.spec_timestamp();
    lemma_first_free(s);
    let s1 = after_add(s, m1);
    assert(first_free(s) == Some(0int)) by {
        if let Some(k) = first_free(s) {
            assert(k == 0);
        }
    }
    lemma_first_free(s1);
    assert(first_free(s1) == Some(1int)) by {
        if let Some(k) = first_free(s1) {
            assert(s1[1] is None);
            assert(k <= 1);
            assert(k >= 1);
        }
    }
    let s2 = after_add(s1, m2);
    lemma_first_match(s2, t);
    assert(holds_stamp(s2[0], t));
    assert(first_match(s2, t) == Some(0int));
}

} // verus!
