use vstd::prelude::*;
use crate::pitch_envelope::PITCH_ENVELOPE_SIZE;

verus! {

/// Which property of a pitch stage a parameter sets.
#[derive(Debug, Clone, Copy, PartialEq, Eq, Structural)]
pub enum PitchField {
    Octave,
    Note,
    Timing,
}

/// A recognised parameter identifier; pitch parameters carry the zero-based
/// index of their stage.
#[derive(Debug, Clone, Copy, PartialEq, Eq, Structural)]
pub enum ParamId {
    Pitch(i32, PitchField),
    AmpAttack,
    AmpDecay,
    AmpSustain,
    AmpRelease,
    AmpExponentialFactorA,
    Phase,
    WaveType,
    Drive,
    SaturationType,
}

/// Whether `needle` occurs in `hay` starting at position `i`.
pub open spec fn occurs_at(hay: Seq<char>, needle: Seq<char>, i: int) -> bool {
    0 <= i && i + needle.len() <= hay.len() && hay.subrange(i, i + needle.len()) == needle
}

/// Whether `needle` occurs anywhere in `hay`.
pub open spec fn contains_chars(hay: Seq<char>, needle: Seq<char>) -> bool {
    exists|i: int| occurs_at(hay, needle, i)
}

/// The value of a decimal digit character.
pub open spec fn digit_value(c: char) -> Option<int> {
    if '0' <= c && c <= '9' {
        Some(c as int - '0' as int)
    } else {
        None
    }
}

/// The stage index that an identifier ends in: its last character is the
/// one-based stage number.
pub open spec fn stage_number_of(id: Seq<char>) -> Option<int> {
    if id.len() == 0 {
        None
    } else {
        match digit_value(id.last()) {
            Some(d) => Some(d - 1),
            None => None,
        }
    }
}

/// A pitch parameter for the stage that `id` ends in, where that is a stage.
pub open spec fn pitch_param_of(id: Seq<char>, field: PitchField) -> Option<ParamId> {
    match stage_number_of(id) {
        Some(i) => if 0 <= i < PITCH_ENVELOPE_SIZE {
            Some(ParamId::Pitch(i as i32, field))
        } else {
            None
        },
        None => None,
    }
}

/// The parameter that an identifier names. Identifiers that contain
/// `octave`, `note` or `timing` (tried in that order) set a pitch stage,
/// numbered from one by their last character; the others must match exactly.
pub open spec fn param_id_of(id: Seq<char>) -> Option<ParamId> {
    if contains_chars(id, "octave"@) {
        pitch_param_of(id, PitchField::Octave)
    } else if contains_chars(id, "note"@) {
        pitch_param_of(id, PitchField::Note)
    } else if contains_chars(id, "timing"@) {
        pitch_param_of(id, PitchField::Timing)
    } else if id == "amp_attack"@ {
        Some(ParamId::AmpAttack)
    } else if id == "amp_decay"@ {
        Some(ParamId::AmpDecay)
    } else if id == "amp_sustain"@ {
        Some(ParamId::AmpSustain)
    } else if id == "amp_release"@ {
        Some(ParamId::AmpRelease)
    } else if id == "amp_exponential_factor_a"@ {
        Some(ParamId::AmpExponentialFactorA)
    } else if id == "phase"@ {
        Some(ParamId::Phase)
    } else if id == "waveType"@ {
        Some(ParamId::WaveType)
    } else if id == "driveDb"@ {
        Some(ParamId::Drive)
    } else if id == "saturationType"@ {
        Some(ParamId::SaturationType)
    } else {
        None
    }
}

/// Whether `needle` occurs in `hay` at position `i`.
fn occurs_at_exec(hay: &str, hay_len: usize, needle: &str, needle_len: usize, i: usize) -> (r:
    bool)
    requires
        hay_len == hay@.len(),
        needle_len == needle@.len(),
    ensures
        r == occurs_at(hay@, needle@, i as int),
{
    if i > hay_len || needle_len > hay_len - i {
        return false;
    }
    let mut k: usize = 0;
    while k < needle_len
        invariant
            i + needle_len <= hay_len,
            hay_len == hay@.len(),
            needle_len == needle@.len(),
            0 <= k <= needle_len,
            forall|j: int| 0 <= j < k ==> hay@[i + j] == needle@[j],
        decreases needle_len - k,
    {
        if hay.get_char(i + k) != needle.get_char(k) {
            assert(hay@.subrange(i as int, i + needle_len)[k as int] != needle@[k as int]);
            return false;
        }
        k += 1;
    }
    assert(hay@.subrange(i as int, i + needle_len) =~= needle@);
    true
}

/// Whether `needle` occurs anywhere in `hay`.
pub fn str_contains(hay: &str, needle: &str) -> (r: bool)
    ensures
        r == contains_chars(hay@, needle@),
{
    let hay_len = hay.unicode_len();
    let needle_len = needle.unicode_len();
    let mut i: usize = 0;
    while i < hay_len
        invariant
            hay_len == hay@.len(),
            needle_len == needle@.len(),
            0 <= i <= hay_len,
            forall|j: int| 0 <= j < i ==> !occurs_at(hay@, needle@, j),
        decreases hay_len - i,
    {
        if occurs_at_exec(hay, hay_len, needle, needle_len, i) {
            return true;
        }
        i += 1;
    }
    if occurs_at_exec(hay, hay_len, needle, needle_len, hay_len) {
        return true;
    }
    assert forall|j: int| !occurs_at(hay@, needle@, j) by {
        if occurs_at(hay@, needle@, j) {
            assert(j <= hay_len);
        }
    }
    false
}

/// Whether two strings hold the same characters.
pub fn str_equals(a: &str, b: &str) -> (r: bool)
    ensures
        r == (a@ == b@),
{
    let a_len = a.unicode_len();
    let b_len = b.unicode_len();
    if a_len != b_len {
        return false;
    }
    let r = occurs_at_exec(a, a_len, b, b_len, 0);
    assert(r ==> a@.subrange(0, a_len as int) =~= a@);
    proof {
        if a@ == b@ {
            assert(a@.subrange(0, a_len as int) =~= b@);
        }
    }
    r
}

/// The zero-based stage index that an identifier ends in; `None` where its
/// last character is not a decimal digit.
pub fn get_note_number(parameter_id: &str) -> (r: Option<i32>)
    ensures
        r matches Some(n) ==> stage_number_of(parameter_id@) == Some(n as int),
        r is None ==> stage_number_of(parameter_id@) is None,
{
    let len = parameter_id.unicode_len();
    if len == 0 {
        return None;
    }
    let c = parameter_id.get_char(len - 1);
    if '0' <= c && c <= '9' {
        Some((c as u32 - '0' as u32) as i32 - 1)
    } else {
        None
    }
}

fn pitch_param(parameter_id: &str, field: PitchField) -> (r: Option<ParamId>)
    ensures
        r == pitch_param_of(parameter_id@, field),
{
    match get_note_number(parameter_id) {
        Some(n) => if 0 <= n && n < PITCH_ENVELOPE_SIZE as i32 {
            Some(ParamId::Pitch(n, field))
        } else {
            None
        },
        None => None,
    }
}

impl ParamId {
    /// Reads a parameter identifier; `None` where it names no parameter.
    pub fn parse(parameter_id: &str) -> (r: Option<ParamId>)
        ensures
            r == param_id_of(parameter_id@),
    {
        if str_contains(parameter_id, "octave") {
            pitch_param(parameter_id, PitchField::Octave)
        } else if str_contains(parameter_id, "note") {
            pitch_param(parameter_id, PitchField::Note)
        } else if str_contains(parameter_id, "timing") {
            pitch_param(parameter_id, PitchField::Timing)
        } else if str_equals(parameter_id, "amp_attack") {
            Some(ParamId::AmpAttack)
        } else if str_equals(parameter_id, "amp_decay") {
            Some(ParamId::AmpDecay)
        } else if str_equals(parameter_id, "amp_sustain") {
            Some(ParamId::AmpSustain)
        } else if str_equals(parameter_id, "amp_release") {
            Some(ParamId::AmpRelease)
        } else if str_equals(parameter_id, "amp_exponential_factor_a") {
            Some(ParamId::AmpExponentialFactorA)
        } else if str_equals(parameter_id, "phase") {
            Some(ParamId::Phase)
        } else if str_equals(parameter_id, "waveType") {
            Some(ParamId::WaveType)
        } else if str_equals(parameter_id, "driveDb") {
            Some(ParamId::Drive)
        } else if str_equals(parameter_id, "saturationType") {
            Some(ParamId::SaturationType)
        } else {
            None
        }
    }
}

} // verus!
