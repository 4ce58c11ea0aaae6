use vstd::prelude::*;

verus! {

/// Harmonic preset of the oscillator's wavetable.
#[derive(Debug, Clone, Copy, PartialEq, Eq, Structural)]
pub enum WaveType {
    Sine,
    Wave909,
}

impl WaveType {
    /// The preset that a selector value names: 0 for sine, 1 for the 909
    /// preset; `None` for any other value.
    pub fn from_selector(selector: i32) -> (r: Option<WaveType>)
        ensures
            r == match selector {
                0 => Some(WaveType::Sine),
                1 => Some(WaveType::Wave909),
                _ => None::<WaveType>,
            },
    {
        match selector {
            0 => Some(WaveType::Sine),
            1 => Some(WaveType::Wave909),
            _ => None,
        }
    }
}

} // verus!
