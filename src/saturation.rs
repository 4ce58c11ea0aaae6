use vstd::prelude::*;

verus! {

/// Shaping function of the output stage.
#[derive(Debug, Clone, Copy, PartialEq, Eq, Structural)]
pub enum SaturationType {
    Bypass,
    Soft,
    Clip,
    ExtremeClip,
}

impl SaturationType {
    /// The shaping that a selector value names: 0 bypass, 1 soft, 2 clip,
    /// 3 extreme clip; `None` for any other value.
    pub fn from_selector(selector: i32) -> (r: Option<SaturationType>)
        ensures
            r == match selector {
                0 => Some(SaturationType::Bypass),
                1 => Some(SaturationType::Soft),
                2 => Some(SaturationType::Clip),
                3 => Some(SaturationType::ExtremeClip),
                _ => None::<SaturationType>,
            },
    {
        match selector {
            0 => Some(SaturationType::Bypass),
            1 => Some(SaturationType::Soft),
            2 => Some(SaturationType::Clip),
            3 => Some(SaturationType::ExtremeClip),
            _ => None,
        }
    }
}

} // verus!
