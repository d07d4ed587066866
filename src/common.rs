use vstd::prelude::*;

verus! {

/// A MIDI note number.
#[derive(Clone, Copy, Debug, PartialEq, Eq, Structural)]
pub struct Note(pub u8);

/// The response shape of the voice filter.
#[derive(Clone, Copy, Debug, PartialEq, Eq, Structural)]
pub enum FilterType {
    SinglePoleLowPass,
    LowPass,
    HighPass,
    BandPass,
    Notch,
}

/// The display name of each filter type.
pub open spec fn filter_type_name(t: FilterType) -> Seq<char> {
    match t {
        FilterType::SinglePoleLowPass => "Low Pass (Single Pole)"@,
        FilterType::LowPass => "Low Pass"@,
        FilterType::HighPass => "High Pass"@,
        FilterType::BandPass => "Band Pass"@,
        FilterType::Notch => "Notch"@,
    }
}

impl FilterType {
    /// The human-readable name shown for this filter type.
    pub fn name(&self) -> (r: &'static str)
        ensures
            r@ == filter_type_name(*self),
    {
        match self {
            FilterType::SinglePoleLowPass => "Low Pass (Single Pole)",
            FilterType::LowPass => "Low Pass",
            FilterType::HighPass => "High Pass",
            FilterType::BandPass => "Band Pass",
            FilterType::Notch => "Notch",
        }
    }
}

} // verus!
