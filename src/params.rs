use vstd::prelude::*;

use crate::common::FilterType;
use crate::ease::{DiscreteLinear, SteppedLinear};

verus! {

/// The number of parameter slots that the host can see.
pub const NUM_PARAMS: usize = 23;

/// The parameter slots that the host reads and writes, in slot order.
#[derive(Clone, Copy, Debug, PartialEq, Eq, Structural)]
pub enum ParamId {
    MeowAttack,
    MeowDecay,
    MeowSustain,
    MeowRelease,
    VibratoAmount,
    VibratoAttack,
    VibratoRate,
    PortamentoTime,
    NoiseMix,
    ChorusMix,
    PitchBend,
    Polycat,
    FilterAttack,
    FilterDecay,
    FilterEnvlopeMod,
    FilterDryWet,
    FilterQ,
    FilterType,
    FilterCutoffFreq,
    ChorusDepth,
    ChorusDistance,
    ChorusRate,
    Phase,
}

/// The slot number of each parameter.
pub open spec fn slot_index(p: ParamId) -> int {
    match p {
        ParamId::MeowAttack => 0,
        ParamId::MeowDecay => 1,
        ParamId::MeowSustain => 2,
        ParamId::MeowRelease => 3,
        ParamId::VibratoAmount => 4,
        ParamId::VibratoAttack => 5,
        ParamId::VibratoRate => 6,
        ParamId::PortamentoTime => 7,
        ParamId::NoiseMix => 8,
        ParamId::ChorusMix => 9,
        ParamId::PitchBend => 10,
        ParamId::Polycat => 11,
        ParamId::FilterAttack => 12,
        ParamId::FilterDecay => 13,
        ParamId::FilterEnvlopeMod => 14,
        ParamId::FilterDryWet => 15,
        ParamId::FilterQ => 16,
        ParamId::FilterType => 17,
        ParamId::FilterCutoffFreq => 18,
        ParamId::ChorusDepth => 19,
        ParamId::ChorusDistance => 20,
        ParamId::ChorusRate => 21,
        ParamId::Phase => 22,
    }
}

/// The parameter in slot `i`, if there is one.
pub open spec fn slot_param(i: int) -> Option<ParamId> {
    if i == 0 {
        Some(ParamId::MeowAttack)
    } else if i == 1 {
        Some(ParamId::MeowDecay)
    } else if i == 2 {
        Some(ParamId::MeowSustain)
    } else if i == 3 {
        Some(ParamId::MeowRelease)
    } else if i == 4 {
        Some(ParamId::VibratoAmount)
    } else if i == 5 {
        Some(ParamId::VibratoAttack)
    } else if i == 6 {
        Some(ParamId::VibratoRate)
    } else if i == 7 {
        Some(ParamId::PortamentoTime)
    } else if i == 8 {
        Some(ParamId::NoiseMix)
    } else if i == 9 {
        Some(ParamId::ChorusMix)
    } else if i == 10 {
        Some(ParamId::PitchBend)
    } else if i == 11 {
        Some(ParamId::Polycat)
    } else if i == 12 {
        Some(ParamId::FilterAttack)
    } else if i == 13 {
        Some(ParamId::FilterDecay)
    } else if i == 14 {
        Some(ParamId::FilterEnvlopeMod)
    } else if i == 15 {
        Some(ParamId::FilterDryWet)
    } else if i == 16 {
        Some(ParamId::FilterQ)
    } else if i == 17 {
        Some(ParamId::FilterType)
    } else if i == 18 {
        Some(ParamId::FilterCutoffFreq)
    } else if i == 19 {
        Some(ParamId::ChorusDepth)
    } else if i == 20 {
        Some(ParamId::ChorusDistance)
    } else if i == 21 {
        Some(ParamId::ChorusRate)
    } else if i == 22 {
        Some(ParamId::Phase)
    } else {
        None
    }
}

/// The name the host shows for each parameter.
pub open spec fn param_name(p: ParamId) -> Seq<char> {
    match p {
        ParamId::MeowAttack => "Meow Attack"@,
        ParamId::MeowDecay => "Meow Decay"@,
        ParamId::MeowSustain => "Meow Sustain"@,
        ParamId::MeowRelease => "Meow Release"@,
        ParamId::VibratoAmount => "Vibrato Amount"@,
        ParamId::VibratoAttack => "Vibrato Attack"@,
        ParamId::VibratoRate => "Vibrato Rate"@,
        ParamId::PortamentoTime => "Portamento"@,
        ParamId::NoiseMix => "Noise"@,
        ParamId::ChorusMix => "Chorus"@,
        ParamId::PitchBend => "Pitchbend"@,
        ParamId::Polycat => "Polycat"@,
        ParamId::FilterAttack => "Filter Attack"@,
        ParamId::FilterDecay => "Filter Decay"@,
        ParamId::FilterEnvlopeMod => "Filter EnvMod"@,
        ParamId::FilterDryWet => "Filter DryWet"@,
        ParamId::FilterQ => "Filter Q"@,
        ParamId::FilterType => "Filter Type"@,
        ParamId::FilterCutoffFreq => "Filter Cutoff"@,
        ParamId::ChorusDepth => "Chorus Depth"@,
        ParamId::ChorusDistance => "Chorus Distance"@,
        ParamId::ChorusRate => "Chorus Rate"@,
        ParamId::Phase => "Phase"@,
    }
}

impl ParamId {
    /// The parameter in slot `index`; no parameter lies outside `[0, NUM_PARAMS)`.
    pub fn from_index(index: i32) -> (r: Option<ParamId>)
        ensures
            r == slot_param(index as int),
    {
        match index {
            0 => Some(ParamId::MeowAttack),
            1 => Some(ParamId::MeowDecay),
            2 => Some(ParamId::MeowSustain),
            3 => Some(ParamId::MeowRelease),
            4 => Some(ParamId::VibratoAmount),
            5 => Some(ParamId::VibratoAttack),
            6 => Some(ParamId::VibratoRate),
            7 => Some(ParamId::PortamentoTime),
            8 => Some(ParamId::NoiseMix),
            9 => Some(ParamId::ChorusMix),
            10 => Some(ParamId::PitchBend),
            11 => Some(ParamId::Polycat),
            12 => Some(ParamId::FilterAttack),
            13 => Some(ParamId::FilterDecay),
            14 => Some(ParamId::FilterEnvlopeMod),
            15 => Some(ParamId::FilterDryWet),
            16 => Some(ParamId::FilterQ),
            17 => Some(ParamId::FilterType),
            18 => Some(ParamId::FilterCutoffFreq),
            19 => Some(ParamId::ChorusDepth),
            20 => Some(ParamId::ChorusDistance),
            21 => Some(ParamId::ChorusRate),
            22 => Some(ParamId::Phase),
            _ => None,
        }
    }

    /// The slot this parameter occupies.
    pub fn index(&self) -> (r: i32)
        ensures
            r == slot_index(*self),
    {
        match self {
            ParamId::MeowAttack => 0,
            ParamId::MeowDecay => 1,
            ParamId::MeowSustain => 2,
            ParamId::MeowRelease => 3,
            ParamId::VibratoAmount => 4,
            ParamId::VibratoAttack => 5,
            ParamId::VibratoRate => 6,
            ParamId::PortamentoTime => 7,
            ParamId::NoiseMix => 8,
            ParamId::ChorusMix => 9,
            ParamId::PitchBend => 10,
            ParamId::Polycat => 11,
            ParamId::FilterAttack => 12,
            ParamId::FilterDecay => 13,
            ParamId::FilterEnvlopeMod => 14,
            ParamId::FilterDryWet => 15,
            ParamId::FilterQ => 16,
            ParamId::FilterType => 17,
            ParamId::FilterCutoffFreq => 18,
            ParamId::ChorusDepth => 19,
            ParamId::ChorusDistance => 20,
            ParamId::ChorusRate => 21,
            ParamId::Phase => 22,
        }
    }

    /// The name the host shows for this parameter.
    pub fn name(&self) -> (r: &'static str)
        ensures
            r@ == param_name(*self),
    {
        match self {
            ParamId::MeowAttack => "Meow Attack",
            ParamId::MeowDecay => "Meow Decay",
            ParamId::MeowSustain => "Meow Sustain",
            ParamId::MeowRelease => "Meow Release",
            ParamId::VibratoAmount => "Vibrato Amount",
            ParamId::VibratoAttack => "Vibrato Attack",
            ParamId::VibratoRate => "Vibrato Rate",
            ParamId::PortamentoTime => "Portamento",
            ParamId::NoiseMix => "Noise",
            ParamId::ChorusMix => "Chorus",
            ParamId::PitchBend => "Pitchbend",
            ParamId::Polycat => "Polycat",
            ParamId::FilterAttack => "Filter Attack",
            ParamId::FilterDecay => "Filter Decay",
            ParamId::FilterEnvlopeMod => "Filter EnvMod",
            ParamId::FilterDryWet => "Filter DryWet",
            ParamId::FilterQ => "Filter Q",
            ParamId::FilterType => "Filter Type",
            ParamId::FilterCutoffFreq => "Filter Cutoff",
            ParamId::ChorusDepth => "Chorus Depth",
            ParamId::ChorusDistance => "Chorus Distance",
            ParamId::ChorusRate => "Chorus Rate",
            ParamId::Phase => "Phase",
        }
    }
}

/// Slots and parameters correspond one to one: every slot in `[0, NUM_PARAMS)` holds exactly
/// one parameter, no other slot holds any, and each parameter sits in the slot it reports.
pub proof fn lemma_slots_round_trip(i: int, p: ParamId)
    ensures
        slot_param(i) is Some <==> 0 <= i < NUM_PARAMS,
        slot_param(i) matches Some(q) ==> slot_index(q) == i,
        0 <= slot_index(p) < NUM_PARAMS,
        slot_param(slot_index(p)) == Some(p),
{
}

/// How often a vibrato cycles, as a fraction of the tempo.
#[derive(Clone, Copy, Debug, PartialEq, Eq, Structural)]
pub enum VibratoRate {
    FourBar,
    TwoBar,
    OneBar,
    Half,
    Quarter,
    Eighth,
    Twelfth,
    Sixteenth,
}

/// The cycles per beat of each vibrato rate, as `(numerator, denominator)`.
pub open spec fn rate_multiplier(r: VibratoRate) -> (u32, u32) {
    match r {
        VibratoRate::FourBar => (1, 4),
        VibratoRate::TwoBar => (1, 2),
        VibratoRate::OneBar => (1, 1),
        VibratoRate::Half => (2, 1),
        VibratoRate::Quarter => (4, 1),
        VibratoRate::Eighth => (8, 1),
        VibratoRate::Twelfth => (12, 1),
        VibratoRate::Sixteenth => (16, 1),
    }
}

/// The name shown for each vibrato rate.
pub open spec fn rate_label(r: VibratoRate) -> Seq<char> {
    match r {
        VibratoRate::FourBar => "4 bars"@,
        VibratoRate::TwoBar => "2 bars"@,
        VibratoRate::OneBar => "1 bars"@,
        VibratoRate::Half => "1/2"@,
        VibratoRate::Quarter => "1/4"@,
        VibratoRate::Eighth => "1/8"@,
        VibratoRate::Twelfth => "1/12"@,
        VibratoRate::Sixteenth => "1/16"@,
    }
}

impl VibratoRate {
    /// The cycles per beat of this rate, as `(numerator, denominator)`.
    pub fn multiplier(&self) -> (r: (u32, u32))
        ensures
            r == rate_multiplier(*self),
            r.1 > 0,
    {
        match self {
            VibratoRate::FourBar => (1, 4),
            VibratoRate::TwoBar => (1, 2),
            VibratoRate::OneBar => (1, 1),
            VibratoRate::Half => (2, 1),
            VibratoRate::Quarter => (4, 1),
            VibratoRate::Eighth => (8, 1),
            VibratoRate::Twelfth => (12, 1),
            VibratoRate::Sixteenth => (16, 1),
        }
    }

    /// The name shown for this rate.
    pub fn label(&self) -> (r: &'static str)
        ensures
            r@ == rate_label(*self),
    {
        match self {
            VibratoRate::FourBar => "4 bars",
            VibratoRate::TwoBar => "2 bars",
            VibratoRate::OneBar => "1 bars",
            VibratoRate::Half => "1/2",
            VibratoRate::Quarter => "1/4",
            VibratoRate::Eighth => "1/8",
            VibratoRate::Twelfth => "1/12",
            VibratoRate::Sixteenth => "1/16",
        }
    }
}

/// The filter types a knob can choose, bottom to top.
pub open spec fn filter_type_choices() -> Seq<FilterType> {
    seq![FilterType::LowPass, FilterType::HighPass, FilterType::BandPass, FilterType::Notch]
}

/// The vibrato rates a knob can choose, bottom to top.
pub open spec fn vibrato_rate_choices() -> Seq<VibratoRate> {
    seq![
        VibratoRate::FourBar,
        VibratoRate::TwoBar,
        VibratoRate::OneBar,
        VibratoRate::Half,
        VibratoRate::Quarter,
        VibratoRate::Eighth,
        VibratoRate::Twelfth,
        VibratoRate::Sixteenth,
    ]
}

/// The easer of the filter type knob.
pub fn filter_type_easer() -> (r: DiscreteLinear<FilterType>)
    ensures
        r.values@ == filter_type_choices(),
{
    DiscreteLinear {
        values: vec![FilterType::LowPass, FilterType::HighPass, FilterType::BandPass, FilterType::Notch],
    }
}

/// The easer of the vibrato rate knob.
pub fn vibrato_rate_easer() -> (r: DiscreteLinear<VibratoRate>)
    ensures
        r.values@ == vibrato_rate_choices(),
{
    let values = vec![
        VibratoRate::FourBar,
        VibratoRate::TwoBar,
        VibratoRate::OneBar,
        VibratoRate::Half,
        VibratoRate::Quarter,
        VibratoRate::Eighth,
        VibratoRate::Twelfth,
        VibratoRate::Sixteenth,
    ];
    proof {
        assert(values@ =~= vibrato_rate_choices());
    }
    DiscreteLinear { values }
}

/// The easer of the pitch-bend range knob: one to twelve semitones.
pub fn pitch_bend_easer() -> (r: SteppedLinear)
    ensures
        r == (SteppedLinear { start: 1, end: 12, steps: 13 }),
{
    SteppedLinear { start: 1, end: 12, steps: 13 }
}

} // verus!
