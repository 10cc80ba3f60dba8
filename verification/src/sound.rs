//! Selector types of the sound engine: filter shapes, distortion curves,
//! LFO waveforms and destinations, and noise colours.
use vstd::prelude::*;

verus! {

/// Filter type selection
#[derive(Debug, Clone, Copy, PartialEq, Eq, Structural, Default)]
pub enum FilterType {
    #[default]
    LowPass,
    HighPass,
    BandPass,
    Notch,
}

impl FilterType {
    /// Display name of this variant.
    pub open spec fn label(self) -> Seq<char> {
        match self {
            FilterType::LowPass => seq!['L', 'P'],
            FilterType::HighPass => seq!['H', 'P'],
            FilterType::BandPass => seq!['B', 'P'],
            FilterType::Notch => seq!['N', 'o', 't', 'c', 'h'],
        }
    }

    /// The variant that follows this one in the cycle.
    pub open spec fn successor(self) -> Self {
        match self {
            FilterType::LowPass => FilterType::HighPass,
            FilterType::HighPass => FilterType::BandPass,
            FilterType::BandPass => FilterType::Notch,
            FilterType::Notch => FilterType::LowPass,
        }
    }

    /// The variant that precedes this one in the cycle.
    pub open spec fn predecessor(self) -> Self {
        match self {
            FilterType::LowPass => FilterType::Notch,
            FilterType::HighPass => FilterType::LowPass,
            FilterType::BandPass => FilterType::HighPass,
            FilterType::Notch => FilterType::BandPass,
        }
    }

    /// Get display name.
    pub fn name(&self) -> (r: &'static str)
        ensures
            r@ == self.label(),
    {
        proof {
            reveal_strlit("LP");
            reveal_strlit("HP");
            reveal_strlit("BP");
            reveal_strlit("Notch");
        }
        match self {
            FilterType::LowPass => "LP",
            FilterType::HighPass => "HP",
            FilterType::BandPass => "BP",
            FilterType::Notch => "Notch",
        }
    }

    /// Cycle to next filter type.
    pub fn next(&self) -> (r: Self)
        ensures
            r == self.successor(),
    {
        match self {
            FilterType::LowPass => FilterType::HighPass,
            FilterType::HighPass => FilterType::BandPass,
            FilterType::BandPass => FilterType::Notch,
            FilterType::Notch => FilterType::LowPass,
        }
    }

    /// Cycle to previous filter type.
    pub fn prev(&self) -> (r: Self)
        ensures
            r == self.predecessor(),
    {
        match self {
            FilterType::LowPass => FilterType::Notch,
            FilterType::HighPass => FilterType::LowPass,
            FilterType::BandPass => FilterType::HighPass,
            FilterType::Notch => FilterType::BandPass,
        }
    }
}

/// Distortion curve
#[derive(Debug, Clone, Copy, PartialEq, Eq, Structural)]
pub enum DistortionType {
    SoftClip,
    HardClip,
    Tanh,
    Foldback,
}

impl DistortionType {
    /// Display name of this variant.
    pub open spec fn label(self) -> Seq<char> {
        match self {
            DistortionType::SoftClip => seq!['S', 'o', 'f', 't'],
            DistortionType::HardClip => seq!['H', 'a', 'r', 'd'],
            DistortionType::Tanh => seq!['T', 'a', 'n', 'h'],
            DistortionType::Foldback => seq!['F', 'o', 'l', 'd'],
        }
    }

    /// The variant that follows this one in the cycle.
    pub open spec fn successor(self) -> Self {
        match self {
            DistortionType::SoftClip => DistortionType::HardClip,
            DistortionType::HardClip => DistortionType::Tanh,
            DistortionType::Tanh => DistortionType::Foldback,
            DistortionType::Foldback => DistortionType::SoftClip,
        }
    }

    /// Get display name.
    pub fn name(&self) -> (r: &'static str)
        ensures
            r@ == self.label(),
    {
        proof {
            reveal_strlit("Soft");
            reveal_strlit("Hard");
            reveal_strlit("Tanh");
            reveal_strlit("Fold");
        }
        match self {
            DistortionType::SoftClip => "Soft",
            DistortionType::HardClip => "Hard",
            DistortionType::Tanh => "Tanh",
            DistortionType::Foldback => "Fold",
        }
    }

    /// Cycle to next distortion curve.
    pub fn next(&self) -> (r: Self)
        ensures
            r == self.successor(),
    {
        match self {
            DistortionType::SoftClip => DistortionType::HardClip,
            DistortionType::HardClip => DistortionType::Tanh,
            DistortionType::Tanh => DistortionType::Foldback,
            DistortionType::Foldback => DistortionType::SoftClip,
        }
    }
}

/// LFO waveform types
#[derive(Debug, Clone, Copy, PartialEq, Eq, Structural, Hash, Default)]
pub enum LFOWaveform {
    #[default]
    Sine,
    Triangle,
    Saw,
    Square,
    SampleHold,
}

impl LFOWaveform {
    /// Display name of this variant.
    pub open spec fn label(self) -> Seq<char> {
        match self {
            LFOWaveform::Sine => seq!['S', 'i', 'n', 'e'],
            LFOWaveform::Triangle => seq!['T', 'r', 'i'],
            LFOWaveform::Saw => seq!['S', 'a', 'w'],
            LFOWaveform::Square => seq!['S', 'q', 'r'],
            LFOWaveform::SampleHold => seq!['S', '&', 'H'],
        }
    }

    /// The variant that follows this one in the cycle.
    pub open spec fn successor(self) -> Self {
        match self {
            LFOWaveform::Sine => LFOWaveform::Triangle,
            LFOWaveform::Triangle => LFOWaveform::Saw,
            LFOWaveform::Saw => LFOWaveform::Square,
            LFOWaveform::Square => LFOWaveform::SampleHold,
            LFOWaveform::SampleHold => LFOWaveform::Sine,
        }
    }

    /// The variant that precedes this one in the cycle.
    pub open spec fn predecessor(self) -> Self {
        match self {
            LFOWaveform::Sine => LFOWaveform::SampleHold,
            LFOWaveform::Triangle => LFOWaveform::Sine,
            LFOWaveform::Saw => LFOWaveform::Triangle,
            LFOWaveform::Square => LFOWaveform::Saw,
            LFOWaveform::SampleHold => LFOWaveform::Square,
        }
    }

    /// Get display name.
    pub fn name(&self) -> (r: &'static str)
        ensures
            r@ == self.label(),
    {
        proof {
            reveal_strlit("Sine");
            reveal_strlit("Tri");
            reveal_strlit("Saw");
            reveal_strlit("Sqr");
            reveal_strlit("S&H");
        }
        match self {
            LFOWaveform::Sine => "Sine",
            LFOWaveform::Triangle => "Tri",
            LFOWaveform::Saw => "Saw",
            LFOWaveform::Square => "Sqr",
            LFOWaveform::SampleHold => "S&H",
        }
    }

    /// Cycle to next waveform.
    pub fn next(&self) -> (r: Self)
        ensures
            r == self.successor(),
    {
        match self {
            LFOWaveform::Sine => LFOWaveform::Triangle,
            LFOWaveform::Triangle => LFOWaveform::Saw,
            LFOWaveform::Saw => LFOWaveform::Square,
            LFOWaveform::Square => LFOWaveform::SampleHold,
            LFOWaveform::SampleHold => LFOWaveform::Sine,
        }
    }

    /// Cycle to previous waveform.
    pub fn prev(&self) -> (r: Self)
        ensures
            r == self.predecessor(),
    {
        match self {
            LFOWaveform::Sine => LFOWaveform::SampleHold,
            LFOWaveform::Triangle => LFOWaveform::Sine,
            LFOWaveform::Saw => LFOWaveform::Triangle,
            LFOWaveform::Square => LFOWaveform::Saw,
            LFOWaveform::SampleHold => LFOWaveform::Square,
        }
    }
}

/// LFO modulation destinations
#[derive(Debug, Clone, Copy, PartialEq, Eq, Structural, Hash)]
pub enum LFODestination {
    Pitch,
    Volume,
    FilterCutoff,
    PulseWidth,
    Osc2Pitch,
    Pan,
}

impl LFODestination {
    /// Display name of this variant.
    pub open spec fn label(self) -> Seq<char> {
        match self {
            LFODestination::Pitch => seq!['P', 'i', 't', 'c', 'h'],
            LFODestination::Volume => seq!['V', 'o', 'l', 'u', 'm', 'e'],
            LFODestination::FilterCutoff => seq!['F', 'i', 'l', 't', 'e', 'r'],
            LFODestination::PulseWidth => seq!['P', 'W', 'M'],
            LFODestination::Osc2Pitch => seq!['O', 's', 'c', '2'],
            LFODestination::Pan => seq!['P', 'a', 'n'],
        }
    }

    /// One-letter name of this destination.
    pub open spec fn short_label(self) -> Seq<char> {
        match self {
            LFODestination::Pitch => seq!['P'],
            LFODestination::Volume => seq!['V'],
            LFODestination::FilterCutoff => seq!['F'],
            LFODestination::PulseWidth => seq!['W'],
            LFODestination::Osc2Pitch => seq!['O'],
            LFODestination::Pan => seq!['A'],
        }
    }

    /// Get display name.
    pub fn name(&self) -> (r: &'static str)
        ensures
            r@ == self.label(),
    {
        proof {
            reveal_strlit("Pitch");
            reveal_strlit("Volume");
            reveal_strlit("Filter");
            reveal_strlit("PWM");
            reveal_strlit("Osc2");
            reveal_strlit("Pan");
        }
        match self {
            LFODestination::Pitch => "Pitch",
            LFODestination::Volume => "Volume",
            LFODestination::FilterCutoff => "Filter",
            LFODestination::PulseWidth => "PWM",
            LFODestination::Osc2Pitch => "Osc2",
            LFODestination::Pan => "Pan",
        }
    }

    /// Get short name for UI.
    pub fn short_name(&self) -> (r: &'static str)
        ensures
            r@ == self.short_label(),
    {
        proof {
            reveal_strlit("P");
            reveal_strlit("V");
            reveal_strlit("F");
            reveal_strlit("W");
            reveal_strlit("O");
            reveal_strlit("A");
        }
        match self {
            LFODestination::Pitch => "P",
            LFODestination::Volume => "V",
            LFODestination::FilterCutoff => "F",
            LFODestination::PulseWidth => "W",
            LFODestination::Osc2Pitch => "O",
            LFODestination::Pan => "A",
        }
    }
}

/// Noise types
#[derive(Debug, Clone, Copy, PartialEq, Eq, Structural, Default)]
pub enum NoiseType {
    #[default]
    White,
    Pink,
    Brown,
}

impl NoiseType {
    /// Display name of this variant.
    pub open spec fn label(self) -> Seq<char> {
        match self {
            NoiseType::White => seq!['W', 'h', 'i', 't', 'e'],
            NoiseType::Pink => seq!['P', 'i', 'n', 'k'],
            NoiseType::Brown => seq!['B', 'r', 'o', 'w', 'n'],
        }
    }

    /// The variant that follows this one in the cycle.
    pub open spec fn successor(self) -> Self {
        match self {
            NoiseType::White => NoiseType::Pink,
            NoiseType::Pink => NoiseType::Brown,
            NoiseType::Brown => NoiseType::White,
        }
    }

    /// The variant that precedes this one in the cycle.
    pub open spec fn predecessor(self) -> Self {
        match self {
            NoiseType::White => NoiseType::Brown,
            NoiseType::Pink => NoiseType::White,
            NoiseType::Brown => NoiseType::Pink,
        }
    }

    /// Get display name.
    pub fn name(&self) -> (r: &'static str)
        ensures
            r@ == self.label(),
    {
        proof {
            reveal_strlit("White");
            reveal_strlit("Pink");
            reveal_strlit("Brown");
        }
        match self {
            NoiseType::White => "White",
            NoiseType::Pink => "Pink",
            NoiseType::Brown => "Brown",
        }
    }

    /// Cycle to next type.
    pub fn next(&self) -> (r: Self)
        ensures
            r == self.successor(),
    {
        match self {
            NoiseType::White => NoiseType::Pink,
            NoiseType::Pink => NoiseType::Brown,
            NoiseType::Brown => NoiseType::White,
        }
    }

    /// Cycle to previous type.
    pub fn prev(&self) -> (r: Self)
        ensures
            r == self.predecessor(),
    {
        match self {
            NoiseType::White => NoiseType::Brown,
            NoiseType::Pink => NoiseType::White,
            NoiseType::Brown => NoiseType::Pink,
        }
    }
}

/// Every LFO destination, in display order.
pub open spec fn all_destinations() -> Seq<LFODestination> {
    seq![
        LFODestination::Pitch,
        LFODestination::Volume,
        LFODestination::FilterCutoff,
        LFODestination::PulseWidth,
        LFODestination::Osc2Pitch,
        LFODestination::Pan,
    ]
}

impl LFODestination {
    /// All destinations for iteration.
    pub fn all() -> (r: &'static [LFODestination])
        ensures
            r@ == all_destinations(),
    {
        &[
            LFODestination::Pitch,
            LFODestination::Volume,
            LFODestination::FilterCutoff,
            LFODestination::PulseWidth,
            LFODestination::Osc2Pitch,
            LFODestination::Pan,
        ]
    }
}

/// The set of destinations an LFO modulates, one flag per destination.
#[derive(Debug, Clone, Copy, PartialEq, Eq, Structural, Default)]
pub struct LfoDestinations {
    pitch: bool,
    volume: bool,
    filter_cutoff: bool,
    pulse_width: bool,
    osc2_pitch: bool,
    pan: bool,
}

impl LfoDestinations {
    /// Whether `d` is in the set.
    pub closed spec fn has(self, d: LFODestination) -> bool {
        match d {
            LFODestination::Pitch => self.pitch,
            LFODestination::Volume => self.volume,
            LFODestination::FilterCutoff => self.filter_cutoff,
            LFODestination::PulseWidth => self.pulse_width,
            LFODestination::Osc2Pitch => self.osc2_pitch,
            LFODestination::Pan => self.pan,
        }
    }
}

impl View for LfoDestinations {
    type V = Set<LFODestination>;

    open spec fn view(&self) -> Set<LFODestination> {
        Set::new(|d: LFODestination| self.has(d))
    }
}

impl LfoDestinations {
    /// An empty set of destinations.
    pub fn new() -> (r: Self)
        ensures
            r@ == Set::<LFODestination>::empty(),
    {
        let r = LfoDestinations {
            pitch: false,
            volume: false,
            filter_cutoff: false,
            pulse_width: false,
            osc2_pitch: false,
            pan: false,
        };
        assert(r@ =~= Set::<LFODestination>::empty());
        r
    }

    /// Check if a destination is active.
    pub fn contains(&self, dest: LFODestination) -> (r: bool)
        ensures
            r == self@.contains(dest),
    {
        match dest {
            LFODestination::Pitch => self.pitch,
            LFODestination::Volume => self.volume,
            LFODestination::FilterCutoff => self.filter_cutoff,
            LFODestination::PulseWidth => self.pulse_width,
            LFODestination::Osc2Pitch => self.osc2_pitch,
            LFODestination::Pan => self.pan,
        }
    }

    /// Toggle a destination on/off.
    pub fn toggle(&mut self, dest: LFODestination)
        ensures
            final(self)@ == (if old(self)@.contains(dest) {
                old(self)@.remove(dest)
            } else {
                old(self)@.insert(dest)
            }),
    {
        match dest {
            LFODestination::Pitch => self.pitch = !self.pitch,
            LFODestination::Volume => self.volume = !self.volume,
            LFODestination::FilterCutoff => self.filter_cutoff = !self.filter_cutoff,
            LFODestination::PulseWidth => self.pulse_width = !self.pulse_width,
            LFODestination::Osc2Pitch => self.osc2_pitch = !self.osc2_pitch,
            LFODestination::Pan => self.pan = !self.pan,
        }
        assert(self@ =~= (if old(self)@.contains(dest) {
            old(self)@.remove(dest)
        } else {
            old(self)@.insert(dest)
        }));
    }
}

/// Law: toggling a destination twice leaves the set as it was, and a toggle
/// changes whether that destination is in the set and no other.
pub proof fn law_toggle_destination(s: Set<LFODestination>, d: LFODestination, e: LFODestination)
    ensures
        ({
            let once = if s.contains(d) { s.remove(d) } else { s.insert(d) };
            let twice = if once.contains(d) { once.remove(d) } else { once.insert(d) };
            &&& twice == s
            &&& once.contains(d) != s.contains(d)
            &&& e != d ==> once.contains(e) == s.contains(e)
        }),
{
    let once = if s.contains(d) { s.remove(d) } else { s.insert(d) };
    let twice = if once.contains(d) { once.remove(d) } else { once.insert(d) };
    assert(twice =~= s);
}

/// Law: stepping a filter type forward and back (or back and forward)
/// returns to it, and four steps forward visit every type once and return.
pub proof fn law_filter_type_cycle(t: FilterType)
    ensures
        t.successor().predecessor() == t,
        t.predecessor().successor() == t,
        t.successor().successor().successor().successor() == t,
        t.successor() != t,
        t.successor().successor() != t,
        t.successor().successor().successor() != t,
{
}

/// Law: four steps forward return to the same distortion curve, after
/// visiting the other three.
pub proof fn law_distortion_type_cycle(t: DistortionType)
    ensures
        t.successor().successor().successor().successor() == t,
        t.successor() != t,
        t.successor().successor() != t,
        t.successor().successor().successor() != t,
{
}

/// Law: stepping an LFO waveform forward and back (or back and forward)
/// returns to it, and five steps forward return to it after visiting all.
pub proof fn law_lfo_waveform_cycle(w: LFOWaveform)
    ensures
        w.successor().predecessor() == w,
        w.predecessor().successor() == w,
        w.successor().successor().successor().successor().successor() == w,
        w.successor() != w,
        w.successor().successor() != w,
        w.successor().successor().successor() != w,
        w.successor().successor().successor().successor() != w,
{
}

/// Law: three steps forward return to the same noise colour, after visiting
/// the other two, and a step back undoes a step forward.
pub proof fn law_noise_type_cycle(t: NoiseType)
    ensures
        t.successor().predecessor() == t,
        t.predecessor().successor() == t,
        t.successor().successor().successor() == t,
        t.successor() != t,
        t.successor().successor() != t,
{
}

/// Law: the destination list names every destination exactly once, and no
/// two destinations share a one-letter name.
pub proof fn law_destinations_listed_once(d: LFODestination, e: LFODestination)
    ensures
        all_destinations().contains(d),
        all_destinations().no_duplicates(),
        d != e ==> d.short_label() != e.short_label(),
{
    assert(all_destinations()[match d {
        LFODestination::Pitch => 0int,
        LFODestination::Volume => 1,
        LFODestination::FilterCutoff => 2,
        LFODestination::PulseWidth => 3,
        LFODestination::Osc2Pitch => 4,
        LFODestination::Pan => 5,
    }] == d);
    if d != e {
        assert(d.short_label()[0] != e.short_label()[0]);
    }
}

} // verus!
