//! Panel navigation state of the user interface: which control panel is
//! shown, whether its parameters are being edited, and which parameter is
//! selected.
use vstd::prelude::*;

verus! {

/// Modal panel for extended controls (always one active)
#[derive(Debug, Clone, Copy, PartialEq, Eq, Structural, Default)]
pub enum ModalPanel {
    /// Oscillator settings (sidebar)
    #[default]
    Oscillator,
    /// Filter settings (sidebar)
    Filter,
    /// Basic effects settings (sidebar - Distortion, Delay, Reverb)
    EffectsBasic,
    /// LFO configuration
    LFO,
    /// Modulation settings (Ring mod, FM)
    Modulation,
    /// Extended effects (Chorus, Phaser, Bitcrusher)
    EffectsExt,
    /// Performance settings (Portamento, Arpeggiator, Noise)
    Performance,
    /// Envelope ADSR settings (Amplitude and Filter)
    Envelope,
}

impl ModalPanel {
    /// Display name of this variant.
    pub open spec fn label(self) -> Seq<char> {
        match self {
            ModalPanel::Oscillator => seq!['O', 's', 'c', 'i', 'l', 'l', 'a', 't', 'o', 'r'],
            ModalPanel::Filter => seq!['F', 'i', 'l', 't', 'e', 'r'],
            ModalPanel::EffectsBasic => seq!['E', 'f', 'f', 'e', 'c', 't', 's'],
            ModalPanel::LFO => seq!['L', 'F', 'O'],
            ModalPanel::Modulation => seq!['M', 'o', 'd', 'u', 'l', 'a', 't', 'i', 'o', 'n'],
            ModalPanel::EffectsExt => seq!['F', 'X', '+'],
            ModalPanel::Performance => seq!['P', 'e', 'r', 'f', 'o', 'r', 'm', 'a', 'n', 'c', 'e'],
            ModalPanel::Envelope => seq!['E', 'n', 'v', 'e', 'l', 'o', 'p', 'e'],
        }
    }

    /// The variant that follows this one in the cycle.
    pub open spec fn successor(self) -> Self {
        match self {
            ModalPanel::Oscillator => ModalPanel::Filter,
            ModalPanel::Filter => ModalPanel::Envelope,
            ModalPanel::EffectsBasic => ModalPanel::LFO,
            ModalPanel::LFO => ModalPanel::Modulation,
            ModalPanel::Modulation => ModalPanel::EffectsExt,
            ModalPanel::EffectsExt => ModalPanel::Performance,
            ModalPanel::Performance => ModalPanel::Oscillator,
            ModalPanel::Envelope => ModalPanel::EffectsBasic,
        }
    }

    /// The variant that precedes this one in the cycle.
    pub open spec fn predecessor(self) -> Self {
        match self {
            ModalPanel::Oscillator => ModalPanel::Performance,
            ModalPanel::Filter => ModalPanel::Oscillator,
            ModalPanel::EffectsBasic => ModalPanel::Envelope,
            ModalPanel::LFO => ModalPanel::EffectsBasic,
            ModalPanel::Modulation => ModalPanel::LFO,
            ModalPanel::EffectsExt => ModalPanel::Modulation,
            ModalPanel::Performance => ModalPanel::EffectsExt,
            ModalPanel::Envelope => ModalPanel::Filter,
        }
    }

    /// Get modal name for display.
    pub fn name(&self) -> (r: &'static str)
        ensures
            r@ == self.label(),
    {
        proof {
            reveal_strlit("Oscillator");
            reveal_strlit("Filter");
            reveal_strlit("Effects");
            reveal_strlit("LFO");
            reveal_strlit("Modulation");
            reveal_strlit("FX+");
            reveal_strlit("Performance");
            reveal_strlit("Envelope");
        }
        match self {
            ModalPanel::Oscillator => "Oscillator",
            ModalPanel::Filter => "Filter",
            ModalPanel::EffectsBasic => "Effects",
            ModalPanel::LFO => "LFO",
            ModalPanel::Modulation => "Modulation",
            ModalPanel::EffectsExt => "FX+",
            ModalPanel::Performance => "Performance",
            ModalPanel::Envelope => "Envelope",
        }
    }

    /// Cycle to next modal.
    pub fn next(&self) -> (r: Self)
        ensures
            r == self.successor(),
    {
        match self {
            ModalPanel::Oscillator => ModalPanel::Filter,
            ModalPanel::Filter => ModalPanel::Envelope,
            ModalPanel::EffectsBasic => ModalPanel::LFO,
            ModalPanel::LFO => ModalPanel::Modulation,
            ModalPanel::Modulation => ModalPanel::EffectsExt,
            ModalPanel::EffectsExt => ModalPanel::Performance,
            ModalPanel::Performance => ModalPanel::Oscillator,
            ModalPanel::Envelope => ModalPanel::EffectsBasic,
        }
    }

    /// Cycle to previous modal.
    pub fn prev(&self) -> (r: Self)
        ensures
            r == self.predecessor(),
    {
        match self {
            ModalPanel::Oscillator => ModalPanel::Performance,
            ModalPanel::Filter => ModalPanel::Oscillator,
            ModalPanel::EffectsBasic => ModalPanel::Envelope,
            ModalPanel::LFO => ModalPanel::EffectsBasic,
            ModalPanel::Modulation => ModalPanel::LFO,
            ModalPanel::EffectsExt => ModalPanel::Modulation,
            ModalPanel::Performance => ModalPanel::EffectsExt,
            ModalPanel::Envelope => ModalPanel::Filter,
        }
    }
}

/// UI layout mode
#[derive(Debug, Clone, Copy, PartialEq, Eq, Structural, Default)]
pub enum LayoutMode {
    /// Sidebar layout: controls on left, keyboard on right
    #[default]
    Sidebar,
    /// Wide layout: full-width panels stacked vertically
    Wide,
}

impl LayoutMode {
    /// Display name of this variant.
    pub open spec fn label(self) -> Seq<char> {
        match self {
            LayoutMode::Sidebar => seq!['S', 'i', 'd', 'e', 'b', 'a', 'r'],
            LayoutMode::Wide => seq!['W', 'i', 'd', 'e'],
        }
    }

    /// Get the display name.
    pub fn name(&self) -> (r: &'static str)
        ensures
            r@ == self.label(),
    {
        proof {
            reveal_strlit("Sidebar");
            reveal_strlit("Wide");
        }
        match self {
            LayoutMode::Sidebar => "Sidebar",
            LayoutMode::Wide => "Wide",
        }
    }
}

/// Visualization mode for audio display
#[derive(Debug, Clone, Copy, PartialEq, Eq, Structural, Default)]
pub enum VizMode {
    /// No visualization
    Off,
    /// Waveform oscilloscope view
    Waveform,
    /// Frequency spectrum analyzer
    Spectrum,
    /// Both waveform and spectrum
    #[default]
    Combined,
}

impl VizMode {
    /// Display name of this variant.
    pub open spec fn label(self) -> Seq<char> {
        match self {
            VizMode::Off => seq!['O', 'f', 'f'],
            VizMode::Waveform => seq!['W', 'a', 'v', 'e'],
            VizMode::Spectrum => seq!['S', 'p', 'e', 'c', 't', 'r', 'u', 'm'],
            VizMode::Combined => seq!['B', 'o', 't', 'h'],
        }
    }

    /// The variant that follows this one in the cycle.
    pub open spec fn successor(self) -> Self {
        match self {
            VizMode::Off => VizMode::Waveform,
            VizMode::Waveform => VizMode::Spectrum,
            VizMode::Spectrum => VizMode::Combined,
            VizMode::Combined => VizMode::Off,
        }
    }

    /// Get the display name.
    pub fn name(&self) -> (r: &'static str)
        ensures
            r@ == self.label(),
    {
        proof {
            reveal_strlit("Off");
            reveal_strlit("Wave");
            reveal_strlit("Spectrum");
            reveal_strlit("Both");
        }
        match self {
            VizMode::Off => "Off",
            VizMode::Waveform => "Wave",
            VizMode::Spectrum => "Spectrum",
            VizMode::Combined => "Both",
        }
    }

    /// Cycle to next visualization mode.
    pub fn next(&self) -> (r: Self)
        ensures
            r == self.successor(),
    {
        match self {
            VizMode::Off => VizMode::Waveform,
            VizMode::Waveform => VizMode::Spectrum,
            VizMode::Spectrum => VizMode::Combined,
            VizMode::Combined => VizMode::Off,
        }
    }
}

/// Every modal panel, in the order that `next` visits them.
pub open spec fn all_panels() -> Seq<ModalPanel> {
    seq![
        ModalPanel::Oscillator,
        ModalPanel::Filter,
        ModalPanel::Envelope,
        ModalPanel::EffectsBasic,
        ModalPanel::LFO,
        ModalPanel::Modulation,
        ModalPanel::EffectsExt,
        ModalPanel::Performance,
    ]
}

impl ModalPanel {
    /// Whether this panel also has a place in the sidebar.
    pub open spec fn in_sidebar(self) -> bool {
        self == ModalPanel::Oscillator || self == ModalPanel::Filter || self == ModalPanel::EffectsBasic
    }

    /// Check if this is a sidebar panel.
    pub fn is_sidebar(&self) -> (r: bool)
        ensures
            r == self.in_sidebar(),
    {
        match self {
            ModalPanel::Oscillator | ModalPanel::Filter | ModalPanel::EffectsBasic => true,
            _ => false,
        }
    }

    /// All modal panels for iteration.
    pub fn all() -> (r: &'static [ModalPanel])
        ensures
            r@ == all_panels(),
    {
        &[
            ModalPanel::Oscillator,
            ModalPanel::Filter,
            ModalPanel::Envelope,
            ModalPanel::EffectsBasic,
            ModalPanel::LFO,
            ModalPanel::Modulation,
            ModalPanel::EffectsExt,
            ModalPanel::Performance,
        ]
    }

    /// Number of editable parameters on this panel.
    pub open spec fn parameter_count(self) -> nat {
        match self {
            ModalPanel::Oscillator => 4,
            ModalPanel::Filter => 5,
            ModalPanel::Envelope => 8,
            ModalPanel::EffectsBasic => 6,
            ModalPanel::LFO => 4,
            ModalPanel::Modulation => 5,
            ModalPanel::EffectsExt => 8,
            ModalPanel::Performance => 6,
        }
    }
}

impl LayoutMode {
    /// The other layout.
    pub open spec fn other(self) -> Self {
        match self {
            LayoutMode::Sidebar => LayoutMode::Wide,
            LayoutMode::Wide => LayoutMode::Sidebar,
        }
    }

    /// Switch to the other layout.
    pub fn toggle(&self) -> (r: Self)
        ensures
            r == self.other(),
    {
        match self {
            LayoutMode::Sidebar => LayoutMode::Wide,
            LayoutMode::Wide => LayoutMode::Sidebar,
        }
    }
}

/// What changing the selected parameter does; an `Adjust` or `Scale` action
/// carries `true` for an increase and `false` for a decrease, and a cycle
/// steps forward (`Next`) on an increase and backward (`Prev`) on a decrease.
#[derive(Debug, Clone, Copy, PartialEq, Eq, Structural)]
pub enum ParamAction {
    /// The selected index names no parameter of the panel.
    Nothing,
    NextOsc1Waveform,
    PrevOsc1Waveform,
    ToggleOsc2,
    NextOsc2Waveform,
    PrevOsc2Waveform,
    AdjustOscMix(bool),
    ToggleFilter,
    NextFilterType,
    PrevFilterType,
    ScaleFilterCutoff(bool),
    AdjustFilterResonance(bool),
    AdjustFilterEnvAmount(bool),
    AdjustAmpAttack(bool),
    AdjustAmpDecay(bool),
    AdjustAmpSustain(bool),
    AdjustAmpRelease(bool),
    AdjustFilterAttack(bool),
    AdjustFilterDecay(bool),
    AdjustFilterSustain(bool),
    AdjustFilterRelease(bool),
    ToggleDistortion,
    ToggleDelay,
    AdjustDelayTime(bool),
    AdjustDelayFeedback(bool),
    AdjustDelayMix(bool),
    ToggleReverb,
    ToggleLfo,
    NextLfoWaveform,
    PrevLfoWaveform,
    AdjustLfoRate(bool),
    AdjustLfoDepth(bool),
    ToggleRingMod,
    AdjustRingModFreq(bool),
    AdjustRingModMix(bool),
    ToggleFm,
    AdjustFmRatio(bool),
    ToggleChorus,
    AdjustChorusRate(bool),
    AdjustChorusDepth(bool),
    AdjustChorusVoices(bool),
    AdjustChorusMix(bool),
    TogglePhaser,
    ToggleBitcrusher,
    AdjustBitcrusherMix(bool),
    NextPortamentoMode,
    PrevPortamentoMode,
    ToggleNoise,
    NextNoiseType,
    PrevNoiseType,
    ToggleArpeggiator,
    NextArpeggiatorPattern,
    PrevArpeggiatorPattern,
    AdjustArpeggiatorOctaves(bool),
}

/// The action bound to parameter `index` of `panel` when the value is moved
/// up (`increase`) or down.
pub open spec fn action_for(panel: ModalPanel, index: int, increase: bool) -> ParamAction {
    match panel {
        ModalPanel::Oscillator => {
            if index == 0 {
                if increase { ParamAction::NextOsc1Waveform } else { ParamAction::PrevOsc1Waveform }
            } else if index == 1 {
                ParamAction::ToggleOsc2
            } else if index == 2 {
                if increase { ParamAction::NextOsc2Waveform } else { ParamAction::PrevOsc2Waveform }
            } else if index == 3 {
                ParamAction::AdjustOscMix(increase)
            } else {
                ParamAction::Nothing
            }
        },
        ModalPanel::Filter => {
            if index == 0 {
                ParamAction::ToggleFilter
            } else if index == 1 {
                if increase { ParamAction::NextFilterType } else { ParamAction::PrevFilterType }
            } else if index == 2 {
                ParamAction::ScaleFilterCutoff(increase)
            } else if index == 3 {
                ParamAction::AdjustFilterResonance(increase)
            } else if index == 4 {
                ParamAction::AdjustFilterEnvAmount(increase)
            } else {
                ParamAction::Nothing
            }
        },
        ModalPanel::Envelope => {
            if index == 0 {
                ParamAction::AdjustAmpAttack(increase)
            } else if index == 1 {
                ParamAction::AdjustAmpDecay(increase)
            } else if index == 2 {
                ParamAction::AdjustAmpSustain(increase)
            } else if index == 3 {
                ParamAction::AdjustAmpRelease(increase)
            } else if index == 4 {
                ParamAction::AdjustFilterAttack(increase)
            } else if index == 5 {
                ParamAction::AdjustFilterDecay(increase)
            } else if index == 6 {
                ParamAction::AdjustFilterSustain(increase)
            } else if index == 7 {
                ParamAction::AdjustFilterRelease(increase)
            } else {
                ParamAction::Nothing
            }
        },
        ModalPanel::EffectsBasic => {
            if index == 0 {
                ParamAction::ToggleDistortion
            } else if index == 1 {
                ParamAction::ToggleDelay
            } else if index == 2 {
                ParamAction::AdjustDelayTime(increase)
            } else if index == 3 {
                ParamAction::AdjustDelayFeedback(increase)
            } else if index == 4 {
                ParamAction::AdjustDelayMix(increase)
            } else if index == 5 {
                ParamAction::ToggleReverb
            } else {
                ParamAction::Nothing
            }
        },
        ModalPanel::LFO => {
            if index == 0 {
                ParamAction::ToggleLfo
            } else if index == 1 {
                if increase { ParamAction::NextLfoWaveform } else { ParamAction::PrevLfoWaveform }
            } else if index == 2 {
                ParamAction::AdjustLfoRate(increase)
            } else if index == 3 {
                ParamAction::AdjustLfoDepth(increase)
            } else {
                ParamAction::Nothing
            }
        },
        ModalPanel::Modulation => {
            if index == 0 {
                ParamAction::ToggleRingMod
            } else if index == 1 {
                ParamAction::AdjustRingModFreq(increase)
            } else if index == 2 {
                ParamAction::AdjustRingModMix(increase)
            } else if index == 3 {
                ParamAction::ToggleFm
            } else if index == 4 {
                ParamAction::AdjustFmRatio(increase)
            } else {
                ParamAction::Nothing
            }
        },
        ModalPanel::EffectsExt => {
            if index == 0 {
                ParamAction::ToggleChorus
            } else if index == 1 {
                ParamAction::AdjustChorusRate(increase)
            } else if index == 2 {
                ParamAction::AdjustChorusDepth(increase)
            } else if index == 3 {
                ParamAction::AdjustChorusVoices(increase)
            } else if index == 4 {
                ParamAction::AdjustChorusMix(increase)
            } else if index == 5 {
                ParamAction::TogglePhaser
            } else if index == 6 {
                ParamAction::ToggleBitcrusher
            } else if index == 7 {
                ParamAction::AdjustBitcrusherMix(increase)
            } else {
                ParamAction::Nothing
            }
        },
        ModalPanel::Performance => {
            if index == 0 {
                if increase { ParamAction::NextPortamentoMode } else { ParamAction::PrevPortamentoMode }
            } else if index == 1 {
                ParamAction::ToggleNoise
            } else if index == 2 {
                if increase { ParamAction::NextNoiseType } else { ParamAction::PrevNoiseType }
            } else if index == 3 {
                ParamAction::ToggleArpeggiator
            } else if index == 4 {
                if increase { ParamAction::NextArpeggiatorPattern } else { ParamAction::PrevArpeggiatorPattern }
            } else if index == 5 {
                ParamAction::AdjustArpeggiatorOctaves(increase)
            } else {
                ParamAction::Nothing
            }
        },
    }
}

/// Decide what modifying parameter `index` of `panel` does.
pub fn param_action(panel: ModalPanel, index: usize, increase: bool) -> (r: ParamAction)
    ensures
        r == action_for(panel, index as int, increase),
{
    match panel {
        ModalPanel::Oscillator => {
            if index == 0 {
                if increase { ParamAction::NextOsc1Waveform } else { ParamAction::PrevOsc1Waveform }
            } else if index == 1 {
                ParamAction::ToggleOsc2
            } else if index == 2 {
                if increase { ParamAction::NextOsc2Waveform } else { ParamAction::PrevOsc2Waveform }
            } else if index == 3 {
                ParamAction::AdjustOscMix(increase)
            } else {
                ParamAction::Nothing
            }
        },
        ModalPanel::Filter => {
            if index == 0 {
                ParamAction::ToggleFilter
            } else if index == 1 {
                if increase { ParamAction::NextFilterType } else { ParamAction::PrevFilterType }
            } else if index == 2 {
                ParamAction::ScaleFilterCutoff(increase)
            } else if index == 3 {
                ParamAction::AdjustFilterResonance(increase)
            } else if index == 4 {
                ParamAction::AdjustFilterEnvAmount(increase)
            } else {
                ParamAction::Nothing
            }
        },
        ModalPanel::Envelope => {
            if index == 0 {
                ParamAction::AdjustAmpAttack(increase)
            } else if index == 1 {
                ParamAction::AdjustAmpDecay(increase)
            } else if index == 2 {
                ParamAction::AdjustAmpSustain(increase)
            } else if index == 3 {
                ParamAction::AdjustAmpRelease(increase)
            } else if index == 4 {
                ParamAction::AdjustFilterAttack(increase)
            } else if index == 5 {
                ParamAction::AdjustFilterDecay(increase)
            } else if index == 6 {
                ParamAction::AdjustFilterSustain(increase)
            } else if index == 7 {
                ParamAction::AdjustFilterRelease(increase)
            } else {
                ParamAction::Nothing
            }
        },
        ModalPanel::EffectsBasic => {
            if index == 0 {
                ParamAction::ToggleDistortion
            } else if index == 1 {
                ParamAction::ToggleDelay
            } else if index == 2 {
                ParamAction::AdjustDelayTime(increase)
            } else if index == 3 {
                ParamAction::AdjustDelayFeedback(increase)
            } else if index == 4 {
                ParamAction::AdjustDelayMix(increase)
            } else if index == 5 {
                ParamAction::ToggleReverb
            } else {
                ParamAction::Nothing
            }
        },
        ModalPanel::LFO => {
            if index == 0 {
                ParamAction::ToggleLfo
            } else if index == 1 {
                if increase { ParamAction::NextLfoWaveform } else { ParamAction::PrevLfoWaveform }
            } else if index == 2 {
                ParamAction::AdjustLfoRate(increase)
            } else if index == 3 {
                ParamAction::AdjustLfoDepth(increase)
            } else {
                ParamAction::Nothing
            }
        },
        ModalPanel::Modulation => {
            if index == 0 {
                ParamAction::ToggleRingMod
            } else if index == 1 {
                ParamAction::AdjustRingModFreq(increase)
            } else if index == 2 {
                ParamAction::AdjustRingModMix(increase)
            } else if index == 3 {
                ParamAction::ToggleFm
            } else if index == 4 {
                ParamAction::AdjustFmRatio(increase)
            } else {
                ParamAction::Nothing
            }
        },
        ModalPanel::EffectsExt => {
            if index == 0 {
                ParamAction::ToggleChorus
            } else if index == 1 {
                ParamAction::AdjustChorusRate(increase)
            } else if index == 2 {
                ParamAction::AdjustChorusDepth(increase)
            } else if index == 3 {
                ParamAction::AdjustChorusVoices(increase)
            } else if index == 4 {
                ParamAction::AdjustChorusMix(increase)
            } else if index == 5 {
                ParamAction::TogglePhaser
            } else if index == 6 {
                ParamAction::ToggleBitcrusher
            } else if index == 7 {
                ParamAction::AdjustBitcrusherMix(increase)
            } else {
                ParamAction::Nothing
            }
        },
        ModalPanel::Performance => {
            if index == 0 {
                if increase { ParamAction::NextPortamentoMode } else { ParamAction::PrevPortamentoMode }
            } else if index == 1 {
                ParamAction::ToggleNoise
            } else if index == 2 {
                if increase { ParamAction::NextNoiseType } else { ParamAction::PrevNoiseType }
            } else if index == 3 {
                ParamAction::ToggleArpeggiator
            } else if index == 4 {
                if increase { ParamAction::NextArpeggiatorPattern } else { ParamAction::PrevArpeggiatorPattern }
            } else if index == 5 {
                ParamAction::AdjustArpeggiatorOctaves(increase)
            } else {
                ParamAction::Nothing
            }
        },
    }
}

/// The parameter after `index` on a panel of `count` parameters, going round.
pub open spec fn next_param_index(index: nat, count: nat) -> nat {
    ((index + 1) % count) as nat
}

/// The parameter before `index` on a panel of `count` parameters, going round.
pub open spec fn prev_param_index(index: nat, count: nat) -> nat {
    if index == 0 {
        (count - 1) as nat
    } else {
        (index - 1) as nat
    }
}

/// Navigation state of the interface.
pub struct UiState {
    /// Current octave (0-8, default 4 = middle C)
    octave: i32,
    /// UI layout mode
    layout_mode: LayoutMode,
    /// Visualization mode
    viz_mode: VizMode,
    /// Current modal panel
    modal_panel: ModalPanel,
    /// Whether we're in edit mode (inside a panel editing parameters)
    edit_mode: bool,
    /// Current parameter index within the active panel
    param_index: usize,
}

/// Abstract view of the navigation state.
pub struct UiView {
    pub octave: int,
    pub layout_mode: LayoutMode,
    pub viz_mode: VizMode,
    pub modal_panel: ModalPanel,
    pub edit_mode: bool,
    pub param_index: nat,
}

impl View for UiState {
    type V = UiView;

    closed spec fn view(&self) -> UiView {
        UiView {
            octave: self.octave as int,
            layout_mode: self.layout_mode,
            viz_mode: self.viz_mode,
            modal_panel: self.modal_panel,
            edit_mode: self.edit_mode,
            param_index: self.param_index as nat,
        }
    }
}

impl UiView {
    /// The octave lies in 0..=8 and the selected parameter exists on the panel.
    pub open spec fn wf(self) -> bool {
        &&& 0 <= self.octave <= 8
        &&& self.param_index < self.modal_panel.parameter_count()
    }
}

impl UiState {
    /// Start in octave 4 on the oscillator panel, not editing.
    pub fn new() -> (r: Self)
        ensures
            r@.wf(),
            r@ == (UiView {
                octave: 4,
                layout_mode: LayoutMode::Sidebar,
                viz_mode: VizMode::Combined,
                modal_panel: ModalPanel::Oscillator,
                edit_mode: false,
                param_index: 0,
            }),
    {
        UiState {
            octave: 4,
            layout_mode: LayoutMode::Sidebar,
            viz_mode: VizMode::Combined,
            modal_panel: ModalPanel::Oscillator,
            edit_mode: false,
            param_index: 0,
        }
    }

    /// Get current octave.
    pub fn octave(&self) -> (r: i32)
        ensures
            r == self@.octave,
    {
        self.octave
    }

    /// Decrease octave, stopping at 0.
    pub fn octave_down(&mut self)
        requires
            old(self)@.wf(),
        ensures
            final(self)@.wf(),
            final(self)@ == (UiView {
                octave: if old(self)@.octave > 0 { old(self)@.octave - 1 } else { old(self)@.octave },
                ..old(self)@
            }),
    {
        if self.octave > 0 {
            self.octave = self.octave - 1;
        }
    }

    /// Increase octave, stopping at 8.
    pub fn octave_up(&mut self)
        requires
            old(self)@.wf(),
        ensures
            final(self)@.wf(),
            final(self)@ == (UiView {
                octave: if old(self)@.octave < 8 { old(self)@.octave + 1 } else { old(self)@.octave },
                ..old(self)@
            }),
    {
        if self.octave < 8 {
            self.octave = self.octave + 1;
        }
    }

    /// Get current layout mode.
    pub fn layout_mode(&self) -> (r: LayoutMode)
        ensures
            r == self@.layout_mode,
    {
        self.layout_mode
    }

    /// Toggle between layout modes.
    pub fn toggle_layout(&mut self)
        requires
            old(self)@.wf(),
        ensures
            final(self)@.wf(),
            final(self)@ == (UiView { layout_mode: old(self)@.layout_mode.other(), ..old(self)@ }),
    {
        self.layout_mode = self.layout_mode.toggle();
    }

    /// Get current visualization mode.
    pub fn viz_mode(&self) -> (r: VizMode)
        ensures
            r == self@.viz_mode,
    {
        self.viz_mode
    }

    /// Cycle to next visualization mode.
    pub fn next_viz_mode(&mut self)
        requires
            old(self)@.wf(),
        ensures
            final(self)@.wf(),
            final(self)@ == (UiView { viz_mode: old(self)@.viz_mode.successor(), ..old(self)@ }),
    {
        self.viz_mode = self.viz_mode.next();
    }

    /// Get current modal panel.
    pub fn modal_panel(&self) -> (r: ModalPanel)
        ensures
            r == self@.modal_panel,
    {
        self.modal_panel
    }

    /// Cycle to next modal; the selection goes back to the first parameter
    /// and edit mode is left.
    pub fn next_modal(&mut self)
        requires
            old(self)@.wf(),
        ensures
            final(self)@.wf(),
            final(self)@ == (UiView {
                modal_panel: old(self)@.modal_panel.successor(),
                param_index: 0,
                edit_mode: false,
                ..old(self)@
            }),
    {
        self.modal_panel = self.modal_panel.next();
        self.param_index = 0;
        self.edit_mode = false;
    }

    /// Cycle to previous modal; the selection goes back to the first parameter
    /// and edit mode is left.
    pub fn prev_modal(&mut self)
        requires
            old(self)@.wf(),
        ensures
            final(self)@.wf(),
            final(self)@ == (UiView {
                modal_panel: old(self)@.modal_panel.predecessor(),
                param_index: 0,
                edit_mode: false,
                ..old(self)@
            }),
    {
        self.modal_panel = self.modal_panel.prev();
        self.param_index = 0;
        self.edit_mode = false;
    }

    /// Check if in edit mode (inside a panel).
    pub fn edit_mode(&self) -> (r: bool)
        ensures
            r == self@.edit_mode,
    {
        self.edit_mode
    }

    /// Get current parameter index.
    pub fn param_index(&self) -> (r: usize)
        ensures
            r == self@.param_index,
    {
        self.param_index
    }

    /// Enter edit mode for current panel, at its first parameter.
    pub fn enter_edit_mode(&mut self)
        requires
            old(self)@.wf(),
        ensures
            final(self)@.wf(),
            final(self)@ == (UiView { edit_mode: true, param_index: 0, ..old(self)@ }),
    {
        self.edit_mode = true;
        self.param_index = 0;
    }

    /// Exit edit mode (back to panel navigation).
    pub fn exit_edit_mode(&mut self)
        requires
            old(self)@.wf(),
        ensures
            final(self)@.wf(),
            final(self)@ == (UiView { edit_mode: false, ..old(self)@ }),
    {
        self.edit_mode = false;
    }

    /// Get parameter count for current modal panel.
    pub fn param_count(&self) -> (r: usize)
        ensures
            r == self@.modal_panel.parameter_count(),
    {
        match self.modal_panel {
            ModalPanel::Oscillator => 4,
            ModalPanel::Filter => 5,
            ModalPanel::Envelope => 8,
            ModalPanel::EffectsBasic => 6,
            ModalPanel::LFO => 4,
            ModalPanel::Modulation => 5,
            ModalPanel::EffectsExt => 8,
            ModalPanel::Performance => 6,
        }
    }

    /// Move to next parameter (with wrap).
    pub fn next_param(&mut self)
        requires
            old(self)@.wf(),
        ensures
            final(self)@.wf(),
            final(self)@ == (UiView {
                param_index: next_param_index(old(self)@.param_index, old(self)@.modal_panel.parameter_count()),
                ..old(self)@
            }),
    {
        let count = self.param_count();
        self.param_index = (self.param_index + 1) % count;
    }

    /// Move to previous parameter (with wrap).
    pub fn prev_param(&mut self)
        requires
            old(self)@.wf(),
        ensures
            final(self)@.wf(),
            final(self)@ == (UiView {
                param_index: prev_param_index(old(self)@.param_index, old(self)@.modal_panel.parameter_count()),
                ..old(self)@
            }),
    {
        let count = self.param_count();
        if self.param_index == 0 {
            self.param_index = count - 1;
        } else {
            self.param_index = self.param_index - 1;
        }
    }

    /// What modifying the selected parameter up or down does.
    pub fn current_param_action(&self, increase: bool) -> (r: ParamAction)
        ensures
            r == action_for(self@.modal_panel, self@.param_index as int, increase),
    {
        param_action(self.modal_panel, self.param_index, increase)
    }
}

/// Law: the panel list names every panel once, in the order of `next`, so
/// cycling with `next` visits the panels in list order and comes back; `prev`
/// undoes `next`.
pub proof fn law_panel_cycle(p: ModalPanel, i: int)
    requires
        0 <= i < 8,
    ensures
        all_panels().len() == 8,
        all_panels().contains(p),
        all_panels().no_duplicates(),
        all_panels()[i].successor() == all_panels()[(i + 1) % 8],
        p.successor().predecessor() == p,
        p.predecessor().successor() == p,
{
    assert(all_panels()[match p {
        ModalPanel::Oscillator => 0int,
        ModalPanel::Filter => 1,
        ModalPanel::Envelope => 2,
        ModalPanel::EffectsBasic => 3,
        ModalPanel::LFO => 4,
        ModalPanel::Modulation => 5,
        ModalPanel::EffectsExt => 6,
        ModalPanel::Performance => 7,
    }] == p);
}

/// Law: the layout toggle is its own inverse, and four visualisation steps
/// come back to the same mode.
pub proof fn law_layout_and_viz_cycles(l: LayoutMode, v: VizMode)
    ensures
        l.other().other() == l,
        l.other() != l,
        v.successor().successor().successor().successor() == v,
{
}

/// Law: moving to the next parameter and back, or back and forward, returns
/// to the same parameter, and both moves stay on the panel.
pub proof fn law_param_round_trip(index: nat, count: nat)
    requires
        index < count,
    ensures
        next_param_index(index, count) < count,
        prev_param_index(index, count) < count,
        prev_param_index(next_param_index(index, count), count) == index,
        next_param_index(prev_param_index(index, count), count) == index,
{
    if index + 1 < count {
        vstd::arithmetic::div_mod::lemma_small_mod(index + 1, count);
    } else {
        vstd::arithmetic::div_mod::lemma_mod_self_0(count as int);
    }
    if index > 0 {
        vstd::arithmetic::div_mod::lemma_small_mod(index, count);
    } else {
        vstd::arithmetic::div_mod::lemma_mod_self_0(count as int);
    }
}

/// The action that undoes `a`: a cycle steps the other way, an adjustment
/// moves the other way, and a toggle toggles back.
pub open spec fn opposite(a: ParamAction) -> ParamAction {
    match a {
        ParamAction::NextOsc1Waveform => ParamAction::PrevOsc1Waveform,
        ParamAction::PrevOsc1Waveform => ParamAction::NextOsc1Waveform,
        ParamAction::NextOsc2Waveform => ParamAction::PrevOsc2Waveform,
        ParamAction::PrevOsc2Waveform => ParamAction::NextOsc2Waveform,
        ParamAction::NextFilterType => ParamAction::PrevFilterType,
        ParamAction::PrevFilterType => ParamAction::NextFilterType,
        ParamAction::NextLfoWaveform => ParamAction::PrevLfoWaveform,
        ParamAction::PrevLfoWaveform => ParamAction::NextLfoWaveform,
        ParamAction::NextPortamentoMode => ParamAction::PrevPortamentoMode,
        ParamAction::PrevPortamentoMode => ParamAction::NextPortamentoMode,
        ParamAction::NextNoiseType => ParamAction::PrevNoiseType,
        ParamAction::PrevNoiseType => ParamAction::NextNoiseType,
        ParamAction::NextArpeggiatorPattern => ParamAction::PrevArpeggiatorPattern,
        ParamAction::PrevArpeggiatorPattern => ParamAction::NextArpeggiatorPattern,
        ParamAction::AdjustOscMix(b) => ParamAction::AdjustOscMix(!b),
        ParamAction::ScaleFilterCutoff(b) => ParamAction::ScaleFilterCutoff(!b),
        ParamAction::AdjustFilterResonance(b) => ParamAction::AdjustFilterResonance(!b),
        ParamAction::AdjustFilterEnvAmount(b) => ParamAction::AdjustFilterEnvAmount(!b),
        ParamAction::AdjustAmpAttack(b) => ParamAction::AdjustAmpAttack(!b),
        ParamAction::AdjustAmpDecay(b) => ParamAction::AdjustAmpDecay(!b),
        ParamAction::AdjustAmpSustain(b) => ParamAction::AdjustAmpSustain(!b),
        ParamAction::AdjustAmpRelease(b) => ParamAction::AdjustAmpRelease(!b),
        ParamAction::AdjustFilterAttack(b) => ParamAction::AdjustFilterAttack(!b),
        ParamAction::AdjustFilterDecay(b) => ParamAction::AdjustFilterDecay(!b),
        ParamAction::AdjustFilterSustain(b) => ParamAction::AdjustFilterSustain(!b),
        ParamAction::AdjustFilterRelease(b) => ParamAction::AdjustFilterRelease(!b),
        ParamAction::AdjustDelayTime(b) => ParamAction::AdjustDelayTime(!b),
        ParamAction::AdjustDelayFeedback(b) => ParamAction::AdjustDelayFeedback(!b),
        ParamAction::AdjustDelayMix(b) => ParamAction::AdjustDelayMix(!b),
        ParamAction::AdjustLfoRate(b) => ParamAction::AdjustLfoRate(!b),
        ParamAction::AdjustLfoDepth(b) => ParamAction::AdjustLfoDepth(!b),
        ParamAction::AdjustRingModFreq(b) => ParamAction::AdjustRingModFreq(!b),
        ParamAction::AdjustRingModMix(b) => ParamAction::AdjustRingModMix(!b),
        ParamAction::AdjustFmRatio(b) => ParamAction::AdjustFmRatio(!b),
        ParamAction::AdjustChorusRate(b) => ParamAction::AdjustChorusRate(!b),
        ParamAction::AdjustChorusDepth(b) => ParamAction::AdjustChorusDepth(!b),
        ParamAction::AdjustChorusVoices(b) => ParamAction::AdjustChorusVoices(!b),
        ParamAction::AdjustChorusMix(b) => ParamAction::AdjustChorusMix(!b),
        ParamAction::AdjustBitcrusherMix(b) => ParamAction::AdjustBitcrusherMix(!b),
        ParamAction::AdjustArpeggiatorOctaves(b) => ParamAction::AdjustArpeggiatorOctaves(!b),
        other => other,
    }
}

/// Law: every parameter a panel counts has an action, and an index past the
/// count does nothing; moving a value down does the opposite of moving it up
/// (a cycle steps backward, an adjustment goes the other way, a toggle
/// toggles).
pub proof fn law_every_counted_param_acts(panel: ModalPanel, index: int, increase: bool)
    requires
        0 <= index,
    ensures
        (action_for(panel, index, increase) != ParamAction::Nothing) == (index < panel.parameter_count()),
        action_for(panel, index, !increase) == opposite(action_for(panel, index, increase)),
        opposite(opposite(action_for(panel, index, increase))) == action_for(panel, index, increase),
{
}


/// A synthesizer parameter that a panel offers for editing.
#[derive(Debug, Clone, Copy, PartialEq, Eq, Structural)]
pub enum Parameter {
    Osc1Waveform,
    Osc2Enabled,
    Osc2Waveform,
    OscMix,
    FilterEnabled,
    FilterType,
    FilterCutoff,
    FilterResonance,
    FilterEnvAmount,
    AmpAttack,
    AmpDecay,
    AmpSustain,
    AmpRelease,
    FilterAttack,
    FilterDecay,
    FilterSustain,
    FilterRelease,
    DistortionEnabled,
    DelayEnabled,
    DelayTime,
    DelayFeedback,
    DelayMix,
    ReverbEnabled,
    LfoEnabled,
    LfoWaveform,
    LfoRate,
    LfoDepth,
    RingModEnabled,
    RingModFreq,
    RingModMix,
    FmEnabled,
    FmRatio,
    ChorusEnabled,
    ChorusRate,
    ChorusDepth,
    ChorusVoices,
    ChorusMix,
    PhaserEnabled,
    BitcrusherEnabled,
    BitcrusherMix,
    PortamentoMode,
    NoiseEnabled,
    NoiseType,
    ArpEnabled,
    ArpPattern,
    ArpOctaves,
}

/// The parameters each panel lists, in the order it lists them (the order
/// in which the parameter selection moves through them).
pub open spec fn panel_parameters(panel: ModalPanel) -> Seq<Parameter> {
    match panel {
        ModalPanel::Oscillator => seq![
            Parameter::Osc1Waveform,
            Parameter::Osc2Enabled,
            Parameter::Osc2Waveform,
            Parameter::OscMix,
        ],
        ModalPanel::Filter => seq![
            Parameter::FilterEnabled,
            Parameter::FilterType,
            Parameter::FilterCutoff,
            Parameter::FilterResonance,
            Parameter::FilterEnvAmount,
        ],
        ModalPanel::Envelope => seq![
            Parameter::AmpAttack,
            Parameter::AmpDecay,
            Parameter::AmpSustain,
            Parameter::AmpRelease,
            Parameter::FilterAttack,
            Parameter::FilterDecay,
            Parameter::FilterSustain,
            Parameter::FilterRelease,
        ],
        ModalPanel::EffectsBasic => seq![
            Parameter::DistortionEnabled,
            Parameter::DelayEnabled,
            Parameter::DelayTime,
            Parameter::DelayFeedback,
            Parameter::DelayMix,
            Parameter::ReverbEnabled,
        ],
        ModalPanel::LFO => seq![
            Parameter::LfoEnabled,
            Parameter::LfoWaveform,
            Parameter::LfoRate,
            Parameter::LfoDepth,
        ],
        ModalPanel::Modulation => seq![
            Parameter::RingModEnabled,
            Parameter::RingModFreq,
            Parameter::RingModMix,
            Parameter::FmEnabled,
            Parameter::FmRatio,
        ],
        ModalPanel::EffectsExt => seq![
            Parameter::ChorusEnabled,
            Parameter::ChorusRate,
            Parameter::ChorusDepth,
            Parameter::ChorusVoices,
            Parameter::ChorusMix,
            Parameter::PhaserEnabled,
            Parameter::BitcrusherEnabled,
            Parameter::BitcrusherMix,
        ],
        ModalPanel::Performance => seq![
            Parameter::PortamentoMode,
            Parameter::NoiseEnabled,
            Parameter::NoiseType,
            Parameter::ArpEnabled,
            Parameter::ArpPattern,
            Parameter::ArpOctaves,
        ],
    }
}

impl ParamAction {
    /// The parameter this action changes, if any.
    pub open spec fn parameter(self) -> Option<Parameter> {
        match self {
            ParamAction::Nothing => None,
            ParamAction::NextOsc1Waveform | ParamAction::PrevOsc1Waveform => Some(Parameter::Osc1Waveform),
            ParamAction::ToggleOsc2 => Some(Parameter::Osc2Enabled),
            ParamAction::NextOsc2Waveform | ParamAction::PrevOsc2Waveform => Some(Parameter::Osc2Waveform),
            ParamAction::AdjustOscMix(_) => Some(Parameter::OscMix),
            ParamAction::ToggleFilter => Some(Parameter::FilterEnabled),
            ParamAction::NextFilterType | ParamAction::PrevFilterType => Some(Parameter::FilterType),
            ParamAction::ScaleFilterCutoff(_) => Some(Parameter::FilterCutoff),
            ParamAction::AdjustFilterResonance(_) => Some(Parameter::FilterResonance),
            ParamAction::AdjustFilterEnvAmount(_) => Some(Parameter::FilterEnvAmount),
            ParamAction::AdjustAmpAttack(_) => Some(Parameter::AmpAttack),
            ParamAction::AdjustAmpDecay(_) => Some(Parameter::AmpDecay),
            ParamAction::AdjustAmpSustain(_) => Some(Parameter::AmpSustain),
            ParamAction::AdjustAmpRelease(_) => Some(Parameter::AmpRelease),
            ParamAction::AdjustFilterAttack(_) => Some(Parameter::FilterAttack),
            ParamAction::AdjustFilterDecay(_) => Some(Parameter::FilterDecay),
            ParamAction::AdjustFilterSustain(_) => Some(Parameter::FilterSustain),
            ParamAction::AdjustFilterRelease(_) => Some(Parameter::FilterRelease),
            ParamAction::ToggleDistortion => Some(Parameter::DistortionEnabled),
            ParamAction::ToggleDelay => Some(Parameter::DelayEnabled),
            ParamAction::AdjustDelayTime(_) => Some(Parameter::DelayTime),
            ParamAction::AdjustDelayFeedback(_) => Some(Parameter::DelayFeedback),
            ParamAction::AdjustDelayMix(_) => Some(Parameter::DelayMix),
            ParamAction::ToggleReverb => Some(Parameter::ReverbEnabled),
            ParamAction::ToggleLfo => Some(Parameter::LfoEnabled),
            ParamAction::NextLfoWaveform | ParamAction::PrevLfoWaveform => Some(Parameter::LfoWaveform),
            ParamAction::AdjustLfoRate(_) => Some(Parameter::LfoRate),
            ParamAction::AdjustLfoDepth(_) => Some(Parameter::LfoDepth),
            ParamAction::ToggleRingMod => Some(Parameter::RingModEnabled),
            ParamAction::AdjustRingModFreq(_) => Some(Parameter::RingModFreq),
            ParamAction::AdjustRingModMix(_) => Some(Parameter::RingModMix),
            ParamAction::ToggleFm => Some(Parameter::FmEnabled),
            ParamAction::AdjustFmRatio(_) => Some(Parameter::FmRatio),
            ParamAction::ToggleChorus => Some(Parameter::ChorusEnabled),
            ParamAction::AdjustChorusRate(_) => Some(Parameter::ChorusRate),
            ParamAction::AdjustChorusDepth(_) => Some(Parameter::ChorusDepth),
            ParamAction::AdjustChorusVoices(_) => Some(Parameter::ChorusVoices),
            ParamAction::AdjustChorusMix(_) => Some(Parameter::ChorusMix),
            ParamAction::TogglePhaser => Some(Parameter::PhaserEnabled),
            ParamAction::ToggleBitcrusher => Some(Parameter::BitcrusherEnabled),
            ParamAction::AdjustBitcrusherMix(_) => Some(Parameter::BitcrusherMix),
            ParamAction::NextPortamentoMode | ParamAction::PrevPortamentoMode => Some(Parameter::PortamentoMode),
            ParamAction::ToggleNoise => Some(Parameter::NoiseEnabled),
            ParamAction::NextNoiseType | ParamAction::PrevNoiseType => Some(Parameter::NoiseType),
            ParamAction::ToggleArpeggiator => Some(Parameter::ArpEnabled),
            ParamAction::NextArpeggiatorPattern | ParamAction::PrevArpeggiatorPattern => Some(Parameter::ArpPattern),
            ParamAction::AdjustArpeggiatorOctaves(_) => Some(Parameter::ArpOctaves),
        }
    }

    /// The way this action moves its parameter: `Some(true)` up (or forward
    /// through a cycle), `Some(false)` down (or backward), `None` for a
    /// toggle or no action.
    pub open spec fn direction(self) -> Option<bool> {
        match self {
            ParamAction::NextOsc1Waveform | ParamAction::NextOsc2Waveform | ParamAction::NextFilterType
            | ParamAction::NextLfoWaveform | ParamAction::NextPortamentoMode | ParamAction::NextNoiseType
            | ParamAction::NextArpeggiatorPattern => Some(true),
            ParamAction::PrevOsc1Waveform | ParamAction::PrevOsc2Waveform | ParamAction::PrevFilterType
            | ParamAction::PrevLfoWaveform | ParamAction::PrevPortamentoMode | ParamAction::PrevNoiseType
            | ParamAction::PrevArpeggiatorPattern => Some(false),
            ParamAction::AdjustOscMix(b) | ParamAction::ScaleFilterCutoff(b) | ParamAction::AdjustFilterResonance(b)
            | ParamAction::AdjustFilterEnvAmount(b) | ParamAction::AdjustAmpAttack(b) | ParamAction::AdjustAmpDecay(b)
            | ParamAction::AdjustAmpSustain(b) | ParamAction::AdjustAmpRelease(b) | ParamAction::AdjustFilterAttack(b)
            | ParamAction::AdjustFilterDecay(b) | ParamAction::AdjustFilterSustain(b)
            | ParamAction::AdjustFilterRelease(b) | ParamAction::AdjustDelayTime(b)
            | ParamAction::AdjustDelayFeedback(b) | ParamAction::AdjustDelayMix(b) | ParamAction::AdjustLfoRate(b)
            | ParamAction::AdjustLfoDepth(b) | ParamAction::AdjustRingModFreq(b) | ParamAction::AdjustRingModMix(b)
            | ParamAction::AdjustFmRatio(b) | ParamAction::AdjustChorusRate(b) | ParamAction::AdjustChorusDepth(b)
            | ParamAction::AdjustChorusVoices(b) | ParamAction::AdjustChorusMix(b)
            | ParamAction::AdjustBitcrusherMix(b) | ParamAction::AdjustArpeggiatorOctaves(b) => Some(b),
            _ => None,
        }
    }
}

/// Law: each parameter index of a panel names the parameter that the panel
/// lists at that place, whichever way the value is moved; the panel lists
/// exactly as many parameters as it counts; and moving a value up moves it
/// up (or forward through its cycle), moving it down moves it down (or
/// backward), unless the parameter is an on/off switch.
pub proof fn law_param_index_names_listed_parameter(panel: ModalPanel, index: int, increase: bool)
    requires
        0 <= index < panel.parameter_count(),
    ensures
        panel_parameters(panel).len() == panel.parameter_count(),
        action_for(panel, index, increase).parameter() == Some(panel_parameters(panel)[index]),
        action_for(panel, index, increase).direction() is None
            || action_for(panel, index, increase).direction() == Some(increase),
{
}

} // verus!
