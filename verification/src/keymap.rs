//! Key bindings: which command a key press or release stands for, given the
//! panel shown and whether a parameter is being edited.
use crate::keyboard::spec_char_to_note;
use crate::keyboard::char_to_note;
use crate::panels::ModalPanel;
use crate::panels::Parameter;
use crate::panels::panel_parameters;
use crate::panels::UiState;
use crate::panels::UiView;
use crate::sound::LFODestination;
use vstd::prelude::*;

verus! {

/// A key of the terminal keyboard.
#[derive(Debug, Clone, Copy, PartialEq, Eq, Structural)]
pub enum Key {
    /// A character key.
    Char(char),
    /// Function key F1..F12 (the number).
    F(u8),
    Esc,
    Enter,
    Tab,
    BackTab,
    Up,
    Down,
    Left,
    Right,
    PageUp,
    PageDown,
    Insert,
    Home,
    End,
    /// Any other key.
    Other,
}

/// What a key press or release asks the application to do. Adjustments
/// carry `true` for an increase and `false` for a decrease.
#[derive(Debug, Clone, Copy, PartialEq, Eq, Structural)]
pub enum Command {
    /// Nothing to do.
    Nothing,
    /// Leave the application.
    Quit,
    /// Start the note.
    PlayNote(u8),
    /// Release the note.
    StopNote(u8),
    NextDistortionType,
    AdjustDistortionDrive(bool),
    ToggleDelay,
    AdjustDelayTime(bool),
    ToggleReverb,
    AdjustReverbMix(bool),
    AdjustReverbDecay(bool),
    ExitEditMode,
    PrevParam,
    NextParam,
    ModifyParam(bool),
    ExitEditAndNextModal,
    ExitEditAndPrevModal,
    EnterEditMode,
    AdjustVolume(bool),
    OctaveDown,
    OctaveUp,
    NextModal,
    PrevModal,
    PrevPreset,
    NextPreset,
    ToggleLayout,
    NextVizMode,
    NextOsc1Waveform,
    ToggleRecording,
    ToggleOsc2,
    NextOsc2Waveform,
    ToggleFilter,
    NextFilterType,
    ScaleFilterCutoff(bool),
    AdjustFilterResonance(bool),
    AdjustFilterEnvAmount(bool),
    ToggleDistortion,
    NextLfoWaveform,
    ToggleLfoDestination(LFODestination),
    NextPortamentoMode,
    ToggleNoise,
    NextNoiseType,
    ToggleArpeggiator,
    NextArpeggiatorDivision,
    NextArpeggiatorPattern,
    AdjustArpeggiatorOctaves(bool),
    ToggleChorus,
    TogglePhaser,
    ToggleBitcrusher,
    ToggleRingMod,
    ToggleFm,
    Panic,
    ToggleLfo,
}

/// Playing the note of character `c` in `octave`, if it has one.
pub open spec fn play_char(c: char, octave: int) -> Command {
    match spec_char_to_note(c, octave) {
        Some(n) => Command::PlayNote(n),
        None => Command::Nothing,
    }
}

/// The command of a key pressed together with Ctrl.
pub open spec fn ctrl_command(key: Key) -> Command {
    match key {
        Key::Char(c) => {
            if c == '1' {
                Command::NextDistortionType
            } else if c == '2' {
                Command::AdjustDistortionDrive(false)
            } else if c == '3' {
                Command::AdjustDistortionDrive(true)
            } else if c == '4' {
                Command::ToggleDelay
            } else if c == '5' {
                Command::AdjustDelayTime(false)
            } else if c == '6' {
                Command::AdjustDelayTime(true)
            } else if c == '7' {
                Command::ToggleReverb
            } else if c == '8' {
                Command::AdjustReverbMix(false)
            } else if c == '9' {
                Command::AdjustReverbMix(true)
            } else if c == '0' {
                Command::AdjustReverbDecay(false)
            } else if c == '-' {
                Command::AdjustReverbDecay(true)
            } else {
                Command::Nothing
            }
        },
        _ => Command::Nothing,
    }
}

/// The command of a key pressed while a parameter is being edited.
pub open spec fn edit_command(v: UiView, key: Key) -> Command {
    match key {
        Key::Esc => Command::ExitEditMode,
        Key::Left => Command::PrevParam,
        Key::Right => Command::NextParam,
        Key::Up => Command::ModifyParam(true),
        Key::Down => Command::ModifyParam(false),
        Key::Tab => Command::ExitEditAndNextModal,
        Key::BackTab => Command::ExitEditAndPrevModal,
        Key::Enter => Command::EnterEditMode,
        Key::Char(c) => {
            if c == ' ' {
                Command::Panic
            } else {
                play_char(c, v.octave)
            }
        },
        _ => Command::Nothing,
    }
}

/// The command of a key pressed while moving between panels.
pub open spec fn normal_command(v: UiView, key: Key) -> Command {
    match key {
        Key::Esc => Command::Quit,
        Key::Enter => Command::EnterEditMode,
        Key::Up => Command::AdjustVolume(true),
        Key::Down => Command::AdjustVolume(false),
        Key::Left => Command::OctaveDown,
        Key::Right => Command::OctaveUp,
        Key::Tab => Command::NextModal,
        Key::BackTab => Command::PrevModal,
        Key::PageUp => Command::PrevPreset,
        Key::PageDown => Command::NextPreset,
        Key::Insert => Command::ToggleLayout,
        Key::Home => Command::NextVizMode,
        Key::End => Command::NextOsc1Waveform,
        Key::F(n) => {
            if n == 1 {
                Command::ToggleRecording
            } else if n == 2 {
                Command::ToggleOsc2
            } else if n == 3 {
                Command::NextOsc2Waveform
            } else if n == 4 {
                Command::ToggleFilter
            } else if n == 5 {
                Command::NextFilterType
            } else if n == 6 {
                Command::ScaleFilterCutoff(false)
            } else if n == 7 {
                Command::ScaleFilterCutoff(true)
            } else if n == 8 {
                Command::AdjustFilterResonance(false)
            } else if n == 9 {
                Command::AdjustFilterResonance(true)
            } else if n == 10 {
                Command::AdjustFilterEnvAmount(false)
            } else if n == 11 {
                Command::AdjustFilterEnvAmount(true)
            } else if n == 12 {
                Command::ToggleDistortion
            } else {
                Command::Nothing
            }
        },
        Key::Char(c) => {
            if c == ' ' {
                if v.modal_panel == ModalPanel::LFO {
                    Command::ToggleLfo
                } else {
                    Command::Panic
                }
            } else if (c == '1') && v.modal_panel == ModalPanel::Oscillator {
                Command::NextOsc1Waveform
            } else if (c == '2') && v.modal_panel == ModalPanel::Oscillator {
                Command::ToggleOsc2
            } else if (c == '3') && v.modal_panel == ModalPanel::Oscillator {
                Command::NextOsc2Waveform
            } else if (c == '4') && v.modal_panel == ModalPanel::Filter {
                Command::ToggleFilter
            } else if (c == '5') && v.modal_panel == ModalPanel::Filter {
                Command::NextFilterType
            } else if (c == 'e' || c == 'E') && v.modal_panel == ModalPanel::Filter {
                Command::AdjustFilterEnvAmount(true)
            } else if (c == 'd' || c == 'D') && v.modal_panel == ModalPanel::EffectsBasic {
                Command::ToggleDistortion
            } else if (c == 'l' || c == 'L') && v.modal_panel == ModalPanel::EffectsBasic {
                Command::ToggleDelay
            } else if (c == 'r' || c == 'R') && v.modal_panel == ModalPanel::EffectsBasic {
                Command::ToggleReverb
            } else if (c == '1') && v.modal_panel == ModalPanel::LFO {
                Command::NextLfoWaveform
            } else if (c == 'p' || c == 'P') && v.modal_panel == ModalPanel::LFO {
                Command::ToggleLfoDestination(LFODestination::Pitch)
            } else if (c == 'f' || c == 'F') && v.modal_panel == ModalPanel::LFO {
                Command::ToggleLfoDestination(LFODestination::FilterCutoff)
            } else if (c == 'v' || c == 'V') && v.modal_panel == ModalPanel::LFO {
                Command::ToggleLfoDestination(LFODestination::Volume)
            } else if (c == 'w' || c == 'W') && v.modal_panel == ModalPanel::LFO {
                Command::ToggleLfoDestination(LFODestination::PulseWidth)
            } else if (c == 'o' || c == 'O') && v.modal_panel == ModalPanel::LFO {
                Command::ToggleLfoDestination(LFODestination::Osc2Pitch)
            } else if (c == 'a' || c == 'A') && v.modal_panel == ModalPanel::LFO {
                Command::ToggleLfoDestination(LFODestination::Pan)
            } else if (c == 'g' || c == 'G') && v.modal_panel == ModalPanel::Performance {
                Command::NextPortamentoMode
            } else if (c == 'n' || c == 'N') && v.modal_panel == ModalPanel::Performance {
                Command::ToggleNoise
            } else if (c == 't' || c == 'T') && v.modal_panel == ModalPanel::Performance {
                Command::NextNoiseType
            } else if (c == 'a' || c == 'A') && v.modal_panel == ModalPanel::Performance {
                Command::ToggleArpeggiator
            } else if (c == 'd' || c == 'D') && v.modal_panel == ModalPanel::Performance {
                Command::NextArpeggiatorDivision
            } else if (c == 'p' || c == 'P') && v.modal_panel == ModalPanel::Performance {
                Command::NextArpeggiatorPattern
            } else if (c == 'o' || c == 'O') && v.modal_panel == ModalPanel::Performance {
                Command::AdjustArpeggiatorOctaves(true)
            } else if (c == 'c' || c == 'C') && v.modal_panel == ModalPanel::EffectsExt {
                Command::ToggleChorus
            } else if (c == 'p' || c == 'P') && v.modal_panel == ModalPanel::EffectsExt {
                Command::TogglePhaser
            } else if (c == 'b' || c == 'B') && v.modal_panel == ModalPanel::EffectsExt {
                Command::ToggleBitcrusher
            } else if (c == 'r' || c == 'R') && v.modal_panel == ModalPanel::Modulation {
                Command::ToggleRingMod
            } else if (c == 'f' || c == 'F') && v.modal_panel == ModalPanel::Modulation {
                Command::ToggleFm
            } else {
                play_char(c, v.octave)
            }
        },
        _ => Command::Nothing,
    }
}

/// The command of a key press: Ctrl combinations first, Shift combinations
/// do nothing, then the bindings of edit mode or of panel navigation.
pub open spec fn press_command(v: UiView, key: Key, ctrl: bool, shift: bool) -> Command {
    if ctrl {
        ctrl_command(key)
    } else if shift {
        Command::Nothing
    } else if v.edit_mode {
        edit_command(v, key)
    } else {
        normal_command(v, key)
    }
}

/// The command of a key release: a musical key stops its note.
pub open spec fn release_command(v: UiView, key: Key) -> Command {
    match key {
        Key::Char(c) => match spec_char_to_note(c, v.octave) {
            Some(n) => Command::StopNote(n),
            None => Command::Nothing,
        },
        _ => Command::Nothing,
    }
}

/// Playing the note of a character in the current octave.
fn play(ui: &UiState, c: char) -> (r: Command)
    requires
        ui@.wf(),
    ensures
        r == play_char(c, ui@.octave),
{
    match char_to_note(c, ui.octave()) {
        Some(n) => Command::PlayNote(n),
        None => Command::Nothing,
    }
}

/// The command that pressing `key` (with `ctrl` and `shift` held or not)
/// stands for in the navigation state `ui`.
pub fn key_press_command(ui: &UiState, key: Key, ctrl: bool, shift: bool) -> (r: Command)
    requires
        ui@.wf(),
    ensures
        r == press_command(ui@, key, ctrl, shift),
{
    if ctrl {
        match key {
            Key::Char(c) => {
                if c == '1' {
                    Command::NextDistortionType
                } else if c == '2' {
                    Command::AdjustDistortionDrive(false)
                } else if c == '3' {
                    Command::AdjustDistortionDrive(true)
                } else if c == '4' {
                    Command::ToggleDelay
                } else if c == '5' {
                    Command::AdjustDelayTime(false)
                } else if c == '6' {
                    Command::AdjustDelayTime(true)
                } else if c == '7' {
                    Command::ToggleReverb
                } else if c == '8' {
                    Command::AdjustReverbMix(false)
                } else if c == '9' {
                    Command::AdjustReverbMix(true)
                } else if c == '0' {
                    Command::AdjustReverbDecay(false)
                } else if c == '-' {
                    Command::AdjustReverbDecay(true)
                } else {
                    Command::Nothing
                }
            },
            _ => Command::Nothing,
        }
    } else if shift {
        Command::Nothing
    } else if ui.edit_mode() {
        match key {
            Key::Esc => Command::ExitEditMode,
            Key::Left => Command::PrevParam,
            Key::Right => Command::NextParam,
            Key::Up => Command::ModifyParam(true),
            Key::Down => Command::ModifyParam(false),
            Key::Tab => Command::ExitEditAndNextModal,
            Key::BackTab => Command::ExitEditAndPrevModal,
            Key::Enter => Command::EnterEditMode,
            Key::Char(c) => {
                if c == ' ' {
                    Command::Panic
                } else {
                    play(ui, c)
                }
            },
            _ => Command::Nothing,
        }
    } else {
        let panel = ui.modal_panel();
        match key {
            Key::Esc => Command::Quit,
            Key::Enter => Command::EnterEditMode,
            Key::Up => Command::AdjustVolume(true),
            Key::Down => Command::AdjustVolume(false),
            Key::Left => Command::OctaveDown,
            Key::Right => Command::OctaveUp,
            Key::Tab => Command::NextModal,
            Key::BackTab => Command::PrevModal,
            Key::PageUp => Command::PrevPreset,
            Key::PageDown => Command::NextPreset,
            Key::Insert => Command::ToggleLayout,
            Key::Home => Command::NextVizMode,
            Key::End => Command::NextOsc1Waveform,
            Key::F(n) => {
                if n == 1 {
                    Command::ToggleRecording
                } else if n == 2 {
                    Command::ToggleOsc2
                } else if n == 3 {
                    Command::NextOsc2Waveform
                } else if n == 4 {
                    Command::ToggleFilter
                } else if n == 5 {
                    Command::NextFilterType
                } else if n == 6 {
                    Command::ScaleFilterCutoff(false)
                } else if n == 7 {
                    Command::ScaleFilterCutoff(true)
                } else if n == 8 {
                    Command::AdjustFilterResonance(false)
                } else if n == 9 {
                    Command::AdjustFilterResonance(true)
                } else if n == 10 {
                    Command::AdjustFilterEnvAmount(false)
                } else if n == 11 {
                    Command::AdjustFilterEnvAmount(true)
                } else if n == 12 {
                    Command::ToggleDistortion
                } else {
                    Command::Nothing
                }
            },
            Key::Char(c) => {
                if c == ' ' {
                    if panel == ModalPanel::LFO {
                        Command::ToggleLfo
                    } else {
                        Command::Panic
                    }
                } else if (c == '1') && panel == ModalPanel::Oscillator {
                    Command::NextOsc1Waveform
                } else if (c == '2') && panel == ModalPanel::Oscillator {
                    Command::ToggleOsc2
                } else if (c == '3') && panel == ModalPanel::Oscillator {
                    Command::NextOsc2Waveform
                } else if (c == '4') && panel == ModalPanel::Filter {
                    Command::ToggleFilter
                } else if (c == '5') && panel == ModalPanel::Filter {
                    Command::NextFilterType
                } else if (c == 'e' || c == 'E') && panel == ModalPanel::Filter {
                    Command::AdjustFilterEnvAmount(true)
                } else if (c == 'd' || c == 'D') && panel == ModalPanel::EffectsBasic {
                    Command::ToggleDistortion
                } else if (c == 'l' || c == 'L') && panel == ModalPanel::EffectsBasic {
                    Command::ToggleDelay
                } else if (c == 'r' || c == 'R') && panel == ModalPanel::EffectsBasic {
                    Command::ToggleReverb
                } else if (c == '1') && panel == ModalPanel::LFO {
                    Command::NextLfoWaveform
                } else if (c == 'p' || c == 'P') && panel == ModalPanel::LFO {
                    Command::ToggleLfoDestination(LFODestination::Pitch)
                } else if (c == 'f' || c == 'F') && panel == ModalPanel::LFO {
                    Command::ToggleLfoDestination(LFODestination::FilterCutoff)
                } else if (c == 'v' || c == 'V') && panel == ModalPanel::LFO {
                    Command::ToggleLfoDestination(LFODestination::Volume)
                } else if (c == 'w' || c == 'W') && panel == ModalPanel::LFO {
                    Command::ToggleLfoDestination(LFODestination::PulseWidth)
                } else if (c == 'o' || c == 'O') && panel == ModalPanel::LFO {
                    Command::ToggleLfoDestination(LFODestination::Osc2Pitch)
                } else if (c == 'a' || c == 'A') && panel == ModalPanel::LFO {
                    Command::ToggleLfoDestination(LFODestination::Pan)
                } else if (c == 'g' || c == 'G') && panel == ModalPanel::Performance {
                    Command::NextPortamentoMode
                } else if (c == 'n' || c == 'N') && panel == ModalPanel::Performance {
                    Command::ToggleNoise
                } else if (c == 't' || c == 'T') && panel == ModalPanel::Performance {
                    Command::NextNoiseType
                } else if (c == 'a' || c == 'A') && panel == ModalPanel::Performance {
                    Command::ToggleArpeggiator
                } else if (c == 'd' || c == 'D') && panel == ModalPanel::Performance {
                    Command::NextArpeggiatorDivision
                } else if (c == 'p' || c == 'P') && panel == ModalPanel::Performance {
                    Command::NextArpeggiatorPattern
                } else if (c == 'o' || c == 'O') && panel == ModalPanel::Performance {
                    Command::AdjustArpeggiatorOctaves(true)
                } else if (c == 'c' || c == 'C') && panel == ModalPanel::EffectsExt {
                    Command::ToggleChorus
                } else if (c == 'p' || c == 'P') && panel == ModalPanel::EffectsExt {
                    Command::TogglePhaser
                } else if (c == 'b' || c == 'B') && panel == ModalPanel::EffectsExt {
                    Command::ToggleBitcrusher
                } else if (c == 'r' || c == 'R') && panel == ModalPanel::Modulation {
                    Command::ToggleRingMod
                } else if (c == 'f' || c == 'F') && panel == ModalPanel::Modulation {
                    Command::ToggleFm
                } else {
                    play(ui, c)
                }
            },
            _ => Command::Nothing,
        }
    }
}

/// The command that releasing `key` stands for in the navigation state `ui`.
pub fn key_release_command(ui: &UiState, key: Key) -> (r: Command)
    requires
        ui@.wf(),
    ensures
        r == release_command(ui@, key),
{
    match key {
        Key::Char(c) => match char_to_note(c, ui.octave()) {
            Some(n) => Command::StopNote(n),
            None => Command::Nothing,
        },
        _ => Command::Nothing,
    }
}

/// Law: keys pressed with Shift (and without Ctrl) do nothing.
pub proof fn law_shift_does_nothing(v: UiView, key: Key)
    ensures
        press_command(v, key, false, true) == Command::Nothing,
{
}

/// Law: releasing a key stops exactly the note that pressing it started.
pub proof fn law_release_stops_played_note(v: UiView, c: char, n: u8)
    requires
        press_command(v, Key::Char(c), false, false) == Command::PlayNote(n),
    ensures
        release_command(v, Key::Char(c)) == Command::StopNote(n),
{
}

/// Law: while a parameter is edited, every key but the space bar still
/// plays the keyboard.
pub proof fn law_keyboard_plays_in_edit_mode(v: UiView, c: char)
    requires
        v.edit_mode,
        c != ' ',
    ensures
        press_command(v, Key::Char(c), false, false) == play_char(c, v.octave),
{
}


impl Command {
    /// The panel parameter this command changes, if it changes one.
    pub open spec fn parameter(self) -> Option<Parameter> {
        match self {
            Command::NextOsc1Waveform => Some(Parameter::Osc1Waveform),
            Command::ToggleOsc2 => Some(Parameter::Osc2Enabled),
            Command::NextOsc2Waveform => Some(Parameter::Osc2Waveform),
            Command::ToggleFilter => Some(Parameter::FilterEnabled),
            Command::NextFilterType => Some(Parameter::FilterType),
            Command::ScaleFilterCutoff(_) => Some(Parameter::FilterCutoff),
            Command::AdjustFilterResonance(_) => Some(Parameter::FilterResonance),
            Command::AdjustFilterEnvAmount(_) => Some(Parameter::FilterEnvAmount),
            Command::ToggleDistortion => Some(Parameter::DistortionEnabled),
            Command::ToggleDelay => Some(Parameter::DelayEnabled),
            Command::AdjustDelayTime(_) => Some(Parameter::DelayTime),
            Command::ToggleReverb => Some(Parameter::ReverbEnabled),
            Command::ToggleLfo => Some(Parameter::LfoEnabled),
            Command::NextLfoWaveform => Some(Parameter::LfoWaveform),
            Command::ToggleRingMod => Some(Parameter::RingModEnabled),
            Command::ToggleFm => Some(Parameter::FmEnabled),
            Command::ToggleChorus => Some(Parameter::ChorusEnabled),
            Command::TogglePhaser => Some(Parameter::PhaserEnabled),
            Command::ToggleBitcrusher => Some(Parameter::BitcrusherEnabled),
            Command::NextPortamentoMode => Some(Parameter::PortamentoMode),
            Command::ToggleNoise => Some(Parameter::NoiseEnabled),
            Command::NextNoiseType => Some(Parameter::NoiseType),
            Command::ToggleArpeggiator => Some(Parameter::ArpEnabled),
            Command::NextArpeggiatorPattern => Some(Parameter::ArpPattern),
            Command::AdjustArpeggiatorOctaves(_) => Some(Parameter::ArpOctaves),
            _ => None,
        }
    }

    /// The same command moving its value up (`true`) or down (`false`);
    /// a command that moves no value is unchanged.
    pub open spec fn moved(self, up: bool) -> Command {
        match self {
            Command::AdjustDistortionDrive(_) => Command::AdjustDistortionDrive(up),
            Command::AdjustDelayTime(_) => Command::AdjustDelayTime(up),
            Command::AdjustReverbMix(_) => Command::AdjustReverbMix(up),
            Command::AdjustReverbDecay(_) => Command::AdjustReverbDecay(up),
            Command::ModifyParam(_) => Command::ModifyParam(up),
            Command::AdjustVolume(_) => Command::AdjustVolume(up),
            Command::ScaleFilterCutoff(_) => Command::ScaleFilterCutoff(up),
            Command::AdjustFilterResonance(_) => Command::AdjustFilterResonance(up),
            Command::AdjustFilterEnvAmount(_) => Command::AdjustFilterEnvAmount(up),
            Command::AdjustArpeggiatorOctaves(_) => Command::AdjustArpeggiatorOctaves(up),
            other => other,
        }
    }

    /// The way this command moves a value: `Some(true)` up, `Some(false)`
    /// down, `None` when it moves no value up or down.
    pub open spec fn direction(self) -> Option<bool> {
        match self {
            Command::AdjustDistortionDrive(b) | Command::AdjustDelayTime(b) | Command::AdjustReverbMix(b)
            | Command::AdjustReverbDecay(b) | Command::ModifyParam(b) | Command::AdjustVolume(b)
            | Command::ScaleFilterCutoff(b) | Command::AdjustFilterResonance(b)
            | Command::AdjustFilterEnvAmount(b) | Command::AdjustArpeggiatorOctaves(b) => Some(b),
            _ => None,
        }
    }
}

/// Law: while moving between panels, F2 and F3 reach the second and third
/// parameters of the Oscillator panel, and F4 to F11 reach the Filter
/// panel's parameters in the order that panel lists them: F4 and F5 its
/// first two, then one pair of keys for each of the next three, the lower
/// key of a pair moving the value down and the higher key moving it up.
pub proof fn law_function_keys_follow_panel_order(v: UiView, n: u8)
    requires
        !v.edit_mode,
        2 <= n <= 11,
    ensures
        ({
            let c = press_command(v, Key::F(n), false, false);
            &&& n <= 3 ==> c.parameter() == Some(panel_parameters(ModalPanel::Oscillator)[n - 1])
            &&& 4 <= n <= 5 ==> c.parameter() == Some(panel_parameters(ModalPanel::Filter)[n - 4])
            &&& 6 <= n ==> c.parameter() == Some(panel_parameters(ModalPanel::Filter)[n / 2 - 1])
            &&& 6 <= n ==> c.direction() == Some(n % 2 == 1)
            &&& 6 <= n && n % 2 == 0 ==> press_command(v, Key::F((n + 1) as u8), false, false)
                == c.moved(true)
        }),
        press_command(v, Key::F(12), false, false).parameter() == Some(
            panel_parameters(ModalPanel::EffectsBasic)[0],
        ),
{
}

/// The ordered pairs of digit keys that, with Ctrl, move an effect value
/// down and up.
pub open spec fn ctrl_pairs() -> Seq<(char, char)> {
    seq![('2', '3'), ('5', '6'), ('8', '9'), ('0', '-')]
}

/// Law: with Ctrl held, each pair of neighbouring keys 2/3, 5/6, 8/9 and
/// 0/- moves one effect value, the left key down and the right key up,
/// whatever panel is shown and whether or not a parameter is being edited.
pub proof fn law_ctrl_pairs_go_down_then_up(v: UiView, k: int, shift: bool)
    requires
        0 <= k < 4,
    ensures
        ({
            let (down, up) = ctrl_pairs()[k];
            let d = press_command(v, Key::Char(down), true, shift);
            &&& d.direction() == Some(false)
            &&& press_command(v, Key::Char(up), true, shift) == d.moved(true)
        }),
{
}

/// Law: while moving between panels, a character key that changes a panel
/// parameter changes one that the panel on show lists.
pub proof fn law_panel_keys_change_listed_parameters(v: UiView, c: char)
    requires
        !v.edit_mode,
    ensures
        press_command(v, Key::Char(c), false, false).parameter() matches Some(p)
            ==> panel_parameters(v.modal_panel).contains(p),
{
    let cmd = press_command(v, Key::Char(c), false, false);
    let ps = panel_parameters(v.modal_panel);
    // Every panel lists at most eight parameters; naming each place lets
    // the solver find the one that holds the parameter.
    assert(ps.len() <= 8);
    assert(cmd.parameter() matches Some(p) ==> {
        ||| ps[0] == p
        ||| ps[1] == p
        ||| ps[2] == p
        ||| ps[3] == p
        ||| ps[4] == p
        ||| ps[5] == p
        ||| ps[6] == p
        ||| ps[7] == p
    });
}

/// Law: the Up key moves a value up and the Down key moves the same value
/// down: the volume while moving between panels, the selected parameter
/// while editing.
pub proof fn law_up_and_down_keys_are_opposite(v: UiView)
    ensures
        press_command(v, Key::Up, false, false).direction() == Some(true),
        press_command(v, Key::Down, false, false) == press_command(v, Key::Up, false, false).moved(false),
{
}

} // verus!
