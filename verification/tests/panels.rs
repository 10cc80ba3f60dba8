use arcorrust::keymap::key_press_command;
use arcorrust::keymap::key_release_command;
use arcorrust::keymap::Command;
use arcorrust::keymap::Key;
use arcorrust::panels::param_action;
use arcorrust::panels::LayoutMode;
use arcorrust::panels::ModalPanel;
use arcorrust::panels::ParamAction;
use arcorrust::panels::UiState;
use arcorrust::panels::VizMode;
use arcorrust::sound::LFODestination;

#[test]
fn ui_starts_on_oscillator_panel_in_octave_four() {
    let ui = UiState::new();
    assert_eq!(ui.octave(), 4);
    assert_eq!(ui.modal_panel(), ModalPanel::Oscillator);
    assert_eq!(ui.layout_mode(), LayoutMode::Sidebar);
    assert_eq!(ui.viz_mode(), VizMode::Combined);
    assert!(!ui.edit_mode());
    assert_eq!(ui.param_index(), 0);
    assert_eq!(ui.param_count(), 4);
}

#[test]
fn octave_stays_between_zero_and_eight() {
    let mut ui = UiState::new();
    for _ in 0..10 {
        ui.octave_up();
    }
    assert_eq!(ui.octave(), 8);
    for _ in 0..10 {
        ui.octave_down();
    }
    assert_eq!(ui.octave(), 0);
}

#[test]
fn params_wrap_around_the_panel() {
    let mut ui = UiState::new();
    ui.enter_edit_mode();
    ui.prev_param();
    assert_eq!(ui.param_index(), 3);
    ui.next_param();
    assert_eq!(ui.param_index(), 0);
    ui.next_param();
    ui.next_param();
    ui.prev_param();
    assert_eq!(ui.param_index(), 1);
}

#[test]
fn changing_panel_leaves_edit_mode_and_resets_selection() {
    let mut ui = UiState::new();
    ui.enter_edit_mode();
    ui.next_param();
    ui.next_modal();
    assert_eq!(ui.modal_panel(), ModalPanel::Filter);
    assert!(!ui.edit_mode());
    assert_eq!(ui.param_index(), 0);
    assert_eq!(ui.param_count(), 5);
    ui.prev_modal();
    ui.prev_modal();
    assert_eq!(ui.modal_panel(), ModalPanel::Performance);
    assert_eq!(ui.param_count(), 6);
    ui.toggle_layout();
    assert_eq!(ui.layout_mode(), LayoutMode::Wide);
    ui.next_viz_mode();
    assert_eq!(ui.viz_mode(), VizMode::Off);
    ui.exit_edit_mode();
    assert!(!ui.edit_mode());
}

#[test]
fn parameter_actions_follow_the_panels() {
    assert_eq!(param_action(ModalPanel::Oscillator, 3, true), ParamAction::AdjustOscMix(true));
    assert_eq!(param_action(ModalPanel::Filter, 2, false), ParamAction::ScaleFilterCutoff(false));
    assert_eq!(param_action(ModalPanel::Envelope, 7, true), ParamAction::AdjustFilterRelease(true));
    assert_eq!(param_action(ModalPanel::EffectsExt, 6, false), ParamAction::ToggleBitcrusher);
    assert_eq!(param_action(ModalPanel::Performance, 5, false), ParamAction::AdjustArpeggiatorOctaves(false));
    assert_eq!(param_action(ModalPanel::LFO, 4, true), ParamAction::Nothing);
    assert_eq!(param_action(ModalPanel::Modulation, 3, true), ParamAction::ToggleFm);
    assert_eq!(param_action(ModalPanel::EffectsBasic, 5, true), ParamAction::ToggleReverb);
}

#[test]
fn every_counted_parameter_acts() {
    let mut ui = UiState::new();
    for _ in 0..8 {
        let count = ui.param_count();
        for i in 0..count + 2 {
            let action = param_action(ui.modal_panel(), i, true);
            assert_eq!(action != ParamAction::Nothing, i < count);
        }
        ui.next_modal();
    }
    ui.enter_edit_mode();
    assert_eq!(ui.current_param_action(true), ParamAction::NextOsc1Waveform);
    assert_eq!(ui.current_param_action(false), ParamAction::PrevOsc1Waveform);
}

#[test]
fn moving_down_cycles_backward() {
    assert_eq!(param_action(ModalPanel::Filter, 1, false), ParamAction::PrevFilterType);
    assert_eq!(param_action(ModalPanel::Filter, 1, true), ParamAction::NextFilterType);
    assert_eq!(param_action(ModalPanel::Oscillator, 2, false), ParamAction::PrevOsc2Waveform);
    assert_eq!(param_action(ModalPanel::LFO, 1, false), ParamAction::PrevLfoWaveform);
    assert_eq!(param_action(ModalPanel::Performance, 0, false), ParamAction::PrevPortamentoMode);
    assert_eq!(param_action(ModalPanel::Performance, 2, false), ParamAction::PrevNoiseType);
    assert_eq!(param_action(ModalPanel::Performance, 4, false), ParamAction::PrevArpeggiatorPattern);
    // Toggles toggle either way.
    assert_eq!(param_action(ModalPanel::Filter, 0, false), ParamAction::ToggleFilter);
    assert_eq!(param_action(ModalPanel::Oscillator, 3, false), ParamAction::AdjustOscMix(false));
}

#[test]
fn key_presses_in_panel_navigation() {
    let mut ui = UiState::new();
    assert_eq!(key_press_command(&ui, Key::Esc, false, false), Command::Quit);
    assert_eq!(key_press_command(&ui, Key::Char('1'), false, false), Command::NextOsc1Waveform);
    assert_eq!(key_press_command(&ui, Key::Char(' '), false, false), Command::Panic);
    assert_eq!(key_press_command(&ui, Key::Char('z'), false, false), Command::PlayNote(60));
    assert_eq!(key_press_command(&ui, Key::Char('4'), false, false), Command::Nothing);
    assert_eq!(key_press_command(&ui, Key::F(6), false, false), Command::ScaleFilterCutoff(false));
    assert_eq!(key_press_command(&ui, Key::F(13), false, false), Command::Nothing);
    assert_eq!(key_press_command(&ui, Key::Up, false, false), Command::AdjustVolume(true));
    // Move to the LFO panel.
    for _ in 0..4 {
        ui.next_modal();
    }
    assert_eq!(ui.modal_panel(), ModalPanel::LFO);
    assert_eq!(key_press_command(&ui, Key::Char(' '), false, false), Command::ToggleLfo);
    assert_eq!(
        key_press_command(&ui, Key::Char('p'), false, false),
        Command::ToggleLfoDestination(LFODestination::Pitch)
    );
    assert_eq!(key_press_command(&ui, Key::Char('1'), false, false), Command::NextLfoWaveform);
    // On the LFO panel 'd' is a musical key.
    assert_eq!(key_press_command(&ui, Key::Char('d'), false, false), Command::PlayNote(63));
}

#[test]
fn key_presses_with_modifiers_and_in_edit_mode() {
    let mut ui = UiState::new();
    assert_eq!(key_press_command(&ui, Key::Char('1'), true, false), Command::NextDistortionType);
    assert_eq!(key_press_command(&ui, Key::Char('-'), true, false), Command::AdjustReverbDecay(true));
    assert_eq!(key_press_command(&ui, Key::Char('z'), true, false), Command::Nothing);
    assert_eq!(key_press_command(&ui, Key::Char('Z'), false, true), Command::Nothing);
    ui.enter_edit_mode();
    assert_eq!(key_press_command(&ui, Key::Up, false, false), Command::ModifyParam(true));
    assert_eq!(key_press_command(&ui, Key::Tab, false, false), Command::ExitEditAndNextModal);
    assert_eq!(key_press_command(&ui, Key::Char('1'), false, false), Command::Nothing);
    assert_eq!(key_press_command(&ui, Key::Char('q'), false, false), Command::PlayNote(72));
    assert_eq!(key_press_command(&ui, Key::Char(' '), false, false), Command::Panic);
    assert_eq!(key_release_command(&ui, Key::Char('q')), Command::StopNote(72));
    assert_eq!(key_release_command(&ui, Key::Char('k')), Command::Nothing);
    assert_eq!(key_release_command(&ui, Key::Esc), Command::Nothing);
}
