use arcorrust::effects::advance;
use arcorrust::effects::clamp_delay;
use arcorrust::effects::clamp_setting;
use arcorrust::effects::delay_read_pos;
use arcorrust::effects::hold_step;
use arcorrust::effects::phaser_stages;
use arcorrust::effects::pink_row;
use arcorrust::effects::step_setting;
use arcorrust::held::HeldNotes;
use arcorrust::sound::LFODestination;
use arcorrust::sound::LfoDestinations;
use arcorrust::voices::advance_stage;
use arcorrust::voices::find_voice;
use arcorrust::voices::is_released_by;
use arcorrust::voices::EnvelopeState;
use arcorrust::voices::VoiceSlot;

fn slot(note: u8, active: bool, envelope: EnvelopeState, level_key: u32) -> VoiceSlot {
    VoiceSlot { note, active, envelope, level_key }
}

#[test]
fn new_note_takes_first_free_voice() {
    let voices = [
        slot(60, true, EnvelopeState::Sustain, 900),
        slot(0, false, EnvelopeState::Release, 10),
        slot(0, false, EnvelopeState::Idle, 0),
        slot(0, false, EnvelopeState::Idle, 0),
    ];
    assert_eq!(find_voice(&voices), 2);
}

#[test]
fn without_free_voice_the_quietest_is_stolen() {
    let voices = [
        slot(60, true, EnvelopeState::Sustain, 900),
        slot(62, false, EnvelopeState::Release, 40),
        slot(64, true, EnvelopeState::Attack, 40),
        slot(65, true, EnvelopeState::Decay, 700),
    ];
    assert_eq!(find_voice(&voices), 1);
}

#[test]
fn empty_pool_gives_first_voice() {
    assert_eq!(find_voice(&[]), 0);
}

#[test]
fn note_off_releases_only_held_voices_of_that_note() {
    assert!(is_released_by(&slot(60, true, EnvelopeState::Sustain, 1), 60));
    assert!(!is_released_by(&slot(60, true, EnvelopeState::Sustain, 1), 61));
    assert!(!is_released_by(&slot(60, false, EnvelopeState::Release, 1), 60));
    assert!(!is_released_by(&slot(60, true, EnvelopeState::Release, 1), 60));
}

#[test]
fn delay_line_positions() {
    assert_eq!(advance(3, 10), 4);
    assert_eq!(advance(9, 10), 0);
    assert_eq!(delay_read_pos(7, 3, 10), 4);
    assert_eq!(delay_read_pos(2, 5, 10), 7);
    assert_eq!(delay_read_pos(0, 10, 10), 0);
    assert_eq!(clamp_delay(500, 1000), 500);
    assert_eq!(clamp_delay(5000, 1000), 999);
}

#[test]
fn read_position_stays_behind_as_both_advance() {
    let len = 11;
    let delay = 4;
    let mut write = 0;
    for _ in 0..50 {
        let read = delay_read_pos(write, delay, len);
        assert_eq!((read + delay) % len, write);
        write = advance(write, len);
    }
}

#[test]
fn sample_and_hold_counter() {
    assert_eq!(hold_step(0, 1), (0, true));
    assert_eq!(hold_step(0, 4), (1, false));
    assert_eq!(hold_step(3, 4), (0, true));
    let mut counter = 0;
    let mut taken = 0;
    for _ in 0..12 {
        let (next, take) = hold_step(counter, 3);
        counter = next;
        if take {
            taken += 1;
        }
    }
    assert_eq!(taken, 4);
}

#[test]
fn stepped_settings_stay_in_range() {
    assert_eq!(step_setting(8, 1, 1, 16), 9);
    assert_eq!(step_setting(16, 1, 1, 16), 16);
    assert_eq!(step_setting(1, -1, 1, 16), 1);
    assert_eq!(step_setting(2, -128, 1, 64), 1);
    assert_eq!(step_setting(250, 127, 1, 64), 64);
    assert_eq!(clamp_setting(0, 1, 4), 1);
    assert_eq!(clamp_setting(9, 1, 4), 4);
    assert_eq!(clamp_setting(3, 1, 4), 3);
}

#[test]
fn phaser_stage_counts() {
    assert_eq!(phaser_stages(0), 4);
    assert_eq!(phaser_stages(5), 4);
    assert_eq!(phaser_stages(6), 6);
    assert_eq!(phaser_stages(7), 6);
    assert_eq!(phaser_stages(8), 8);
    assert_eq!(phaser_stages(10), 8);
    assert_eq!(phaser_stages(11), 12);
    assert_eq!(phaser_stages(255), 12);
}

#[test]
fn pink_rows_follow_trailing_zeros() {
    assert_eq!(pink_row(0), None);
    assert_eq!(pink_row(1), Some(0));
    assert_eq!(pink_row(2), Some(1));
    assert_eq!(pink_row(8), Some(3));
    assert_eq!(pink_row(12), Some(2));
    assert_eq!(pink_row(32768), Some(15));
    assert_eq!(pink_row(65536), None);
    for counter in 1usize..5000 {
        let expected = counter.trailing_zeros() as usize;
        let want = if expected < 16 { Some(expected) } else { None };
        assert_eq!(pink_row(counter), want);
    }
}

#[test]
fn lfo_destinations_toggle() {
    let mut d = LfoDestinations::new();
    for dest in LFODestination::all() {
        assert!(!d.contains(*dest));
    }
    d.toggle(LFODestination::Pitch);
    d.toggle(LFODestination::Pan);
    assert!(d.contains(LFODestination::Pitch));
    assert!(d.contains(LFODestination::Pan));
    assert!(!d.contains(LFODestination::Volume));
    d.toggle(LFODestination::Pitch);
    assert!(!d.contains(LFODestination::Pitch));
    assert!(d.contains(LFODestination::Pan));
}

#[test]
fn held_notes_release_after_hold_time() {
    let mut held = HeldNotes::new();
    held.press(60, 1000);
    held.press(64, 1150);
    assert!(held.contains(60));
    assert_eq!(held.pressed_at(64), Some(1150));
    assert_eq!(held.notes().len(), 2);
    assert!(held.expired(1200).is_empty());
    assert_eq!(held.expired(1201), vec![60]);
    assert_eq!(held.release_expired(1400), vec![60, 64]);
    assert!(!held.contains(60));
    assert!(held.notes().is_empty());
}

#[test]
fn pressing_again_restarts_the_hold_time() {
    let mut held = HeldNotes::new();
    held.press(72, 0);
    held.press(72, 500);
    assert!(held.release_expired(600).is_empty());
    assert!(held.contains(72));
    held.release(72);
    assert!(!held.contains(72));
    held.press(1, 0);
    held.press(2, 0);
    held.clear();
    assert!(held.notes().is_empty());
    assert_eq!(held.pressed_at(1), None);
}

#[test]
fn envelope_stages_move_forward() {
    assert_eq!(advance_stage(EnvelopeState::Attack, false), EnvelopeState::Attack);
    assert_eq!(advance_stage(EnvelopeState::Attack, true), EnvelopeState::Decay);
    assert_eq!(advance_stage(EnvelopeState::Decay, true), EnvelopeState::Sustain);
    assert_eq!(advance_stage(EnvelopeState::Sustain, true), EnvelopeState::Sustain);
    assert_eq!(advance_stage(EnvelopeState::Release, false), EnvelopeState::Release);
    assert_eq!(advance_stage(EnvelopeState::Release, true), EnvelopeState::Idle);
    assert_eq!(advance_stage(EnvelopeState::Idle, true), EnvelopeState::Idle);
}
