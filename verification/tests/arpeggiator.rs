use arcorrust::arpeggiator::ArpPattern;
use arcorrust::arpeggiator::Arpeggiator;
use arcorrust::arpeggiator::NoteDivision;
use arcorrust::arpeggiator::SimpleRng;

fn arp_with(pattern: ArpPattern, octaves: u8, notes: &[u8]) -> Arpeggiator {
    let mut arp = Arpeggiator::new();
    arp.set_pattern(pattern);
    arp.set_octaves(octaves);
    for &n in notes {
        arp.note_on(n);
    }
    arp
}

#[test]
fn up_sorts_held_notes() {
    let arp = arp_with(ArpPattern::Up, 1, &[64, 60, 67]);
    assert_eq!(arp.build_sequence(), vec![60, 64, 67]);
}

#[test]
fn down_reverses_up() {
    let up = arp_with(ArpPattern::Up, 2, &[64, 60, 67]).build_sequence();
    let mut down = arp_with(ArpPattern::Down, 2, &[64, 60, 67]).build_sequence();
    down.reverse();
    assert_eq!(down, up);
    assert_eq!(up, vec![60, 64, 67, 72, 76, 79]);
}

#[test]
fn up_down_does_not_repeat_ends() {
    let arp = arp_with(ArpPattern::UpDown, 1, &[67, 60, 64]);
    assert_eq!(arp.build_sequence(), vec![60, 64, 67, 64]);
    let single = arp_with(ArpPattern::UpDown, 1, &[60]);
    assert_eq!(single.build_sequence(), vec![60]);
    let two = arp_with(ArpPattern::UpDown, 1, &[62, 60]);
    assert_eq!(two.build_sequence(), vec![60, 62]);
}

#[test]
fn as_played_keeps_press_order() {
    let arp = arp_with(ArpPattern::AsPlayed, 2, &[67, 60, 64]);
    assert_eq!(arp.build_sequence(), vec![67, 60, 64, 79, 72, 76]);
}

#[test]
fn notes_above_midi_range_are_left_out() {
    let arp = arp_with(ArpPattern::Up, 3, &[100, 120]);
    assert_eq!(arp.build_sequence(), vec![100, 112, 120, 124]);
    let arp = arp_with(ArpPattern::AsPlayed, 3, &[120, 100]);
    assert_eq!(arp.build_sequence(), vec![120, 100, 112, 124]);
}

#[test]
fn random_plays_a_shuffle_of_the_expanded_notes() {
    let arp = arp_with(ArpPattern::Random, 2, &[60, 64, 67]);
    let mut seq = arp.build_sequence();
    seq.sort();
    assert_eq!(seq, vec![60, 64, 67, 72, 76, 79]);
}

#[test]
fn empty_arpeggiator_plays_nothing() {
    let mut arp = Arpeggiator::new();
    assert!(arp.build_sequence().is_empty());
    assert_eq!(arp.get_next_note(), None);
    assert!(!arp.has_notes());
}

#[test]
fn held_notes_are_kept_once() {
    let mut arp = arp_with(ArpPattern::Up, 1, &[60, 60, 64, 60]);
    assert_eq!(arp.build_sequence(), vec![60, 64]);
    arp.note_off(60);
    assert_eq!(arp.build_sequence(), vec![64]);
    arp.note_on(72);
    arp.note_off(72);
    assert_eq!(arp.build_sequence(), vec![64]);
    arp.clear();
    assert!(!arp.has_notes());
}

#[test]
fn next_note_walks_the_sequence_and_wraps() {
    let mut arp = arp_with(ArpPattern::Up, 1, &[67, 60, 64]);
    let played: Vec<Option<u8>> = (0..7).map(|_| arp.get_next_note()).collect();
    assert_eq!(
        played,
        vec![Some(60), Some(64), Some(67), Some(60), Some(64), Some(67), Some(60)]
    );
}

#[test]
fn tick_plays_and_releases_notes() {
    let mut arp = arp_with(ArpPattern::Up, 1, &[64, 60]);
    // Disabled: nothing happens.
    assert_eq!(arp.tick(true, true), (None, None));
    arp.toggle();
    assert!(arp.enabled());
    // No step yet.
    assert_eq!(arp.tick(false, false), (None, None));
    // First step starts the lowest note.
    assert_eq!(arp.tick(false, true), (Some(60), None));
    assert_eq!(arp.current_note(), Some(60));
    // Gate elapsed: the note stops.
    assert_eq!(arp.tick(true, false), (None, Some(60)));
    assert_eq!(arp.current_note(), None);
    // Next step.
    assert_eq!(arp.tick(false, true), (Some(64), None));
    // A step while a note sounds stops it and starts the next one.
    assert_eq!(arp.tick(false, true), (Some(60), Some(64)));
    // Releasing the sounding note stops it at the next tick.
    arp.note_off(60);
    assert_eq!(arp.current_note(), None);
    arp.note_off(64);
    assert_eq!(arp.tick(false, false), (None, Some(60)));
    // No notes held: nothing plays.
    assert_eq!(arp.tick(true, true), (None, None));
}

#[test]
fn switching_off_resets_the_position() {
    let mut arp = arp_with(ArpPattern::Up, 1, &[64, 60]);
    arp.set_enabled(true);
    assert_eq!(arp.tick(false, true), (Some(60), None));
    arp.toggle();
    assert!(!arp.enabled());
    assert_eq!(arp.current_note(), None);
    arp.toggle();
    assert_eq!(arp.tick(false, true), (Some(60), None));
}

#[test]
fn octaves_stay_between_one_and_four() {
    let mut arp = Arpeggiator::new();
    assert_eq!(arp.octaves(), 1);
    arp.adjust_octaves(-3);
    assert_eq!(arp.octaves(), 1);
    arp.adjust_octaves(2);
    assert_eq!(arp.octaves(), 3);
    arp.adjust_octaves(100);
    assert_eq!(arp.octaves(), 4);
    arp.set_octaves(0);
    assert_eq!(arp.octaves(), 1);
    arp.set_octaves(9);
    assert_eq!(arp.octaves(), 4);
}

#[test]
fn settings_cycle() {
    let mut arp = Arpeggiator::default();
    assert_eq!(arp.pattern(), ArpPattern::Up);
    arp.next_pattern();
    assert_eq!(arp.pattern(), ArpPattern::Down);
    assert_eq!(arp.division(), NoteDivision::Eighth);
    arp.next_division();
    assert_eq!(arp.division(), NoteDivision::Sixteenth);
    arp.set_division(NoteDivision::Quarter);
    assert_eq!(arp.division(), NoteDivision::Quarter);
}

#[test]
fn xorshift_matches_reference_values() {
    let mut rng = SimpleRng::from_seed(1);
    assert_eq!(rng.next(), 270369);
    assert_eq!(rng.next(), 67634689);
    let mut zero = SimpleRng::from_seed(0);
    assert_eq!(zero.next(), 270369);
    let mut r = SimpleRng::from_seed(12345);
    for _ in 0..1000 {
        assert!(r.range(7) < 7);
    }
}

#[test]
fn clock_seeded_generator_never_sticks_at_zero() {
    let mut rng = SimpleRng::new();
    for _ in 0..1000 {
        assert_ne!(rng.next(), 0);
    }
}

#[test]
fn up_runs_from_lowest_to_highest_across_octaves() {
    let mut a = Arpeggiator::new();
    a.set_octaves(2);
    a.note_on(60);
    a.note_on(75);
    assert_eq!(a.build_sequence(), vec![60, 72, 75, 87]);
    a.set_pattern(ArpPattern::Down);
    assert_eq!(a.build_sequence(), vec![87, 75, 72, 60]);
    a.set_pattern(ArpPattern::UpDown);
    assert_eq!(a.build_sequence(), vec![60, 72, 75, 87, 75, 72]);
}

#[test]
fn released_sounding_note_is_stopped() {
    let mut a = Arpeggiator::new();
    a.set_enabled(true);
    a.note_on(60);
    a.note_on(64);
    assert_eq!(a.tick(false, true), (Some(60), None));
    a.note_off(60);
    assert_eq!(a.tick(false, true), (Some(64), Some(60)));
}

#[test]
fn shuffle_follows_the_generator() {
    let mut notes = vec![1u8, 2, 3, 4];
    let mut rng = SimpleRng::from_seed(1);
    arcorrust::arpeggiator::shuffle(&mut notes, &mut rng);
    // Draws 270369 % 4 = 1, 67634689 % 3 = 1, 2647435461 % 2 = 1.
    let mut reference = vec![1u8, 2, 3, 4];
    let mut r = SimpleRng::from_seed(1);
    let mut i = reference.len();
    while i > 1 {
        i -= 1;
        let j = (r.next() as usize) % (i + 1);
        reference.swap(i, j);
    }
    assert_eq!(notes, reference);
    assert_eq!(notes, vec![1, 3, 4, 2]);
    let mut sorted = notes.clone();
    sorted.sort();
    assert_eq!(sorted, vec![1, 2, 3, 4]);
}

#[test]
fn clock_readings_seed_the_generator() {
    let mut a = SimpleRng::from_clock_reading(Some(1));
    assert_eq!(a.next(), 270369);
    let mut b = SimpleRng::from_clock_reading(Some(1u128 << 32));
    assert_eq!(b.next(), 270369);
    let mut c = SimpleRng::from_clock_reading(None);
    let mut d = SimpleRng::from_seed(12345);
    assert_eq!(c.next(), d.next());
    let mut e = SimpleRng::from_clock_reading(Some((7u128 << 40) + 5));
    let mut f = SimpleRng::from_seed(5);
    assert_eq!(e.next(), f.next());
}

#[test]
fn previous_pattern_steps_back() {
    let mut a = Arpeggiator::new();
    a.prev_pattern();
    assert_eq!(a.pattern(), ArpPattern::AsPlayed);
    a.next_pattern();
    assert_eq!(a.pattern(), ArpPattern::Up);
    assert_eq!(ArpPattern::Random.prev(), ArpPattern::UpDown);
}
