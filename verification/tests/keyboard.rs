use arcorrust::keyboard::char_to_note;
use arcorrust::keyboard::note_name;
use arcorrust::piano::held_notes_text;
use arcorrust::piano::keyboard_placement;
use arcorrust::piano::PianoKeyboard;
use std::collections::HashSet;

#[test]
fn test_middle_c() {
    // Middle C is C4 = MIDI note 60
    let note = char_to_note('z', 4).unwrap();
    assert_eq!(note, 60);
    assert_eq!(note_name(note), "C4");
}

#[test]
fn test_octave_up() {
    // Q should be one octave above Z
    let lower = char_to_note('z', 4).unwrap();
    let upper = char_to_note('q', 4).unwrap();
    assert_eq!(upper - lower, 12);
}

#[test]
fn test_black_keys() {
    // S is C# (one semitone above C)
    let c = char_to_note('z', 4).unwrap();
    let cs = char_to_note('s', 4).unwrap();
    assert_eq!(cs - c, 1);
}

#[test]
fn uppercase_keys_play_the_same_note() {
    for c in "zxcvbnmsdghjlqwertyuiop".chars() {
        assert_eq!(char_to_note(c.to_ascii_uppercase(), 3), char_to_note(c, 3));
    }
}

#[test]
fn unmapped_keys_play_nothing() {
    assert_eq!(char_to_note('a', 4), None);
    assert_eq!(char_to_note('1', 4), None);
    assert_eq!(char_to_note('4', 4), None);
    assert_eq!(char_to_note(' ', 4), None);
    assert_eq!(char_to_note('k', 4), None);
}

#[test]
fn every_upper_row_key_is_an_octave_above_its_partner() {
    let pairs = [
        ('z', 'q'), ('x', 'w'), ('c', 'e'), ('v', 'r'), ('b', 't'), ('n', 'y'), ('m', 'u'),
        (',', 'i'), ('.', 'o'), ('/', 'p'), ('s', '2'), ('d', '3'), ('g', '5'), ('h', '6'),
        ('j', '7'), ('l', '9'), (';', '0'),
    ];
    for (lower, upper) in pairs {
        assert_eq!(char_to_note(upper, 2).unwrap(), char_to_note(lower, 2).unwrap() + 12);
    }
}

#[test]
fn octave_up_adds_twelve() {
    for octave in 0..8 {
        assert_eq!(char_to_note('b', octave + 1).unwrap(), char_to_note('b', octave).unwrap() + 12);
    }
}

#[test]
fn notes_clamp_to_midi_range() {
    // The top key of octave 8 lies above 127.
    assert_eq!(char_to_note(']', 8), Some(127));
    assert_eq!(char_to_note(']', 3), Some(12 * 3 + 12 + 31));
    assert_eq!(char_to_note('z', -2), Some(0));
    assert_eq!(char_to_note('z', -1), Some(0));
    assert_eq!(char_to_note('=', 0), Some(42));
}

#[test]
fn note_names_cover_the_midi_range() {
    assert_eq!(note_name(0), "C-1");
    assert_eq!(note_name(1), "C#-1");
    assert_eq!(note_name(11), "B-1");
    assert_eq!(note_name(12), "C0");
    assert_eq!(note_name(69), "A4");
    assert_eq!(note_name(70), "A#4");
    assert_eq!(note_name(127), "G9");
    assert_eq!(note_name(128), "G#9");
    assert_eq!(note_name(132), "C10");
    assert_eq!(note_name(255), "D#20");
}

#[test]
fn lower_row_starts_on_named_c() {
    for octave in 0..=9 {
        let note = char_to_note('z', octave).unwrap();
        assert_eq!(note_name(note), format!("C{}", octave));
    }
}

#[test]
fn piano_midi_note_clamps() {
    assert_eq!(PianoKeyboard::midi_note(4, 0), 60);
    assert_eq!(PianoKeyboard::midi_note(4, 11), 71);
    assert_eq!(PianoKeyboard::midi_note(9, 8), 127);
    assert_eq!(PianoKeyboard::midi_note(-3, 5), 0);
}

#[test]
fn piano_labels_follow_the_qwerty_rows() {
    let upper: Vec<&str> = (0..12).map(|n| PianoKeyboard::get_key_label(n, true)).collect();
    let lower: Vec<&str> = (0..12).map(|n| PianoKeyboard::get_key_label(n, false)).collect();
    assert_eq!(upper.join(" "), "Q 2 W 3 E R 5 T 6 Y 7 U");
    assert_eq!(lower.join(" "), "Z S X D C V G B H N J M");
    assert_eq!(PianoKeyboard::get_key_label(12, true), "");
    assert_eq!(PianoKeyboard::note_name(1), "C#");
    assert_eq!(PianoKeyboard::note_name(11), "B");
    assert_eq!(PianoKeyboard::note_name(12), "");
}

#[test]
fn piano_keyboard_builder() {
    let held: HashSet<u8> = [60u8, 64].into_iter().collect();
    let keyboard = PianoKeyboard::new(&held, 4).octaves(3);
    let _ = keyboard;
}

#[test]
fn keyboard_layout_of_two_octaves() {
    let mut held = HashSet::new();
    held.insert(61u8);
    let keyboard = PianoKeyboard::new(&held, 4);
    let keys = keyboard.layout(0, 2, 100, 8);
    // 7 white and 5 black keys in the first octave, 7 white and 5 black in the second
    // where they fit: the second octave starts at column 43.
    let first: Vec<_> = keys.iter().filter(|k| k.octave == 4).collect();
    assert_eq!(first.len(), 12);
    assert_eq!(first[0].x, 1);
    assert_eq!(first[0].midi, 60);
    assert_eq!(first[0].height, 6);
    assert!(!first[0].black);
    assert!(!first[0].upper_row);
    let cs = first.iter().find(|k| k.note_in_octave == 1).unwrap();
    assert!(cs.black);
    assert!(cs.pressed);
    assert_eq!(cs.x, 5);
    assert_eq!(cs.height, 4);
    let second: Vec<_> = keys.iter().filter(|k| k.octave == 5).collect();
    assert!(second.iter().all(|k| k.upper_row));
    assert_eq!(second[0].x, 43);
    // columns 43.. up to 100: white keys at 43, 49, 55, 61, 67, 73, 79 all fit
    assert_eq!(second.iter().filter(|k| !k.black).count(), 7);
}

#[test]
fn keyboard_layout_clips_at_right_edge_and_skips_small_areas() {
    let held = HashSet::new();
    let keyboard = PianoKeyboard::new(&held, 3).octaves(1);
    assert!(keyboard.layout(0, 0, 9, 8).is_empty());
    assert!(keyboard.layout(0, 0, 50, 3).is_empty());
    let keys = keyboard.layout(0, 0, 20, 4);
    // white keys at 1, 7 fit (end at 7, 13 <= 20); 13 ends at 19 fits; 19 ends at 25 does not
    let whites: Vec<_> = keys.iter().filter(|k| !k.black).map(|k| k.x).collect();
    assert_eq!(whites, vec![1, 7, 13]);
    let blacks: Vec<_> = keys.iter().filter(|k| k.black).map(|k| k.x).collect();
    assert_eq!(blacks, vec![5, 11]);
    assert!(keys.iter().all(|k| k.height == if k.black { 2 } else { 4 }));
}

#[test]
fn keyboard_is_centred_in_its_area() {
    assert_eq!(keyboard_placement(100), (2, 8, 84));
    assert_eq!(keyboard_placement(30), (1, 0, 30));
    assert_eq!(keyboard_placement(42), (1, 0, 42));
    assert_eq!(keyboard_placement(500), (4, 166, 168));
}

#[test]
fn playing_text_lists_held_notes_lowest_first() {
    let mut held = HashSet::new();
    assert_eq!(held_notes_text(&held), "");
    held.insert(64u8);
    held.insert(60u8);
    held.insert(67u8);
    assert_eq!(held_notes_text(&held), "C4 E4 G4");
    held.insert(0u8);
    assert_eq!(held_notes_text(&held), "C-1 C4 E4 G4");
}
