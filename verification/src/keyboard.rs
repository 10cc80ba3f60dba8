//! QWERTY keyboard to MIDI note mapping.
//!
//! The lower row (Z to /) plays C upwards in the current octave, the upper
//! row (Q to ]) starts one octave higher; black keys sit on the number row and
//! on S D G H J L ;.
use vstd::prelude::*;

verus! {

/// ASCII lowercase of a character; every other character is unchanged.
pub open spec fn ascii_lower(c: char) -> char {
    if 'A' <= c && c <= 'Z' {
        ((c as u32) + 32) as char
    } else {
        c
    }
}

/// Semitone offset (from the C of the current octave) that a lowercase key plays.
pub open spec fn lower_key_offset(c: char) -> Option<int> {
    match c {
        'z' => Some(0),
        'x' => Some(2),
        'c' => Some(4),
        'v' => Some(5),
        'b' => Some(7),
        'n' => Some(9),
        'm' => Some(11),
        ',' => Some(12),
        '.' => Some(14),
        '/' => Some(16),
        's' => Some(1),
        'd' => Some(3),
        'g' => Some(6),
        'h' => Some(8),
        'j' => Some(10),
        'l' => Some(13),
        ';' => Some(15),
        'q' => Some(12),
        'w' => Some(14),
        'e' => Some(16),
        'r' => Some(17),
        't' => Some(19),
        'y' => Some(21),
        'u' => Some(23),
        'i' => Some(24),
        'o' => Some(26),
        'p' => Some(28),
        '[' => Some(29),
        ']' => Some(31),
        '2' => Some(13),
        '3' => Some(15),
        '5' => Some(18),
        '6' => Some(20),
        '7' => Some(22),
        '9' => Some(25),
        '0' => Some(27),
        '=' => Some(30),
        _ => None,
    }
}

/// Semitone offset that a key plays, ignoring ASCII case.
pub open spec fn key_offset(c: char) -> Option<int> {
    lower_key_offset(ascii_lower(c))
}

/// MIDI number of the C that starts the lower row in `octave` (C0 is 12).
pub open spec fn octave_base(octave: int) -> int {
    12 * octave + 12
}

/// Restricts a note number to the MIDI range 0..=127.
pub open spec fn clamp_midi(n: int) -> int {
    if n < 0 {
        0
    } else if n > 127 {
        127
    } else {
        n
    }
}

/// The note that `char_to_note(c, octave)` plays.
pub open spec fn spec_char_to_note(c: char, octave: int) -> Option<u8> {
    match key_offset(c) {
        Some(o) => Some(clamp_midi(octave_base(octave) + o) as u8),
        None => None,
    }
}

/// Map a character to a MIDI note number; `None` for a character that plays nothing.
pub fn char_to_note(c: char, octave: i32) -> (r: Option<u8>)
    requires
        i32::MIN <= 12 * octave,
        octave_base(octave as int) <= i32::MAX,
        key_offset(c) is Some ==> octave_base(octave as int) + key_offset(c)->0 <= i32::MAX,
    ensures
        r == spec_char_to_note(c, octave as int),
{
    let base_note: i32 = octave * 12 + 12;
    let offset: Option<i32> = match c {
        'z' | 'Z' => Some(0),
        'x' | 'X' => Some(2),
        'c' | 'C' => Some(4),
        'v' | 'V' => Some(5),
        'b' | 'B' => Some(7),
        'n' | 'N' => Some(9),
        'm' | 'M' => Some(11),
        ',' => Some(12),
        '.' => Some(14),
        '/' => Some(16),
        's' | 'S' => Some(1),
        'd' | 'D' => Some(3),
        'g' | 'G' => Some(6),
        'h' | 'H' => Some(8),
        'j' | 'J' => Some(10),
        'l' | 'L' => Some(13),
        ';' => Some(15),
        'q' | 'Q' => Some(12),
        'w' | 'W' => Some(14),
        'e' | 'E' => Some(16),
        'r' | 'R' => Some(17),
        't' | 'T' => Some(19),
        'y' | 'Y' => Some(21),
        'u' | 'U' => Some(23),
        'i' | 'I' => Some(24),
        'o' | 'O' => Some(26),
        'p' | 'P' => Some(28),
        '[' => Some(29),
        ']' => Some(31),
        '2' => Some(13),
        '3' => Some(15),
        '5' => Some(18),
        '6' => Some(20),
        '7' => Some(22),
        '9' => Some(25),
        '0' => Some(27),
        '=' => Some(30),
        _ => None,
    };
    match offset {
        Some(o) => {
            let note: i32 = base_note + o;
            let clamped: i32 = if note < 0 {
                0
            } else if note > 127 {
                127
            } else {
                note
            };
            Some(clamped as u8)
        },
        None => None,
    }
}


/// Name of a pitch class 0..=11, sharps written with `#`.
pub open spec fn pitch_class_name(pc: int) -> Seq<char> {
    if pc == 0 {
        seq!['C']
    } else if pc == 1 {
        seq!['C', '#']
    } else if pc == 2 {
        seq!['D']
    } else if pc == 3 {
        seq!['D', '#']
    } else if pc == 4 {
        seq!['E']
    } else if pc == 5 {
        seq!['F']
    } else if pc == 6 {
        seq!['F', '#']
    } else if pc == 7 {
        seq!['G']
    } else if pc == 8 {
        seq!['G', '#']
    } else if pc == 9 {
        seq!['A']
    } else if pc == 10 {
        seq!['A', '#']
    } else if pc == 11 {
        seq!['B']
    } else {
        Seq::empty()
    }
}

/// The character of a decimal digit 0..=9.
pub open spec fn digit_char(d: int) -> char {
    (48 + d) as char
}

/// Decimal notation of a natural number, without leading zeros.
pub open spec fn nat_decimal(n: nat) -> Seq<char>
    decreases n,
{
    if n < 10 {
        seq![digit_char(n as int)]
    } else {
        nat_decimal(n / 10) + seq![digit_char((n % 10) as int)]
    }
}

/// Decimal notation of an integer, with a leading `-` when negative.
pub open spec fn int_decimal(n: int) -> Seq<char> {
    if n < 0 {
        seq!['-'] + nat_decimal((-n) as nat)
    } else {
        nat_decimal(n as nat)
    }
}

/// Scientific name of a MIDI note: pitch class then octave, C4 being note 60.
pub open spec fn spec_note_name(note: int) -> Seq<char> {
    pitch_class_name(note % 12) + int_decimal(note / 12 - 1)
}

/// Name of a pitch class as a static string.
fn pitch_class_str(pc: u8) -> (r: &'static str)
    requires
        pc < 12,
    ensures
        r@ == pitch_class_name(pc as int),
{
    proof {
        reveal_strlit("C");
        reveal_strlit("C#");
        reveal_strlit("D");
        reveal_strlit("D#");
        reveal_strlit("E");
        reveal_strlit("F");
        reveal_strlit("F#");
        reveal_strlit("G");
        reveal_strlit("G#");
        reveal_strlit("A");
        reveal_strlit("A#");
        reveal_strlit("B");
    }
    match pc {
        0 => "C",
        1 => "C#",
        2 => "D",
        3 => "D#",
        4 => "E",
        5 => "F",
        6 => "F#",
        7 => "G",
        8 => "G#",
        9 => "A",
        10 => "A#",
        _ => "B",
    }
}

/// The decimal digit `d` as a static string.
pub(crate) fn digit_str(d: u8) -> (r: &'static str)
    requires
        d < 10,
    ensures
        r@ == seq![digit_char(d as int)],
{
    proof {
        reveal_strlit("0");
        reveal_strlit("1");
        reveal_strlit("2");
        reveal_strlit("3");
        reveal_strlit("4");
        reveal_strlit("5");
        reveal_strlit("6");
        reveal_strlit("7");
        reveal_strlit("8");
        reveal_strlit("9");
    }
    match d {
        0 => "0",
        1 => "1",
        2 => "2",
        3 => "3",
        4 => "4",
        5 => "5",
        6 => "6",
        7 => "7",
        8 => "8",
        _ => "9",
    }
}

/// Appends the decimal notation of an octave number -1..=99.
fn append_octave(s: &mut String, octave: i32)
    requires
        -1 <= octave <= 99,
    ensures
        final(s)@ == old(s)@ + int_decimal(octave as int),
{
    proof {
        reveal_strlit("-1");
        reveal_with_fuel(nat_decimal, 2);
    }
    if octave < 0 {
        s.append("-1");
    } else if octave < 10 {
        s.append(digit_str(octave as u8));
    } else {
        let tens: u8 = (octave / 10) as u8;
        let units: u8 = (octave % 10) as u8;
        s.append(digit_str(tens));
        s.append(digit_str(units));
        assert(nat_decimal(octave as nat) =~= seq![digit_char(tens as int), digit_char(units as int)]);
    }
}

/// Get the note name for a MIDI note number, such as `C4` for 60 or `C-1` for 0.
pub fn note_name(note: u8) -> (r: String)
    ensures
        r@ == spec_note_name(note as int),
{
    let octave: i32 = (note / 12) as i32 - 1;
    let mut name = String::from_str(pitch_class_str(note % 12));
    append_octave(&mut name, octave);
    name
}

/// The upper-row key that sits an octave above a lower-row key.
pub open spec fn upper_partner(c: char) -> Option<char> {
    match c {
        'z' => Some('q'),
        'x' => Some('w'),
        'c' => Some('e'),
        'v' => Some('r'),
        'b' => Some('t'),
        'n' => Some('y'),
        'm' => Some('u'),
        ',' => Some('i'),
        '.' => Some('o'),
        '/' => Some('p'),
        's' => Some('2'),
        'd' => Some('3'),
        'g' => Some('5'),
        'h' => Some('6'),
        'j' => Some('7'),
        'l' => Some('9'),
        ';' => Some('0'),
        _ => None,
    }
}

/// Law: letters play the same note whichever case they are typed in.
pub proof fn law_case_insensitive(c: char, octave: int)
    requires
        'a' <= c <= 'z',
    ensures
        spec_char_to_note(((c as u32) - 32) as char, octave) == spec_char_to_note(c, octave),
{
    let up = ((c as u32) - 32) as char;
    assert('A' <= up <= 'Z');
    assert(ascii_lower(up) == c);
}

/// Law: each key of the lower row has a partner in the upper row that plays
/// the same pitch one octave higher.
pub proof fn law_upper_row_is_octave_above(c: char)
    requires
        upper_partner(c) is Some,
    ensures
        key_offset(c) is Some,
        key_offset(upper_partner(c)->0) == Some(key_offset(c)->0 + 12),
{
}

/// Law: away from the ends of the MIDI range, moving up one octave raises
/// every key's note by twelve semitones.
pub proof fn law_octave_up_adds_twelve(c: char, octave: int)
    requires
        key_offset(c) is Some,
        0 <= octave_base(octave) + key_offset(c)->0,
        octave_base(octave + 1) + key_offset(c)->0 <= 127,
    ensures
        spec_char_to_note(c, octave + 1)->0 == spec_char_to_note(c, octave)->0 + 12,
{
}

/// Law: the first key of the lower row plays the C named after the octave,
/// for every octave whose C exists in MIDI.
pub proof fn law_lower_row_starts_on_named_c(octave: int)
    requires
        0 <= octave <= 9,
    ensures
        spec_char_to_note('z', octave) == Some(octave_base(octave) as u8),
        spec_note_name(octave_base(octave)) == seq!['C'] + int_decimal(octave),
{
    assert((12 * octave + 12) % 12 == 0 && (12 * octave + 12) / 12 == octave + 1) by (nonlinear_arith)
        requires
            0 <= octave <= 9,
    ;
}

/// Law: the label drawn on each key of an octave is the computer key that
/// plays it. Pressing the lower-row label of pitch class `n` plays `n`
/// semitones above the octave's C, and the note it plays is named with the
/// key's own note name and the octave; the upper-row label of `n` plays the
/// same pitch class one octave higher.
pub proof fn law_key_labels_play_their_keys(n: int, octave: int)
    requires
        0 <= n < 12,
        0 <= octave <= 8,
    ensures
        crate::piano::lower_row_label(n).len() == 1,
        crate::piano::upper_row_label(n).len() == 1,
        key_offset(crate::piano::lower_row_label(n)[0]) == Some(n),
        key_offset(crate::piano::upper_row_label(n)[0]) == Some(n + 12),
        spec_char_to_note(crate::piano::lower_row_label(n)[0], octave)
            == Some((octave_base(octave) + n) as u8),
        spec_note_name(octave_base(octave) + n)
            == crate::piano::key_note_name(n) + int_decimal(octave),
{
    assert((12 * octave + 12 + n) % 12 == n && (12 * octave + 12 + n) / 12 == octave + 1) by (nonlinear_arith)
        requires
            0 <= octave <= 8,
            0 <= n < 12,
    ;
}


/// Whether the pitch `o` semitones above a C is a white key: its pitch
/// class is named by a letter alone, without a sharp.
pub open spec fn is_natural(o: int) -> bool {
    pitch_class_name(o % 12).len() == 1
}

/// The white-key letters of the lower row, left to right.
pub open spec fn lower_white_row() -> Seq<char> {
    seq!['z', 'x', 'c', 'v', 'b', 'n', 'm', ',', '.', '/']
}

/// The white-key letters of the upper row, left to right.
pub open spec fn upper_white_row() -> Seq<char> {
    seq!['q', 'w', 'e', 'r', 't', 'y', 'u', 'i', 'o', 'p', '[', ']']
}

/// Whether the keys of `row`, left to right, play successive white keys
/// starting `first` semitones above the C of the octave: each plays a
/// natural note, and each next key plays the next natural note up.
pub open spec fn plays_white_keys_in_order(row: Seq<char>, first: int) -> bool {
    &&& key_offset(row[0]) == Some(first)
    &&& forall|i: int| 0 <= i < row.len() ==> #[trigger] key_offset(row[i]) is Some
        && is_natural(key_offset(row[i])->0)
    &&& forall|i: int| 0 <= i < row.len() - 1 ==> {
        let a = key_offset(#[trigger] row[i])->0;
        let b = key_offset(row[i + 1])->0;
        &&& a < b <= a + 2
        &&& b == a + 2 ==> !is_natural(a + 1)
    }
}

/// Law: the letter keys of the lower row, Z to /, play the white keys
/// upwards from the C of the octave (C D E F G A B C D E), and those of the
/// upper row, Q to ], the white keys upwards from the C an octave higher.
pub proof fn law_rows_play_white_keys_in_order()
    ensures
        plays_white_keys_in_order(lower_white_row(), 0),
        plays_white_keys_in_order(upper_white_row(), 12),
{
    let lo = lower_white_row();
    let up = upper_white_row();
    assert(forall|i: int| 0 <= i < lo.len() ==> #[trigger] key_offset(lo[i]) is Some
        && is_natural(key_offset(lo[i])->0)) by {
        assert(lo[0] == 'z' && lo[1] == 'x' && lo[2] == 'c' && lo[3] == 'v' && lo[4] == 'b');
        assert(lo[5] == 'n' && lo[6] == 'm' && lo[7] == ',' && lo[8] == '.' && lo[9] == '/');
    }
    assert(forall|i: int| 0 <= i < up.len() ==> #[trigger] key_offset(up[i]) is Some
        && is_natural(key_offset(up[i])->0)) by {
        assert(up[0] == 'q' && up[1] == 'w' && up[2] == 'e' && up[3] == 'r' && up[4] == 't' && up[5] == 'y');
        assert(up[6] == 'u' && up[7] == 'i' && up[8] == 'o' && up[9] == 'p' && up[10] == '[' && up[11] == ']');
    }
}

/// The black-key letters of the lower row, left to right.
pub open spec fn lower_black_row() -> Seq<char> {
    seq!['s', 'd', 'g', 'h', 'j', 'l', ';']
}

/// The white key of the lower row to the lower left of each black key.
pub open spec fn lower_black_neighbours() -> Seq<char> {
    seq!['z', 'x', 'v', 'b', 'n', ',', '.']
}

/// The black keys of the number row, left to right.
pub open spec fn upper_black_row() -> Seq<char> {
    seq!['2', '3', '5', '6', '7', '9', '0', '=']
}

/// The white key of the upper row to the lower left of each number key.
pub open spec fn upper_black_neighbours() -> Seq<char> {
    seq!['q', 'w', 'r', 't', 'y', 'i', 'o', '[']
}

/// Whether each key of `blacks` plays the note one semitone above the key
/// at the same place in `whites`, a note without a letter of its own.
pub open spec fn sits_above(blacks: Seq<char>, whites: Seq<char>) -> bool {
    &&& blacks.len() == whites.len()
    &&& forall|k: int| 0 <= k < blacks.len() ==> {
        &&& key_offset(#[trigger] blacks[k]) is Some
        &&& key_offset(whites[k]) is Some
        &&& key_offset(blacks[k])->0 == key_offset(whites[k])->0 + 1
        &&& !is_natural(key_offset(blacks[k])->0)
    }
}

/// Law: each black key sits between the two white keys whose notes it
/// falls between: S, D, G, H, J, L and ; of the lower row, and 2, 3, 5, 6,
/// 7, 9, 0 and = of the number row, each play one semitone above the white
/// key to their lower left, a note without a letter of its own.
pub proof fn law_black_keys_sit_between_white_keys()
    ensures
        sits_above(lower_black_row(), lower_black_neighbours()),
        sits_above(upper_black_row(), upper_black_neighbours()),
{
    let lb = lower_black_row();
    let lw = lower_black_neighbours();
    let ub = upper_black_row();
    let uw = upper_black_neighbours();
    assert(lb[0] == 's' && lb[1] == 'd' && lb[2] == 'g' && lb[3] == 'h' && lb[4] == 'j' && lb[5] == 'l' && lb[6] == ';');
    assert(lw[0] == 'z' && lw[1] == 'x' && lw[2] == 'v' && lw[3] == 'b' && lw[4] == 'n' && lw[5] == ',' && lw[6] == '.');
    assert(ub[0] == '2' && ub[1] == '3' && ub[2] == '5' && ub[3] == '6' && ub[4] == '7' && ub[5] == '9' && ub[6] == '0' && ub[7] == '=');
    assert(uw[0] == 'q' && uw[1] == 'w' && uw[2] == 'r' && uw[3] == 't' && uw[4] == 'y' && uw[5] == 'i' && uw[6] == 'o' && uw[7] == '[');
}

} // verus!
