//! Piano keyboard widget: the keys it shows, where they go, their notes and
//! their labels.
use std::collections::HashSet;
use vstd::prelude::*;

verus! {

broadcast use vstd::std_specs::hash::group_hash_axioms;

/// Label of the upper-row (Q row) key that plays pitch class `n`; empty past 11.
pub open spec fn upper_row_label(n: int) -> Seq<char> {
    if n == 0 {
        seq!['Q']
    } else if n == 1 {
        seq!['2']
    } else if n == 2 {
        seq!['W']
    } else if n == 3 {
        seq!['3']
    } else if n == 4 {
        seq!['E']
    } else if n == 5 {
        seq!['R']
    } else if n == 6 {
        seq!['5']
    } else if n == 7 {
        seq!['T']
    } else if n == 8 {
        seq!['6']
    } else if n == 9 {
        seq!['Y']
    } else if n == 10 {
        seq!['7']
    } else if n == 11 {
        seq!['U']
    } else {
        Seq::empty()
    }
}

/// Label of the lower-row (Z row) key that plays pitch class `n`; empty past 11.
pub open spec fn lower_row_label(n: int) -> Seq<char> {
    if n == 0 {
        seq!['Z']
    } else if n == 1 {
        seq!['S']
    } else if n == 2 {
        seq!['X']
    } else if n == 3 {
        seq!['D']
    } else if n == 4 {
        seq!['C']
    } else if n == 5 {
        seq!['V']
    } else if n == 6 {
        seq!['G']
    } else if n == 7 {
        seq!['B']
    } else if n == 8 {
        seq!['H']
    } else if n == 9 {
        seq!['N']
    } else if n == 10 {
        seq!['J']
    } else if n == 11 {
        seq!['M']
    } else {
        Seq::empty()
    }
}

/// Name of pitch class `n` on a key; empty past 11.
pub open spec fn key_note_name(n: int) -> Seq<char> {
    if n == 0 {
        seq!['C']
    } else if n == 1 {
        seq!['C', '#']
    } else if n == 2 {
        seq!['D']
    } else if n == 3 {
        seq!['D', '#']
    } else if n == 4 {
        seq!['E']
    } else if n == 5 {
        seq!['F']
    } else if n == 6 {
        seq!['F', '#']
    } else if n == 7 {
        seq!['G']
    } else if n == 8 {
        seq!['G', '#']
    } else if n == 9 {
        seq!['A']
    } else if n == 10 {
        seq!['A', '#']
    } else if n == 11 {
        seq!['B']
    } else {
        Seq::empty()
    }
}

/// A visual piano keyboard widget.
pub struct PianoKeyboard<'a> {
    /// Currently held notes (MIDI numbers)
    held_notes: &'a HashSet<u8>,
    /// Current octave for display
    octave: i32,
    /// Number of octaves to display
    num_octaves: u16,
}

impl<'a> PianoKeyboard<'a> {
    /// The held notes that the keyboard shows as pressed.
    pub closed spec fn held(&self) -> Set<u8> {
        self.held_notes@
    }

    /// The octave of the leftmost key.
    pub closed spec fn first_octave(&self) -> int {
        self.octave as int
    }

    /// How many octaves are drawn.
    pub closed spec fn octave_count(&self) -> nat {
        self.num_octaves as nat
    }

    /// A keyboard of two octaves starting at `octave`, showing `held_notes` as pressed.
    pub fn new(held_notes: &'a HashSet<u8>, octave: i32) -> (r: Self)
        ensures
            r.held() == held_notes@,
            r.first_octave() == octave,
            r.octave_count() == 2,
    {
        Self { held_notes, octave, num_octaves: 2 }
    }

    /// The same keyboard drawing `n` octaves.
    pub fn octaves(self, n: u16) -> (r: Self)
        ensures
            r.held() == self.held(),
            r.first_octave() == self.first_octave(),
            r.octave_count() == n,
    {
        let mut keyboard = self;
        keyboard.num_octaves = n;
        keyboard
    }

    /// Get MIDI note for a given octave and note index (0-11).
    pub fn midi_note(octave: i32, note_in_octave: u8) -> (r: u8)
        requires
            i32::MIN <= 12 * (octave + 1),
            12 * (octave + 1) + note_in_octave <= i32::MAX,
        ensures
            r == crate::keyboard::clamp_midi(12 * (octave + 1) + note_in_octave),
    {
        let note: i32 = (octave + 1) * 12 + note_in_octave as i32;
        if note < 0 {
            0
        } else if note > 127 {
            127
        } else {
            note as u8
        }
    }

    /// Get the QWERTY key label for a note of the upper (Q) or lower (Z) row.
    pub fn get_key_label(note_in_octave: u8, is_upper_row: bool) -> (r: &'static str)
        ensures
            r@ == if is_upper_row {
                upper_row_label(note_in_octave as int)
            } else {
                lower_row_label(note_in_octave as int)
            },
    {
        proof {
            reveal_strlit("");
            reveal_strlit("2");
            reveal_strlit("3");
            reveal_strlit("5");
            reveal_strlit("6");
            reveal_strlit("7");
            reveal_strlit("A");
            reveal_strlit("A#");
            reveal_strlit("B");
            reveal_strlit("C");
            reveal_strlit("C#");
            reveal_strlit("D");
            reveal_strlit("D#");
            reveal_strlit("E");
            reveal_strlit("F");
            reveal_strlit("F#");
            reveal_strlit("G");
            reveal_strlit("G#");
            reveal_strlit("H");
            reveal_strlit("J");
            reveal_strlit("M");
            reveal_strlit("N");
            reveal_strlit("Q");
            reveal_strlit("R");
            reveal_strlit("S");
            reveal_strlit("T");
            reveal_strlit("U");
            reveal_strlit("V");
            reveal_strlit("W");
            reveal_strlit("X");
            reveal_strlit("Y");
            reveal_strlit("Z");
        }
        if is_upper_row {
            match note_in_octave {
                0 => "Q",
                1 => "2",
                2 => "W",
                3 => "3",
                4 => "E",
                5 => "R",
                6 => "5",
                7 => "T",
                8 => "6",
                9 => "Y",
                10 => "7",
                11 => "U",
                _ => "",
            }
        } else {
            match note_in_octave {
                0 => "Z",
                1 => "S",
                2 => "X",
                3 => "D",
                4 => "C",
                5 => "V",
                6 => "G",
                7 => "B",
                8 => "H",
                9 => "N",
                10 => "J",
                11 => "M",
                _ => "",
            }
        }
    }

    /// Get note name.
    pub fn note_name(note_in_octave: u8) -> (r: &'static str)
        ensures
            r@ == key_note_name(note_in_octave as int),
    {
        proof {
            reveal_strlit("");
            reveal_strlit("A");
            reveal_strlit("A#");
            reveal_strlit("B");
            reveal_strlit("C");
            reveal_strlit("C#");
            reveal_strlit("D");
            reveal_strlit("D#");
            reveal_strlit("E");
            reveal_strlit("F");
            reveal_strlit("F#");
            reveal_strlit("G");
            reveal_strlit("G#");
        }
        match note_in_octave {
            0 => "C",
            1 => "C#",
            2 => "D",
            3 => "D#",
            4 => "E",
            5 => "F",
            6 => "F#",
            7 => "G",
            8 => "G#",
            9 => "A",
            10 => "A#",
            11 => "B",
            _ => "",
        }
    }
}

/// Width of a white key in characters.
pub const WHITE_KEY_WIDTH: u16 = 6;

/// Height of a white key.
pub const WHITE_KEY_HEIGHT: u16 = 6;

/// Width of a black key in characters.
pub const BLACK_KEY_WIDTH: u16 = 4;

/// One key to draw: its top-left corner, its height, its colour, the note it
/// plays and whether that note is held.
#[derive(Debug, Clone, Copy, PartialEq, Eq)]
pub struct KeyDraw {
    pub x: u16,
    pub y: u16,
    pub height: u16,
    pub black: bool,
    pub note_in_octave: u8,
    pub octave: i32,
    pub midi: u8,
    pub pressed: bool,
    pub upper_row: bool,
}

/// Pitch class of white key `i` of an octave (C, D, E, F, G, A, B).
pub open spec fn white_note(i: int) -> u8 {
    if i == 0 {
        0
    } else if i == 1 {
        2
    } else if i == 2 {
        4
    } else if i == 3 {
        5
    } else if i == 4 {
        7
    } else if i == 5 {
        9
    } else {
        11
    }
}

/// Pitch class of black key `j` of an octave (C#, D#, F#, G#, A#).
pub open spec fn black_note(j: int) -> u8 {
    if j == 0 {
        1
    } else if j == 1 {
        3
    } else if j == 2 {
        6
    } else if j == 3 {
        8
    } else {
        10
    }
}

/// The white key that black key `j` sits after.
pub open spec fn black_slot(j: int) -> int {
    if j == 0 {
        0
    } else if j == 1 {
        1
    } else if j == 2 {
        3
    } else if j == 3 {
        4
    } else {
        5
    }
}

/// Height of the white keys in an area `h` rows high.
pub open spec fn white_height(h: int) -> int {
    if h < WHITE_KEY_HEIGHT {
        h
    } else {
        WHITE_KEY_HEIGHT as int
    }
}

/// Height of the black keys in an area `h` rows high.
pub open spec fn black_height(h: int) -> int {
    let k = white_height(h) * 2 / 3;
    if k < 2 {
        2
    } else {
        k
    }
}

/// Right edge of an area, saturating at the largest column.
pub open spec fn right_edge(x: int, w: int) -> int {
    if x + w > u16::MAX {
        u16::MAX as int
    } else {
        x + w
    }
}

/// Left edge of octave `o` in an area starting at column `x`.
pub open spec fn octave_left(x: int, o: int) -> int {
    x + 1 + 7 * WHITE_KEY_WIDTH * o
}

impl<'a> PianoKeyboard<'a> {
    /// The key of pitch class `note` in drawn octave `o`, at column `x`.
    pub open spec fn key_at(&self, o: int, note: u8, x: int, y: int, height: int, black: bool) -> KeyDraw {
        let octave = self.first_octave() + o;
        let midi = crate::keyboard::clamp_midi(12 * (octave + 1) + note) as u8;
        KeyDraw {
            x: x as u16,
            y: y as u16,
            height: height as u16,
            black: black,
            note_in_octave: note,
            octave: octave as i32,
            midi: midi,
            pressed: self.held().contains(midi),
            upper_row: o == 1,
        }
    }

    /// The first `k` white keys of drawn octave `o` that fit left of `right`.
    pub open spec fn white_keys(&self, o: int, left: int, right: int, y: int, h: int, k: nat) -> Seq<KeyDraw>
        decreases k,
    {
        if k == 0 {
            Seq::empty()
        } else {
            let i = k - 1;
            let rest = self.white_keys(o, left, right, y, h, (k - 1) as nat);
            let kx = left + WHITE_KEY_WIDTH * i;
            if kx + WHITE_KEY_WIDTH <= right {
                rest.push(self.key_at(o, white_note(i), kx, y, white_height(h), false))
            } else {
                rest
            }
        }
    }

    /// The first `k` black keys of drawn octave `o` that fit left of `right`.
    pub open spec fn black_keys(&self, o: int, left: int, right: int, y: int, h: int, k: nat) -> Seq<KeyDraw>
        decreases k,
    {
        if k == 0 {
            Seq::empty()
        } else {
            let j = k - 1;
            let rest = self.black_keys(o, left, right, y, h, (k - 1) as nat);
            let kx = left + WHITE_KEY_WIDTH * black_slot(j) + WHITE_KEY_WIDTH - 2;
            if kx + BLACK_KEY_WIDTH <= right {
                rest.push(self.key_at(o, black_note(j), kx, y, black_height(h), true))
            } else {
                rest
            }
        }
    }

    /// The keys of the first `n` drawn octaves: in each, its white keys and
    /// then its black keys, left to right.
    pub open spec fn octave_keys(&self, x: int, y: int, w: int, h: int, n: nat) -> Seq<KeyDraw>
        decreases n,
    {
        if n == 0 {
            Seq::empty()
        } else {
            let o = n - 1;
            let left = octave_left(x, o);
            let right = right_edge(x, w);
            self.octave_keys(x, y, w, h, (n - 1) as nat) + self.white_keys(o, left, right, y, h, 7)
                + self.black_keys(o, left, right, y, h, 5)
        }
    }

    /// The keys drawn in the area at column `x`, row `y`, `w` wide and `h`
    /// high: none in an area narrower than 10 or lower than 4.
    pub open spec fn keys_in(&self, x: int, y: int, w: int, h: int) -> Seq<KeyDraw> {
        if w < 10 || h < 4 {
            Seq::empty()
        } else {
            self.octave_keys(x, y, w, h, self.octave_count())
        }
    }

    /// The keys to draw, in drawing order, for the area at column `x`, row
    /// `y`, `width` wide and `height` high.
    pub fn layout(&self, x: u16, y: u16, width: u16, height: u16) -> (r: Vec<KeyDraw>)
        requires
            width >= 10 && height >= 4 ==> octave_left(x as int, self.octave_count() as int)
                <= u16::MAX,
            width >= 10 && height >= 4 && self.octave_count() > 0 ==> {
                &&& i32::MIN <= 12 * (self.first_octave() + 1)
                &&& 12 * (self.first_octave() + self.octave_count()) + 11 <= i32::MAX
            },
        ensures
            r@ == self.keys_in(x as int, y as int, width as int, height as int),
    {
        let mut out: Vec<KeyDraw> = Vec::new();
        if width < 10 || height < 4 {
            return out;
        }
        let white_h: u16 = if height < WHITE_KEY_HEIGHT { height } else { WHITE_KEY_HEIGHT };
        let third: u16 = white_h * 2 / 3;
        let black_h: u16 = if third < 2 { 2 } else { third };
        let right: u32 = if x as u32 + width as u32 > u16::MAX as u32 {
            u16::MAX as u32
        } else {
            x as u32 + width as u32
        };
        let whites: [u8; 7] = [0, 2, 4, 5, 7, 9, 11];
        let blacks: [(u8, u32); 5] = [(1, 0), (3, 1), (6, 3), (8, 4), (10, 5)];
        let n = self.num_octaves;
        let mut o: u16 = 0;
        while o < n
            invariant
                n == self.octave_count(),
                o <= n,
                width >= 10 && height >= 4,
                octave_left(x as int, n as int) <= u16::MAX,
                n > 0 ==> i32::MIN <= 12 * (self.first_octave() + 1),
                n > 0 ==> 12 * (self.first_octave() + n) + 11 <= i32::MAX,
                white_h == white_height(height as int),
                black_h == black_height(height as int),
                right == right_edge(x as int, width as int),
                whites@ == seq![0u8, 2, 4, 5, 7, 9, 11],
                blacks@ == seq![(1u8, 0u32), (3, 1), (6, 3), (8, 4), (10, 5)],
                out@ == self.octave_keys(x as int, y as int, width as int, height as int, o as nat),
            decreases n - o,
        {
            let left: u32 = x as u32 + 1 + 42 * o as u32;
            assert(left == octave_left(x as int, o as int));
            let octave: i32 = self.octave + o as i32;
            let ghost before = out@;
            let mut i: usize = 0;
            while i < 7
                invariant
                    0 <= i <= 7,
                    o < n,
                    n == self.octave_count(),
                    octave_left(x as int, n as int) <= u16::MAX,
                    left == octave_left(x as int, o as int),
                    octave == self.first_octave() + o,
                    i32::MIN <= 12 * (octave + 1),
                    12 * (octave + 1) + 11 <= i32::MAX,
                    white_h == white_height(height as int),
                    right == right_edge(x as int, width as int),
                    whites@ == seq![0u8, 2, 4, 5, 7, 9, 11],
                    out@ == before + self.white_keys(o as int, left as int, right as int, y as int, height as int, i as nat),
                decreases 7 - i,
            {
                let note = whites[i];
                assert(note == white_note(i as int));
                let kx: u32 = left + 6 * i as u32;
                if kx + 6 <= right {
                    let midi = Self::midi_note(octave, note);
                    let key = KeyDraw {
                        x: kx as u16,
                        y,
                        height: white_h,
                        black: false,
                        note_in_octave: note,
                        octave,
                        midi,
                        pressed: self.held_notes.contains(&midi),
                        upper_row: o == 1,
                    };
                    assert(key == self.key_at(o as int, note, kx as int, y as int, white_h as int, false));
                    out.push(key);
                }
                assert(out@ =~= before + self.white_keys(o as int, left as int, right as int, y as int, height as int, (i + 1) as nat));
                i = i + 1;
            }
            let ghost middle = out@;
            let mut j: usize = 0;
            while j < 5
                invariant
                    0 <= j <= 5,
                    o < n,
                    n == self.octave_count(),
                    octave_left(x as int, n as int) <= u16::MAX,
                    left == octave_left(x as int, o as int),
                    octave == self.first_octave() + o,
                    i32::MIN <= 12 * (octave + 1),
                    12 * (octave + 1) + 11 <= i32::MAX,
                    black_h == black_height(height as int),
                    right == right_edge(x as int, width as int),
                    blacks@ == seq![(1u8, 0u32), (3, 1), (6, 3), (8, 4), (10, 5)],
                    out@ == middle + self.black_keys(o as int, left as int, right as int, y as int, height as int, j as nat),
                decreases 5 - j,
            {
                let (note, slot) = blacks[j];
                assert(note == black_note(j as int));
                assert(slot == black_slot(j as int));
                let kx: u32 = left + 6 * slot + 4;
                if kx + 4 <= right {
                    let midi = Self::midi_note(octave, note);
                    let key = KeyDraw {
                        x: kx as u16,
                        y,
                        height: black_h,
                        black: true,
                        note_in_octave: note,
                        octave,
                        midi,
                        pressed: self.held_notes.contains(&midi),
                        upper_row: o == 1,
                    };
                    assert(key == self.key_at(o as int, note, kx as int, y as int, black_h as int, true));
                    out.push(key);
                }
                assert(out@ =~= middle + self.black_keys(o as int, left as int, right as int, y as int, height as int, (j + 1) as nat));
                j = j + 1;
            }
            assert(out@ =~= self.octave_keys(x as int, y as int, width as int, height as int, (o + 1) as nat));
            o = o + 1;
        }
        out
    }
}

/// Width of one drawn octave: seven white keys.
pub open spec fn octave_width() -> int {
    7 * WHITE_KEY_WIDTH
}

/// How many octaves a keyboard `width` columns wide shows: as many as fit,
/// at least one and at most four.
pub open spec fn octaves_for(width: int) -> int {
    let fit = width / octave_width();
    if fit < 1 {
        1
    } else if fit > 4 {
        4
    } else {
        fit
    }
}

/// Where a keyboard goes in an area `width` columns wide: the number of
/// octaves, the offset that centres them, and the width they take (cut to
/// the area).
pub fn keyboard_placement(width: u16) -> (r: (u16, u16, u16))
    ensures
        r.0 == octaves_for(width as int),
        r.1 == (if width >= octaves_for(width as int) * octave_width() {
            (width - octaves_for(width as int) * octave_width()) / 2
        } else {
            0
        }),
        r.2 == (if width >= octaves_for(width as int) * octave_width() {
            octaves_for(width as int) * octave_width()
        } else {
            width as int
        }),
{
    let fit: u16 = width / 42;
    let octaves: u16 = if fit < 1 {
        1
    } else if fit > 4 {
        4
    } else {
        fit
    };
    let keyboard_width: u16 = octaves * 42;
    if width >= keyboard_width {
        (octaves, (width - keyboard_width) / 2, keyboard_width)
    } else {
        (octaves, 0, width)
    }
}

/// The names of the held notes below `k`, lowest first, separated by
/// spaces.
pub open spec fn held_names_below(held: Set<u8>, k: nat) -> Seq<char>
    decreases k,
{
    if k == 0 {
        Seq::empty()
    } else {
        let rest = held_names_below(held, (k - 1) as nat);
        let n = (k - 1) as int;
        if held.contains(n as u8) {
            if rest.len() == 0 {
                crate::keyboard::spec_note_name(n)
            } else {
                rest + seq![' '] + crate::keyboard::spec_note_name(n)
            }
        } else {
            rest
        }
    }
}

/// The names of the held notes, lowest first, separated by spaces (empty
/// when no note is held).
pub fn held_notes_text(held: &HashSet<u8>) -> (r: String)
    ensures
        r@ == held_names_below(held@, 256),
{
    proof {
        reveal_strlit(" ");
    }
    let mut text = String::new();
    let mut k: u32 = 0;
    while k < 256
        invariant
            k <= 256,
            text@ == held_names_below(held@, k as nat),
        decreases 256 - k,
    {
        let n: u8 = k as u8;
        proof {
            reveal_strlit(" ");
            assert(n as int == k as int);
            assert(((k + 1 - 1) as int) as u8 == n);
        }
        if held.contains(&n) {
            let name = crate::keyboard::note_name(n);
            if text.as_str().is_empty() {
                text = name;
            } else {
                text.append(" ");
                text.append(name.as_str());
            }
        }
        k = k + 1;
    }
    text
}


} // verus!
