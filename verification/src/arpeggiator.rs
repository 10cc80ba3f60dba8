//! Arpeggiator: turns the notes held on the keyboard into a repeating
//! sequence of single notes.
use std::time::Duration;
use std::time::SystemTime;
use std::time::SystemTimeError;
use vstd::prelude::*;
use vstd::relations::sorted_by;
use vstd::relations::total_ordering;
use vstd::seq_lib::lemma_sorted_unique;
use vstd::seq_lib::group_to_multiset_ensures;

verus! {

/// Arpeggiator pattern types
#[derive(Debug, Clone, Copy, PartialEq, Eq, Structural, Default)]
pub enum ArpPattern {
    /// Play notes from lowest to highest
    #[default]
    Up,
    /// Play notes from highest to lowest
    Down,
    /// Play notes up then down
    UpDown,
    /// Play notes in random order
    Random,
    /// Play notes in the order they were pressed
    AsPlayed,
}

impl ArpPattern {
    /// Display name of this variant.
    pub open spec fn label(self) -> Seq<char> {
        match self {
            ArpPattern::Up => seq!['U', 'p'],
            ArpPattern::Down => seq!['D', 'o', 'w', 'n'],
            ArpPattern::UpDown => seq!['U', 'p', '/', 'D', 'n'],
            ArpPattern::Random => seq!['R', 'a', 'n', 'd', 'o', 'm'],
            ArpPattern::AsPlayed => seq!['O', 'r', 'd', 'e', 'r'],
        }
    }

    /// The variant that follows this one in the cycle.
    pub open spec fn successor(self) -> Self {
        match self {
            ArpPattern::Up => ArpPattern::Down,
            ArpPattern::Down => ArpPattern::UpDown,
            ArpPattern::UpDown => ArpPattern::Random,
            ArpPattern::Random => ArpPattern::AsPlayed,
            ArpPattern::AsPlayed => ArpPattern::Up,
        }
    }

    /// The pattern that precedes this one in the cycle.
    pub open spec fn predecessor(self) -> Self {
        match self {
            ArpPattern::Up => ArpPattern::AsPlayed,
            ArpPattern::Down => ArpPattern::Up,
            ArpPattern::UpDown => ArpPattern::Down,
            ArpPattern::Random => ArpPattern::UpDown,
            ArpPattern::AsPlayed => ArpPattern::Random,
        }
    }

    /// Get the display name for this pattern.
    pub fn name(&self) -> (r: &'static str)
        ensures
            r@ == self.label(),
    {
        proof {
            reveal_strlit("Up");
            reveal_strlit("Down");
            reveal_strlit("Up/Dn");
            reveal_strlit("Random");
            reveal_strlit("Order");
        }
        match self {
            ArpPattern::Up => "Up",
            ArpPattern::Down => "Down",
            ArpPattern::UpDown => "Up/Dn",
            ArpPattern::Random => "Random",
            ArpPattern::AsPlayed => "Order",
        }
    }

    /// Cycle to next pattern.
    pub fn next(&self) -> (r: Self)
        ensures
            r == self.successor(),
    {
        match self {
            ArpPattern::Up => ArpPattern::Down,
            ArpPattern::Down => ArpPattern::UpDown,
            ArpPattern::UpDown => ArpPattern::Random,
            ArpPattern::Random => ArpPattern::AsPlayed,
            ArpPattern::AsPlayed => ArpPattern::Up,
        }
    }

    /// Cycle to previous pattern.
    pub fn prev(&self) -> (r: Self)
        ensures
            r == self.predecessor(),
    {
        match self {
            ArpPattern::Up => ArpPattern::AsPlayed,
            ArpPattern::Down => ArpPattern::Up,
            ArpPattern::UpDown => ArpPattern::Down,
            ArpPattern::Random => ArpPattern::UpDown,
            ArpPattern::AsPlayed => ArpPattern::Random,
        }
    }
}

/// Note division options for arpeggiator timing
#[derive(Debug, Clone, Copy, PartialEq, Eq, Structural, Default)]
pub enum NoteDivision {
    /// Quarter notes (1/4)
    Quarter,
    /// Eighth notes (1/8)
    #[default]
    Eighth,
    /// Sixteenth notes (1/16)
    Sixteenth,
    /// Thirty-second notes (1/32)
    ThirtySecond,
    /// Eighth note triplets (1/12)
    EighthTriplet,
    /// Sixteenth note triplets (1/24)
    SixteenthTriplet,
}

impl NoteDivision {
    /// Display name of this variant.
    pub open spec fn label(self) -> Seq<char> {
        match self {
            NoteDivision::Quarter => seq!['1', '/', '4'],
            NoteDivision::Eighth => seq!['1', '/', '8'],
            NoteDivision::Sixteenth => seq!['1', '/', '1', '6'],
            NoteDivision::ThirtySecond => seq!['1', '/', '3', '2'],
            NoteDivision::EighthTriplet => seq!['1', '/', '8', 'T'],
            NoteDivision::SixteenthTriplet => seq!['1', '/', '1', '6', 'T'],
        }
    }

    /// The variant that follows this one in the cycle.
    pub open spec fn successor(self) -> Self {
        match self {
            NoteDivision::Quarter => NoteDivision::Eighth,
            NoteDivision::Eighth => NoteDivision::Sixteenth,
            NoteDivision::Sixteenth => NoteDivision::ThirtySecond,
            NoteDivision::ThirtySecond => NoteDivision::EighthTriplet,
            NoteDivision::EighthTriplet => NoteDivision::SixteenthTriplet,
            NoteDivision::SixteenthTriplet => NoteDivision::Quarter,
        }
    }

    /// Get the display name for this division.
    pub fn name(&self) -> (r: &'static str)
        ensures
            r@ == self.label(),
    {
        proof {
            reveal_strlit("1/4");
            reveal_strlit("1/8");
            reveal_strlit("1/16");
            reveal_strlit("1/32");
            reveal_strlit("1/8T");
            reveal_strlit("1/16T");
        }
        match self {
            NoteDivision::Quarter => "1/4",
            NoteDivision::Eighth => "1/8",
            NoteDivision::Sixteenth => "1/16",
            NoteDivision::ThirtySecond => "1/32",
            NoteDivision::EighthTriplet => "1/8T",
            NoteDivision::SixteenthTriplet => "1/16T",
        }
    }

    /// Cycle to next division.
    pub fn next(&self) -> (r: Self)
        ensures
            r == self.successor(),
    {
        match self {
            NoteDivision::Quarter => NoteDivision::Eighth,
            NoteDivision::Eighth => NoteDivision::Sixteenth,
            NoteDivision::Sixteenth => NoteDivision::ThirtySecond,
            NoteDivision::ThirtySecond => NoteDivision::EighthTriplet,
            NoteDivision::EighthTriplet => NoteDivision::SixteenthTriplet,
            NoteDivision::SixteenthTriplet => NoteDivision::Quarter,
        }
    }
}

impl NoteDivision {
    /// How many arpeggio steps fall on one beat.
    pub open spec fn steps_per_beat(self) -> nat {
        match self {
            NoteDivision::Quarter => 1,
            NoteDivision::Eighth => 2,
            NoteDivision::Sixteenth => 4,
            NoteDivision::ThirtySecond => 8,
            NoteDivision::EighthTriplet => 3,
            NoteDivision::SixteenthTriplet => 6,
        }
    }

    /// Get notes per beat for this division.
    pub fn notes_per_beat(&self) -> (r: u32)
        ensures
            r == self.steps_per_beat(),
    {
        match self {
            NoteDivision::Quarter => 1,
            NoteDivision::Eighth => 2,
            NoteDivision::Sixteenth => 4,
            NoteDivision::ThirtySecond => 8,
            NoteDivision::EighthTriplet => 3,
            NoteDivision::SixteenthTriplet => 6,
        }
    }
}

/// The wall clock, as std's `SystemTime`.
#[verifier::external_type_specification]
#[verifier::external_body]
pub struct ExSystemTime(SystemTime);

/// The error of a clock reading that lies before the reference point.
#[verifier::external_type_specification]
#[verifier::external_body]
pub struct ExSystemTimeError(SystemTimeError);

/// `SystemTime::now` reads the system clock; nothing is promised of the value.
pub assume_specification[ SystemTime::now ]() -> SystemTime;

/// `SystemTime::duration_since` measures the time elapsed since `earlier`, or
/// fails when `earlier` is later; nothing is promised of either outcome.
pub assume_specification[ SystemTime::duration_since ](
    t: &SystemTime,
    earlier: SystemTime,
) -> Result<Duration, SystemTimeError>;

/// `Duration::as_nanos` gives the whole nanoseconds of a duration; nothing is
/// promised of the value.
pub assume_specification[ Duration::as_nanos ](d: &Duration) -> u128;

/// Gives std's `SystemTime::UNIX_EPOCH`, the clock reading of 1970-01-01
/// 00:00:00 UTC; nothing is promised of the value.
#[verifier::external_body]
fn unix_epoch() -> SystemTime {
    SystemTime::UNIX_EPOCH
}

/// One step of the 32-bit XorShift generator (shifts 13, 17, 5).
pub open spec fn xorshift32(x: u32) -> u32 {
    let a = x ^ (x << 13u32);
    let b = a ^ (a >> 17u32);
    b ^ (b << 5u32)
}

/// Simple XorShift pseudo-random number generator.
pub struct SimpleRng {
    state: u32,
}

impl View for SimpleRng {
    type V = u32;

    closed spec fn view(&self) -> u32 {
        self.state
    }
}

impl SimpleRng {
    /// A generator whose state is never zero (zero is a fixed point of XorShift).
    pub open spec fn wf(self) -> bool {
        self@ != 0
    }

    /// Create a generator seeded from the low 32 bits of the current time in
    /// nanoseconds since the Unix epoch; a clock before the epoch gives the
    /// seed 12345, and a zero seed is replaced by 1.
    pub fn new() -> (r: Self)
        ensures
            r.wf(),
            exists|reading: Option<u128>| r@ == clock_seed(reading),
    {
        let reading: Option<u128> = match SystemTime::now().duration_since(unix_epoch()) {
            Ok(d) => Some(d.as_nanos()),
            Err(_) => None,
        };
        Self::from_clock_reading(reading)
    }

    /// Create a generator from a clock reading in nanoseconds since the Unix
    /// epoch (`None` for a clock before the epoch).
    pub fn from_clock_reading(reading: Option<u128>) -> (r: Self)
        ensures
            r.wf(),
            r@ == clock_seed(reading),
    {
        let seed: u32 = match reading {
            Some(n) => {
                let low = n as u32;
                assert(low == (n % 0x1_0000_0000) as u32) by (bit_vector)
                    requires
                        low == n as u32,
                ;
                low
            },
            None => 12345,
        };
        SimpleRng { state: if seed == 0 { 1 } else { seed } }
    }

    /// Create a generator from a given seed, replacing zero by 1.
    pub fn from_seed(seed: u32) -> (r: Self)
        ensures
            r.wf(),
            r@ == if seed == 0 { 1 } else { seed },
    {
        SimpleRng { state: if seed == 0 { 1 } else { seed } }
    }

    /// Advance the generator and return its new state.
    pub fn next(&mut self) -> (r: u32)
        requires
            old(self).wf(),
        ensures
            final(self).wf(),
            r == xorshift32(old(self)@),
            final(self)@ == r,
    {
        let mut x = self.state;
        x ^= x << 13;
        x ^= x >> 17;
        x ^= x << 5;
        proof {
            lemma_xorshift_nonzero(self.state);
        }
        self.state = x;
        x
    }

    /// Advance the generator and reduce its new state below `max`.
    pub fn range(&mut self, max: usize) -> (r: usize)
        requires
            old(self).wf(),
            max > 0,
        ensures
            final(self).wf(),
            final(self)@ == xorshift32(old(self)@),
            r == (xorshift32(old(self)@) as usize) % max,
            r < max,
    {
        (self.next() as usize) % max
    }
}

/// The seed taken from a clock reading in nanoseconds: its low 32 bits
/// (zero replaced by 1), or 12345 for a clock before the epoch.
pub open spec fn clock_seed(reading: Option<u128>) -> u32 {
    match reading {
        Some(n) => {
            let low = (n % 0x1_0000_0000) as u32;
            if low == 0 {
                1
            } else {
                low
            }
        },
        None => 12345,
    }
}

/// The Fisher-Yates shuffle of the first `k` places of `s` with the
/// generator in `state`: for each place from the last down to the second,
/// the generator advances and the place is swapped with the one at the new
/// state modulo the number of places left.
pub open spec fn shuffled(s: Seq<u8>, state: u32, k: nat) -> Seq<u8>
    decreases k,
{
    if k <= 1 {
        s
    } else {
        let next = xorshift32(state);
        let i = k - 1;
        let j = (next as int) % (k as int);
        shuffled(s.update(i, s[j]).update(j, s[i]), next, (k - 1) as nat)
    }
}

/// The generator state after shuffling `k` places.
pub open spec fn state_after_shuffle(state: u32, k: nat) -> u32
    decreases k,
{
    if k <= 1 {
        state
    } else {
        state_after_shuffle(xorshift32(state), (k - 1) as nat)
    }
}

/// A shuffle keeps the notes, only their order changes.
pub proof fn lemma_shuffle_keeps_notes(s: Seq<u8>, state: u32, k: nat)
    requires
        k <= s.len(),
    ensures
        shuffled(s, state, k).to_multiset() == s.to_multiset(),
        shuffled(s, state, k).len() == s.len(),
    decreases k,
{
    if k > 1 {
        let next = xorshift32(state);
        let i = k - 1;
        let j = (next as int) % (k as int);
        let s1 = s.update(i, s[j]);
        let s2 = s1.update(j, s[i]);
        lemma_shuffle_keeps_notes(s2, next, (k - 1) as nat);
        lemma_swap_keeps_notes(s, i, j);
    }
}

/// Swapping two places keeps the notes.
proof fn lemma_swap_keeps_notes(s: Seq<u8>, i: int, j: int)
    requires
        0 <= i < s.len(),
        0 <= j < s.len(),
    ensures
        s.update(i, s[j]).update(j, s[i]).to_multiset() == s.to_multiset(),
{
    broadcast use vstd::multiset::group_multiset_axioms;
    broadcast use group_to_multiset_ensures;

    if i != j {
        let a = s[i];
        let b = s[j];
        let s1 = s.update(i, b);
        vstd::seq_lib::to_multiset_update(s, i, b);
        vstd::seq_lib::to_multiset_update(s1, j, a);
        assert(s1[j] == b);
        assert(s.to_multiset().contains(a));
        assert(s.to_multiset().insert(b).remove(a).insert(a).remove(b) =~= s.to_multiset());
    } else {
        assert(s.update(i, s[j]).update(j, s[i]) =~= s);
    }
}

/// Shuffle `notes` with `rng` (Fisher-Yates, last place first).
pub fn shuffle(notes: &mut Vec<u8>, rng: &mut SimpleRng)
    requires
        old(rng).wf(),
    ensures
        final(rng).wf(),
        final(notes)@ == shuffled(old(notes)@, old(rng)@, old(notes)@.len()),
        final(rng)@ == state_after_shuffle(old(rng)@, old(notes)@.len()),
        final(notes)@.to_multiset() == old(notes)@.to_multiset(),
{
    let ghost start = notes@;
    let ghost seed = rng@;
    let mut i: usize = notes.len();
    proof {
        lemma_shuffle_keeps_notes(start, seed, start.len());
    }
    while i > 1
        invariant
            i <= notes@.len(),
            notes@.len() == start.len(),
            rng.wf(),
            shuffled(notes@, rng@, i as nat) == shuffled(start, seed, start.len()),
            state_after_shuffle(rng@, i as nat) == state_after_shuffle(seed, start.len()),
            shuffled(start, seed, start.len()).to_multiset() == start.to_multiset(),
        decreases i,
    {
        let ghost before = notes@;
        let ghost st = rng@;
        let j = rng.range(i);
        let last = i - 1;
        let a = notes[last];
        let b = notes[j];
        notes.set(last, b);
        notes.set(j, a);
        proof {
            assert(notes@ == before.update(last as int, before[j as int]).update(j as int, before[last as int]));
            assert(j as int == (xorshift32(st) as int) % (i as int));
        }
        i = last;
    }
    proof {
        if start.len() == 0 {
            assert(shuffled(notes@, rng@, 0) == notes@);
        }
    }
}

/// A XorShift step never reaches zero from a nonzero state, so a generator
/// started from a nonzero seed never gets stuck.
pub proof fn lemma_xorshift_nonzero(x: u32)
    requires
        x != 0,
    ensures
        xorshift32(x) != 0,
{
    let a = x ^ (x << 13u32);
    let b = a ^ (a >> 17u32);
    assert(x != 0 ==> (x ^ (x << 13u32)) != 0) by (bit_vector);
    assert(a != 0 ==> (a ^ (a >> 17u32)) != 0) by (bit_vector);
    assert(b != 0 ==> (b ^ (b << 5u32)) != 0) by (bit_vector);
}

/// Ascending order on notes.
pub open spec fn note_leq() -> spec_fn(u8, u8) -> bool {
    |a: u8, b: u8| a <= b
}

/// The notes of `s` sorted from lowest to highest.
pub open spec fn ascending(s: Seq<u8>) -> Seq<u8> {
    s.sort_by(note_leq())
}

/// `note_leq` is a total order.
pub proof fn lemma_note_leq_total()
    ensures
        total_ordering(note_leq()),
{
}

/// A copy of `v` sorted from lowest to highest note.
fn sort_notes(v: &Vec<u8>) -> (r: Vec<u8>)
    ensures
        r@ == ascending(v@),
{
    broadcast use group_to_multiset_ensures;

    let mut out: Vec<u8> = Vec::new();
    let mut i: usize = 0;
    while i < v.len()
        invariant
            i <= v.len(),
            sorted_by(out@, note_leq()),
            out@.to_multiset() == v@.take(i as int).to_multiset(),
        decreases v.len() - i,
    {
        let x = v[i];
        let mut j: usize = 0;
        while j < out.len() && out[j] <= x
            invariant
                j <= out.len(),
                forall|k: int| 0 <= k < j ==> out@[k] <= x,
            decreases out.len() - j,
        {
            j = j + 1;
        }
        proof {
            assert(forall|k: int| j <= k < out@.len() ==> x < out@[k]) by {
                assert forall|k: int| j <= k < out@.len() implies x < out@[k] by {
                    assert(note_leq()(out@[j as int], out@[k]) || k == j);
                }
            }
        }
        let ghost before = out@;
        out.insert(j, x);
        proof {
            assert forall|a: int, b: int| 0 <= a < b < out@.len() implies #[trigger] note_leq()(
                out@[a],
                out@[b],
            ) by {
                if a < j && b < j {
                    assert(note_leq()(before[a], before[b]));
                } else if a < j && b > j {
                    assert(note_leq()(before[a], before[b - 1]));
                } else if a > j {
                    assert(note_leq()(before[a - 1], before[b - 1]));
                }
            }
            assert(v@.take(i + 1) =~= v@.take(i as int).push(x));
            vstd::seq_lib::to_multiset_insert(before, j as int, x);
            vstd::seq_lib::to_multiset_build(v@.take(i as int), x);
        }
        i = i + 1;
    }
    proof {
        lemma_note_leq_total();
        v@.lemma_sort_by_ensures(note_leq());
        assert(v@.take(v@.len() as int) =~= v@);
        lemma_sorted_unique(out@, ascending(v@), note_leq());
    }
    out
}

/// The notes of `base` moved up by `shift` semitones, in order, leaving out
/// those that would pass 127.
pub open spec fn octave_layer(base: Seq<u8>, shift: int) -> Seq<u8>
    decreases base.len(),
{
    if base.len() == 0 {
        Seq::empty()
    } else {
        let rest = octave_layer(base.drop_last(), shift);
        if base.last() + shift <= 127 {
            rest.push((base.last() + shift) as u8)
        } else {
            rest
        }
    }
}

/// `base` repeated over `octaves` octaves, lowest octave first.
pub open spec fn expand_octaves(base: Seq<u8>, octaves: nat) -> Seq<u8>
    decreases octaves,
{
    if octaves == 0 {
        Seq::empty()
    } else {
        expand_octaves(base, (octaves - 1) as nat) + octave_layer(base, 12 * (octaves - 1))
    }
}

/// Expands `base` across `octaves` octaves.
fn expand(base: &Vec<u8>, octaves: u8) -> (r: Vec<u8>)
    requires
        octaves <= 4,
    ensures
        r@ == expand_octaves(base@, octaves as nat),
{
    let mut sequence: Vec<u8> = Vec::new();
    let mut octave_offset: u8 = 0;
    while octave_offset < octaves
        invariant
            octave_offset <= octaves <= 4,
            sequence@ == expand_octaves(base@, octave_offset as nat),
        decreases octaves - octave_offset,
    {
        let ghost start = sequence@;
        let mut k: usize = 0;
        while k < base.len()
            invariant
                k <= base@.len(),
                octave_offset < 4,
                sequence@ == start + octave_layer(base@.take(k as int), 12 * octave_offset),
            decreases base@.len() - k,
        {
            let note = base[k];
            let transposed = note.saturating_add(octave_offset * 12);
            proof {
                assert(base@.take(k + 1).drop_last() =~= base@.take(k as int));
            }
            if transposed <= 127 {
                sequence.push(transposed);
            }
            k = k + 1;
        }
        proof {
            assert(base@.take(base@.len() as int) =~= base@);
        }
        octave_offset = octave_offset + 1;
    }
    sequence
}

/// A run up followed by the way back down, without repeating the top note
/// or the bottom note.
pub open spec fn up_then_down(up: Seq<u8>) -> Seq<u8> {
    if up.len() > 1 {
        up + up.reverse().subrange(1, up.len() - 1)
    } else {
        up
    }
}

/// The sequence that a pattern other than `Random` plays for the held notes:
/// the held notes repeated over the octaves, from lowest to highest for `Up`,
/// from highest to lowest for `Down`, up and back down for `UpDown`, and in
/// the order pressed, octave by octave, for `AsPlayed`.
pub open spec fn arp_sequence(held: Seq<u8>, pattern: ArpPattern, octaves: nat) -> Seq<u8> {
    let expanded = expand_octaves(held, octaves);
    let up = ascending(expanded);
    match pattern {
        ArpPattern::Up => up,
        ArpPattern::Down => up.reverse(),
        ArpPattern::UpDown => up_then_down(up),
        _ => expanded,
    }
}

/// The next note of `seq` from position `step` (starting over past the end),
/// and the position after it; nothing when `seq` is empty.
pub open spec fn seq_pick(seq: Seq<u8>, step: nat) -> (Option<u8>, nat) {
    if seq.len() == 0 {
        (None, step)
    } else {
        let s = if step >= seq.len() { 0 } else { step };
        (Some(seq[s as int]), s + 1)
    }
}

/// Whether a note differs from `note`.
pub open spec fn not_note(note: u8) -> spec_fn(u8) -> bool {
    |n: u8| n != note
}

/// The notes of `s` with every `note` taken out.
pub open spec fn without_note(s: Seq<u8>, note: u8) -> Seq<u8> {
    s.filter(not_note(note))
}

/// Every element of a filtered sequence comes from the sequence, and
/// filtering keeps a sequence free of duplicates.
proof fn lemma_filter_from(s: Seq<u8>, pred: spec_fn(u8) -> bool)
    ensures
        forall|x: u8| s.filter(pred).contains(x) ==> s.contains(x),
        s.no_duplicates() ==> s.filter(pred).no_duplicates(),
    decreases s.len(),
{
    if s.len() > 0 {
        let d = s.drop_last();
        lemma_filter_from(d, pred);
        let sub = d.filter(pred);
        reveal(Seq::filter);
        assert(s.filter(pred) == if pred(s.last()) { sub.push(s.last()) } else { sub });
        assert forall|x: u8| s.filter(pred).contains(x) implies s.contains(x) by {
            if sub.contains(x) {
                assert(d.contains(x));
                let k = choose|k: int| 0 <= k < d.len() && d[k] == x;
                assert(s[k] == x);
            } else {
                let k = choose|k: int| 0 <= k < s.filter(pred).len() && s.filter(pred)[k] == x;
                assert(k == sub.len());
                assert(x == s[s.len() - 1]);
            }
        }
        if s.no_duplicates() {
            assert(d.no_duplicates()) by {
                assert forall|a: int, b: int| 0 <= a < d.len() && 0 <= b < d.len() && a != b implies d[a]
                    != d[b] by {
                    assert(s[a] != s[b]);
                }
            }
            if pred(s.last()) {
                assert(!sub.contains(s.last())) by {
                    if sub.contains(s.last()) {
                        assert(d.contains(s.last()));
                        let k = choose|k: int| 0 <= k < d.len() && d[k] == s.last();
                        assert(s[k] == s[s.len() - 1]);
                    }
                }
                let f = sub.push(s.last());
                assert forall|a: int, b: int| 0 <= a < f.len() && 0 <= b < f.len() && a != b implies f[a]
                    != f[b] by {
                    if a == sub.len() as int {
                        assert(sub.contains(sub[b]));
                    } else if b == sub.len() as int {
                        assert(sub.contains(sub[a]));
                    }
                }
            }
        }
    }
}

/// A reversed copy of `v`.
fn reversed(v: &Vec<u8>) -> (r: Vec<u8>)
    ensures
        r@ == v@.reverse(),
{
    let mut out: Vec<u8> = Vec::new();
    let n = v.len();
    let mut i: usize = 0;
    while i < n
        invariant
            n == v@.len(),
            i <= n,
            out@.len() == i,
            forall|k: int| 0 <= k < i ==> out@[k] == v@[n - 1 - k],
        decreases n - i,
    {
        out.push(v[n - 1 - i]);
        i = i + 1;
    }
    assert(out@ =~= v@.reverse());
    out
}

/// Arpeggiator state: settings, held notes and playback position. Tempo and
/// timing live with the audio clock, which tells each tick whether the
/// current note and the current step are over.
#[derive(Debug)]
pub struct Arpeggiator {
    /// Whether arpeggiator is enabled
    enabled: bool,
    /// Note division
    division: NoteDivision,
    /// Arpeggio pattern
    pattern: ArpPattern,
    /// Number of octaves to span (1-4)
    octaves: u8,
    /// Notes currently held by the user (in order pressed)
    held_notes: Vec<u8>,
    /// Current step in the sequence
    current_step: usize,
    /// Current note being played (if any)
    current_playing_note: Option<u8>,
    /// A sounding note that was released and is still to be stopped
    stopping_note: Option<u8>,
}

/// Abstract view of the arpeggiator.
pub struct ArpView {
    pub enabled: bool,
    pub division: NoteDivision,
    pub pattern: ArpPattern,
    pub octaves: nat,
    pub held: Seq<u8>,
    pub step: nat,
    pub playing: Option<u8>,
    pub stopping: Option<u8>,
}

impl ArpView {
    /// Between one and four octaves, no note held twice, and a note still
    /// to be stopped only while nothing sounds.
    pub open spec fn wf(self) -> bool {
        &&& 1 <= self.octaves <= 4
        &&& self.held.no_duplicates()
        &&& self.stopping is Some ==> self.playing is None
    }

    /// The state after releasing `note`: it is no longer held, and if it is
    /// the note sounding, it is to be stopped.
    pub open spec fn after_note_off(self, note: u8) -> ArpView {
        ArpView {
            held: without_note(self.held, note),
            playing: if self.playing == Some(note) { None } else { self.playing },
            stopping: if self.playing == Some(note) { Some(note) } else { self.stopping },
            ..self
        }
    }

    /// The note a tick stops: a released note still to be stopped; else,
    /// when the arpeggiator is off or holds nothing, the note sounding;
    /// else the note sounding once its gate time or its step is over.
    pub open spec fn tick_off(self, gate_elapsed: bool, step_elapsed: bool) -> Option<u8> {
        if self.stopping is Some {
            self.stopping
        } else if !self.enabled || self.held.len() == 0 {
            self.playing
        } else if gate_elapsed || step_elapsed {
            self.playing
        } else {
            None
        }
    }

    /// The state after `reset`: back at the first step with nothing sounding.
    pub open spec fn after_reset(self) -> ArpView {
        ArpView { step: 0, playing: None, stopping: None, ..self }
    }

    /// Whether drawing the next note from this state may return `r` and move
    /// to step `new_step`. For `Random` the note is the first of the shuffle
    /// of the expanded held notes seeded from some clock reading (so one of
    /// those notes); the other patterns walk `arp_sequence`.
    pub open spec fn next_note_outcome(self, r: Option<u8>, new_step: nat) -> bool {
        if self.pattern == ArpPattern::Random {
            let pool = expand_octaves(self.held, self.octaves);
            if pool.len() == 0 {
                r is None && new_step == self.step
            } else {
                &&& r matches Some(n) && pool.contains(n)
                &&& exists|reading: Option<u128>|
                    r == Some(shuffled(pool, clock_seed(reading), pool.len())[0])
                &&& new_step == 0
            }
        } else {
            (r, new_step) == seq_pick(arp_sequence(self.held, self.pattern, self.octaves), self.step)
        }
    }
}

impl View for Arpeggiator {
    type V = ArpView;

    closed spec fn view(&self) -> ArpView {
        ArpView {
            enabled: self.enabled,
            division: self.division,
            pattern: self.pattern,
            octaves: self.octaves as nat,
            held: self.held_notes@,
            step: self.current_step as nat,
            playing: self.current_playing_note,
            stopping: self.stopping_note,
        }
    }
}

impl Default for Arpeggiator {
    fn default() -> (r: Self)
        ensures
            r@.wf(),
            r@ == (ArpView {
                enabled: false,
                division: NoteDivision::Eighth,
                pattern: ArpPattern::Up,
                octaves: 1,
                held: Seq::empty(),
                step: 0,
                playing: None,
                stopping: None,
            }),
    {
        Arpeggiator {
            enabled: false,
            division: NoteDivision::Eighth,
            pattern: ArpPattern::Up,
            octaves: 1,
            held_notes: Vec::new(),
            current_step: 0,
            current_playing_note: None,
            stopping_note: None,
        }
    }
}

impl Arpeggiator {
    /// Create a new, disabled arpeggiator: one octave, pattern Up, eighth notes.
    pub fn new() -> (r: Self)
        ensures
            r@.wf(),
            r@ == (ArpView {
                enabled: false,
                division: NoteDivision::Eighth,
                pattern: ArpPattern::Up,
                octaves: 1,
                held: Seq::empty(),
                step: 0,
                playing: None,
                stopping: None,
            }),
    {
        Self::default()
    }

    /// Reset arpeggiator state.
    fn reset(&mut self)
        requires
            old(self)@.wf(),
        ensures
            final(self)@ == old(self)@.after_reset(),
    {
        self.current_step = 0;
        self.current_playing_note = None;
        self.stopping_note = None;
    }

    /// Toggle arpeggiator on/off; switching off resets the playback position.
    pub fn toggle(&mut self)
        requires
            old(self)@.wf(),
        ensures
            final(self)@.wf(),
            final(self)@ == (if old(self)@.enabled {
                ArpView { enabled: false, ..old(self)@ }.after_reset()
            } else {
                ArpView { enabled: true, ..old(self)@ }
            }),
    {
        self.enabled = !self.enabled;
        if !self.enabled {
            self.reset();
        }
    }

    /// Check if arpeggiator is enabled.
    pub fn enabled(&self) -> (r: bool)
        ensures
            r == self@.enabled,
    {
        self.enabled
    }

    /// Set enabled state; disabling resets the playback position.
    pub fn set_enabled(&mut self, enabled: bool)
        requires
            old(self)@.wf(),
        ensures
            final(self)@.wf(),
            final(self)@ == (if enabled {
                ArpView { enabled: true, ..old(self)@ }
            } else {
                ArpView { enabled: false, ..old(self)@ }.after_reset()
            }),
    {
        self.enabled = enabled;
        if !enabled {
            self.reset();
        }
    }

    /// Get division.
    pub fn division(&self) -> (r: NoteDivision)
        ensures
            r == self@.division,
    {
        self.division
    }

    /// Set division.
    pub fn set_division(&mut self, division: NoteDivision)
        requires
            old(self)@.wf(),
        ensures
            final(self)@.wf(),
            final(self)@ == (ArpView { division, ..old(self)@ }),
    {
        self.division = division;
    }

    /// Cycle to next division.
    pub fn next_division(&mut self)
        requires
            old(self)@.wf(),
        ensures
            final(self)@.wf(),
            final(self)@ == (ArpView { division: old(self)@.division.successor(), ..old(self)@ }),
    {
        self.division = self.division.next();
    }

    /// Get pattern.
    pub fn pattern(&self) -> (r: ArpPattern)
        ensures
            r == self@.pattern,
    {
        self.pattern
    }

    /// Set pattern.
    pub fn set_pattern(&mut self, pattern: ArpPattern)
        requires
            old(self)@.wf(),
        ensures
            final(self)@.wf(),
            final(self)@ == (ArpView { pattern, ..old(self)@ }),
    {
        self.pattern = pattern;
    }

    /// Cycle to next pattern.
    pub fn next_pattern(&mut self)
        requires
            old(self)@.wf(),
        ensures
            final(self)@.wf(),
            final(self)@ == (ArpView { pattern: old(self)@.pattern.successor(), ..old(self)@ }),
    {
        self.pattern = self.pattern.next();
    }

    /// Cycle to previous pattern.
    pub fn prev_pattern(&mut self)
        requires
            old(self)@.wf(),
        ensures
            final(self)@.wf(),
            final(self)@ == (ArpView { pattern: old(self)@.pattern.predecessor(), ..old(self)@ }),
    {
        self.pattern = self.pattern.prev();
    }

    /// Get octaves.
    pub fn octaves(&self) -> (r: u8)
        ensures
            r == self@.octaves,
    {
        self.octaves
    }

    /// Set octaves, clamped to 1..=4.
    pub fn set_octaves(&mut self, octaves: u8)
        requires
            old(self)@.wf(),
        ensures
            final(self)@.wf(),
            final(self)@ == (ArpView {
                octaves: if octaves < 1 { 1 } else if octaves > 4 { 4 } else { octaves as nat },
                ..old(self)@
            }),
    {
        self.octaves = if octaves < 1 {
            1
        } else if octaves > 4 {
            4
        } else {
            octaves
        };
    }

    /// Adjust octaves by `delta`, clamped to 1..=4.
    pub fn adjust_octaves(&mut self, delta: i8)
        requires
            old(self)@.wf(),
            old(self)@.octaves + delta <= i8::MAX,
        ensures
            final(self)@.wf(),
            final(self)@ == (ArpView {
                octaves: if old(self)@.octaves + delta < 1 {
                    1
                } else if old(self)@.octaves + delta > 4 {
                    4
                } else {
                    (old(self)@.octaves + delta) as nat
                },
                ..old(self)@
            }),
    {
        let sum: i8 = self.octaves as i8 + delta;
        let new_octaves: u8 = if sum < 1 {
            1
        } else if sum > 4 {
            4
        } else {
            sum as u8
        };
        self.set_octaves(new_octaves);
    }

    /// Whether `note` is among the held notes.
    fn holds(&self, note: u8) -> (r: bool)
        ensures
            r == self@.held.contains(note),
    {
        let mut i: usize = 0;
        while i < self.held_notes.len()
            invariant
                i <= self.held_notes@.len(),
                forall|k: int| 0 <= k < i ==> self.held_notes@[k] != note,
            decreases self.held_notes@.len() - i,
        {
            if self.held_notes[i] == note {
                return true;
            }
            i = i + 1;
        }
        false
    }

    /// Add a held note, unless it is held already.
    pub fn note_on(&mut self, note: u8)
        requires
            old(self)@.wf(),
        ensures
            final(self)@.wf(),
            final(self)@ == (ArpView {
                held: if old(self)@.held.contains(note) {
                    old(self)@.held
                } else {
                    old(self)@.held.push(note)
                },
                ..old(self)@
            }),
    {
        if !self.holds(note) {
            self.held_notes.push(note);
            proof {
                let h = old(self)@.held;
                assert forall|a: int, b: int|
                    0 <= a < h.push(note).len() && 0 <= b < h.push(note).len() && a != b
                    implies h.push(note)[a] != h.push(note)[b] by {
                    if a == h.len() as int {
                        assert(h.contains(h[b]));
                    } else if b == h.len() as int {
                        assert(h.contains(h[a]));
                    }
                }
            }
        }
    }

    /// Remove a held note; if it is the note sounding, it is stopped: the
    /// next tick reports it as the note to stop.
    pub fn note_off(&mut self, note: u8)
        requires
            old(self)@.wf(),
        ensures
            final(self)@.wf(),
            final(self)@ == old(self)@.after_note_off(note),
    {
        let ghost pred = not_note(note);
        let mut kept: Vec<u8> = Vec::new();
        let mut i: usize = 0;
        while i < self.held_notes.len()
            invariant
                i <= self.held_notes@.len(),
                pred == not_note(note),
                kept@ == self.held_notes@.take(i as int).filter(pred),
            decreases self.held_notes@.len() - i,
        {
            let n = self.held_notes[i];
            proof {
                reveal(Seq::filter);
                let t = self.held_notes@.take(i + 1);
                assert(t.drop_last() =~= self.held_notes@.take(i as int));
                assert(t.last() == n);
                assert(pred(n) == (n != note));
                assert(t.filter(pred) == if pred(n) { t.drop_last().filter(pred).push(n) } else { t.drop_last().filter(pred) });
            }
            if n != note {
                kept.push(n);
            }
            i = i + 1;
        }
        proof {
            assert(self.held_notes@.take(self.held_notes@.len() as int) =~= self.held_notes@);
            lemma_filter_from(self.held_notes@, pred);
        }
        self.held_notes = kept;
        if self.current_playing_note == Some(note) {
            self.current_playing_note = None;
            self.stopping_note = Some(note);
        }
    }

    /// Clear all held notes and reset the playback position.
    pub fn clear(&mut self)
        requires
            old(self)@.wf(),
        ensures
            final(self)@.wf(),
            final(self)@ == (ArpView { held: Seq::empty(), ..old(self)@ }.after_reset()),
    {
        self.held_notes.clear();
        self.reset();
    }

    /// Build the sequence of notes to play based on pattern. `Random` plays a
    /// shuffle of the held notes (in the order they were pressed) across the
    /// octaves, with a generator seeded from the clock; the other patterns
    /// play `arp_sequence`.
    pub fn build_sequence(&self) -> (r: Vec<u8>)
        requires
            self@.wf(),
        ensures
            self@.pattern != ArpPattern::Random ==> r@ == arp_sequence(
                self@.held,
                self@.pattern,
                self@.octaves,
            ),
            self@.pattern == ArpPattern::Random ==> exists|reading: Option<u128>|
                r@ == shuffled(
                    expand_octaves(self@.held, self@.octaves),
                    clock_seed(reading),
                    expand_octaves(self@.held, self@.octaves).len(),
                ),
            self@.pattern == ArpPattern::Random ==> r@.to_multiset() == expand_octaves(
                self@.held,
                self@.octaves,
            ).to_multiset(),
    {
        broadcast use group_to_multiset_ensures;

        if self.held_notes.is_empty() {
            proof {
                lemma_note_leq_total();
                lemma_expand_empty(self@.held, self@.octaves);
                let e = expand_octaves(self@.held, self@.octaves);
                e.lemma_sort_by_ensures(note_leq());
                assert(ascending(e).to_multiset().len() == 0);
                assert(ascending(e) =~= Seq::<u8>::empty());
                assert(up_then_down(ascending(e)) =~= Seq::<u8>::empty());
                assert(ascending(e).reverse() =~= Seq::<u8>::empty());
                assert(shuffled(e, clock_seed(None), e.len()) == e);
            }
            return Vec::new();
        }
        let mut sequence = expand(&self.held_notes, self.octaves);
        match self.pattern {
            ArpPattern::Up => {
                sequence = sort_notes(&sequence);
            },
            ArpPattern::Down => {
                let up = sort_notes(&sequence);
                sequence = reversed(&up);
            },
            ArpPattern::UpDown => {
                sequence = sort_notes(&sequence);
                if sequence.len() > 1 {
                    let mut down = reversed(&sequence);
                    if down.len() > 1 {
                        down.remove(0);
                    }
                    if !down.is_empty() && sequence.len() > 1 {
                        down.pop();
                    }
                    let ghost up = sequence@;
                    sequence.append(&mut down);
                    assert(sequence@ =~= up + up.reverse().subrange(1, up.len() - 1));
                }
            },
            ArpPattern::Random => {
                let mut rng = SimpleRng::new();
                shuffle(&mut sequence, &mut rng);
            },
            ArpPattern::AsPlayed => {},
        }
        sequence
    }

    /// Get the next note in the sequence and advance the position. `Random`
    /// draws a fresh shuffle every time and plays its first note.
    pub fn get_next_note(&mut self) -> (r: Option<u8>)
        requires
            old(self)@.wf(),
        ensures
            final(self)@.wf(),
            final(self)@ == (ArpView { step: final(self)@.step, ..old(self)@ }),
            old(self)@.next_note_outcome(r, final(self)@.step),
    {
        broadcast use group_to_multiset_ensures;

        let sequence = self.build_sequence();
        if sequence.len() == 0 {
            proof {
                if self@.pattern == ArpPattern::Random {
                    assert(expand_octaves(self@.held, self@.octaves).to_multiset().len() == 0);
                }
            }
            return None;
        }
        if self.pattern == ArpPattern::Random {
            let sequence = self.build_sequence();
            if sequence.len() > 0 {
                self.current_step = 0;
                proof {
                    assert(sequence@.contains(sequence@[0]));
                    assert(sequence@.to_multiset().contains(sequence@[0]));
                }
                return Some(sequence[0]);
            }
            proof {
                assert(expand_octaves(self@.held, self@.octaves).to_multiset().len() == 0);
            }
            return None;
        }
        if self.current_step >= sequence.len() {
            self.current_step = 0;
        }
        let note = sequence[self.current_step];
        self.current_step = self.current_step + 1;
        Some(note)
    }

    /// Advance the arpeggiator by one clock tick and return the note to start
    /// and the note to stop. `gate_elapsed` tells whether the sounding note
    /// has been held for its gate length, `step_elapsed` whether a step has
    /// passed. A released note that was sounding is stopped first. When the
    /// arpeggiator is off or holds no notes, the sounding note, if any, is
    /// stopped and nothing starts.
    pub fn tick(&mut self, gate_elapsed: bool, step_elapsed: bool) -> (r: (Option<u8>, Option<u8>))
        requires
            old(self)@.wf(),
        ensures
            final(self)@.wf(),
            r.1 == old(self)@.tick_off(gate_elapsed, step_elapsed),
            final(self)@.stopping is None,
            old(self)@.stopping is Some ==> r.1 == old(self)@.stopping,
            old(self)@.playing is Some && final(self)@.playing != old(self)@.playing ==> r.1
                == old(self)@.playing,
            !old(self)@.enabled || old(self)@.held.len() == 0 ==> r.0 is None
                && final(self)@ == (ArpView { playing: None, stopping: None, ..old(self)@ }),
            old(self)@.enabled && old(self)@.held.len() > 0 ==> {
                &&& final(self)@ == (ArpView {
                    step: final(self)@.step,
                    playing: final(self)@.playing,
                    stopping: None,
                    ..old(self)@
                })
                &&& step_elapsed ==> old(self)@.next_note_outcome(r.0, final(self)@.step)
                    && final(self)@.playing == r.0
                &&& !step_elapsed ==> r.0 is None && final(self)@.step == old(self)@.step
                    && final(self)@.playing == (if gate_elapsed { None } else { old(self)@.playing })
            },
    {
        let pending = self.stopping_note.take();
        if !self.enabled || self.held_notes.is_empty() {
            let playing = self.current_playing_note.take();
            let note_off = if pending.is_some() { pending } else { playing };
            return (None, note_off);
        }
        let mut note_on: Option<u8> = None;
        let mut note_off: Option<u8> = pending;
        if let Some(playing) = self.current_playing_note {
            if gate_elapsed {
                note_off = Some(playing);
                self.current_playing_note = None;
            }
        }
        if step_elapsed {
            if let Some(playing) = self.current_playing_note.take() {
                note_off = Some(playing);
            }
            if let Some(next_note) = self.get_next_note() {
                note_on = Some(next_note);
                self.current_playing_note = Some(next_note);
            }
        }
        (note_on, note_off)
    }

    /// Check if the arpeggiator has any held notes.
    pub fn has_notes(&self) -> (r: bool)
        ensures
            r == (self@.held.len() > 0),
    {
        !self.held_notes.is_empty()
    }

    /// Get the currently playing note (if any).
    pub fn current_note(&self) -> (r: Option<u8>)
        ensures
            r == self@.playing,
    {
        self.current_playing_note
    }
}

/// Expanding nothing, or expanding over no octaves, gives nothing.
pub proof fn lemma_expand_empty(base: Seq<u8>, octaves: nat)
    requires
        base.len() == 0,
    ensures
        expand_octaves(base, octaves).len() == 0,
    decreases octaves,
{
    if octaves > 0 {
        lemma_expand_empty(base, (octaves - 1) as nat);
    }
}

/// Each note of an octave layer is a note of the base moved up by `shift`,
/// and stays within the MIDI range.
pub proof fn lemma_layer_members(base: Seq<u8>, shift: int)
    requires
        shift >= 0,
    ensures
        forall|k: int|
            0 <= k < octave_layer(base, shift).len() ==> {
                &&& octave_layer(base, shift)[k] <= 127
                &&& exists|i: int|
                    0 <= i < base.len() && octave_layer(base, shift)[k] == base[i] + shift
            },
    decreases base.len(),
{
    if base.len() > 0 {
        let d = base.drop_last();
        lemma_layer_members(d, shift);
        let l = octave_layer(base, shift);
        assert forall|k: int| 0 <= k < l.len() implies {
            &&& l[k] <= 127
            &&& exists|i: int| 0 <= i < base.len() && l[k] == base[i] + shift
        } by {
            if k < octave_layer(d, shift).len() {
                let i = choose|i: int| 0 <= i < d.len() && octave_layer(d, shift)[k] == d[i] + shift;
                assert(l[k] == base[i] + shift);
            } else {
                let sub = octave_layer(d, shift);
                assert(l == if base.last() + shift <= 127 {
                    sub.push((base.last() + shift) as u8)
                } else {
                    sub
                });
                assert(base[base.len() - 1] == base.last());
                assert(l[k] == base[base.len() - 1] + shift);
            }
        }
    }
}

/// Whether `n` is note `i` of `base` moved up by `o` octaves.
pub open spec fn octave_copy(n: int, base: Seq<u8>, i: int, o: int) -> bool {
    n == base[i] + 12 * o
}

/// Law: every note that an arpeggio over `octaves` octaves plays is a note of
/// the base moved up by whole octaves, fewer than `octaves` of them, and lies
/// in the MIDI range 0..=127.
pub proof fn law_expanded_notes_come_from_held(base: Seq<u8>, octaves: nat)
    ensures
        forall|k: int|
            0 <= k < expand_octaves(base, octaves).len() ==> {
                &&& expand_octaves(base, octaves)[k] <= 127
                &&& exists|i: int, o: int|
                    0 <= i < base.len() && 0 <= o < octaves && #[trigger] octave_copy(
                        expand_octaves(base, octaves)[k] as int,
                        base,
                        i,
                        o,
                    )
            },
    decreases octaves,
{
    if octaves > 0 {
        let prev = expand_octaves(base, (octaves - 1) as nat);
        let layer = octave_layer(base, 12 * (octaves - 1));
        law_expanded_notes_come_from_held(base, (octaves - 1) as nat);
        lemma_layer_members(base, 12 * (octaves - 1));
        let e = expand_octaves(base, octaves);
        assert forall|k: int| 0 <= k < e.len() implies {
            &&& e[k] <= 127
            &&& exists|i: int, o: int| 0 <= i < base.len() && 0 <= o < octaves && #[trigger] octave_copy(e[k] as int, base, i, o)
        } by {
            if k < prev.len() {
                let (i, o) = choose|i: int, o: int|
                    0 <= i < base.len() && 0 <= o < octaves - 1 && #[trigger] octave_copy(prev[k] as int, base, i, o);
                assert(octave_copy(e[k] as int, base, i, o));
            } else {
                assert(e[k] == layer[k - prev.len()]);
                let i = choose|i: int| 0 <= i < base.len() && layer[k - prev.len()] == base[i] + 12 * (octaves - 1);
                assert(octave_copy(e[k] as int, base, i, octaves - 1));
            }
        }
    }
}

/// Law: the `Down` pattern plays the `Up` sequence backwards.
pub proof fn law_down_reverses_up(held: Seq<u8>, octaves: nat)
    ensures
        arp_sequence(held, ArpPattern::Down, octaves) == arp_sequence(held, ArpPattern::Up, octaves).reverse(),
{
}

/// Law: the `UpDown` pattern plays the `Up` sequence and then walks back down
/// without repeating the top or the bottom note, so a run of `n > 1` notes
/// lasts `2n - 2` steps.
pub proof fn law_up_down_length(held: Seq<u8>, octaves: nat)
    ensures
        arp_sequence(held, ArpPattern::UpDown, octaves) == up_then_down(arp_sequence(held, ArpPattern::Up, octaves)),
        arp_sequence(held, ArpPattern::Up, octaves).len() > 1 ==> arp_sequence(
            held,
            ArpPattern::UpDown,
            octaves,
        ).len() == 2 * arp_sequence(held, ArpPattern::Up, octaves).len() - 2,
{
}

/// Law: `Up` plays the held notes over the octaves from lowest to highest,
/// for any number of octaves; `Up`, `Down` and `AsPlayed` each play every
/// note of the held notes repeated over the octaves exactly once (the same
/// multiset).
pub proof fn law_up_ascends(held: Seq<u8>, octaves: nat)
    ensures
        sorted_by(arp_sequence(held, ArpPattern::Up, octaves), note_leq()),
        arp_sequence(held, ArpPattern::Up, octaves).to_multiset() == expand_octaves(held, octaves).to_multiset(),
        arp_sequence(held, ArpPattern::Down, octaves).to_multiset() == expand_octaves(held, octaves).to_multiset(),
        arp_sequence(held, ArpPattern::AsPlayed, octaves).to_multiset() == expand_octaves(held, octaves).to_multiset(),
{
    lemma_note_leq_total();
    let e = expand_octaves(held, octaves);
    e.lemma_sort_by_ensures(note_leq());
    ascending(e).lemma_reverse_to_multiset();
}

/// Law: releasing the note that is sounding makes the next tick stop it,
/// whether or not its gate time or its step is over.
pub proof fn law_released_note_is_stopped(v: ArpView, note: u8, gate_elapsed: bool, step_elapsed: bool)
    requires
        v.wf(),
        v.playing == Some(note),
    ensures
        v.after_note_off(note).tick_off(gate_elapsed, step_elapsed) == Some(note),
        v.after_note_off(note).playing is None,
{
}

/// Law: pressing a note that is not held and releasing it again leaves the
/// held notes as they were.
pub proof fn law_note_on_then_off(held: Seq<u8>, note: u8)
    requires
        !held.contains(note),
    ensures
        without_note(held.push(note), note) == held,
    decreases held.len(),
{
    reveal(Seq::filter);
    lemma_filter_keeps_all(held, note);
    assert(held.push(note).drop_last() =~= held);
}

/// Filtering out a note that does not occur keeps the sequence.
proof fn lemma_filter_keeps_all(s: Seq<u8>, note: u8)
    requires
        !s.contains(note),
    ensures
        without_note(s, note) == s,
    decreases s.len(),
{
    reveal(Seq::filter);
    if s.len() > 0 {
        assert(!s.drop_last().contains(note)) by {
            if s.drop_last().contains(note) {
                let k = choose|k: int| 0 <= k < s.drop_last().len() && s.drop_last()[k] == note;
                assert(s[k] == note);
            }
        }
        lemma_filter_keeps_all(s.drop_last(), note);
        assert(s.last() != note) by {
            assert(s[s.len() - 1] == s.last());
        }
        assert(s.drop_last().push(s.last()) =~= s);
    }
}

/// Law: five pattern steps and six division steps come back to where they
/// started, visiting every other value on the way; a pattern step back
/// undoes a step forward.
pub proof fn law_pattern_and_division_cycles(p: ArpPattern, d: NoteDivision)
    ensures
        p.successor().predecessor() == p,
        p.predecessor().successor() == p,
        p.successor().successor().successor().successor().successor() == p,
        p.successor() != p,
        p.successor().successor() != p,
        p.successor().successor().successor() != p,
        p.successor().successor().successor().successor() != p,
        d.successor().successor().successor().successor().successor().successor() == d,
        d.successor() != d,
        d.successor().successor() != d,
        d.successor().successor().successor() != d,
        d.successor().successor().successor().successor() != d,
        d.successor().successor().successor().successor().successor() != d,
{
}

/// The position after `k` notes have been drawn from `seq`, starting at the
/// first step.
pub open spec fn step_after(seq: Seq<u8>, k: nat) -> nat
    decreases k,
{
    if k == 0 {
        0
    } else {
        seq_pick(seq, step_after(seq, (k - 1) as nat)).1
    }
}

/// The note drawn from `seq` after `k` notes have been drawn, starting at
/// the first step.
pub open spec fn note_after(seq: Seq<u8>, k: nat) -> Option<u8> {
    seq_pick(seq, step_after(seq, k)).0
}

/// Law: drawing notes one after another from the first step walks the
/// sequence in order and starts over after its last note: the `k`-th note
/// drawn is the note at `k` modulo the length.
pub proof fn law_sequence_cycles(seq: Seq<u8>, k: nat)
    requires
        seq.len() > 0,
    ensures
        step_after(seq, k) == (if k == 0 { 0 } else { (((k - 1) as int) % (seq.len() as int)) + 1 }),
        note_after(seq, k) == Some(seq[(k as int) % (seq.len() as int)]),
    decreases k,
{
    let n = seq.len() as int;
    if k > 0 {
        law_sequence_cycles(seq, (k - 1) as nat);
        if k == 1 {
            vstd::arithmetic::div_mod::lemma_small_mod(0, n as nat);
        } else {
            let r = (k - 2) % n;
            vstd::arithmetic::div_mod::lemma_fundamental_div_mod((k - 2) as int, n);
            let q = (k - 2) / n;
            vstd::arithmetic::div_mod::lemma_mod_pos_bound((k - 2) as int, n);
            if r + 1 < n {
                vstd::arithmetic::div_mod::lemma_fundamental_div_mod_converse_mod((k - 1) as int, n, q, r + 1);
            } else {
                assert((k - 1) as int == (q + 1) * n + 0) by (nonlinear_arith)
                    requires
                        (k - 2) as int == q * n + r,
                        r + 1 == n,
                ;
                vstd::arithmetic::div_mod::lemma_fundamental_div_mod_converse_mod((k - 1) as int, n, q + 1, 0);
            }
        }
    }
    if k == 0 {
        vstd::arithmetic::div_mod::lemma_small_mod(0, n as nat);
    } else {
        let r = (k - 1) % n;
        vstd::arithmetic::div_mod::lemma_fundamental_div_mod((k - 1) as int, n);
        let q = (k - 1) / n;
        vstd::arithmetic::div_mod::lemma_mod_pos_bound((k - 1) as int, n);
        if r + 1 < n {
            vstd::arithmetic::div_mod::lemma_fundamental_div_mod_converse_mod(k as int, n, q, r + 1);
        } else {
            assert(k as int == (q + 1) * n + 0) by (nonlinear_arith)
                requires
                    (k - 1) as int == q * n + r,
                    r + 1 == n,
            ;
            vstd::arithmetic::div_mod::lemma_fundamental_div_mod_converse_mod(k as int, n, q + 1, 0);
        }
    }
}

/// Law: when the last held key is released, the next tick stops the note
/// the arpeggiator is sounding, whether that is the released note or
/// another note of the pattern, and whatever the timing flags say; nothing
/// is left sounding.
pub proof fn law_releasing_last_key_stops_sound(v: ArpView, note: u8, gate_elapsed: bool, step_elapsed: bool)
    requires
        v.wf(),
        v.held == seq![note],
        v.playing is Some,
    ensures
        v.after_note_off(note).held.len() == 0,
        v.after_note_off(note).tick_off(gate_elapsed, step_elapsed) == v.playing,
{
    reveal(Seq::filter);
    assert(seq![note].drop_last() =~= Seq::<u8>::empty());
    assert(Seq::<u8>::empty().filter(not_note(note)) =~= Seq::<u8>::empty());
    assert(!not_note(note)(note));
    assert(seq![note].last() == note);
    assert(without_note(v.held, note) =~= Seq::<u8>::empty());
}

/// Law: a tick with the arpeggiator off or with no key held reports as
/// stopped the note that was still to be stopped or, failing that, the note
/// that was sounding; no sounding note goes unreported.
pub proof fn law_idle_tick_stops_what_sounds(v: ArpView, gate_elapsed: bool, step_elapsed: bool)
    requires
        v.wf(),
        !v.enabled || v.held.len() == 0,
    ensures
        v.stopping is Some ==> v.tick_off(gate_elapsed, step_elapsed) == v.stopping,
        v.playing is Some ==> v.tick_off(gate_elapsed, step_elapsed) == v.playing,
        v.playing is None && v.stopping is None ==> v.tick_off(gate_elapsed, step_elapsed) is None,
{
}

} // verus!
