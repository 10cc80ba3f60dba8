//! The notes held on the computer keyboard, with the time each was last
//! pressed. Terminals without key-release events never report a release, so
//! a note held longer than a fixed time is released on the next tick.
use std::collections::HashMap;
use std::collections::HashSet;
use vstd::prelude::*;

verus! {

broadcast use vstd::std_specs::hash::group_hash_axioms;

/// How long to hold a note before auto-release (for terminals without key
/// release support), in milliseconds.
pub const NOTE_AUTO_RELEASE_MS: u64 = 200;

/// Number of distinct note values.
pub const NOTE_SLOTS: usize = 256;

/// Whether the note `n`, held as `v` records it, is due for auto-release at
/// time `now`.
pub open spec fn is_expired(v: Map<u8, u64>, n: u8, now: u64) -> bool {
    v.contains_key(n) && now > v[n] + NOTE_AUTO_RELEASE_MS
}

/// The notes of `v` that are not yet due at time `now`.
pub open spec fn kept(v: Map<u8, u64>, now: u64) -> Map<u8, u64> {
    Map::new(|n: u8| v.contains_key(n) && !is_expired(v, n, now), |n: u8| v[n])
}

/// `s` lists exactly the notes of `v` due at time `now`, in increasing
/// order.
pub open spec fn lists_expired(s: Seq<u8>, v: Map<u8, u64>, now: u64) -> bool {
    &&& forall|n: u8| s.contains(n) <==> is_expired(v, n, now)
    &&& forall|i: int, j: int| 0 <= i < j < s.len() ==> s[i] < s[j]
}

/// Held notes and their press times (milliseconds on a monotonic clock).
pub struct HeldNotes {
    shown: HashSet<u8>,
    pressed: HashMap<u8, u64>,
}

impl View for HeldNotes {
    type V = Map<u8, u64>;

    closed spec fn view(&self) -> Map<u8, u64> {
        self.pressed@
    }
}

impl HeldNotes {
    /// The set of notes is the set of notes with a press time.
    pub closed spec fn wf(&self) -> bool {
        self.shown@ == self.pressed@.dom()
    }

    /// No note held.
    pub fn new() -> (r: Self)
        ensures
            r.wf(),
            r@ == Map::<u8, u64>::empty(),
    {
        let r = HeldNotes { shown: HashSet::new(), pressed: HashMap::new() };
        assert(r.shown@ =~= r.pressed@.dom());
        r
    }

    /// The held notes, as a set.
    pub fn notes(&self) -> (r: &HashSet<u8>)
        requires
            self.wf(),
        ensures
            r@ == self@.dom(),
    {
        &self.shown
    }

    /// Whether `note` is held.
    pub fn contains(&self, note: u8) -> (r: bool)
        requires
            self.wf(),
        ensures
            r == self@.contains_key(note),
    {
        self.pressed.contains_key(&note)
    }

    /// When `note` was last pressed, if it is held.
    pub fn pressed_at(&self, note: u8) -> (r: Option<u64>)
        requires
            self.wf(),
        ensures
            r == (if self@.contains_key(note) { Some(self@[note]) } else { None::<u64> }),
    {
        match self.pressed.get(&note) {
            Some(t) => Some(*t),
            None => None,
        }
    }

    /// Record that `note` was pressed at time `now`.
    pub fn press(&mut self, note: u8, now: u64)
        requires
            old(self).wf(),
        ensures
            final(self).wf(),
            final(self)@ == old(self)@.insert(note, now),
    {
        self.pressed.insert(note, now);
        self.shown.insert(note);
        assert(self.shown@ =~= self.pressed@.dom());
    }

    /// Forget `note`.
    pub fn release(&mut self, note: u8)
        requires
            old(self).wf(),
        ensures
            final(self).wf(),
            final(self)@ == old(self)@.remove(note),
    {
        self.pressed.remove(&note);
        self.shown.remove(&note);
        assert(self.shown@ =~= self.pressed@.dom());
    }

    /// Forget every note.
    pub fn clear(&mut self)
        requires
            old(self).wf(),
        ensures
            final(self).wf(),
            final(self)@ == Map::<u8, u64>::empty(),
    {
        self.pressed.clear();
        self.shown.clear();
        assert(self.shown@ =~= self.pressed@.dom());
    }

    /// The held notes due for auto-release at time `now`, in increasing
    /// order.
    pub fn expired(&self, now: u64) -> (r: Vec<u8>)
        requires
            self.wf(),
        ensures
            lists_expired(r@, self@, now),
    {
        let mut out: Vec<u8> = Vec::new();
        let mut i: usize = 0;
        while i < NOTE_SLOTS
            invariant
                i <= NOTE_SLOTS,
                self.wf(),
                out@ == expired_below(self@, now, i as nat),
            decreases NOTE_SLOTS - i,
        {
            let n: u8 = i as u8;
            if let Some(t) = self.pressed_at(n) {
                if now > t && now - t > NOTE_AUTO_RELEASE_MS {
                    out.push(n);
                }
            }
            i = i + 1;
        }
        proof {
            lemma_expired_below(self@, now, NOTE_SLOTS as nat);
        }
        out
    }

    /// Release and return the held notes due for auto-release at time
    /// `now`, in increasing order. This is the auto-release step of the
    /// application's tick while the arpeggiator is off: each note returned
    /// gets a note-off.
    pub fn release_expired(&mut self, now: u64) -> (r: Vec<u8>)
        requires
            old(self).wf(),
        ensures
            final(self).wf(),
            lists_expired(r@, old(self)@, now),
            final(self)@ == kept(old(self)@, now),
    {
        let due = self.expired(now);
        let ghost start = self@;
        let mut i: usize = 0;
        while i < NOTE_SLOTS
            invariant
                i <= NOTE_SLOTS,
                self.wf(),
                self@ == released_below(start, now, i as nat),
            decreases NOTE_SLOTS - i,
        {
            let n: u8 = i as u8;
            let ghost before = self@;
            assert(n as int == i as int);
            assert(before.contains_key(n) == start.contains_key(n));
            assert(before.contains_key(n) ==> before[n] == start[n]);
            let slot = self.pressed_at(n);
            if let Some(t) = slot {
                if now > t && now - t > NOTE_AUTO_RELEASE_MS {
                    self.release(n);
                    assert(self@ =~= released_below(start, now, (i + 1) as nat));
                } else {
                    assert(self@ =~= released_below(start, now, (i + 1) as nat));
                }
            } else {
                assert(self@ =~= released_below(start, now, (i + 1) as nat));
            }
            i = i + 1;
        }
        proof {
            assert(self@ =~= kept(start, now));
        }
        due
    }
}

/// `v` after releasing the due notes below `i`.
pub open spec fn released_below(v: Map<u8, u64>, now: u64, i: nat) -> Map<u8, u64> {
    Map::new(|n: u8| v.contains_key(n) && !(n < i && is_expired(v, n, now)), |n: u8| v[n])
}

/// The notes below `i` due for auto-release at time `now`, in increasing
/// order.
pub open spec fn expired_below(v: Map<u8, u64>, now: u64, i: nat) -> Seq<u8>
    decreases i,
{
    if i == 0 {
        Seq::empty()
    } else {
        let n = (i - 1) as u8;
        let rest = expired_below(v, now, (i - 1) as nat);
        if is_expired(v, n, now) {
            rest.push(n)
        } else {
            rest
        }
    }
}

/// The notes listed below `i` are exactly the due notes below `i`, in
/// increasing order.
pub proof fn lemma_expired_below(v: Map<u8, u64>, now: u64, i: nat)
    requires
        i <= NOTE_SLOTS,
    ensures
        forall|n: u8| expired_below(v, now, i).contains(n) <==> (n < i && is_expired(v, n, now)),
        forall|a: int, b: int|
            0 <= a < b < expired_below(v, now, i).len() ==> expired_below(v, now, i)[a]
                < expired_below(v, now, i)[b],
        forall|a: int|
            0 <= a < expired_below(v, now, i).len() ==> expired_below(v, now, i)[a] < i,
    decreases i,
{
    if i > 0 {
        lemma_expired_below(v, now, (i - 1) as nat);
        let n = (i - 1) as u8;
        let rest = expired_below(v, now, (i - 1) as nat);
        if is_expired(v, n, now) {
            assert forall|m: u8| rest.push(n).contains(m) <==> (m < i && is_expired(v, m, now)) by {
                if rest.push(n).contains(m) && m != n {
                    let k = choose|k: int| 0 <= k < rest.push(n).len() && rest.push(n)[k] == m;
                    assert(rest[k] == m);
                }
                if m < i && is_expired(v, m, now) && m != n {
                    assert(rest.contains(m));
                    let k = choose|k: int| 0 <= k < rest.len() && rest[k] == m;
                    assert(rest.push(n)[k] == m);
                }
                if m == n {
                    assert(rest.push(n)[rest.len() as int] == n);
                }
            }
        }
    }
}

/// Law: a note pressed at `t` is released by the first tick later than
/// `t` plus the hold time, and by no earlier tick; a tick releases nothing
/// else.
pub proof fn law_auto_release_after_hold_time(v: Map<u8, u64>, note: u8, t: u64, now: u64)
    ensures
        is_expired(v.insert(note, t), note, now) <==> now > t + NOTE_AUTO_RELEASE_MS,
        !v.contains_key(note) ==> !is_expired(v, note, now),
{
}

/// Law: a tick at `now` keeps exactly the held notes pressed no more than
/// the hold time ago, with their press times, and releases the others.
pub proof fn law_tick_keeps_recent_notes(v: Map<u8, u64>, now: u64, n: u8)
    ensures
        kept(v, now).contains_key(n) <==> (v.contains_key(n) && now <= v[n] + NOTE_AUTO_RELEASE_MS),
        kept(v, now).contains_key(n) ==> kept(v, now)[n] == v[n],
        v.contains_key(n) ==> (kept(v, now).contains_key(n) != is_expired(v, n, now)),
{
}

/// Law: pressing a note and then releasing it leaves the held notes as they
/// were without it.
pub proof fn law_press_then_release(v: Map<u8, u64>, note: u8, t: u64)
    ensures
        v.insert(note, t).remove(note) == v.remove(note),
{
    assert(v.insert(note, t).remove(note) =~= v.remove(note));
}

} // verus!
