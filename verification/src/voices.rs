//! Voice allocation of the polyphonic engine: which voice a new note takes,
//! which voices a released note lets go, and how an envelope moves through
//! its stages.
use vstd::prelude::*;

verus! {

/// ADSR envelope state of a voice.
#[derive(Debug, Clone, Copy, PartialEq, Eq, Structural)]
pub enum EnvelopeState {
    Idle,
    Attack,
    Decay,
    Sustain,
    Release,
}

/// What allocation reads of a voice. `level_key` orders voices by their
/// envelope level: a smaller key is a quieter voice.
#[derive(Debug, Clone, Copy, PartialEq, Eq, Structural)]
pub struct VoiceSlot {
    pub note: u8,
    pub active: bool,
    pub envelope: EnvelopeState,
    pub level_key: u32,
}

/// A voice that is neither held nor still sounding out.
pub open spec fn is_free(v: VoiceSlot) -> bool {
    !v.active && v.envelope == EnvelopeState::Idle
}

/// Index `i` holds the first free voice of `s`.
pub open spec fn is_first_free(s: Seq<VoiceSlot>, i: int) -> bool {
    &&& 0 <= i < s.len()
    &&& is_free(s[i])
    &&& forall|j: int| 0 <= j < i ==> !is_free(#[trigger] s[j])
}

/// Index `i` holds the first of the quietest voices of `s`.
pub open spec fn is_first_quietest(s: Seq<VoiceSlot>, i: int) -> bool {
    &&& 0 <= i < s.len()
    &&& forall|j: int| 0 <= j < s.len() ==> s[i].level_key <= (#[trigger] s[j]).level_key
    &&& forall|j: int| 0 <= j < i ==> s[i].level_key < (#[trigger] s[j]).level_key
}

/// The voice a new note takes: the first free voice; when none is free, the
/// quietest one (the first of them on a tie) is stolen; an empty pool gives 0.
pub open spec fn chosen_voice(s: Seq<VoiceSlot>, i: int) -> bool {
    if exists|k: int| 0 <= k < s.len() && is_free(#[trigger] s[k]) {
        is_first_free(s, i)
    } else if s.len() > 0 {
        is_first_quietest(s, i)
    } else {
        i == 0
    }
}

/// Find the voice that a new note takes over.
pub fn find_voice(voices: &[VoiceSlot]) -> (r: usize)
    ensures
        chosen_voice(voices@, r as int),
{
    let n = voices.len();
    let mut i: usize = 0;
    while i < n
        invariant
            n == voices@.len(),
            i <= n,
            forall|j: int| 0 <= j < i ==> !is_free(#[trigger] voices@[j]),
        decreases n - i,
    {
        let v = voices[i];
        if !v.active && v.envelope == EnvelopeState::Idle {
            return i;
        }
        i = i + 1;
    }
    if n == 0 {
        return 0;
    }
    let mut best: usize = 0;
    let mut k: usize = 1;
    while k < n
        invariant
            n == voices@.len(),
            1 <= k <= n,
            best < k,
            forall|j: int| 0 <= j < k ==> voices@[best as int].level_key <= (#[trigger] voices@[j]).level_key,
            forall|j: int| 0 <= j < best ==> voices@[best as int].level_key < (#[trigger] voices@[j]).level_key,
        decreases n - k,
    {
        if voices[k].level_key < voices[best].level_key {
            best = k;
        }
        k = k + 1;
    }
    best
}

/// A note-off for `note` releases this voice.
pub open spec fn releases(v: VoiceSlot, note: u8) -> bool {
    v.active && v.note == note && v.envelope != EnvelopeState::Release
}

/// Whether releasing `note` moves this voice into its release stage.
pub fn is_released_by(voice: &VoiceSlot, note: u8) -> (r: bool)
    ensures
        r == releases(*voice, note),
{
    voice.active && voice.note == note && voice.envelope != EnvelopeState::Release
}

/// The stage after one envelope step, given whether the level reached the
/// end of the current stage (full level in the attack, the sustain level in
/// the decay, silence in the release). Idle and sustain hold.
pub open spec fn next_stage(stage: EnvelopeState, reached: bool) -> EnvelopeState {
    match stage {
        EnvelopeState::Attack => if reached { EnvelopeState::Decay } else { EnvelopeState::Attack },
        EnvelopeState::Decay => if reached { EnvelopeState::Sustain } else { EnvelopeState::Decay },
        EnvelopeState::Release => if reached { EnvelopeState::Idle } else { EnvelopeState::Release },
        other => other,
    }
}

/// Move an envelope on by one step.
pub fn advance_stage(stage: EnvelopeState, reached: bool) -> (r: EnvelopeState)
    ensures
        r == next_stage(stage, reached),
{
    match stage {
        EnvelopeState::Attack => if reached { EnvelopeState::Decay } else { EnvelopeState::Attack },
        EnvelopeState::Decay => if reached { EnvelopeState::Sustain } else { EnvelopeState::Decay },
        EnvelopeState::Release => if reached { EnvelopeState::Idle } else { EnvelopeState::Release },
        other => other,
    }
}

/// Order of the stages of a held note: attack, decay, sustain.
pub open spec fn held_rank(stage: EnvelopeState) -> int {
    match stage {
        EnvelopeState::Attack => 0,
        EnvelopeState::Decay => 1,
        EnvelopeState::Sustain => 2,
        EnvelopeState::Release => 3,
        EnvelopeState::Idle => 4,
    }
}

/// Law: an envelope step never goes back: a held note moves from attack to
/// decay to sustain and stays there, a released one moves to idle and stays
/// there, and a held note is never released by a step (only a note-off
/// releases it).
pub proof fn law_stages_move_forward(stage: EnvelopeState, reached: bool)
    ensures
        held_rank(next_stage(stage, reached)) >= held_rank(stage),
        held_rank(next_stage(stage, reached)) <= held_rank(stage) + 1,
        stage != EnvelopeState::Release ==> next_stage(stage, reached) != EnvelopeState::Idle
            || stage == EnvelopeState::Idle,
        stage == EnvelopeState::Sustain ==> next_stage(stage, reached) == stage,
        stage == EnvelopeState::Idle ==> next_stage(stage, reached) == stage,
{
}

/// Law: a pool with at least one voice always gives a new note one of its
/// voices.
pub proof fn law_chosen_voice_in_pool(s: Seq<VoiceSlot>, i: int)
    requires
        chosen_voice(s, i),
        s.len() > 0,
    ensures
        0 <= i < s.len(),
{
}

/// Law: when some voice is free, the chosen voice is free, so a sounding
/// voice is only ever stolen from a pool with no free voice.
pub proof fn law_free_voice_before_stealing(s: Seq<VoiceSlot>, i: int)
    requires
        chosen_voice(s, i),
        exists|k: int| 0 <= k < s.len() && is_free(#[trigger] s[k]),
    ensures
        0 <= i < s.len(),
        is_free(s[i]),
{
}

} // verus!
