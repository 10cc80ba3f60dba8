//! Preset bookkeeping: the serialisable selector types, the list of
//! presets found on disk kept in name order, and the selection in it.
use crate::sound::DistortionType;
use crate::sound::FilterType;
use crate::keyboard::ascii_lower;
use std::path::PathBuf;
use vstd::prelude::*;
use vstd::arithmetic::div_mod::lemma_mod_self_0;
use vstd::arithmetic::div_mod::lemma_small_mod;
use vstd::std_specs::convert::FromSpecImpl;
use vstd::std_specs::convert::FromSpec;

verus! {

/// Serializable waveform type
#[derive(Debug, Clone, Copy, PartialEq, Eq, Structural)]
pub enum WaveformSer {
    Sine,
    Triangle,
    Sawtooth,
    Square,
}

impl WaveformSer {
    /// Display name of this variant.
    pub open spec fn label(self) -> Seq<char> {
        match self {
            WaveformSer::Sine => seq!['s', 'i', 'n', 'e'],
            WaveformSer::Triangle => seq!['t', 'r', 'i', 'a', 'n', 'g', 'l', 'e'],
            WaveformSer::Sawtooth => seq!['s', 'a', 'w', 't', 'o', 'o', 't', 'h'],
            WaveformSer::Square => seq!['s', 'q', 'u', 'a', 'r', 'e'],
        }
    }

    /// Name of this variant in a preset file.
    pub fn name(&self) -> (r: &'static str)
        ensures
            r@ == self.label(),
    {
        proof {
            reveal_strlit("sine");
            reveal_strlit("triangle");
            reveal_strlit("sawtooth");
            reveal_strlit("square");
        }
        match self {
            WaveformSer::Sine => "sine",
            WaveformSer::Triangle => "triangle",
            WaveformSer::Sawtooth => "sawtooth",
            WaveformSer::Square => "square",
        }
    }
}

/// Serializable filter type
#[derive(Debug, Clone, Copy, PartialEq, Eq, Structural)]
pub enum FilterTypeSer {
    Lowpass,
    Highpass,
    Bandpass,
    Notch,
}

impl FilterTypeSer {
    /// Display name of this variant.
    pub open spec fn label(self) -> Seq<char> {
        match self {
            FilterTypeSer::Lowpass => seq!['l', 'o', 'w', 'p', 'a', 's', 's'],
            FilterTypeSer::Highpass => seq!['h', 'i', 'g', 'h', 'p', 'a', 's', 's'],
            FilterTypeSer::Bandpass => seq!['b', 'a', 'n', 'd', 'p', 'a', 's', 's'],
            FilterTypeSer::Notch => seq!['n', 'o', 't', 'c', 'h'],
        }
    }

    /// Name of this variant in a preset file.
    pub fn name(&self) -> (r: &'static str)
        ensures
            r@ == self.label(),
    {
        proof {
            reveal_strlit("lowpass");
            reveal_strlit("highpass");
            reveal_strlit("bandpass");
            reveal_strlit("notch");
        }
        match self {
            FilterTypeSer::Lowpass => "lowpass",
            FilterTypeSer::Highpass => "highpass",
            FilterTypeSer::Bandpass => "bandpass",
            FilterTypeSer::Notch => "notch",
        }
    }
}

/// Serializable distortion type
#[derive(Debug, Clone, Copy, PartialEq, Eq, Structural)]
pub enum DistortionTypeSer {
    SoftClip,
    HardClip,
    Tanh,
    Foldback,
}

impl DistortionTypeSer {
    /// Display name of this variant.
    pub open spec fn label(self) -> Seq<char> {
        match self {
            DistortionTypeSer::SoftClip => seq!['s', 'o', 'f', 't', 'c', 'l', 'i', 'p'],
            DistortionTypeSer::HardClip => seq!['h', 'a', 'r', 'd', 'c', 'l', 'i', 'p'],
            DistortionTypeSer::Tanh => seq!['t', 'a', 'n', 'h'],
            DistortionTypeSer::Foldback => seq!['f', 'o', 'l', 'd', 'b', 'a', 'c', 'k'],
        }
    }

    /// Name of this variant in a preset file.
    pub fn name(&self) -> (r: &'static str)
        ensures
            r@ == self.label(),
    {
        proof {
            reveal_strlit("softclip");
            reveal_strlit("hardclip");
            reveal_strlit("tanh");
            reveal_strlit("foldback");
        }
        match self {
            DistortionTypeSer::SoftClip => "softclip",
            DistortionTypeSer::HardClip => "hardclip",
            DistortionTypeSer::Tanh => "tanh",
            DistortionTypeSer::Foldback => "foldback",
        }
    }
}

impl FromSpecImpl<FilterType> for FilterTypeSer {
    open spec fn obeys_from_spec() -> bool {
        true
    }

    open spec fn from_spec(v: FilterType) -> FilterTypeSer {
        match v {
            FilterType::LowPass => FilterTypeSer::Lowpass,
            FilterType::HighPass => FilterTypeSer::Highpass,
            FilterType::BandPass => FilterTypeSer::Bandpass,
            FilterType::Notch => FilterTypeSer::Notch,
        }
    }
}

impl From<FilterType> for FilterTypeSer {
    /// The stored form of a filter type.
    fn from(v: FilterType) -> (r: FilterTypeSer) {
        match v {
            FilterType::LowPass => FilterTypeSer::Lowpass,
            FilterType::HighPass => FilterTypeSer::Highpass,
            FilterType::BandPass => FilterTypeSer::Bandpass,
            FilterType::Notch => FilterTypeSer::Notch,
        }
    }
}

impl FromSpecImpl<FilterTypeSer> for FilterType {
    open spec fn obeys_from_spec() -> bool {
        true
    }

    open spec fn from_spec(v: FilterTypeSer) -> FilterType {
        match v {
            FilterTypeSer::Lowpass => FilterType::LowPass,
            FilterTypeSer::Highpass => FilterType::HighPass,
            FilterTypeSer::Bandpass => FilterType::BandPass,
            FilterTypeSer::Notch => FilterType::Notch,
        }
    }
}

impl From<FilterTypeSer> for FilterType {
    /// The filter type that a stored value names.
    fn from(v: FilterTypeSer) -> (r: FilterType) {
        match v {
            FilterTypeSer::Lowpass => FilterType::LowPass,
            FilterTypeSer::Highpass => FilterType::HighPass,
            FilterTypeSer::Bandpass => FilterType::BandPass,
            FilterTypeSer::Notch => FilterType::Notch,
        }
    }
}

impl FromSpecImpl<DistortionType> for DistortionTypeSer {
    open spec fn obeys_from_spec() -> bool {
        true
    }

    open spec fn from_spec(v: DistortionType) -> DistortionTypeSer {
        match v {
            DistortionType::SoftClip => DistortionTypeSer::SoftClip,
            DistortionType::HardClip => DistortionTypeSer::HardClip,
            DistortionType::Tanh => DistortionTypeSer::Tanh,
            DistortionType::Foldback => DistortionTypeSer::Foldback,
        }
    }
}

impl From<DistortionType> for DistortionTypeSer {
    /// The stored form of a distortion curve.
    fn from(v: DistortionType) -> (r: DistortionTypeSer) {
        match v {
            DistortionType::SoftClip => DistortionTypeSer::SoftClip,
            DistortionType::HardClip => DistortionTypeSer::HardClip,
            DistortionType::Tanh => DistortionTypeSer::Tanh,
            DistortionType::Foldback => DistortionTypeSer::Foldback,
        }
    }
}

impl FromSpecImpl<DistortionTypeSer> for DistortionType {
    open spec fn obeys_from_spec() -> bool {
        true
    }

    open spec fn from_spec(v: DistortionTypeSer) -> DistortionType {
        match v {
            DistortionTypeSer::SoftClip => DistortionType::SoftClip,
            DistortionTypeSer::HardClip => DistortionType::HardClip,
            DistortionTypeSer::Tanh => DistortionType::Tanh,
            DistortionTypeSer::Foldback => DistortionType::Foldback,
        }
    }
}

impl From<DistortionTypeSer> for DistortionType {
    /// The distortion curve that a stored value names.
    fn from(v: DistortionTypeSer) -> (r: DistortionType) {
        match v {
            DistortionTypeSer::SoftClip => DistortionType::SoftClip,
            DistortionTypeSer::HardClip => DistortionType::HardClip,
            DistortionTypeSer::Tanh => DistortionType::Tanh,
            DistortionTypeSer::Foldback => DistortionType::Foldback,
        }
    }
}

/// `s` in ASCII lowercase.
pub open spec fn lowercase_ascii(s: Seq<char>) -> Seq<char> {
    s.map_values(|c: char| ascii_lower(c))
}

/// What storing filter type `t` in a preset writes (the `From` conversion).
pub open spec fn stored_filter_type(t: FilterType) -> FilterTypeSer {
    <FilterTypeSer as FromSpec<FilterType>>::from_spec(t)
}

/// The filter type that loading the stored value `s` gives.
pub open spec fn loaded_filter_type(s: FilterTypeSer) -> FilterType {
    <FilterType as FromSpec<FilterTypeSer>>::from_spec(s)
}

/// What storing distortion curve `d` in a preset writes.
pub open spec fn stored_distortion_type(d: DistortionType) -> DistortionTypeSer {
    <DistortionTypeSer as FromSpec<DistortionType>>::from_spec(d)
}

/// The distortion curve that loading the stored value `s` gives.
pub open spec fn loaded_distortion_type(s: DistortionTypeSer) -> DistortionType {
    <DistortionType as FromSpec<DistortionTypeSer>>::from_spec(s)
}

/// Law: a preset stores a filter type under that type's own name, spelled
/// out in lowercase. The stored name starts with the first letter of the
/// type's display name; a type shown by a two-letter abbreviation ending in
/// P (LP, HP, BP) is stored as a name ending in "pass", and a type shown in
/// full is stored as its display name in lowercase. Loading a stored name
/// gives the type whose display name starts with that letter, and storing
/// then loading gives back the type.
pub proof fn law_stored_filter_type_is_named_after_it(t: FilterType, s: FilterTypeSer)
    ensures
        stored_filter_type(t).label()[0] == ascii_lower(t.label()[0]),
        t.label().len() == 2 ==> t.label()[1] == 'P' && stored_filter_type(t).label().skip(
            stored_filter_type(t).label().len() - 4,
        ) == seq!['p', 'a', 's', 's'],
        t.label().len() > 2 ==> stored_filter_type(t).label() == lowercase_ascii(t.label()),
        ascii_lower(loaded_filter_type(s).label()[0]) == s.label()[0],
        loaded_filter_type(stored_filter_type(t)) == t,
{
    assert(lowercase_ascii(seq!['N', 'o', 't', 'c', 'h']) =~= seq!['n', 'o', 't', 'c', 'h']);
    assert(seq!['l', 'o', 'w', 'p', 'a', 's', 's'].skip(3) =~= seq!['p', 'a', 's', 's']);
    assert(seq!['h', 'i', 'g', 'h', 'p', 'a', 's', 's'].skip(4) =~= seq!['p', 'a', 's', 's']);
    assert(seq!['b', 'a', 'n', 'd', 'p', 'a', 's', 's'].skip(4) =~= seq!['p', 'a', 's', 's']);
}

/// Law: a preset stores a distortion curve under a name that begins with
/// the curve's display name in lowercase (Soft as "softclip", Fold as
/// "foldback"); loading a stored name gives the curve whose display name it
/// begins with, and storing then loading gives back the curve.
pub proof fn law_stored_distortion_type_is_named_after_it(d: DistortionType, s: DistortionTypeSer)
    ensures
        lowercase_ascii(d.label()).is_prefix_of(stored_distortion_type(d).label()),
        lowercase_ascii(loaded_distortion_type(s).label()).is_prefix_of(s.label()),
        loaded_distortion_type(stored_distortion_type(d)) == d,
{
    assert(lowercase_ascii(seq!['S', 'o', 'f', 't']) =~= seq!['s', 'o', 'f', 't']);
    assert(lowercase_ascii(seq!['H', 'a', 'r', 'd']) =~= seq!['h', 'a', 'r', 'd']);
    assert(lowercase_ascii(seq!['T', 'a', 'n', 'h']) =~= seq!['t', 'a', 'n', 'h']);
    assert(lowercase_ascii(seq!['F', 'o', 'l', 'd']) =~= seq!['f', 'o', 'l', 'd']);
}

/// Lexicographic order on names, character by character (which is the order
/// of `str::cmp`, since UTF-8 keeps the order of code points).
pub open spec fn name_le(a: Seq<char>, b: Seq<char>) -> bool
    decreases a.len(),
{
    if a.len() == 0 {
        true
    } else if b.len() == 0 {
        false
    } else if a[0] != b[0] {
        (a[0] as int) < (b[0] as int)
    } else {
        name_le(a.drop_first(), b.drop_first())
    }
}

/// Every name is ordered before itself.
pub proof fn lemma_name_le_reflexive(a: Seq<char>)
    ensures
        name_le(a, a),
    decreases a.len(),
{
    if a.len() > 0 {
        lemma_name_le_reflexive(a.drop_first());
    }
}

/// Any two names are ordered one way or the other.
pub proof fn lemma_name_le_total(a: Seq<char>, b: Seq<char>)
    ensures
        name_le(a, b) || name_le(b, a),
    decreases a.len(),
{
    if a.len() > 0 && b.len() > 0 {
        if a[0] == b[0] {
            lemma_name_le_total(a.drop_first(), b.drop_first());
        } else {
            assert((a[0] as int) != (b[0] as int));
        }
    }
}

/// Two names ordered both ways are equal.
pub proof fn lemma_name_le_antisymmetric(a: Seq<char>, b: Seq<char>)
    requires
        name_le(a, b),
        name_le(b, a),
    ensures
        a == b,
    decreases a.len(),
{
    if a.len() > 0 && b.len() > 0 {
        if a[0] == b[0] {
            lemma_name_le_antisymmetric(a.drop_first(), b.drop_first());
            assert(a =~= seq![a[0]] + a.drop_first());
            assert(b =~= seq![b[0]] + b.drop_first());
        }
    } else {
        assert(a =~= b);
    }
}

/// The name order is transitive.
pub proof fn lemma_name_le_transitive(a: Seq<char>, b: Seq<char>, c: Seq<char>)
    requires
        name_le(a, b),
        name_le(b, c),
    ensures
        name_le(a, c),
    decreases a.len(),
{
    if a.len() > 0 && b.len() > 0 && c.len() > 0 {
        if a[0] == b[0] && b[0] == c[0] {
            lemma_name_le_transitive(a.drop_first(), b.drop_first(), c.drop_first());
        }
    }
}

/// Compares two names by the order `name_le`.
fn name_le_exec(a: &str, b: &str) -> (r: bool)
    ensures
        r == name_le(a@, b@),
{
    let la = a.unicode_len();
    let lb = b.unicode_len();
    let mut i: usize = 0;
    assert(a@.skip(0) =~= a@);
    assert(b@.skip(0) =~= b@);
    while i < la && i < lb
        invariant
            la == a@.len(),
            lb == b@.len(),
            i <= la,
            i <= lb,
            name_le(a@, b@) == name_le(a@.skip(i as int), b@.skip(i as int)),
        decreases la - i,
    {
        let ca = a.get_char(i);
        let cb = b.get_char(i);
        proof {
            assert(a@.skip(i as int)[0] == ca);
            assert(b@.skip(i as int)[0] == cb);
            assert(a@.skip(i as int).drop_first() =~= a@.skip(i + 1));
            assert(b@.skip(i as int).drop_first() =~= b@.skip(i + 1));
        }
        if ca != cb {
            return (ca as u32) < (cb as u32);
        }
        i = i + 1;
    }
    i == la
}

/// Basic preset info for listing.
#[derive(Debug)]
pub struct PresetInfo {
    pub name: String,
    pub path: PathBuf,
}

/// Whether a preset carries the name `n`.
pub open spec fn named(n: Seq<char>) -> spec_fn(PresetInfo) -> bool {
    |p: PresetInfo| p.name@ == n
}

/// The names of `s` never decrease.
pub open spec fn sorted_by_name(s: Seq<PresetInfo>) -> bool {
    forall|a: int, b: int| 0 <= a < b < s.len() ==> name_le(#[trigger] s[a].name@, #[trigger] s[b].name@)
}

/// `out` is `input` sorted by name, presets of equal name keeping their order.
pub open spec fn stable_name_sort(out: Seq<PresetInfo>, input: Seq<PresetInfo>) -> bool {
    &&& sorted_by_name(out)
    &&& out.to_multiset() == input.to_multiset()
    &&& forall|n: Seq<char>| #[trigger] out.filter(named(n)) == input.filter(named(n))
}

/// Filtering with a predicate that holds of no element gives nothing.
proof fn lemma_filter_none(s: Seq<PresetInfo>, pred: spec_fn(PresetInfo) -> bool)
    requires
        forall|k: int| 0 <= k < s.len() ==> !pred(#[trigger] s[k]),
    ensures
        s.filter(pred) == Seq::<PresetInfo>::empty(),
    decreases s.len(),
{
    reveal(Seq::filter);
    if s.len() > 0 {
        lemma_filter_none(s.drop_last(), pred);
        assert(!pred(s[s.len() - 1]));
    }
}

/// Filtering a one-element sequence.
proof fn lemma_filter_single(x: PresetInfo, pred: spec_fn(PresetInfo) -> bool)
    ensures
        seq![x].filter(pred) == if pred(x) { seq![x] } else { Seq::<PresetInfo>::empty() },
{
    reveal(Seq::filter);
    assert(seq![x].drop_last() =~= Seq::<PresetInfo>::empty());
    assert(Seq::<PresetInfo>::empty().filter(pred) == Seq::<PresetInfo>::empty());
    assert(Seq::<PresetInfo>::empty().push(x) =~= seq![x]);
}

/// Sorts presets by name; presets of equal name keep their order.
fn sort_by_name(found: Vec<PresetInfo>) -> (r: Vec<PresetInfo>)
    ensures
        stable_name_sort(r@, found@),
{
    broadcast use vstd::seq_lib::group_to_multiset_ensures;

    let ghost input = found@;
    let total = found.len();
    let mut rest = found;
    let mut out: Vec<PresetInfo> = Vec::new();
    let mut i: usize = 0;
    while rest.len() > 0
        invariant
            i <= input.len(),
            input.len() <= usize::MAX,
            rest@ == input.skip(i as int),
            sorted_by_name(out@),
            out@.to_multiset() == input.take(i as int).to_multiset(),
            forall|n: Seq<char>| #[trigger] out@.filter(named(n)) == input.take(i as int).filter(named(n)),
        decreases rest@.len(),
    {
        let x = rest.remove(0);
        proof {
            assert(input.skip(i as int)[0] == input[i as int]);
        }
        let mut j: usize = 0;
        while j < out.len() && name_le_exec(out[j].name.as_str(), x.name.as_str())
            invariant
                j <= out@.len(),
                forall|k: int| 0 <= k < j ==> name_le(#[trigger] out@[k].name@, x.name@),
            decreases out@.len() - j,
        {
            j = j + 1;
        }
        let ghost before = out@;
        proof {
            assert forall|k: int| j <= k < before.len() implies !name_le(#[trigger] before[k].name@, x.name@) by {
                assert(!name_le(before[j as int].name@, x.name@));
                if k > j {
                    assert(name_le(before[j as int].name@, before[k].name@));
                    if name_le(before[k].name@, x.name@) {
                        lemma_name_le_transitive(before[j as int].name@, before[k].name@, x.name@);
                    }
                }
            }
        }
        out.insert(j, x);
        proof {
            let xn = x.name@;
            // sortedness
            assert forall|a: int, b: int| 0 <= a < b < out@.len() implies name_le(
                #[trigger] out@[a].name@,
                #[trigger] out@[b].name@,
            ) by {
                if b < j {
                } else if b == j {
                } else if a < j {
                    lemma_name_le_total(before[b - 1].name@, xn);
                    lemma_name_le_transitive(before[a].name@, xn, before[b - 1].name@);
                } else if a == j {
                    lemma_name_le_total(before[b - 1].name@, xn);
                } else {
                    assert(name_le(before[a - 1].name@, before[b - 1].name@));
                }
            }
            // multiset
            vstd::seq_lib::to_multiset_insert(before, j as int, x);
            assert(input.take(i + 1) =~= input.take(i as int).push(x));
            vstd::seq_lib::to_multiset_build(input.take(i as int), x);
            // stability
            let lo = before.subrange(0, j as int);
            let hi = before.subrange(j as int, before.len() as int);
            assert(before =~= lo + hi);
            assert(out@ =~= lo + seq![x] + hi);
            assert forall|n: Seq<char>| #[trigger] out@.filter(named(n)) == input.take(i + 1).filter(named(n)) by {
                let p = named(n);
                Seq::filter_distributes_over_add(lo, hi, p);
                Seq::filter_distributes_over_add(lo + seq![x], hi, p);
                Seq::filter_distributes_over_add(lo, seq![x], p);
                lemma_filter_single(x, p);
                Seq::lemma_filter_push(input.take(i as int), x, p);
                if n == xn {
                    assert forall|k: int| 0 <= k < hi.len() implies !p(#[trigger] hi[k]) by {
                        assert(hi[k] == before[j + k]);
                        if hi[k].name@ == xn {
                            lemma_name_le_reflexive(xn);
                        }
                    }
                    lemma_filter_none(hi, p);
                    assert(hi.filter(p) == Seq::<PresetInfo>::empty());
                    assert(before.filter(p) =~= lo.filter(p));
                    assert(out@.filter(p) =~= lo.filter(p) + seq![x]);
                    assert(input.take(i + 1).filter(p) == input.take(i as int).filter(p).push(x));
                } else {
                    assert(!p(x));
                    assert(out@.filter(p) =~= lo.filter(p) + hi.filter(p));
                }
            }
        }
        i = i + 1;
    }
    proof {
        assert(input.take(input.len() as int) =~= input);
    }
    out
}

/// Name of what `str::to_lowercase` returns: the Unicode lowercase mapping
/// of every character.
pub uninterp spec fn lowercase(s: Seq<char>) -> Seq<char>;

/// Calls `str::to_lowercase`; the result is named `lowercase` of the input.
#[verifier::external_body]
fn to_lowercase(s: &str) -> (r: String)
    ensures
        r@ == lowercase(s@),
{
    s.to_lowercase()
}

/// Every space of `s` turned into an underscore.
pub open spec fn spaces_to_underscores(s: Seq<char>) -> Seq<char> {
    s.map_values(|c: char| if c == ' ' { '_' } else { c })
}

/// Copies `s`, writing an underscore in place of each space.
fn replace_spaces(s: &str) -> (r: String)
    ensures
        r@ == spaces_to_underscores(s@),
{
    let n = s.unicode_len();
    let mut out = String::new();
    let mut i: usize = 0;
    while i < n
        invariant
            n as nat == s@.len(),
            i <= n,
            out@ == spaces_to_underscores(s@.take(i as int)),
        decreases n - i,
    {
        let c = s.get_char(i);
        let ghost before = out@;
        if c == ' ' {
            proof {
                reveal_strlit("_");
            }
            out.append("_");
            assert(out@ =~= before.push('_'));
        } else {
            let one = s.substring_char(i, i + 1);
            assert(one@ =~= seq![c]);
            out.append(one);
            assert(out@ =~= before.push(c));
        }
        assert(s@.take(i + 1) =~= s@.take(i as int).push(c));
        assert(spaces_to_underscores(s@.take(i + 1)) =~= spaces_to_underscores(s@.take(i as int)).push(
            if c == ' ' { '_' } else { c },
        ));
        i = i + 1;
    }
    assert(s@.take(n as int) =~= s@);
    out
}

/// The file name under which a preset whose lowercased name is `lower` is
/// stored: spaces become underscores and `.json` is appended.
pub open spec fn json_file_name(lower: Seq<char>) -> Seq<char> {
    spaces_to_underscores(lower) + seq!['.', 'j', 's', 'o', 'n']
}

/// The file name for an already lowercased preset name.
pub fn file_name_from_lowercase(lower: &str) -> (r: String)
    ensures
        r@ == json_file_name(lower@),
{
    let mut file_name = replace_spaces(lower);
    proof {
        reveal_strlit(".json");
    }
    file_name.append(".json");
    file_name
}

/// The file name under which a preset named `name` is saved.
pub fn preset_filename(name: &str) -> (r: String)
    ensures
        r@ == json_file_name(lowercase(name@)),
{
    let lower = to_lowercase(name);
    file_name_from_lowercase(lower.as_str())
}

/// Position after `index` in a list of `len` presets, starting over at the end.
pub open spec fn next_index(index: nat, len: nat) -> nat {
    if len > 0 {
        ((index + 1) % len) as nat
    } else {
        index
    }
}

/// Position before `index` in a list of `len` presets, going round to the end.
pub open spec fn prev_index(index: nat, len: nat) -> nat {
    if len > 0 {
        if index == 0 {
            (len - 1) as nat
        } else {
            (index - 1) as nat
        }
    } else {
        index
    }
}

/// Preset manager - handles preset library.
pub struct PresetManager {
    /// Directory containing presets
    preset_dir: PathBuf,
    /// List of available presets
    presets: Vec<PresetInfo>,
    /// Currently selected preset index
    current_index: usize,
}

/// Abstract view of the preset manager.
pub struct PresetManagerView {
    pub dir: PathBuf,
    pub presets: Seq<PresetInfo>,
    pub current_index: nat,
}

impl View for PresetManager {
    type V = PresetManagerView;

    closed spec fn view(&self) -> PresetManagerView {
        PresetManagerView {
            dir: self.preset_dir,
            presets: self.presets@,
            current_index: self.current_index as nat,
        }
    }
}

impl PresetManagerView {
    /// The index can always be moved one further without overflow.
    pub open spec fn wf(self) -> bool {
        self.current_index < usize::MAX
    }
}

impl PresetManager {
    /// A manager for `preset_dir` listing the presets `found` there, sorted
    /// by name, with the first one selected.
    pub fn new(preset_dir: PathBuf, found: Vec<PresetInfo>) -> (r: Self)
        ensures
            r@.wf(),
            r@.dir == preset_dir,
            r@.current_index == 0,
            stable_name_sort(r@.presets, found@),
    {
        PresetManager { preset_dir, presets: sort_by_name(found), current_index: 0 }
    }

    /// Replace the list with the presets `found` by a new scan, sorted by name;
    /// the selected position is kept.
    pub fn set_presets(&mut self, found: Vec<PresetInfo>)
        requires
            old(self)@.wf(),
        ensures
            final(self)@.wf(),
            final(self)@.dir == old(self)@.dir,
            final(self)@.current_index == old(self)@.current_index,
            stable_name_sort(final(self)@.presets, found@),
    {
        self.presets = sort_by_name(found);
    }

    /// Get list of available presets.
    pub fn list(&self) -> (r: &[PresetInfo])
        ensures
            r@ == self@.presets,
    {
        self.presets.as_slice()
    }

    /// Get current preset index.
    pub fn current_index(&self) -> (r: usize)
        ensures
            r == self@.current_index,
    {
        self.current_index
    }

    /// Get current preset name, or `None` when no preset is at the position.
    pub fn current_name(&self) -> (r: &str)
        ensures
            r@ == if self@.current_index < self@.presets.len() {
                self@.presets[self@.current_index as int].name@
            } else {
                seq!['N', 'o', 'n', 'e']
            },
    {
        proof {
            reveal_strlit("None");
        }
        if self.current_index < self.presets.len() {
            self.presets[self.current_index].name.as_str()
        } else {
            "None"
        }
    }

    /// The preset at the selected position, if there is one.
    pub fn selected(&self) -> (r: Option<&PresetInfo>)
        ensures
            r == if self@.current_index < self@.presets.len() {
                Some(&self@.presets[self@.current_index as int])
            } else {
                None
            },
    {
        if self.current_index < self.presets.len() {
            Some(&self.presets[self.current_index])
        } else {
            None
        }
    }

    /// Select next preset, starting over after the last one.
    pub fn next(&mut self)
        requires
            old(self)@.wf(),
        ensures
            final(self)@.wf(),
            final(self)@ == (PresetManagerView {
                current_index: next_index(old(self)@.current_index, old(self)@.presets.len()),
                ..old(self)@
            }),
    {
        if !self.presets.is_empty() {
            self.current_index = (self.current_index + 1) % self.presets.len();
        }
    }

    /// Select previous preset, going round to the last one from the first.
    pub fn prev(&mut self)
        requires
            old(self)@.wf(),
        ensures
            final(self)@.wf(),
            final(self)@ == (PresetManagerView {
                current_index: prev_index(old(self)@.current_index, old(self)@.presets.len()),
                ..old(self)@
            }),
    {
        if !self.presets.is_empty() {
            self.current_index = if self.current_index == 0 {
                self.presets.len() - 1
            } else {
                self.current_index - 1
            };
        }
    }

    /// Get preset directory path.
    pub fn preset_dir(&self) -> (r: &PathBuf)
        ensures
            *r == self@.dir,
    {
        &self.preset_dir
    }
}

/// Law: with a selection inside a non-empty list, stepping to the next
/// preset and back to the previous one returns to the same preset, and so
/// does stepping back and then forward; both steps keep the selection inside
/// the list.
pub proof fn law_next_prev_round_trip(index: nat, len: nat)
    requires
        index < len,
    ensures
        next_index(index, len) < len,
        prev_index(index, len) < len,
        prev_index(next_index(index, len), len) == index,
        next_index(prev_index(index, len), len) == index,
{
    if index + 1 < len {
        lemma_small_mod(index + 1, len);
    } else {
        lemma_mod_self_0(len as int);
    }
    if index > 0 {
        lemma_small_mod(index, len);
    } else {
        lemma_mod_self_0(len as int);
    }
}

/// Law: in a non-empty list, stepping to the next preset `k` times from the
/// first one selects preset `k mod len`.
pub proof fn law_next_cycles(len: nat, k: nat)
    requires
        len > 0,
    ensures
        repeat_next(0, len, k) == k % len,
    decreases k,
{
    if k > 0 {
        law_next_cycles(len, (k - 1) as nat);
        vstd::arithmetic::div_mod::lemma_add_mod_noop_right(1, k - 1, len as int);
    } else {
        vstd::arithmetic::div_mod::lemma_small_mod(0, len);
    }
}

/// The selection after stepping to the next preset `k` times from `index`.
pub open spec fn repeat_next(index: nat, len: nat, k: nat) -> nat
    decreases k,
{
    if k == 0 {
        index
    } else {
        next_index(repeat_next(index, len, (k - 1) as nat), len)
    }
}

/// A file system path, as std's `PathBuf`.
#[verifier::external_type_specification]
#[verifier::external_body]
pub struct ExPathBuf(PathBuf);

} // verus!
