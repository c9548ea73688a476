//! The editable lists the operator keeps: custom harness presets, harness
//! hooks, and per-lane path claims. Each is edited as one `|`- or
//! `,`-separated line in the inline prompt.
use vstd::prelude::*;

use crate::app::{owned, App, Cmd, Lists, Prompt, PromptKind};
use crate::composer::Draft;
use crate::nav::{first_index, lemma_first_index_at, lemma_first_index_none};
use crate::harness::HarnessChoice;
use crate::text::{push_all, push_str, string_of, trim, trim_of};
use crate::keymap::KeyCode;
use crate::settings::{step_index, stepped_index, SettingsKey};

verus! {

/// A custom harness preset.
pub struct CustomHarness {
    pub id: String,
    pub name: String,
    /// The wire name of the harness provider.
    pub harness: String,
    pub model: String,
    pub fast_model: String,
    pub host_id: String,
    /// Kept from the preset an edit replaces.
    pub default: bool,
}

/// A hook a harness runs at a lifecycle event.
pub struct HookSpec {
    pub event: String,
    pub matcher: String,
    pub harnesses: String,
    pub timeout: String,
    pub command: String,
    pub label: Option<String>,
    /// Medulla's own hooks, which the operator cannot edit or delete.
    pub builtin: bool,
}

/// The fields of `s` between `sep` characters.
pub open spec fn fields_of(s: Seq<char>, sep: char) -> Seq<Seq<char>>
    decreases s.len(),
{
    let k = crate::git::next_char(s, 0, sep);
    if k < s.len() && k >= 0 {
        seq![s.take(k)] + fields_of(s.skip(k + 1), sep)
    } else {
        seq![s]
    }
}

/// Split `s` at every `sep`, trimming each field.
pub fn split_trimmed(s: &Vec<char>, sep: char) -> (r: Vec<Vec<char>>)
    ensures
        r@.map_values(|f: Vec<char>| f@) == fields_of(s@, sep).map_values(|f: Seq<char>| trim(f)),
    decreases s@.len(),
{
    let mut k: usize = 0;
    while k < s.len() && s[k] != sep
        invariant
            k <= s@.len(),
            crate::git::next_char(s@, 0, sep) == crate::git::next_char(s@, k as int, sep),
        decreases s.len() - k,
    {
        k = k + 1;
    }
    proof {
        crate::git::lemma_next_char(s@, k as int, sep);
    }
    let mut head: Vec<char> = Vec::new();
    let mut i: usize = 0;
    while i < k
        invariant
            i <= k <= s@.len(),
            head@ == s@.take(i as int),
        decreases k - i,
    {
        head.push(s[i]);
        i = i + 1;
        assert(head@ =~= s@.take(i as int));
    }
    let first = trim_of(&head);
    if k < s.len() {
        let mut rest: Vec<char> = Vec::new();
        let mut j = k + 1;
        while j < s.len()
            invariant
                k + 1 <= j <= s@.len(),
                rest@ == s@.subrange(k + 1, j as int),
            decreases s.len() - j,
        {
            rest.push(s[j]);
            j = j + 1;
            assert(rest@ =~= s@.subrange(k + 1, j as int));
        }
        assert(rest@ =~= s@.skip(k + 1));
        let tail = split_trimmed(&rest, sep);
        let ghost tv = tail@.map_values(|f: Vec<char>| f@);
        let mut out = tail;
        out.insert(0, first);
        assert(out@.map_values(|f: Vec<char>| f@) =~= seq![trim(s@.take(k as int))] + tv);
        assert(fields_of(s@, sep) == seq![s@.take(k as int)] + fields_of(s@.skip(k + 1), sep));
        assert(out@.map_values(|f: Vec<char>| f@) =~= fields_of(s@, sep).map_values(
            |f: Seq<char>| trim(f),
        ));
        out
    } else {
        let mut out: Vec<Vec<char>> = Vec::new();
        out.push(first);
        assert(s@.take(k as int) =~= s@);
        assert(out@.map_values(|f: Vec<char>| f@) =~= fields_of(s@, sep).map_values(
            |f: Seq<char>| trim(f),
        ));
        out
    }
}

/// The patterns a claim line names: its comma-separated fields, trimmed,
/// without the empty ones.
pub open spec fn claim_patterns(line: Seq<char>) -> Seq<Seq<char>> {
    fields_of(line, ',').map_values(|f: Seq<char>| trim(f)).filter(|f: Seq<char>| f.len() > 0)
}

/// The patterns a claim line names.
pub fn parse_claim(line: &Vec<char>) -> (r: Vec<String>)
    ensures
        r@.map_values(|s: String| s@) == claim_patterns(line@),
{
    let parts = split_trimmed(line, ',');
    let ghost pv = parts@.map_values(|f: Vec<char>| f@);
    let mut out: Vec<String> = Vec::new();
    let mut i: usize = 0;
    while i < parts.len()
        invariant
            i <= parts@.len(),
            pv == parts@.map_values(|f: Vec<char>| f@),
            out@.map_values(|s: String| s@) == pv.take(i as int).filter(|f: Seq<char>| f.len() > 0),
        decreases parts.len() - i,
    {
        proof {
            reveal(Seq::filter);
            assert(pv.take(i + 1).drop_last() =~= pv.take(i as int));
        }
        if parts[i].len() > 0 {
            out.push(string_of(parts[i].as_slice()));
        }
        i = i + 1;
        assert(out@.map_values(|s: String| s@) =~= pv.take(i as int).filter(|f: Seq<char>| f.len() > 0));
    }
    assert(pv.take(parts@.len() as int) =~= pv);
    out
}

/// The claims saved for lane `key`, when any are.
pub open spec fn claim_for(claims: Seq<(String, Vec<String>)>, key: Seq<char>) -> Option<Seq<Seq<char>>>
    decreases claims.len(),
{
    if claims.len() == 0 {
        None
    } else if claims[0].0@ == key {
        Some(claims[0].1@.map_values(|s: String| s@))
    } else {
        claim_for(claims.drop_first(), key)
    }
}

/// The lane claims without `key`.
fn without_claim(claims: &Vec<(String, Vec<String>)>, key: &String) -> (r: Vec<(String, Vec<String>)>)
    ensures
        forall|k: Seq<char>| #[trigger] claim_for(r@, k) == (if k == key@ {
            None
        } else {
            claim_for(claims@, k)
        }),
{
    let mut out: Vec<(String, Vec<String>)> = Vec::new();
    let mut i: usize = claims.len();
    while i > 0
        invariant
            i <= claims@.len(),
            forall|k: Seq<char>| #[trigger] claim_for(out@, k) == (if k == key@ {
                None
            } else {
                claim_for(claims@.skip(i as int), k)
            }),
        decreases i,
    {
        i = i - 1;
        let ghost before = out@;
        assert(claims@.skip(i as int).drop_first() =~= claims@.skip(i + 1));
        if claims[i].0 != *key {
            let entry = (claims[i].0.clone(), copy_strings(&claims[i].1));
            let ghost e = entry;
            out.insert(0, entry);
            assert(out@.drop_first() =~= before);
            assert(out@[0] == e);
            assert forall|k: Seq<char>| #[trigger] claim_for(out@, k) == (if k == key@ {
                None
            } else {
                claim_for(claims@.skip(i as int), k)
            }) by {
                assert(claims@.skip(i as int)[0] == claims@[i as int]);
                assert(claim_for(before, k) == (if k == key@ {
                    None
                } else {
                    claim_for(claims@.skip(i + 1), k)
                }));
            }
        } else {
            assert forall|k: Seq<char>| #[trigger] claim_for(out@, k) == (if k == key@ {
                None
            } else {
                claim_for(claims@.skip(i as int), k)
            }) by {
                assert(claims@.skip(i as int)[0] == claims@[i as int]);
            }
        }
    }
    assert(claims@.skip(0) =~= claims@);
    out
}

/// A copy of a character sequence.
pub fn copy_chars(v: &Vec<char>) -> (r: Vec<char>)
    ensures
        r@ == v@,
{
    let mut out: Vec<char> = Vec::new();
    let mut i: usize = 0;
    while i < v.len()
        invariant
            i <= v@.len(),
            out@ == v@.take(i as int),
        decreases v.len() - i,
    {
        out.push(v[i]);
        i = i + 1;
        assert(out@ =~= v@.take(i as int));
    }
    out
}

/// A copy of a list of strings.
fn copy_strings(v: &Vec<String>) -> (r: Vec<String>)
    ensures
        r@.map_values(|s: String| s@) == v@.map_values(|s: String| s@),
{
    let mut out: Vec<String> = Vec::new();
    let mut i: usize = 0;
    while i < v.len()
        invariant
            i <= v@.len(),
            out@.map_values(|s: String| s@) == v@.take(i as int).map_values(|s: String| s@),
        decreases v.len() - i,
    {
        let ghost before = out@;
        out.push(v[i].clone());
        assert(out@ == before.push(out@.last()));
        assert(out@.map_values(|s: String| s@) =~= before.map_values(|s: String| s@).push(v@[i as int]@));
        assert(v@.take(i + 1) =~= v@.take(i as int).push(v@[i as int]));
        i = i + 1;
        assert(out@.map_values(|s: String| s@) =~= v@.take(i as int).map_values(|s: String| s@));
    }
    assert(v@.take(v@.len() as int) =~= v@);
    out
}

/// The trimmed, non-empty patterns of a claim line as plain text.
pub open spec fn saved_patterns(patterns: Vec<String>) -> Seq<Seq<char>> {
    patterns@.map_values(|s: String| s@)
}

impl App {
    /// Save the path claim typed for lane `key`; an empty line clears it.
    pub fn submit_lane_claim(&mut self, key: &String, line: &Vec<char>)
        ensures
            claim_submitted(*old(self), key@, line@, *final(self)),
            claim_patterns(line@).len() == 0 ==> final(self).status@ == "Agents · lane claim cleared"@
                && claim_for(final(self).lists.lane_claims@, key@) is None,
            claim_patterns(line@).len() > 0 ==> final(self).status@ == "Agents · lane claim saved"@
                && claim_for(final(self).lists.lane_claims@, key@) == Some(claim_patterns(line@)),
            forall|k: Seq<char>|
                k != key@ ==> #[trigger] claim_for(final(self).lists.lane_claims@, k) == claim_for(
                    old(self).lists.lane_claims@,
                    k,
                ),
            *final(self) == (App { lists: final(self).lists, status: final(self).status, ..*old(self) }),
            final(self).lists == (Lists { lane_claims: final(self).lists.lane_claims, ..old(self).lists }),
    {
        let patterns = parse_claim(line);
        let mut rest = without_claim(&self.lists.lane_claims, key);
        if patterns.len() == 0 {
            self.lists.lane_claims = rest;
            self.status = owned("Agents · lane claim cleared");
        } else {
            let ghost before = rest@;
            rest.insert(0, (key.clone(), patterns));
            proof {
                assert forall|k: Seq<char>| #[trigger] claim_for(rest@, k) == (if k == key@ {
                    Some(claim_patterns(line@))
                } else {
                    claim_for(before, k)
                }) by {
                    assert(rest@.drop_first() =~= before);
                }
            }
            self.lists.lane_claims = rest;
            self.status = owned("Agents · lane claim saved");
        }
    }
}

/// Patterns joined by a comma and a space, as the claim editor shows them.
pub open spec fn joined(ps: Seq<Seq<char>>) -> Seq<char>
    decreases ps.len(),
{
    if ps.len() == 0 {
        Seq::empty()
    } else if ps.len() == 1 {
        ps[0]
    } else {
        joined(ps.drop_last()) + seq![',', ' '] + ps.last()
    }
}

/// Patterns joined by a comma and a space.
fn join_patterns(ps: &Vec<String>) -> (r: Vec<char>)
    ensures
        r@ == joined(ps@.map_values(|s: String| s@)),
{
    let ghost pv = ps@.map_values(|s: String| s@);
    let mut out: Vec<char> = Vec::new();
    let mut i: usize = 0;
    while i < ps.len()
        invariant
            i <= ps@.len(),
            pv == ps@.map_values(|s: String| s@),
            out@ == joined(pv.take(i as int)),
        decreases ps.len() - i,
    {
        let ghost before = out@;
        if i > 0 {
            out.push(',');
            out.push(' ');
        }
        let cs = crate::text::chars_of_string(&ps[i]);
        push_all(&mut out, &cs);
        proof {
            let t = pv.take(i + 1);
            assert(t.drop_last() =~= pv.take(i as int));
            assert(t.last() == ps@[i as int]@);
            if i == 0 {
                assert(out@ =~= t[0]);
            } else {
                assert(out@ =~= joined(pv.take(i as int)) + seq![',', ' '] + ps@[i as int]@);
            }
        }
        i = i + 1;
    }
    assert(pv.take(i as int) =~= pv);
    out
}

impl App {
    /// Open the claim editor of the lane under the cursor, showing the saved
    /// patterns joined by `, ` with the caret at the end; with no lane
    /// selected, say that one must be.
    pub fn open_lane_claim_prompt(&mut self)
        ensures
            match old(self).selected_lane_spec() {
                None => *final(self) == (App { status: final(self).status, ..*old(self) }) && final(self).status@
                    == "Select a lane before editing its path claim"@,
                Some(li) => {
                    let lane = old(self).lanes@[li as int];
                    let text = match claim_for(old(self).lists.lane_claims@, lane.key@) {
                        Some(ps) => joined(ps),
                        None => Seq::empty(),
                    };
                    &&& final(self).prompt matches Some(p) && p.kind == (PromptKind::LaneClaim { lane_key: lane.key })
                        && p.title@ == "Claim paths for "@ + lane.label@ + " — comma-separated globs"@
                        && p.draft.text@ == text && p.draft.cursor == text.len()
                    &&& final(self).status@ == "Agents · Enter save claim · empty clears · Esc cancel"@
                    &&& *final(self) == (App { prompt: final(self).prompt, status: final(self).status, ..*old(self) })
                },
            },
    {
        match self.selected_agent_lane() {
            None => {
                self.status = owned("Select a lane before editing its path claim");
            },
            Some(li) => {
                let key = self.lanes[li].key.clone();
                let existing = match saved_claim(&self.lists.lane_claims, &key) {
                    Some(ps) => join_patterns(ps),
                    None => Vec::new(),
                };
                let mut title = crate::text::chars_of("Claim paths for ");
                let label = crate::text::chars_of_string(&self.lanes[li].label);
                push_all(&mut title, &label);
                push_str(&mut title, " — comma-separated globs");
                let n = existing.len();
                self.prompt = Some(
                    Prompt {
                        kind: PromptKind::LaneClaim { lane_key: key },
                        title: string_of(title.as_slice()),
                        draft: Draft { text: existing, cursor: n },
                    },
                );
                self.status = owned("Agents · Enter save claim · empty clears · Esc cancel");
            },
        }
    }
}

/// The saved patterns of the claim for `key`, if there is one.
fn saved_claim<'a>(claims: &'a Vec<(String, Vec<String>)>, key: &String) -> (r: Option<&'a Vec<String>>)
    ensures
        match r {
            Some(ps) => claim_for(claims@, key@) == Some(ps@.map_values(|s: String| s@)),
            None => claim_for(claims@, key@) is None,
        },
{
    let mut i: usize = 0;
    assert(claims@.skip(0) =~= claims@);
    while i < claims.len()
        invariant
            i <= claims@.len(),
            claim_for(claims@, key@) == claim_for(claims@.skip(i as int), key@),
        decreases claims.len() - i,
    {
        proof {
            assert(claims@.skip(i as int).drop_first() =~= claims@.skip(i + 1));
            assert(claims@.skip(i as int)[0] == claims@[i as int]);
        }
        if claims[i].0 == *key {
            return Some(&claims[i].1);
        }
        i = i + 1;
    }
    proof {
        assert(claims@.skip(i as int) =~= Seq::<(String, Vec<String>)>::empty());
    }
    None
}

/// Whether `p` is a pattern a claim can hold: non-empty, without white
/// space at either end, and without a comma.
pub open spec fn claim_pattern_ok(p: Seq<char>) -> bool {
    p.len() > 0 && trim(p) == p && !p.contains(',')
}

proof fn lemma_fields_without_sep(s: Seq<char>, c: char)
    ensures
        forall|k: int| 0 <= k < fields_of(s, c).len() ==> !(#[trigger] fields_of(s, c)[k]).contains(c),
    decreases s.len(),
{
    let k0 = crate::git::next_char(s, 0, c);
    crate::git::lemma_next_char(s, 0, c);
    if k0 < s.len() {
        lemma_fields_without_sep(s.skip(k0 + 1), c);
        let f = fields_of(s, c);
        assert forall|k: int| 0 <= k < f.len() implies !(#[trigger] f[k]).contains(c) by {
            if k == 0 {
                if s.take(k0).contains(c) {
                    let w = choose|w: int| 0 <= w < s.take(k0).len() && s.take(k0)[w] == c;
                    assert(s[w] == c);
                }
            } else {
                assert(f[k] == fields_of(s.skip(k0 + 1), c)[k - 1]);
            }
        }
    } else {
        if s.contains(c) {
            let w = choose|w: int| 0 <= w < s.len() && s[w] == c;
        }
    }
}

proof fn lemma_next_char_in_prefix(x: Seq<char>, y: Seq<char>, i: int, c: char)
    requires
        0 <= i <= x.len(),
    ensures
        crate::git::next_char(x + y, i, c) == if crate::git::next_char(x, i, c) < x.len() {
            crate::git::next_char(x, i, c)
        } else {
            crate::git::next_char(x + y, x.len() as int, c)
        },
    decreases x.len() - i,
{
    if i < x.len() {
        assert((x + y)[i] == x[i]);
        if x[i] != c {
            lemma_next_char_in_prefix(x, y, i + 1, c);
        }
    }
}

/// Splitting at a separator splits each side of it.
proof fn lemma_fields_concat(x: Seq<char>, y: Seq<char>, c: char)
    ensures
        fields_of(x + seq![c] + y, c) == fields_of(x, c) + fields_of(y, c),
    decreases x.len(),
{
    let s = x + seq![c] + y;
    let kx = crate::git::next_char(x, 0, c);
    crate::git::lemma_next_char(x, 0, c);
    assert(x + seq![c] + y =~= x + (seq![c] + y));
    lemma_next_char_in_prefix(x, seq![c] + y, 0, c);
    if kx < x.len() {
        assert(s.take(kx) =~= x.take(kx));
        assert(s.skip(kx + 1) =~= x.skip(kx + 1) + seq![c] + y);
        lemma_fields_concat(x.skip(kx + 1), y, c);
        assert(fields_of(s, c) =~= seq![x.take(kx)] + (fields_of(x.skip(kx + 1), c) + fields_of(y, c)));
    } else {
        assert(s[x.len() as int] == c);
        assert(crate::git::next_char(s, x.len() as int, c) == x.len());
        assert(s.take(x.len() as int) =~= x);
        assert(s.skip(x.len() as int + 1) =~= y);
        assert(fields_of(x, c) == seq![x]);
    }
}

proof fn lemma_fields_single(y: Seq<char>, c: char)
    requires
        !y.contains(c),
    ensures
        fields_of(y, c) == seq![y],
{
    crate::git::lemma_next_char(y, 0, c);
    let k = crate::git::next_char(y, 0, c);
    if k < y.len() {
        assert(y[k] == c);
        assert(y.contains(c));
    }
}

/// The fields of patterns joined by `, `: the first pattern, then each
/// other one behind its space.
pub open spec fn spaced(ps: Seq<Seq<char>>) -> Seq<Seq<char>> {
    Seq::new(
        ps.len(),
        |i: int|
            if i == 0 {
                ps[0]
            } else {
                seq![' '] + ps[i]
            },
    )
}

proof fn lemma_joined_fields(ps: Seq<Seq<char>>)
    requires
        ps.len() > 0,
        forall|k: int| 0 <= k < ps.len() ==> !(#[trigger] ps[k]).contains(','),
    ensures
        fields_of(joined(ps), ',') == spaced(ps),
    decreases ps.len(),
{
    if ps.len() == 1 {
        lemma_fields_single(ps[0], ',');
        assert(spaced(ps) =~= seq![ps[0]]);
    } else {
        let init = ps.drop_last();
        assert forall|k: int| 0 <= k < init.len() implies !(#[trigger] init[k]).contains(',') by {
            assert(init[k] == ps[k]);
        }
        lemma_joined_fields(init);
        let last = ps.last();
        let tail = seq![' '] + last;
        assert(!tail.contains(',')) by {
            if tail.contains(',') {
                let w = choose|w: int| 0 <= w < tail.len() && tail[w] == ',';
                assert(last[w - 1] == ',');
                assert(ps[ps.len() - 1] == last);
            }
        }
        assert(joined(ps) =~= joined(init) + seq![','] + tail);
        lemma_fields_concat(joined(init), tail, ',');
        lemma_fields_single(tail, ',');
        assert(spaced(ps) =~= spaced(init) + seq![tail]);
    }
}

proof fn lemma_filter_keeps_all(s: Seq<Seq<char>>)
    requires
        forall|k: int| 0 <= k < s.len() ==> (#[trigger] s[k]).len() > 0,
    ensures
        s.filter(|f: Seq<char>| f.len() > 0) == s,
    decreases s.len(),
{
    reveal(Seq::filter);
    if s.len() > 0 {
        let d = s.drop_last();
        assert forall|k: int| 0 <= k < d.len() implies (#[trigger] d[k]).len() > 0 by {
            assert(d[k] == s[k]);
        }
        lemma_filter_keeps_all(d);
        assert(s[s.len() - 1] == s.last());
        assert(d.push(s.last()) =~= s);
    }
}

/// The patterns a claim holds are patterns a claim can hold.
pub proof fn lemma_claim_patterns_ok(line: Seq<char>)
    ensures
        forall|k: int| 0 <= k < claim_patterns(line).len() ==> claim_pattern_ok(#[trigger] claim_patterns(line)[k]),
{
    let f = fields_of(line, ',');
    let m = f.map_values(|x: Seq<char>| trim(x));
    let ps = claim_patterns(line);
    broadcast use vstd::seq_lib::group_filter_ensures;

    lemma_fields_without_sep(line, ',');
    assert(ps == m.filter(|x: Seq<char>| x.len() > 0));
    assert forall|k: int| 0 <= k < ps.len() implies claim_pattern_ok(#[trigger] ps[k]) by {
        assert(ps.contains(ps[k]));
        m.lemma_filter_contains_rev(|x: Seq<char>| x.len() > 0, ps[k]);
        assert(m.contains(ps[k]));
        let w = choose|w: int| 0 <= w < m.len() && m[w] == ps[k];
        let (a, b) = crate::text::lemma_trim_shape(f[w]);
        assert(m[w] == trim(f[w]));
        assert(!f[w].contains(','));
        if ps[k].contains(',') {
            let v = choose|v: int| 0 <= v < ps[k].len() && ps[k][v] == ',';
            assert(f[w][a + v] == ',');
        }
    }
}

/// Saving the claim editor's text unchanged keeps the claim: the patterns a
/// saved claim shows, joined by `, `, are read back as the same patterns.
pub proof fn law_claim_round_trip(line: Seq<char>)
    ensures
        claim_patterns(joined(claim_patterns(line))) == claim_patterns(line),
{
    let ps = claim_patterns(line);
    lemma_claim_patterns_ok(line);
    if ps.len() == 0 {
        assert(fields_of(Seq::<char>::empty(), ',') == seq![Seq::<char>::empty()]) by {
            lemma_fields_single(Seq::<char>::empty(), ',');
        }
        let m = seq![Seq::<char>::empty()].map_values(|x: Seq<char>| trim(x));
        assert(m =~= seq![Seq::<char>::empty()]);
        reveal_with_fuel(Seq::filter, 2);
        assert(m.filter(|x: Seq<char>| x.len() > 0) =~= Seq::<Seq<char>>::empty());
    } else {
        assert forall|k: int| 0 <= k < ps.len() implies !(#[trigger] ps[k]).contains(',') by {
            assert(claim_pattern_ok(ps[k]));
        }
        lemma_joined_fields(ps);
        let m = spaced(ps).map_values(|x: Seq<char>| trim(x));
        assert forall|k: int| 0 <= k < ps.len() implies m[k] == ps[k] by {
            assert(claim_pattern_ok(ps[k]));
            if k > 0 {
                crate::text::lemma_trim_spaced(ps[k]);
            }
        }
        assert(m =~= ps);
        assert forall|k: int| 0 <= k < m.len() implies (#[trigger] m[k]).len() > 0 by {
            assert(claim_pattern_ok(ps[k]));
        }
        lemma_filter_keeps_all(m);
    }
}

/// Whether no two presets share an id.
pub open spec fn unique_ids(hs: Seq<CustomHarness>) -> bool {
    forall|i: int, j: int| 0 <= i < j < hs.len() ==> #[trigger] hs[i].id@ != #[trigger] hs[j].id@
}

/// The lifecycle events a hook may run at.
pub open spec fn is_lifecycle_event(e: Seq<char>) -> bool {
    e == "PreToolUse"@ || e == "PostToolUse"@ || e == "Notification"@ || e == "UserPromptSubmit"@
        || e == "Stop"@ || e == "SubagentStop"@ || e == "PreCompact"@ || e == "SessionStart"@
        || e == "SessionEnd"@
}

/// Whether `e` is a lifecycle event.
fn lifecycle_event(e: &Vec<char>) -> (r: bool)
    ensures
        r == is_lifecycle_event(e@),
{
    crate::text::same(e, &crate::text::chars_of("PreToolUse")) || crate::text::same(
        e,
        &crate::text::chars_of("PostToolUse"),
    ) || crate::text::same(e, &crate::text::chars_of("Notification")) || crate::text::same(
        e,
        &crate::text::chars_of("UserPromptSubmit"),
    ) || crate::text::same(e, &crate::text::chars_of("Stop")) || crate::text::same(
        e,
        &crate::text::chars_of("SubagentStop"),
    ) || crate::text::same(e, &crate::text::chars_of("PreCompact")) || crate::text::same(
        e,
        &crate::text::chars_of("SessionStart"),
    ) || crate::text::same(e, &crate::text::chars_of("SessionEnd"))
}

/// The builtin hooks of a list, in order.
pub open spec fn builtins(hooks: Seq<HookSpec>) -> Seq<HookSpec> {
    hooks.filter(|h: HookSpec| h.builtin)
}

/// Whether `wire` names one of the harness providers this device knows.
pub open spec fn known_provider(providers: Seq<HarnessChoice>, wire: Seq<char>) -> bool {
    exists|i: int| 0 <= i < providers.len() && providers[i].wire@ == wire
}

/// Whether `wire` names one of the harness providers this device knows.
fn is_known_provider(providers: &Vec<HarnessChoice>, wire: &Vec<char>) -> (r: bool)
    ensures
        r == known_provider(providers@, wire@),
{
    let mut i: usize = 0;
    while i < providers.len()
        invariant
            i <= providers@.len(),
            forall|j: int| 0 <= j < i ==> providers@[j].wire@ != wire@,
        decreases providers.len() - i,
    {
        let w = crate::text::chars_of_string(&providers[i].wire);
        if crate::text::same(&w, wire) {
            return true;
        }
        i = i + 1;
    }
    false
}

/// Parse a preset editor line: `id | name | harness | model | fast-model |
/// host-id`, where the harness is one of the providers this device knows.
pub fn parse_custom_harness(line: &Vec<char>, providers: &Vec<HarnessChoice>) -> (r: Result<CustomHarness, String>)
    ensures
        ({
            let f = fields_of(line@, '|').map_values(|x: Seq<char>| trim(x));
            match r {
                Ok(h) => f.len() == 6 && f[0].len() > 0 && known_provider(providers@, f[2]) && h.id@ == f[0]
                    && h.name@ == f[1] && h.harness@ == f[2] && h.model@ == f[3] && h.fast_model@ == f[4]
                    && h.host_id@ == f[5] && !h.default,
                Err(e) => if f.len() != 6 {
                    e@ == "expected id | name | harness | model | fast-model | host-id"@
                } else if f[0].len() == 0 {
                    e@ == "the id is required"@
                } else {
                    !known_provider(providers@, f[2]) && e@ == "the harness is not one this device knows"@
                },
            }
        }),
{
    let f = split_trimmed(line, '|');
    assert(f@.map_values(|x: Vec<char>| x@).len() == f@.len());
    if f.len() != 6 {
        return Err(owned("expected id | name | harness | model | fast-model | host-id"));
    }
    assert(f@.map_values(|x: Vec<char>| x@)[0] == f@[0]@);
    assert(f@.map_values(|x: Vec<char>| x@)[1] == f@[1]@);
    assert(f@.map_values(|x: Vec<char>| x@)[2] == f@[2]@);
    assert(f@.map_values(|x: Vec<char>| x@)[3] == f@[3]@);
    assert(f@.map_values(|x: Vec<char>| x@)[4] == f@[4]@);
    assert(f@.map_values(|x: Vec<char>| x@)[5] == f@[5]@);
    if f[0].len() == 0 {
        return Err(owned("the id is required"));
    }
    if !is_known_provider(providers, &f[2]) {
        return Err(owned("the harness is not one this device knows"));
    }
    Ok(
        CustomHarness {
            id: string_of(f[0].as_slice()),
            name: string_of(f[1].as_slice()),
            harness: string_of(f[2].as_slice()),
            model: string_of(f[3].as_slice()),
            fast_model: string_of(f[4].as_slice()),
            host_id: string_of(f[5].as_slice()),
            default: false,
        },
    )
}

/// The trimmed `|`-separated fields of a hook editor line.
pub open spec fn hook_fields(line: Seq<char>) -> Seq<Seq<char>> {
    fields_of(line, '|').map_values(|x: Seq<char>| trim(x))
}

/// A matcher as stored: its commas become `|`.
pub open spec fn bars_for_commas(s: Seq<char>) -> Seq<char> {
    s.map_values(|c: char| if c == ',' { '|' } else { c })
}

/// Why a hook editor line is refused, or `None` when it reads as a hook.
pub open spec fn hook_error(line: Seq<char>) -> Option<Seq<char>> {
    let f = hook_fields(line);
    if f.len() != 5 {
        Some("expected Event | matcher | harnesses | timeout | command"@)
    } else if !is_lifecycle_event(f[0]) {
        Some("'"@ + f[0] + "' is not a lifecycle event"@)
    } else if f[4].len() == 0 {
        Some("a hook needs a command"@)
    } else {
        None
    }
}

/// The event, matcher, harnesses, timeout and command a hook line gives.
pub open spec fn hook_parts(line: Seq<char>) -> (Seq<char>, Seq<char>, Seq<char>, Seq<char>, Seq<char>) {
    let f = hook_fields(line);
    (f[0], bars_for_commas(f[1]), f[2], f[3], f[4])
}

/// A hook's event, matcher, harnesses, timeout and command as plain text.
pub open spec fn hook_view(h: HookSpec) -> (Seq<char>, Seq<char>, Seq<char>, Seq<char>, Seq<char>) {
    (h.event@, h.matcher@, h.harnesses@, h.timeout@, h.command@)
}

/// Parse a hook editor line: `Event | matcher | harnesses | timeout |
/// command`, the matcher's commas becoming `|`.
pub fn parse_hook(line: &Vec<char>) -> (r: Result<HookSpec, String>)
    ensures
        r matches Ok(h) ==> is_lifecycle_event(h.event@) && h.command@.len() > 0 && !h.builtin,
        match r {
            Ok(h) => hook_error(line@) is None && hook_view(h) == hook_parts(line@) && h.label is None
                && !h.builtin,
            Err(e) => hook_error(line@) == Some(e@),
        },
{
    let f = split_trimmed(line, '|');
    let ghost fv = f@.map_values(|x: Vec<char>| x@);
    assert(fv == hook_fields(line@));
    assert(fv.len() == f@.len());
    if f.len() != 5 {
        return Err(owned("expected Event | matcher | harnesses | timeout | command"));
    }
    if !lifecycle_event(&f[0]) {
        let mut t: Vec<char> = Vec::new();
        push_str(&mut t, "'");
        push_all(&mut t, &f[0]);
        push_str(&mut t, "' is not a lifecycle event");
        return Err(string_of(t.as_slice()));
    }
    assert(fv[0] == f@[0]@ && fv[1] == f@[1]@ && fv[2] == f@[2]@ && fv[3] == f@[3]@ && fv[4] == f@[4]@);
    if f[4].len() == 0 {
        return Err(owned("a hook needs a command"));
    }
    let mut matcher: Vec<char> = Vec::new();
    let m = &f[1];
    let mut i: usize = 0;
    while i < m.len()
        invariant
            i <= m@.len(),
            matcher@ == bars_for_commas(m@.take(i as int)),
        decreases m.len() - i,
    {
        let c = m[i];
        matcher.push(if c == ',' {
            '|'
        } else {
            c
        });
        i = i + 1;
        assert(matcher@ =~= bars_for_commas(m@.take(i as int)));
    }
    assert(m@.take(i as int) =~= m@);
    Ok(
        HookSpec {
            event: string_of(f[0].as_slice()),
            matcher: string_of(matcher.as_slice()),
            harnesses: string_of(f[2].as_slice()),
            timeout: string_of(f[3].as_slice()),
            command: string_of(f[4].as_slice()),
            label: None,
            builtin: false,
        },
    )
}

/// The trimmed `|`-separated fields of a preset editor line.
pub open spec fn harness_fields(line: Seq<char>) -> Seq<Seq<char>> {
    fields_of(line, '|').map_values(|x: Seq<char>| trim(x))
}

/// Why a preset editor line is refused, or `None` when it reads as a preset.
pub open spec fn harness_error(line: Seq<char>, providers: Seq<HarnessChoice>) -> Option<Seq<char>> {
    let f = harness_fields(line);
    if f.len() != 6 {
        Some("expected id | name | harness | model | fast-model | host-id"@)
    } else if f[0].len() == 0 {
        Some("the id is required"@)
    } else if !known_provider(providers, f[2]) {
        Some("the harness is not one this device knows"@)
    } else {
        None
    }
}

/// The id, name, harness, model, fast model and host a preset line gives.
pub open spec fn harness_parts(line: Seq<char>) -> (Seq<char>, Seq<char>, Seq<char>, Seq<char>, Seq<char>, Seq<char>) {
    let f = harness_fields(line);
    (f[0], f[1], f[2], f[3], f[4], f[5])
}

/// A preset's id, name, harness, model, fast model and host as plain text.
pub open spec fn harness_view(h: CustomHarness) -> (Seq<char>, Seq<char>, Seq<char>, Seq<char>, Seq<char>, Seq<char>) {
    (h.id@, h.name@, h.harness@, h.model@, h.fast_model@, h.host_id@)
}

/// Whether preset `j` of `hs` has id `id`.
pub open spec fn id_at(hs: Seq<CustomHarness>, id: Seq<char>) -> spec_fn(int) -> bool {
    |j: int| hs[j].id@ == id
}

/// The first preset with id `id`.
fn preset_position(hs: &Vec<CustomHarness>, id: &String) -> (r: Option<usize>)
    ensures
        match r {
            Some(i) => i < hs@.len() && hs@[i as int].id@ == id@ && forall|j: int| 0 <= j < i ==> hs@[j].id@ != id@,
            None => forall|j: int| 0 <= j < hs@.len() ==> hs@[j].id@ != id@,
        },
        as_index_opt(r) == first_index(hs@.len() as int, id_at(hs@, id@)),
{
    let ghost p = id_at(hs@, id@);
    let mut i: usize = 0;
    while i < hs.len()
        invariant
            i <= hs@.len(),
            p == id_at(hs@, id@),
            forall|j: int| 0 <= j < i ==> hs@[j].id@ != id@,
        decreases hs.len() - i,
    {
        if hs[i].id == *id {
            proof {
                lemma_first_index_at(hs@.len() as int, i as int, p);
            }
            return Some(i);
        }
        i = i + 1;
    }
    proof {
        lemma_first_index_none(hs@.len() as int, p);
    }
    None
}

/// An index as a mathematical integer.
pub open spec fn as_index_opt(r: Option<usize>) -> Option<int> {
    match r {
        Some(i) => Some(i as int),
        None => None,
    }
}

/// Whether a preset other than the one at `skip` has id `id`.
fn other_has_id(hs: &Vec<CustomHarness>, id: &String, skip: usize) -> (r: bool)
    ensures
        !r ==> forall|j: int| 0 <= j < hs@.len() && j != skip as int ==> hs@[j].id@ != id@,
        r == exists|j: int| 0 <= j < hs@.len() && j != skip as int && #[trigger] hs@[j].id@ == id@,
{
    let mut i: usize = 0;
    while i < hs.len()
        invariant
            i <= hs@.len(),
            forall|j: int| 0 <= j < i && j != skip as int ==> hs@[j].id@ != id@,
        decreases hs.len() - i,
    {
        if i != skip && hs[i].id == *id {
            return true;
        }
        i = i + 1;
    }
    false
}

impl App {
    /// Save a custom harness preset from its editor line: a new one, or a
    /// replacement for the preset `old_id`. Ids stay unique; the edited
    /// preset keeps whether it is the default.
    #[verifier::rlimit(80)]
    #[verifier::spinoff_prover]
    pub fn save_custom_harness_line(&mut self, old_id: Option<&String>, line: &Vec<char>)
        ensures
            preset_line_saved(*old(self), match old_id { Some(o) => Some(o@), None => None }, line@, *final(self)),
            unique_ids(old(self).lists.custom_harnesses@) ==> unique_ids(final(self).lists.custom_harnesses@),
            final(self).lists.custom_harnesses@.len() == old(self).lists.custom_harnesses@.len() || final(self).lists.custom_harnesses@.len()
                == old(self).lists.custom_harnesses@.len() + 1,
            final(self).tabs == old(self).tabs,
            harness_error(line@, old(self).setup.harness_choices@) matches Some(e) ==> final(self).status@
                == "Custom harness · "@ + e && *final(self) == (App { status: final(self).status, ..*old(self) }),
            harness_error(line@, old(self).setup.harness_choices@) is None ==> ({
                let hs = old(self).lists.custom_harnesses@;
                let nhs = final(self).lists.custom_harnesses@;
                let nid = harness_fields(line@)[0];
                let refused = final(self).status@ == "Custom harness id '"@ + nid + "' already exists"@
                    && *final(self) == (App { status: final(self).status, ..*old(self) });
                let saved = final(self).pending@ == old(self).pending@.push(Cmd::PersistCustomHarnesses)
                    && final(self).status@ == "Custom harness saved"@ && *final(self) == (App {
                    lists: final(self).lists,
                    pending: final(self).pending,
                    status: final(self).status,
                    ..*old(self)
                });
                match old_id {
                    Some(o) => match first_index(hs.len() as int, id_at(hs, o@)) {
                        None => final(self).status@ == "Custom harness no longer exists"@ && *final(self) == (App {
                            status: final(self).status,
                            ..*old(self)
                        }),
                        Some(k) => if exists|j: int| 0 <= j < hs.len() && j != k && #[trigger] hs[j].id@ == nid {
                            refused
                        } else {
                            &&& nhs.len() == hs.len()
                            &&& forall|j: int| 0 <= j < hs.len() && j != k ==> #[trigger] nhs[j] == hs[j]
                            &&& harness_view(nhs[k]) == harness_parts(line@)
                            &&& nhs[k].default == hs[k].default
                            &&& final(self).lists == (Lists {
                                custom_harnesses: final(self).lists.custom_harnesses,
                                custom_harness_index: k as usize,
                                ..old(self).lists
                            })
                            &&& saved
                        },
                    },
                    None => if exists|j: int| 0 <= j < hs.len() && #[trigger] hs[j].id@ == nid {
                        refused
                    } else {
                        &&& nhs.len() == hs.len() + 1
                        &&& nhs.drop_last() == hs
                        &&& harness_view(nhs.last()) == harness_parts(line@)
                        &&& !nhs.last().default
                        &&& final(self).lists == (Lists {
                            custom_harnesses: final(self).lists.custom_harnesses,
                            custom_harness_index: hs.len() as usize,
                            ..old(self).lists
                        })
                        &&& saved
                    },
                }
            }),
    {
        let harness = match parse_custom_harness(line, &self.setup.harness_choices) {
            Ok(h) => h,
            Err(e) => {
                let mut t: Vec<char> = Vec::new();
                push_str(&mut t, "Custom harness · ");
                push_str(&mut t, e.as_str());
                self.status = string_of(t.as_slice());
                return;
            },
        };
        assert(harness_view(harness) == harness_parts(line@));
        match old_id {
            Some(old) => {
                let index = match preset_position(&self.lists.custom_harnesses, old) {
                    Some(i) => i,
                    None => {
                        self.status = owned("Custom harness no longer exists");
                        return;
                    },
                };
                if other_has_id(&self.lists.custom_harnesses, &harness.id, index) {
                    self.status = exists_message(&harness.id);
                    return;
                }
                self.replace_preset(index, harness);
            },
            None => {
                if preset_position(&self.lists.custom_harnesses, &harness.id).is_some() {
                    self.status = exists_message(&harness.id);
                    return;
                }
                self.add_preset(harness);
                assert(self.lists.custom_harnesses@.drop_last() =~= old(self).lists.custom_harnesses@);
            },
        }
    }

    /// Put `harness` in place of the preset at `index`, keeping whether that
    /// one was the default, and remember the list.
    fn replace_preset(&mut self, index: usize, harness: CustomHarness)
        requires
            index < old(self).lists.custom_harnesses@.len(),
            forall|j: int|
                0 <= j < old(self).lists.custom_harnesses@.len() && j != index ==> #[trigger] old(
                    self,
                ).lists.custom_harnesses@[j].id@ != harness.id@,
        ensures
            ({
                let hs = old(self).lists.custom_harnesses@;
                let nhs = final(self).lists.custom_harnesses@;
                &&& nhs.len() == hs.len()
                &&& forall|j: int| 0 <= j < hs.len() && j != index ==> #[trigger] nhs[j] == hs[j]
                &&& harness_view(nhs[index as int]) == harness_view(harness)
                &&& nhs[index as int].default == hs[index as int].default
                &&& unique_ids(hs) ==> unique_ids(nhs)
            }),
            final(self).lists == (Lists {
                custom_harnesses: final(self).lists.custom_harnesses,
                custom_harness_index: index,
                ..old(self).lists
            }),
            final(self).pending@ == old(self).pending@.push(Cmd::PersistCustomHarnesses),
            final(self).status@ == "Custom harness saved"@,
            *final(self) == (App {
                lists: final(self).lists,
                pending: final(self).pending,
                status: final(self).status,
                ..*old(self)
            }),
    {
        let mut harness = harness;
        harness.default = self.lists.custom_harnesses[index].default;
        let ghost before = self.lists.custom_harnesses@;
        let ghost hid = harness.id@;
        self.lists.custom_harnesses.set(index, harness);
        proof {
            assert(self.lists.custom_harnesses@[index as int].id@ == hid);
            if unique_ids(before) {
                assert forall|i: int, j: int|
                    0 <= i < j < self.lists.custom_harnesses@.len() implies #[trigger] self.lists.custom_harnesses@[i].id@
                    != #[trigger] self.lists.custom_harnesses@[j].id@ by {
                    if i == index as int {
                        assert(before[j].id@ != hid);
                    } else if j == index as int {
                        assert(before[i].id@ != hid);
                    } else {
                        assert(before[i].id@ != before[j].id@);
                    }
                }
            }
        }
        self.lists.custom_harness_index = index;
        self.pending.push(Cmd::PersistCustomHarnesses);
        self.status = owned("Custom harness saved");
    }

    /// Add `harness` at the end of the presets and remember the list.
    fn add_preset(&mut self, harness: CustomHarness)
        requires
            forall|j: int|
                0 <= j < old(self).lists.custom_harnesses@.len() ==> #[trigger] old(self).lists.custom_harnesses@[j].id@
                    != harness.id@,
        ensures
            ({
                let hs = old(self).lists.custom_harnesses@;
                let nhs = final(self).lists.custom_harnesses@;
                &&& nhs == hs.push(harness)
                &&& unique_ids(hs) ==> unique_ids(nhs)
            }),
            final(self).lists == (Lists {
                custom_harnesses: final(self).lists.custom_harnesses,
                custom_harness_index: old(self).lists.custom_harnesses@.len() as usize,
                ..old(self).lists
            }),
            final(self).pending@ == old(self).pending@.push(Cmd::PersistCustomHarnesses),
            final(self).status@ == "Custom harness saved"@,
            *final(self) == (App {
                lists: final(self).lists,
                pending: final(self).pending,
                status: final(self).status,
                ..*old(self)
            }),
    {
        let ghost before = self.lists.custom_harnesses@;
        let ghost hid = harness.id@;
        self.lists.custom_harnesses.push(harness);
        proof {
            if unique_ids(before) {
                assert forall|i: int, j: int|
                    0 <= i < j < self.lists.custom_harnesses@.len() implies #[trigger] self.lists.custom_harnesses@[i].id@
                    != #[trigger] self.lists.custom_harnesses@[j].id@ by {
                    if j == before.len() {
                        assert(before[i].id@ != hid);
                    } else {
                        assert(before[i].id@ != before[j].id@);
                    }
                }
            }
        }
        self.lists.custom_harness_index = self.lists.custom_harnesses.len() - 1;
        self.pending.push(Cmd::PersistCustomHarnesses);
        self.status = owned("Custom harness saved");
    }

    /// Delete the selected preset, keeping the cursor inside the list.
    pub fn delete_selected_custom_harness(&mut self)
        ensures
            final(self).menus == old(self).menus,
            preset_deleted(*old(self), *final(self)),
            old(self).lists.custom_harness_index < old(self).lists.custom_harnesses@.len() ==> final(self).lists.custom_harnesses@
                == old(self).lists.custom_harnesses@.remove(old(self).lists.custom_harness_index as int),
            old(self).lists.custom_harnesses@.len() == 0 ==> final(self).status@ == "No custom harness to delete"@
                && final(self).lists.custom_harnesses == old(self).lists.custom_harnesses,
            final(self).lists.custom_harnesses@.len() > 0 ==> final(self).lists.custom_harness_index < final(self).lists.custom_harnesses@.len(),
            unique_ids(old(self).lists.custom_harnesses@) ==> unique_ids(final(self).lists.custom_harnesses@),
            final(self).tabs == old(self).tabs,
    {
        if self.lists.custom_harnesses.len() == 0 {
            self.status = owned("No custom harness to delete");
            return;
        }
        if self.lists.custom_harness_index >= self.lists.custom_harnesses.len() {
            self.lists.custom_harness_index = self.lists.custom_harnesses.len() - 1;
            return;
        }
        let ghost before = self.lists.custom_harnesses@;
        let k = self.lists.custom_harness_index;
        self.lists.custom_harnesses.remove(k);
        proof {
            assert(self.lists.custom_harnesses@ == before.remove(k as int));
            if unique_ids(before) {
                assert forall|i: int, j: int| 0 <= i < j < self.lists.custom_harnesses@.len() implies #[trigger] self.lists.custom_harnesses@[i].id@
                != #[trigger] self.lists.custom_harnesses@[j].id@ by {
                    let bi = if i < k { i } else { i + 1 };
                    let bj = if j < k { j } else { j + 1 };
                    assert(self.lists.custom_harnesses@[i] == before[bi]);
                    assert(self.lists.custom_harnesses@[j] == before[bj]);
                    assert(before[bi].id@ != before[bj].id@);
                }
            }
        }
        if self.lists.custom_harness_index >= self.lists.custom_harnesses.len() && self.lists.custom_harnesses.len() > 0 {
            self.lists.custom_harness_index = self.lists.custom_harnesses.len() - 1;
        }
        if self.lists.custom_harnesses.len() == 0 {
            self.lists.custom_harness_index = 0;
        }
        self.pending.push(Cmd::PersistCustomHarnesses);
        self.status = owned("Removed custom harness");
    }

    /// Save a hook from its editor line: a new one, or a replacement for
    /// the operator's hook at `at`, keeping its label. Medulla's own hooks
    /// are never replaced.
    pub fn save_hook_line(&mut self, at: Option<usize>, line: &Vec<char>)
        ensures
            hook_line_saved(*old(self), at, line@, *final(self)),
            builtins(final(self).lists.hooks@) == builtins(old(self).lists.hooks@),
            final(self).tabs == old(self).tabs,
            hook_error(line@) matches Some(e) ==> final(self).status@ == "Hook · "@ + e && *final(self) == (App {
                status: final(self).status,
                ..*old(self)
            }),
            hook_error(line@) is None ==> match at {
                Some(i) => if i < old(self).lists.hooks@.len() && !old(self).lists.hooks@[i as int].builtin {
                    &&& final(self).lists.hooks@.len() == old(self).lists.hooks@.len()
                    &&& forall|j: int|
                        0 <= j < old(self).lists.hooks@.len() && j != i ==> #[trigger] final(self).lists.hooks@[j]
                            == old(self).lists.hooks@[j]
                    &&& hook_view(final(self).lists.hooks@[i as int]) == hook_parts(line@)
                    &&& final(self).lists.hooks@[i as int].label == old(self).lists.hooks@[i as int].label
                    &&& !final(self).lists.hooks@[i as int].builtin
                    &&& final(self).lists == (Lists { hooks: final(self).lists.hooks, hook_index: i, ..old(self).lists })
                    &&& final(self).pending@ == old(self).pending@.push(Cmd::PersistHooks)
                    &&& final(self).status@ == "Hook saved"@
                    &&& *final(self) == (App {
                        lists: final(self).lists,
                        pending: final(self).pending,
                        status: final(self).status,
                        ..*old(self)
                    })
                } else {
                    final(self).status@ == "That hook is no longer there — reopen the page and retry"@
                        && *final(self) == (App { status: final(self).status, ..*old(self) })
                },
                None => {
                    &&& final(self).lists.hooks@.len() == old(self).lists.hooks@.len() + 1
                    &&& final(self).lists.hooks@.drop_last() == old(self).lists.hooks@
                    &&& hook_view(final(self).lists.hooks@.last()) == hook_parts(line@)
                    &&& final(self).lists.hooks@.last().label is None
                    &&& !final(self).lists.hooks@.last().builtin
                    &&& final(self).lists == (Lists {
                        hooks: final(self).lists.hooks,
                        hook_index: old(self).lists.hooks@.len() as usize,
                        ..old(self).lists
                    })
                    &&& final(self).pending@ == old(self).pending@.push(Cmd::PersistHooks)
                    &&& final(self).status@ == "Hook saved"@
                    &&& *final(self) == (App {
                        lists: final(self).lists,
                        pending: final(self).pending,
                        status: final(self).status,
                        ..*old(self)
                    })
                },
            },
    {
        let mut hook = match parse_hook(line) {
            Ok(h) => h,
            Err(e) => {
                let mut t: Vec<char> = Vec::new();
                push_str(&mut t, "Hook · ");
                push_str(&mut t, e.as_str());
                self.status = string_of(t.as_slice());
                return;
            },
        };
        match at {
            Some(index) => {
                if index < self.lists.hooks.len() && !self.lists.hooks[index].builtin {
                    hook.label = match &self.lists.hooks[index].label {
                        Some(l) => Some(l.clone()),
                        None => None,
                    };
                    let ghost before = self.lists.hooks@;
                    self.lists.hooks.set(index, hook);
                    proof {
                        lemma_builtins_update(before, index as int, self.lists.hooks@[index as int]);
                    }
                    self.lists.hook_index = index;
                } else {
                    self.status = owned("That hook is no longer there — reopen the page and retry");
                    return;
                }
            },
            None => {
                let ghost before = self.lists.hooks@;
                self.lists.hooks.push(hook);
                proof {
                    reveal(Seq::filter);
                    assert(self.lists.hooks@.drop_last() =~= before);
                }
                self.lists.hook_index = self.lists.hooks.len() - 1;
            },
        }
        self.pending.push(Cmd::PersistHooks);
        self.status = owned("Hook saved");
    }

    /// Delete the selected hook, unless it is one of Medulla's own.
    pub fn delete_selected_hook(&mut self)
        ensures
            builtins(final(self).lists.hooks@) == builtins(old(self).lists.hooks@),
            old(self).lists.hook_index < old(self).lists.hooks@.len() && !old(self).lists.hooks@[old(self).lists.hook_index as int].builtin
                ==> final(self).lists.hooks@ == old(self).lists.hooks@.remove(old(self).lists.hook_index as int),
            old(self).lists.hook_index < old(self).lists.hooks@.len() && old(self).lists.hooks@[old(self).lists.hook_index as int].builtin
                ==> final(self).lists.hooks == old(self).lists.hooks && final(self).status@
                == "Medulla's own hooks cannot be deleted — press b to turn them off"@,
            old(self).lists.hook_index >= old(self).lists.hooks@.len() ==> final(self).lists.hooks == old(self).lists.hooks
                && final(self).status@ == "No hook to delete"@,
            final(self).tabs == old(self).tabs,
    {
        if self.lists.hook_index >= self.lists.hooks.len() {
            self.status = owned("No hook to delete");
            return;
        }
        if self.lists.hooks[self.lists.hook_index].builtin {
            self.status = owned("Medulla's own hooks cannot be deleted — press b to turn them off");
            return;
        }
        let ghost before = self.lists.hooks@;
        let k = self.lists.hook_index;
        self.lists.hooks.remove(k);
        proof {
            lemma_builtins_remove(before, k as int);
        }
        if self.lists.hooks.len() == 0 {
            self.lists.hook_index = 0;
        } else if self.lists.hook_index >= self.lists.hooks.len() {
            self.lists.hook_index = self.lists.hooks.len() - 1;
        }
        self.pending.push(Cmd::PersistHooks);
        self.status = owned("Removed the hook");
    }
}

/// Rewriting an operator hook with another operator hook keeps the builtins.
proof fn lemma_builtins_update(s: Seq<HookSpec>, i: int, h: HookSpec)
    requires
        0 <= i < s.len(),
        !s[i].builtin,
        !h.builtin,
    ensures
        builtins(s.update(i, h)) == builtins(s),
    decreases s.len(),
{
    reveal(Seq::filter);
    if i == s.len() - 1 {
        assert(s.update(i, h).drop_last() =~= s.drop_last());
    } else {
        assert(s.update(i, h).drop_last() =~= s.drop_last().update(i, h));
        lemma_builtins_update(s.drop_last(), i, h);
    }
}

/// Removing an operator hook keeps the builtins.
proof fn lemma_builtins_remove(s: Seq<HookSpec>, i: int)
    requires
        0 <= i < s.len(),
        !s[i].builtin,
    ensures
        builtins(s.remove(i)) == builtins(s),
    decreases s.len(),
{
    reveal(Seq::filter);
    if i == s.len() - 1 {
        assert(s.remove(i) =~= s.drop_last());
    } else {
        assert(s.remove(i).drop_last() =~= s.drop_last().remove(i));
        lemma_builtins_remove(s.drop_last(), i);
    }
}

/// "Custom harness id '<id>' already exists".
fn exists_message(id: &String) -> (r: String)
    ensures
        r@ == "Custom harness id '"@ + id@ + "' already exists"@,
{
    let mut t: Vec<char> = Vec::new();
    push_str(&mut t, "Custom harness id '");
    push_str(&mut t, id.as_str());
    push_str(&mut t, "' already exists");
    string_of(t.as_slice())
}

/// Medulla's own hooks survive every edit and deletion the operator makes.
pub proof fn law_builtin_hooks_survive(s: Seq<HookSpec>, i: int, h: HookSpec)
    requires
        0 <= i < s.len(),
        !s[i].builtin,
        !h.builtin,
    ensures
        builtins(s.update(i, h)) == builtins(s),
        builtins(s.remove(i)) == builtins(s),
        builtins(s.push(h)) == builtins(s),
{
    lemma_builtins_update(s, i, h);
    lemma_builtins_remove(s, i);
    reveal(Seq::filter);
    assert(s.push(h).drop_last() =~= s);
}

/// What saving a preset editor line does, as `App::save_custom_harness_line` states it.
pub open spec fn preset_line_saved(before: App, old_id: Option<Seq<char>>, line: Seq<char>, after: App) -> bool {
    &&& (unique_ids(before.lists.custom_harnesses@) ==> unique_ids(after.lists.custom_harnesses@))
    &&& (after.lists.custom_harnesses@.len() == before.lists.custom_harnesses@.len() || after.lists.custom_harnesses@.len()
                == before.lists.custom_harnesses@.len() + 1)
    &&& (after.tabs == before.tabs)
    &&& (harness_error(line, before.setup.harness_choices@) matches Some(e) ==> after.status@
                == "Custom harness · "@ + e && after == (App { status: after.status, ..before }))
    &&& (harness_error(line, before.setup.harness_choices@) is None ==> ({
                let hs = before.lists.custom_harnesses@;
                let nhs = after.lists.custom_harnesses@;
                let nid = harness_fields(line)[0];
                let refused = after.status@ == "Custom harness id '"@ + nid + "' already exists"@
                    && after == (App { status: after.status, ..before });
                let saved = after.pending@ == before.pending@.push(Cmd::PersistCustomHarnesses)
                    && after.status@ == "Custom harness saved"@ && after == (App {
                    lists: after.lists,
                    pending: after.pending,
                    status: after.status,
                    ..before
                });
                match old_id {
                    Some(o) => match first_index(hs.len() as int, id_at(hs, o)) {
                        None => after.status@ == "Custom harness no longer exists"@ && after == (App {
                            status: after.status,
                            ..before
                        }),
                        Some(k) => if exists|j: int| 0 <= j < hs.len() && j != k && #[trigger] hs[j].id@ == nid {
                            refused
                        } else {
                            &&& nhs.len() == hs.len()
                            &&& forall|j: int| 0 <= j < hs.len() && j != k ==> #[trigger] nhs[j] == hs[j]
                            &&& harness_view(nhs[k]) == harness_parts(line)
                            &&& nhs[k].default == hs[k].default
                            &&& after.lists == (Lists {
                                custom_harnesses: after.lists.custom_harnesses,
                                custom_harness_index: k as usize,
                                ..before.lists
                            })
                            &&& saved
                        },
                    },
                    None => if exists|j: int| 0 <= j < hs.len() && #[trigger] hs[j].id@ == nid {
                        refused
                    } else {
                        &&& nhs.len() == hs.len() + 1
                        &&& nhs.drop_last() == hs
                        &&& harness_view(nhs.last()) == harness_parts(line)
                        &&& !nhs.last().default
                        &&& after.lists == (Lists {
                            custom_harnesses: after.lists.custom_harnesses,
                            custom_harness_index: hs.len() as usize,
                            ..before.lists
                        })
                        &&& saved
                    },
                }
            }))
}

/// What saving a hook editor line does, as `App::save_hook_line` states it.
pub open spec fn hook_line_saved(before: App, at: Option<usize>, line: Seq<char>, after: App) -> bool {
    &&& (builtins(after.lists.hooks@) == builtins(before.lists.hooks@))
    &&& (after.tabs == before.tabs)
    &&& (hook_error(line) matches Some(e) ==> after.status@ == "Hook · "@ + e && after == (App {
                status: after.status,
                ..before
            }))
    &&& (hook_error(line) is None ==> match at {
                Some(i) => if i < before.lists.hooks@.len() && !before.lists.hooks@[i as int].builtin {
                    &&& after.lists.hooks@.len() == before.lists.hooks@.len()
                    &&& forall|j: int|
                        0 <= j < before.lists.hooks@.len() && j != i ==> #[trigger] after.lists.hooks@[j]
                            == before.lists.hooks@[j]
                    &&& hook_view(after.lists.hooks@[i as int]) == hook_parts(line)
                    &&& after.lists.hooks@[i as int].label == before.lists.hooks@[i as int].label
                    &&& !after.lists.hooks@[i as int].builtin
                    &&& after.lists == (Lists { hooks: after.lists.hooks, hook_index: i, ..before.lists })
                    &&& after.pending@ == before.pending@.push(Cmd::PersistHooks)
                    &&& after.status@ == "Hook saved"@
                    &&& after == (App {
                        lists: after.lists,
                        pending: after.pending,
                        status: after.status,
                        ..before
                    })
                } else {
                    after.status@ == "That hook is no longer there — reopen the page and retry"@
                        && after == (App { status: after.status, ..before })
                },
                None => {
                    &&& after.lists.hooks@.len() == before.lists.hooks@.len() + 1
                    &&& after.lists.hooks@.drop_last() == before.lists.hooks@
                    &&& hook_view(after.lists.hooks@.last()) == hook_parts(line)
                    &&& after.lists.hooks@.last().label is None
                    &&& !after.lists.hooks@.last().builtin
                    &&& after.lists == (Lists {
                        hooks: after.lists.hooks,
                        hook_index: before.lists.hooks@.len() as usize,
                        ..before.lists
                    })
                    &&& after.pending@ == before.pending@.push(Cmd::PersistHooks)
                    &&& after.status@ == "Hook saved"@
                    &&& after == (App {
                        lists: after.lists,
                        pending: after.pending,
                        status: after.status,
                        ..before
                    })
                },
            })
}

/// What saving a lane claim line does, as `App::submit_lane_claim` states it.
pub open spec fn claim_submitted(before: App, key: Seq<char>, line: Seq<char>, after: App) -> bool {
    &&& (claim_patterns(line).len() == 0 ==> after.status@ == "Agents · lane claim cleared"@
                && claim_for(after.lists.lane_claims@, key) is None)
    &&& (claim_patterns(line).len() > 0 ==> after.status@ == "Agents · lane claim saved"@
                && claim_for(after.lists.lane_claims@, key) == Some(claim_patterns(line)))
    &&& (forall|k: Seq<char>|
                k != key ==> #[trigger] claim_for(after.lists.lane_claims@, k) == claim_for(
                    before.lists.lane_claims@,
                    k,
                ))
    &&& (after == (App { lists: after.lists, status: after.status, ..before }))
    &&& (after.lists == (Lists { lane_claims: after.lists.lane_claims, ..before.lists }))
}

/// Deleting the selected custom harness, as `App::delete_selected_custom_harness` states it.
pub open spec fn preset_deleted(before: App, after: App) -> bool {
    &&& (before.lists.custom_harness_index < before.lists.custom_harnesses@.len() ==> after.lists.custom_harnesses@
                == before.lists.custom_harnesses@.remove(before.lists.custom_harness_index as int))
    &&& (before.lists.custom_harnesses@.len() == 0 ==> after.status@ == "No custom harness to delete"@
                && after.lists.custom_harnesses == before.lists.custom_harnesses)
    &&& (after.lists.custom_harnesses@.len() > 0 ==> after.lists.custom_harness_index < after.lists.custom_harnesses@.len())
    &&& (unique_ids(before.lists.custom_harnesses@) ==> unique_ids(after.lists.custom_harnesses@))
    &&& (after.tabs == before.tabs)
}

/// The editor line of a custom harness: its fields joined by ` | `.
pub open spec fn preset_line(h: CustomHarness) -> Seq<char> {
    h.id@ + " | "@ + h.name@ + " | "@ + h.harness@ + " | "@ + h.model@ + " | "@ + h.fast_model@ + " | "@ + h.host_id@
}

/// The host a new custom harness is prefilled with: this device's id, or
/// `this-device` when it has none.
pub open spec fn prefill_host(id: Seq<char>) -> Seq<char> {
    if trim(id).len() == 0 {
        "this-device"@
    } else {
        trim(id)
    }
}

/// What a key does on the Harnesses page: Up (`k`) and Down (`j`) walk the
/// custom harnesses; `a` opens the editor prefilled with an example; `e`
/// opens it on the selected one (or says to add one first); `d` deletes the
/// selected one; `r` asks for the list and the fleet to be read again. Any
/// other key is not the page's.
pub open spec fn harnesses_keyed(before: App, code: KeyCode, after: App, r: SettingsKey) -> bool {
    let l = before.lists;
    let n = l.custom_harnesses@.len();
    if code == KeyCode::Up || code == KeyCode::Char('k') || code == KeyCode::Down || code == KeyCode::Char('j') {
        r == SettingsKey::Handled(None) && after == (App {
            lists: Lists {
                custom_harness_index: stepped_index(
                    l.custom_harness_index,
                    n as usize,
                    code == KeyCode::Up || code == KeyCode::Char('k'),
                ),
                ..l
            },
            ..before
        })
    } else if code == KeyCode::Char('a') {
        &&& r == SettingsKey::Handled(None)
        &&& (after.prompt matches Some(p) && p.kind == PromptKind::CustomHarnessAdd && p.title@
            == "Add custom harness — id | name | provider | model | fast-model | host-id"@ && p.draft.text@
            == "deepseek | DeepSeek | | deepseek/deepseek-chat | | "@ + prefill_host(
            before.setup.local_host_id@,
        ) && p.draft.cursor == p.draft.text@.len())
        &&& after.status@ == "Custom harness · Enter save · Esc cancel"@
        &&& after == (App { prompt: after.prompt, status: after.status, ..before })
    } else if code == KeyCode::Char('e') {
        &&& r == SettingsKey::Handled(None)
        &&& if l.custom_harness_index < n {
            let h = l.custom_harnesses@[l.custom_harness_index as int];
            &&& (after.prompt matches Some(p) && p.kind == PromptKind::CustomHarnessEdit(h.id) && p.title@
                == "Edit custom harness — id | name | provider | model | fast-model | host-id"@ && p.draft.text@
                == preset_line(h) && p.draft.cursor == p.draft.text@.len())
            &&& after.status@ == "Custom harness · Enter save · Esc cancel"@
            &&& after == (App { prompt: after.prompt, status: after.status, ..before })
        } else {
            after.status@ == "Add a custom harness first"@ && after == (App { status: after.status, ..before })
        }
    } else if code == KeyCode::Char('d') {
        r == SettingsKey::Handled(None) && preset_deleted(before, after)
    } else if code == KeyCode::Char('r') {
        &&& r == SettingsKey::Handled(Some(Cmd::RefreshFleet))
        &&& after.pending@ == before.pending@.push(Cmd::ReloadCustomHarnesses)
        &&& after.status@ == "Harnesses refreshed"@
        &&& after == (App { pending: after.pending, status: after.status, ..before })
    } else {
        r is Unhandled && after == before
    }
}

/// A custom harness's editor line.
fn preset_line_of(h: &CustomHarness) -> (r: Vec<char>)
    ensures
        r@ == preset_line(*h),
{
    let mut t: Vec<char> = Vec::new();
    push_str(&mut t, h.id.as_str());
    push_str(&mut t, " | ");
    push_str(&mut t, h.name.as_str());
    push_str(&mut t, " | ");
    push_str(&mut t, h.harness.as_str());
    push_str(&mut t, " | ");
    push_str(&mut t, h.model.as_str());
    push_str(&mut t, " | ");
    push_str(&mut t, h.fast_model.as_str());
    push_str(&mut t, " | ");
    push_str(&mut t, h.host_id.as_str());
    t
}

impl App {
    /// Handle a key on the Harnesses page.
    #[verifier::rlimit(40)]
    #[verifier::spinoff_prover]
    pub fn harnesses_key(&mut self, code: KeyCode) -> (r: SettingsKey)
        ensures
            harnesses_keyed(*old(self), code, *final(self), r),
            final(self).tabs == old(self).tabs,
            final(self).menus == old(self).menus,
    {
        if code == KeyCode::Up || code == KeyCode::Char('k') || code == KeyCode::Down || code == KeyCode::Char('j') {
            self.lists.custom_harness_index = step_index(
                self.lists.custom_harness_index,
                self.lists.custom_harnesses.len(),
                code == KeyCode::Up || code == KeyCode::Char('k'),
            );
            SettingsKey::Handled(None)
        } else if code == KeyCode::Char('a') {
            let host = trim_of(&crate::text::chars_of_string(&self.setup.local_host_id));
            let mut text: Vec<char> = Vec::new();
            push_str(&mut text, "deepseek | DeepSeek | | deepseek/deepseek-chat | | ");
            if host.len() == 0 {
                push_str(&mut text, "this-device");
            } else {
                push_all(&mut text, &host);
            }
            self.prompt = Some(
                Prompt {
                    kind: PromptKind::CustomHarnessAdd,
                    title: owned("Add custom harness — id | name | provider | model | fast-model | host-id"),
                    draft: Draft::with_text(text),
                },
            );
            self.status = owned("Custom harness · Enter save · Esc cancel");
            SettingsKey::Handled(None)
        } else if code == KeyCode::Char('e') {
            if self.lists.custom_harness_index < self.lists.custom_harnesses.len() {
                let i = self.lists.custom_harness_index;
                let text = preset_line_of(&self.lists.custom_harnesses[i]);
                let id = self.lists.custom_harnesses[i].id.clone();
                self.prompt = Some(
                    Prompt {
                        kind: PromptKind::CustomHarnessEdit(id),
                        title: owned("Edit custom harness — id | name | provider | model | fast-model | host-id"),
                        draft: Draft::with_text(text),
                    },
                );
                self.status = owned("Custom harness · Enter save · Esc cancel");
            } else {
                self.status = owned("Add a custom harness first");
            }
            SettingsKey::Handled(None)
        } else if code == KeyCode::Char('d') {
            self.delete_selected_custom_harness();
            SettingsKey::Handled(None)
        } else if code == KeyCode::Char('r') {
            self.pending.push(Cmd::ReloadCustomHarnesses);
            self.status = owned("Harnesses refreshed");
            SettingsKey::Handled(Some(Cmd::RefreshFleet))
        } else {
            SettingsKey::Unhandled
        }
    }
}

} // verus!
