//! The workspaces the session picker offers: the ones the configuration
//! knows, ranked against the query together with folder completions, and
//! the history of workspaces a harness was started in.
use vstd::prelude::*;

use crate::app::{owned, App, Cmd, Setup, Tab};
use crate::pointer::text_of;
use crate::nav::{first_index, lemma_first_index_stable};
use crate::text::{chars_of_string, push_all, push_str, string_of};
use crate::harness::WorkspaceChoice;
use crate::matching::{as_usize_option, path_file_name, workspace_match_score, workspace_match_spec};
use crate::text::{chars_of, is_space, trim, trim_of, utf8_len};

verus! {

/// How many choices the picker lists.
pub const MAX_WORKSPACE_CHOICES: usize = 10;

/// How many workspaces the history keeps.
pub const MAX_RECENT_WORKSPACES: usize = 12;

/// How far a folder completion's score is pushed behind a known workspace's.
pub const FOLDER_SCORE_OFFSET: usize = 5;

/// A workspace the configuration knows: its path, where it came from, and
/// the name it was saved under.
pub struct KnownWorkspace {
    pub path: String,
    pub source: String,
    pub label: Option<String>,
}

/// A workspace the picker may offer, and its score against the query; no
/// score means it is not offered (it is not a directory, or does not match).
pub struct Candidate {
    pub choice: WorkspaceChoice,
    pub score: Option<usize>,
}

/// An optional string as plain text.
pub open spec fn opt_text(s: Option<String>) -> Option<Seq<char>> {
    match s {
        Some(t) => Some(t@),
        None => None,
    }
}

/// A choice as plain text: path, source, and label.
pub open spec fn choice_view(c: WorkspaceChoice) -> (Seq<char>, Seq<char>, Option<Seq<char>>) {
    (c.path@, c.source@, opt_text(c.label))
}

/// Whether candidate `c` may be listed once the paths in `taken` are.
pub open spec fn eligible(c: Candidate, taken: Seq<Seq<char>>) -> bool {
    c.score is Some && !taken.contains(c.choice.path@)
}

/// Whether candidate `i` ranks ahead of candidate `j`: a better (lower)
/// score, and on equal scores the earlier one.
pub open spec fn ahead(cs: Seq<Candidate>, i: int, j: int) -> bool {
    cs[i].score->0 < cs[j].score->0 || (cs[i].score->0 == cs[j].score->0 && i < j)
}

/// The best-ranked candidate among the first `n` that may still be listed.
pub open spec fn best_upto(cs: Seq<Candidate>, taken: Seq<Seq<char>>, n: int) -> Option<int>
    decreases n,
{
    if n <= 0 {
        None
    } else {
        let prev = best_upto(cs, taken, n - 1);
        if eligible(cs[n - 1], taken) && (prev is None || cs[n - 1].score->0 < cs[prev->0].score->0) {
            Some(n - 1)
        } else {
            prev
        }
    }
}

/// The paths of the candidates at `idx`.
pub open spec fn paths_at(cs: Seq<Candidate>, idx: Seq<int>) -> Seq<Seq<char>> {
    idx.map_values(|i: int| cs[i].choice.path@)
}

/// The candidates listed after `n` rounds, by index: each round lists the
/// best-ranked candidate whose path is not listed yet.
pub open spec fn ranked_idx(cs: Seq<Candidate>, n: nat) -> Seq<int>
    decreases n,
{
    if n == 0 {
        seq![]
    } else {
        let prev = ranked_idx(cs, (n - 1) as nat);
        match best_upto(cs, paths_at(cs, prev), cs.len() as int) {
            Some(i) => prev.push(i),
            None => prev,
        }
    }
}

/// The choices the picker lists for candidates `cs`.
pub open spec fn ranked(cs: Seq<Candidate>) -> Seq<int> {
    ranked_idx(cs, MAX_WORKSPACE_CHOICES as nat)
}

/// What `best_upto` finds: an eligible candidate ahead of every other
/// eligible one, or none when no candidate is eligible.
pub proof fn lemma_best_upto(cs: Seq<Candidate>, taken: Seq<Seq<char>>, n: int)
    requires
        0 <= n <= cs.len(),
    ensures
        match best_upto(cs, taken, n) {
            Some(i) => 0 <= i < n && eligible(cs[i], taken) && forall|j: int|
                0 <= j < n && j != i && eligible(cs[j], taken) ==> ahead(cs, i, j),
            None => forall|j: int| 0 <= j < n ==> !eligible(cs[j], taken),
        },
    decreases n,
{
    if n > 0 {
        lemma_best_upto(cs, taken, n - 1);
        let prev = best_upto(cs, taken, n - 1);
        let last = n - 1;
        match prev {
            Some(p) => {
                if eligible(cs[last], taken) && cs[last].score->0 < cs[p].score->0 {
                    assert forall|j: int| 0 <= j < n && j != last && eligible(cs[j], taken) implies ahead(
                        cs,
                        last,
                        j,
                    ) by {
                        if j != p {
                            assert(ahead(cs, p, j));
                        }
                    }
                } else {
                    assert forall|j: int| 0 <= j < n && j != p && eligible(cs[j], taken) implies ahead(cs, p, j) by {
                        if j == last {
                            assert(p < last);
                        }
                    }
                }
            },
            None => {},
        }
    }
}

/// Listed index `k` of `idx` was eligible when it was listed, and ahead of
/// every other candidate eligible then.
pub open spec fn picked_ok(cs: Seq<Candidate>, idx: Seq<int>, k: int) -> bool {
    &&& 0 <= idx[k] < cs.len()
    &&& eligible(cs[idx[k]], paths_at(cs, idx.take(k)))
    &&& forall|j: int|
        0 <= j < cs.len() && j != idx[k] && #[trigger] eligible(cs[j], paths_at(cs, idx.take(k))) ==> ahead(
            cs,
            idx[k],
            j,
        )
}

/// Each listed index is a candidate that was eligible when it was listed.
proof fn lemma_ranked_idx(cs: Seq<Candidate>, n: nat)
    ensures
        ranked_idx(cs, n).len() <= n,
        forall|k: int| 0 <= k < ranked_idx(cs, n).len() ==> #[trigger] picked_ok(cs, ranked_idx(cs, n), k),
    decreases n,
{
    if n > 0 {
        let prev = ranked_idx(cs, (n - 1) as nat);
        lemma_ranked_idx(cs, (n - 1) as nat);
        lemma_best_upto(cs, paths_at(cs, prev), cs.len() as int);
        let idx = ranked_idx(cs, n);
        assert forall|k: int| 0 <= k < idx.len() implies #[trigger] picked_ok(cs, idx, k) by {
            if k < prev.len() {
                assert(idx.take(k) =~= prev.take(k));
                assert(picked_ok(cs, prev, k));
            } else {
                assert(idx.take(k) =~= prev);
            }
        }
    }
}

/// Once a round lists nothing, no candidate is left to list, and no later
/// round lists anything.
proof fn lemma_ranked_stops(cs: Seq<Candidate>, n: nat)
    ensures
        ranked_idx(cs, n).len() < n ==> best_upto(cs, paths_at(cs, ranked_idx(cs, n)), cs.len() as int) is None,
    decreases n,
{
    if n > 0 {
        let prev = ranked_idx(cs, (n - 1) as nat);
        lemma_ranked_stops(cs, (n - 1) as nat);
        lemma_ranked_idx(cs, (n - 1) as nat);
    }
}

/// The picker never lists one directory twice.
pub proof fn law_ranked_paths_distinct(cs: Seq<Candidate>)
    ensures
        forall|a: int, b: int|
            0 <= a < b < ranked(cs).len() ==> cs[ranked(cs)[a]].choice.path@ != cs[ranked(cs)[b]].choice.path@,
{
    let idx = ranked(cs);
    lemma_ranked_idx(cs, MAX_WORKSPACE_CHOICES as nat);
    assert forall|a: int, b: int| 0 <= a < b < idx.len() implies cs[idx[a]].choice.path@
        != cs[idx[b]].choice.path@ by {
        let taken = paths_at(cs, idx.take(b));
        assert(picked_ok(cs, idx, b));
        assert(taken[a] == cs[idx[a]].choice.path@);
        assert(!taken.contains(cs[idx[b]].choice.path@));
    }
}

/// The picker lists at most ten workspaces, each one a candidate with a
/// score, and in ranking order: better scores first, and on equal scores the
/// candidate that came first.
pub proof fn law_ranked_order(cs: Seq<Candidate>)
    ensures
        ranked(cs).len() <= MAX_WORKSPACE_CHOICES,
        forall|k: int| 0 <= k < ranked(cs).len() ==> 0 <= #[trigger] ranked(cs)[k] < cs.len() && cs[ranked(cs)[k]].score is Some,
        forall|a: int, b: int| 0 <= a < b < ranked(cs).len() ==> ahead(cs, ranked(cs)[a], ranked(cs)[b]),
{
    let idx = ranked(cs);
    lemma_ranked_idx(cs, MAX_WORKSPACE_CHOICES as nat);
    law_ranked_paths_distinct(cs);
    assert forall|k: int| 0 <= k < idx.len() implies 0 <= #[trigger] idx[k] < cs.len() && cs[idx[k]].score is Some by {
        assert(picked_ok(cs, idx, k));
    }
    assert forall|a: int, b: int| 0 <= a < b < idx.len() implies ahead(cs, idx[a], idx[b]) by {
        let ta = paths_at(cs, idx.take(a));
        let tb = paths_at(cs, idx.take(b));
        assert(picked_ok(cs, idx, a));
        assert(picked_ok(cs, idx, b));
        assert(eligible(cs[idx[b]], tb));
        assert forall|p: Seq<char>| ta.contains(p) implies tb.contains(p) by {
            let w = choose|w: int| 0 <= w < ta.len() && ta[w] == p;
            assert(tb[w] == p);
        }
        assert(eligible(cs[idx[b]], ta));
        assert(idx[b] != idx[a]);
    }
}

/// Short of the limit, every candidate that may be listed is: its directory
/// is on the list (under its best-ranked candidate).
pub proof fn law_ranked_complete(cs: Seq<Candidate>)
    ensures
        ranked(cs).len() < MAX_WORKSPACE_CHOICES ==> forall|j: int|
            0 <= j < cs.len() && cs[j].score is Some ==> paths_at(cs, ranked(cs)).contains(cs[j].choice.path@),
{
    lemma_ranked_stops(cs, MAX_WORKSPACE_CHOICES as nat);
    lemma_best_upto(cs, paths_at(cs, ranked(cs)), cs.len() as int);
}

/// Whether `path` is already listed in `out`.
fn listed(out: &Vec<WorkspaceChoice>, path: &String) -> (r: bool)
    ensures
        r == out@.map_values(|c: WorkspaceChoice| c.path@).contains(path@),
{
    let mut i: usize = 0;
    while i < out.len()
        invariant
            i <= out@.len(),
            forall|k: int| 0 <= k < i ==> out@[k].path@ != path@,
        decreases out.len() - i,
    {
        if out[i].path == *path {
            assert(out@.map_values(|c: WorkspaceChoice| c.path@)[i as int] == path@);
            return true;
        }
        i = i + 1;
    }
    false
}

/// A copy of a choice.
fn copy_choice(c: &WorkspaceChoice) -> (r: WorkspaceChoice)
    ensures
        choice_view(r) == choice_view(*c),
{
    WorkspaceChoice {
        path: c.path.clone(),
        source: c.source.clone(),
        label: match &c.label {
            Some(l) => Some(l.clone()),
            None => None,
        },
    }
}

/// The best-ranked candidate whose path is not yet listed in `out`.
fn best_candidate(cs: &Vec<Candidate>, out: &Vec<WorkspaceChoice>, Ghost(taken): Ghost<Seq<Seq<char>>>) -> (r: Option<
    usize,
>)
    requires
        taken == out@.map_values(|c: WorkspaceChoice| c.path@),
    ensures
        match best_upto(cs@, taken, cs@.len() as int) {
            Some(i) => r == Some(i as usize),
            None => r is None,
        },
{
    let mut best: Option<usize> = None;
    let mut i: usize = 0;
    while i < cs.len()
        invariant
            i <= cs@.len(),
            taken == out@.map_values(|c: WorkspaceChoice| c.path@),
            cs@.len() == cs.len(),
            match best_upto(cs@, taken, i as int) {
                Some(k) => 0 <= k < i && best == Some(k as usize),
                None => best is None,
            },
        decreases cs.len() - i,
    {
        proof {
            lemma_best_upto(cs@, taken, i as int);
        }
        let ok = match cs[i].score {
            Some(_) => !listed(out, &cs[i].choice.path),
            None => false,
        };
        if ok {
            let better = match best {
                None => true,
                Some(b) => {
                    assert(b < cs@.len());
                    match (cs[i].score, cs[b].score) {
                        (Some(s), Some(t)) => s < t,
                        _ => false,
                    }
                },
            };
            if better {
                best = Some(i);
            }
        }
        proof {
            let prev = best_upto(cs@, taken, i as int);
            if prev is Some {
                lemma_best_upto(cs@, taken, i as int);
            }
        }
        i = i + 1;
    }
    best
}

/// List the candidates in ranking order, one per directory, at most ten:
/// each round takes the best-scored candidate whose directory is not yet
/// listed, the earlier one on equal scores.
pub fn rank_workspace_choices(cs: &Vec<Candidate>) -> (r: Vec<WorkspaceChoice>)
    ensures
        r@.len() == ranked(cs@).len(),
        forall|k: int| 0 <= k < r@.len() ==> choice_view(r@[k]) == choice_view(cs@[ranked(cs@)[k]].choice),
{
    let mut out: Vec<WorkspaceChoice> = Vec::new();
    let mut round: usize = 0;
    let ghost mut idx: Seq<int> = seq![];
    while round < MAX_WORKSPACE_CHOICES
        invariant
            round <= MAX_WORKSPACE_CHOICES,
            idx == ranked_idx(cs@, round as nat),
            out@.len() == idx.len(),
            forall|k: int| 0 <= k < out@.len() ==> choice_view(out@[k]) == choice_view(cs@[idx[k]].choice),
            forall|k: int| 0 <= k < idx.len() ==> 0 <= #[trigger] idx[k] < cs@.len(),
        decreases MAX_WORKSPACE_CHOICES - round,
    {
        let ghost taken = out@.map_values(|c: WorkspaceChoice| c.path@);
        proof {
            assert(taken =~= paths_at(cs@, idx));
            lemma_best_upto(cs@, taken, cs@.len() as int);
        }
        match best_candidate(cs, &out, Ghost(taken)) {
            Some(i) => {
                proof {
                    assert(cs@.len() == cs.len());
                    assert(i as int == best_upto(cs@, taken, cs@.len() as int)->0);
                }
                let c = copy_choice(&cs[i].choice);
                out.push(c);
                proof {
                    idx = idx.push(i as int);
                }
            },
            None => {},
        }
        round = round + 1;
    }
    out
}

/// Whether a query has anything but whitespace in it.
pub open spec fn blank(q: Seq<char>) -> bool {
    trim(q).len() == 0
}

/// A known workspace as plain text: path, source, label.
pub open spec fn known_view(k: KnownWorkspace) -> (Seq<char>, Seq<char>, Option<Seq<char>>) {
    (k.path@, k.source@, opt_text(k.label))
}

/// The score of known workspace `k` against `query`, when it is a directory.
pub open spec fn known_score(k: KnownWorkspace, is_dir: bool, query: Seq<char>) -> Option<usize> {
    if is_dir {
        as_usize_option(
            workspace_match_spec(
                k.path@,
                path_file_name(k.path@),
                match k.label {
                    Some(l) => Some((l@, path_file_name(l@))),
                    None => None,
                },
                query,
            ),
        )
    } else {
        None
    }
}

/// The candidates for `query`: every known workspace in order, scored when it
/// is a directory, then, for a query that is not blank, the folder
/// completions pushed behind by [`FOLDER_SCORE_OFFSET`].
pub fn workspace_candidates(
    known: &Vec<KnownWorkspace>,
    is_dir: &Vec<bool>,
    folders: &Vec<(usize, String)>,
    query: &str,
) -> (r: Vec<Candidate>)
    requires
        is_dir@.len() == known@.len(),
        forall|i: int|
            0 <= i < known@.len() ==> utf8_len(#[trigger] known@[i].path@) <= usize::MAX / 4 && (known@[i].label matches Some(
                l,
            ) ==> utf8_len(l@) <= usize::MAX / 4),
        forall|j: int| 0 <= j < folders@.len() ==> #[trigger] folders@[j].0 + FOLDER_SCORE_OFFSET <= usize::MAX,
    ensures
        r@.len() == known@.len() + (if blank(query@) {
            0
        } else {
            folders@.len()
        }),
        forall|i: int|
            0 <= i < known@.len() ==> choice_view(#[trigger] r@[i].choice) == known_view(known@[i]) && r@[i].score
                == known_score(known@[i], is_dir@[i], query@),
        !blank(query@) ==> forall|j: int|
            0 <= j < folders@.len() ==> choice_view(#[trigger] r@[known@.len() + j].choice) == (
                folders@[j].1@,
                "folder"@,
                None::<Seq<char>>,
            ) && r@[known@.len() + j].score == Some((folders@[j].0 + FOLDER_SCORE_OFFSET) as usize),
{
    let mut out: Vec<Candidate> = Vec::new();
    let mut i: usize = 0;
    while i < known.len()
        invariant
            i <= known@.len(),
            is_dir@.len() == known@.len(),
            out@.len() == i,
            forall|k: int|
                0 <= k < known@.len() ==> utf8_len(#[trigger] known@[k].path@) <= usize::MAX / 4 && (known@[k].label matches Some(
                    l,
                ) ==> utf8_len(l@) <= usize::MAX / 4),
            forall|k: int|
                0 <= k < i ==> choice_view(#[trigger] out@[k].choice) == known_view(known@[k]) && out@[k].score
                    == known_score(known@[k], is_dir@[k], query@),
        decreases known.len() - i,
    {
        let k = &known[i];
        let score = if is_dir[i] {
            let label = match &k.label {
                Some(l) => Some(l.as_str()),
                None => None,
            };
            workspace_match_score(k.path.as_str(), label, query)
        } else {
            None
        };
        let label = match &k.label {
            Some(l) => Some(l.clone()),
            None => None,
        };
        out.push(
            Candidate {
                choice: WorkspaceChoice { path: k.path.clone(), source: k.source.clone(), label },
                score,
            },
        );
        i = i + 1;
    }
    let q = chars_of(query);
    let t = trim_of(&q);
    if t.len() == 0 {
        return out;
    }
    let mut j: usize = 0;
    while j < folders.len()
        invariant
            j <= folders@.len(),
            out@.len() == known@.len() + j,
            forall|k: int| 0 <= k < folders@.len() ==> #[trigger] folders@[k].0 + FOLDER_SCORE_OFFSET <= usize::MAX,
            forall|k: int|
                0 <= k < known@.len() ==> choice_view(#[trigger] out@[k].choice) == known_view(known@[k]) && out@[k].score
                    == known_score(known@[k], is_dir@[k], query@),
            forall|k: int|
                0 <= k < j ==> choice_view(#[trigger] out@[known@.len() + k].choice) == (
                    folders@[k].1@,
                    "folder"@,
                    None::<Seq<char>>,
                ) && out@[known@.len() + k].score == Some((folders@[k].0 + FOLDER_SCORE_OFFSET) as usize),
        decreases folders.len() - j,
    {
        let source = owned("folder");
        out.push(
            Candidate {
                choice: WorkspaceChoice { path: folders[j].1.clone(), source, label: None },
                score: Some(folders[j].0 + FOLDER_SCORE_OFFSET),
            },
        );
        j = j + 1;
    }
    out
}

/// `s` without the entries equal to `w`, in order.
pub open spec fn without(s: Seq<Seq<char>>, w: Seq<char>) -> Seq<Seq<char>>
    decreases s.len(),
{
    if s.len() == 0 {
        seq![]
    } else {
        let rest = without(s.drop_last(), w);
        if s.last() == w {
            rest
        } else {
            rest.push(s.last())
        }
    }
}

/// At most the first `n` entries of `s`.
pub open spec fn capped<A>(s: Seq<A>, n: nat) -> Seq<A> {
    if s.len() <= n {
        s
    } else {
        s.take(n as int)
    }
}

/// The history after remembering `w`: `w` first, then the others in their
/// order, at most [`MAX_RECENT_WORKSPACES`] of them.
pub open spec fn remembered(recent: Seq<Seq<char>>, w: Seq<char>) -> Seq<Seq<char>> {
    capped(seq![w] + without(recent, w), MAX_RECENT_WORKSPACES as nat)
}

/// Strings as plain text.
pub open spec fn texts(v: Seq<String>) -> Seq<Seq<char>> {
    v.map_values(|s: String| s@)
}

proof fn lemma_without(s: Seq<Seq<char>>, w: Seq<char>)
    ensures
        !without(s, w).contains(w),
        without(s, w).len() <= s.len(),
        forall|p: Seq<char>| p != w ==> (s.contains(p) <==> without(s, w).contains(p)),
        (forall|a: int, b: int| 0 <= a < b < s.len() ==> s[a] != s[b]) ==> (forall|a: int, b: int|
            0 <= a < b < without(s, w).len() ==> without(s, w)[a] != without(s, w)[b]),
    decreases s.len(),
{
    if s.len() > 0 {
        let d = s.drop_last();
        lemma_without(d, w);
        let wd = without(d, w);
        let ws = without(s, w);
        assert forall|p: Seq<char>| p != w implies (s.contains(p) <==> ws.contains(p)) by {
            if s.contains(p) {
                let i = choose|i: int| 0 <= i < s.len() && s[i] == p;
                if i < d.len() {
                    assert(d[i] == p);
                    assert(d.contains(p));
                    assert(wd.contains(p));
                    let j = choose|j: int| 0 <= j < wd.len() && wd[j] == p;
                    if s.last() == w {
                        assert(ws[j] == p);
                    } else {
                        assert(ws[j] == p);
                    }
                } else {
                    assert(ws[ws.len() - 1] == p);
                }
            }
            if ws.contains(p) {
                let j = choose|j: int| 0 <= j < ws.len() && ws[j] == p;
                if s.last() != w && j == ws.len() - 1 {
                    assert(s[s.len() - 1] == p);
                } else {
                    assert(wd[j] == p);
                    assert(d.contains(p));
                    let k = choose|k: int| 0 <= k < d.len() && d[k] == p;
                    assert(s[k] == p);
                }
            }
        }
        if forall|a: int, b: int| 0 <= a < b < s.len() ==> s[a] != s[b] {
            assert forall|a: int, b: int| 0 <= a < b < d.len() implies d[a] != d[b] by {
                assert(s[a] != s[b]);
            }
            if s.last() != w {
                assert(!d.contains(s.last())) by {
                    if d.contains(s.last()) {
                        let k = choose|k: int| 0 <= k < d.len() && d[k] == s.last();
                        assert(s[k] != s[s.len() - 1]);
                    }
                }
                assert(!without(d, w).contains(s.last()));
            }
        }
    }
}

/// Remembering a workspace puts it first, keeps it there once, keeps every
/// other remembered workspace that still fits, and never holds more than
/// [`MAX_RECENT_WORKSPACES`] entries; a history without repeats stays
/// without repeats.
pub proof fn law_remembered(recent: Seq<Seq<char>>, w: Seq<char>)
    ensures
        remembered(recent, w).len() >= 1,
        remembered(recent, w)[0] == w,
        remembered(recent, w).len() <= MAX_RECENT_WORKSPACES,
        forall|k: int| 1 <= k < remembered(recent, w).len() ==> remembered(recent, w)[k] != w,
        remembered(recent, w).len() < MAX_RECENT_WORKSPACES ==> forall|p: Seq<char>|
            recent.contains(p) ==> remembered(recent, w).contains(p),
        (forall|a: int, b: int| 0 <= a < b < recent.len() ==> recent[a] != recent[b]) ==> (forall|a: int, b: int|
            0 <= a < b < remembered(recent, w).len() ==> remembered(recent, w)[a] != remembered(recent, w)[b]),
{
    lemma_without(recent, w);
    let full = seq![w] + without(recent, w);
    let r = remembered(recent, w);
    assert forall|k: int| 1 <= k < r.len() implies r[k] != w by {
        assert(r[k] == without(recent, w)[k - 1]);
    }
    if r.len() < MAX_RECENT_WORKSPACES {
        assert(r == full);
        assert forall|p: Seq<char>| recent.contains(p) implies r.contains(p) by {
            if p == w {
                assert(r[0] == p);
            } else {
                let i = choose|i: int| 0 <= i < without(recent, w).len() && without(recent, w)[i] == p;
                assert(r[i + 1] == p);
            }
        }
    }
    if forall|a: int, b: int| 0 <= a < b < recent.len() ==> recent[a] != recent[b] {
        assert forall|a: int, b: int| 0 <= a < b < r.len() implies r[a] != r[b] by {
            if a == 0 {
                assert(r[b] != w);
            } else {
                assert(r[a] == without(recent, w)[a - 1]);
                assert(r[b] == without(recent, w)[b - 1]);
            }
        }
    }
}

/// The history after remembering `workspace`.
pub fn remember_workspace(recent: &Vec<String>, workspace: &String) -> (r: Vec<String>)
    ensures
        texts(r@) == remembered(texts(recent@), workspace@),
{
    let mut out: Vec<String> = Vec::new();
    out.push(workspace.clone());
    let mut i: usize = 0;
    while i < recent.len()
        invariant
            i <= recent@.len(),
            texts(out@) == seq![workspace@] + without(texts(recent@.take(i as int)), workspace@),
        decreases recent.len() - i,
    {
        proof {
            assert(texts(recent@.take(i + 1)).drop_last() =~= texts(recent@.take(i as int)));
            assert(texts(recent@.take(i + 1)).last() == recent@[i as int]@);
        }
        if !(recent[i] == *workspace) {
            let c = recent[i].clone();
            let ghost before = out@;
            out.push(c);
            proof {
                assert(texts(out@) =~= texts(before).push(recent@[i as int]@));
                let t1 = texts(recent@.take(i + 1));
                assert(without(t1, workspace@) == without(texts(recent@.take(i as int)), workspace@).push(recent@[i as int]@));
                assert(texts(out@) =~= seq![workspace@] + without(texts(recent@.take(i + 1)), workspace@));
            }
        } else {
            proof {
                let t1 = texts(recent@.take(i + 1));
                assert(without(t1, workspace@) == without(texts(recent@.take(i as int)), workspace@));
            }
        }
        i = i + 1;
    }
    proof {
        assert(recent@.take(i as int) =~= recent@);
    }
    if out.len() > MAX_RECENT_WORKSPACES {
        out.truncate(MAX_RECENT_WORKSPACES);
        proof {
            assert(texts(out@) =~= remembered(texts(recent@), workspace@));
        }
    }
    out
}

/// The host workspaces the configuration registers, in order: the host's own
/// workspace when it is not blank, its extra workspaces, then for each peer
/// host its workspace when not blank and its extra workspaces.
pub open spec fn registered_spec(
    host_workspace: Seq<char>,
    host_workspaces: Seq<Seq<char>>,
    hosts: Seq<(Seq<char>, Seq<Seq<char>>)>,
) -> Seq<Seq<char>> {
    (if blank(host_workspace) {
        seq![]
    } else {
        seq![host_workspace]
    }) + host_workspaces + hosts_spec(hosts)
}

/// The workspaces peer hosts register, in order.
pub open spec fn hosts_spec(hosts: Seq<(Seq<char>, Seq<Seq<char>>)>) -> Seq<Seq<char>>
    decreases hosts.len(),
{
    if hosts.len() == 0 {
        seq![]
    } else {
        let h = hosts.last();
        hosts_spec(hosts.drop_last()) + (if blank(h.0) {
            seq![]
        } else {
            seq![h.0]
        }) + h.1
    }
}

/// A peer host's workspace and extra workspaces as plain text.
pub open spec fn host_view(h: (String, Vec<String>)) -> (Seq<char>, Seq<Seq<char>>) {
    (h.0@, texts(h.1@))
}

proof fn lemma_push_concat<A>(a: Seq<A>, b: Seq<A>, x: A)
    ensures
        (a + b).push(x) == a + b.push(x),
{
    assert((a + b).push(x) =~= a + b.push(x));
}

/// Append copies of `v` to `out`.
fn push_copies(out: &mut Vec<String>, v: &Vec<String>)
    ensures
        texts(final(out)@) == texts(old(out)@) + texts(v@),
{
    let mut i: usize = 0;
    while i < v.len()
        invariant
            i <= v@.len(),
            texts(out@) == texts(old(out)@) + texts(v@.take(i as int)),
        decreases v.len() - i,
    {
        let ghost before = out@;
        out.push(v[i].clone());
        proof {
            assert(texts(out@) =~= texts(before).push(v@[i as int]@));
            assert(texts(v@.take(i + 1)) =~= texts(v@.take(i as int)).push(v@[i as int]@));
            lemma_push_concat(texts(old(out)@), texts(v@.take(i as int)), v@[i as int]@);
        }
        i = i + 1;
    }
    assert(v@.take(i as int) =~= v@);
}

/// Whether `s` has anything but whitespace in it.
fn not_blank(s: &String) -> (r: bool)
    ensures
        r == !blank(s@),
{
    let cs = chars_of(s.as_str());
    trim_of(&cs).len() > 0
}

/// The host workspaces the configuration registers (see [`registered_spec`]).
pub fn registered_workspaces(
    host_workspace: &String,
    host_workspaces: &Vec<String>,
    hosts: &Vec<(String, Vec<String>)>,
) -> (r: Vec<String>)
    ensures
        texts(r@) == registered_spec(host_workspace@, texts(host_workspaces@), hosts@.map_values(|h: (String, Vec<String>)| host_view(h))),
{
    let mut out: Vec<String> = Vec::new();
    if not_blank(host_workspace) {
        out.push(host_workspace.clone());
    }
    push_copies(&mut out, host_workspaces);
    let ghost head = texts(out@);
    let mut i: usize = 0;
    while i < hosts.len()
        invariant
            i <= hosts@.len(),
            texts(out@) == head + hosts_spec(hosts@.take(i as int).map_values(|h: (String, Vec<String>)| host_view(h))),
        decreases hosts.len() - i,
    {
        let ghost before = texts(out@);
        let nb = not_blank(&hosts[i].0);
        if nb {
            out.push(hosts[i].0.clone());
        }
        let ghost mid = texts(out@);
        proof {
            if nb {
                assert(mid =~= before + seq![hosts@[i as int].0@]);
            } else {
                assert(mid =~= before + Seq::<Seq<char>>::empty());
            }
        }
        push_copies(&mut out, &hosts[i].1);
        proof {
            let hv = hosts@.take(i + 1).map_values(|h: (String, Vec<String>)| host_view(h));
            let pv = hosts@.take(i as int).map_values(|h: (String, Vec<String>)| host_view(h));
            assert(hv.drop_last() =~= pv);
            assert(hv.last() == host_view(hosts@[i as int]));
            let h = hv.last();
            assert(hosts_spec(hv) == hosts_spec(pv) + (if blank(h.0) {
                Seq::<Seq<char>>::empty()
            } else {
                seq![h.0]
            }) + h.1);
            assert(texts(out@) =~= head + hosts_spec(hv));
        }
        i = i + 1;
    }
    proof {
        assert(hosts@.take(i as int) =~= hosts@);
    }
    out
}

/// The workspaces the configuration knows, in ranking order: favorites
/// (named), the history, the host's default, then the registered ones.
pub open spec fn known_spec(
    favorites: Seq<(Seq<char>, Seq<char>)>,
    recent: Seq<Seq<char>>,
    default: Seq<char>,
    registered: Seq<Seq<char>>,
) -> Seq<(Seq<char>, Seq<char>, Option<Seq<char>>)> {
    favorites.map_values(|f: (Seq<char>, Seq<char>)| (f.1, "favorite"@, Some(f.0))) + recent.map_values(
        |p: Seq<char>| (p, "recent"@, None::<Seq<char>>),
    ) + seq![(default, "default"@, None::<Seq<char>>)] + registered.map_values(
        |p: Seq<char>| (p, "registered"@, None::<Seq<char>>),
    )
}

/// Append each path in `paths` as a known workspace from `source`.
fn push_known(out: &mut Vec<KnownWorkspace>, paths: &Vec<String>, source: &str)
    ensures
        final(out)@.map_values(|k: KnownWorkspace| known_view(k)) == old(out)@.map_values(
            |k: KnownWorkspace| known_view(k),
        ) + texts(paths@).map_values(|p: Seq<char>| (p, source@, None::<Seq<char>>)),
{
    let mut i: usize = 0;
    while i < paths.len()
        invariant
            i <= paths@.len(),
            out@.map_values(|k: KnownWorkspace| known_view(k)) == old(out)@.map_values(
                |k: KnownWorkspace| known_view(k),
            ) + texts(paths@.take(i as int)).map_values(|p: Seq<char>| (p, source@, None::<Seq<char>>)),
        decreases paths.len() - i,
    {
        let ghost before = out@;
        let k = KnownWorkspace { path: paths[i].clone(), source: owned(source), label: None };
        out.push(k);
        proof {
            let item = (paths@[i as int]@, source@, None::<Seq<char>>);
            assert(out@.map_values(|k: KnownWorkspace| known_view(k)) =~= before.map_values(
                |k: KnownWorkspace| known_view(k),
            ).push(item));
            assert(texts(paths@.take(i + 1)).map_values(|p: Seq<char>| (p, source@, None::<Seq<char>>))
                =~= texts(paths@.take(i as int)).map_values(|p: Seq<char>| (p, source@, None::<Seq<char>>)).push(
                item,
            ));
            lemma_push_concat(
                old(out)@.map_values(|k: KnownWorkspace| known_view(k)),
                texts(paths@.take(i as int)).map_values(|p: Seq<char>| (p, source@, None::<Seq<char>>)),
                item,
            );
        }
        i = i + 1;
    }
    assert(paths@.take(i as int) =~= paths@);
}

/// The workspaces the configuration knows (see [`known_spec`]); each path is
/// already absolute.
pub fn known_workspaces(
    favorites: &Vec<(String, String)>,
    recent: &Vec<String>,
    default: &String,
    registered: &Vec<String>,
) -> (r: Vec<KnownWorkspace>)
    ensures
        r@.map_values(|k: KnownWorkspace| known_view(k)) == known_spec(
            favorites@.map_values(|f: (String, String)| (f.0@, f.1@)),
            texts(recent@),
            default@,
            texts(registered@),
        ),
{
    let mut out: Vec<KnownWorkspace> = Vec::new();
    let mut i: usize = 0;
    while i < favorites.len()
        invariant
            i <= favorites@.len(),
            out@.map_values(|k: KnownWorkspace| known_view(k)) == favorites@.take(i as int).map_values(
                |f: (String, String)| (f.0@, f.1@),
            ).map_values(|f: (Seq<char>, Seq<char>)| (f.1, "favorite"@, Some(f.0))),
        decreases favorites.len() - i,
    {
        let ghost before = out@;
        out.push(
            KnownWorkspace {
                path: favorites[i].1.clone(),
                source: owned("favorite"),
                label: Some(favorites[i].0.clone()),
            },
        );
        proof {
            let item = (favorites@[i as int].1@, "favorite"@, Some(favorites@[i as int].0@));
            assert(out@.map_values(|k: KnownWorkspace| known_view(k)) =~= before.map_values(
                |k: KnownWorkspace| known_view(k),
            ).push(item));
            assert(favorites@.take(i + 1).map_values(|f: (String, String)| (f.0@, f.1@)).map_values(
                |f: (Seq<char>, Seq<char>)| (f.1, "favorite"@, Some(f.0)),
            ) =~= favorites@.take(i as int).map_values(|f: (String, String)| (f.0@, f.1@)).map_values(
                |f: (Seq<char>, Seq<char>)| (f.1, "favorite"@, Some(f.0)),
            ).push(item));
        }
        i = i + 1;
    }
    assert(favorites@.take(i as int) =~= favorites@);
    push_known(&mut out, recent, "recent");
    let ghost before = out@;
    out.push(KnownWorkspace { path: default.clone(), source: owned("default"), label: None });
    assert(out@.map_values(|k: KnownWorkspace| known_view(k)) =~= before.map_values(|k: KnownWorkspace| known_view(k))
        + seq![(default@, "default"@, None::<Seq<char>>)]);
    push_known(&mut out, registered, "registered");
    out
}

/// The candidate list the picker ranks: `cs` holds every known workspace in
/// order, scored when it is a directory, then for a query that is not blank
/// each folder completion pushed behind by [`FOLDER_SCORE_OFFSET`].
pub open spec fn candidates_for(
    cs: Seq<Candidate>,
    known: Seq<KnownWorkspace>,
    is_dir: Seq<bool>,
    folders: Seq<(usize, String)>,
    query: Seq<char>,
) -> bool {
    &&& cs.len() == known.len() + (if blank(query) {
        0
    } else {
        folders.len()
    })
    &&& forall|i: int|
        0 <= i < known.len() ==> choice_view(#[trigger] cs[i].choice) == known_view(known[i]) && cs[i].score
            == known_score(known[i], is_dir[i], query)
    &&& !blank(query) ==> forall|j: int|
        0 <= j < folders.len() ==> choice_view(#[trigger] cs[known.len() + j].choice) == (
            folders[j].1@,
            "folder"@,
            None::<Seq<char>>,
        ) && cs[known.len() + j].score == Some((folders[j].0 + FOLDER_SCORE_OFFSET) as usize)
}

/// The workspaces the picker lists for `query`: the known workspaces (`is_dir`
/// says which are directories) and the folder completions, ranked by score
/// and then by order, one row per directory, at most ten.
pub fn workspace_choices(
    known: &Vec<KnownWorkspace>,
    is_dir: &Vec<bool>,
    folders: &Vec<(usize, String)>,
    query: &str,
) -> (r: Vec<WorkspaceChoice>)
    requires
        is_dir@.len() == known@.len(),
        forall|i: int|
            0 <= i < known@.len() ==> utf8_len(#[trigger] known@[i].path@) <= usize::MAX / 4 && (known@[i].label matches Some(
                l,
            ) ==> utf8_len(l@) <= usize::MAX / 4),
        forall|j: int| 0 <= j < folders@.len() ==> #[trigger] folders@[j].0 + FOLDER_SCORE_OFFSET <= usize::MAX,
    ensures
        exists|cs: Seq<Candidate>|
            {
                &&& candidates_for(cs, known@, is_dir@, folders@, query@)
                &&& r@.len() == ranked(cs).len()
                &&& forall|k: int|
                    0 <= k < r@.len() ==> choice_view(#[trigger] r@[k]) == choice_view(cs[ranked(cs)[k]].choice)
            },
        r@.len() <= MAX_WORKSPACE_CHOICES,
        forall|a: int, b: int| 0 <= a < b < r@.len() ==> r@[a].path@ != r@[b].path@,
{
    let cs = workspace_candidates(known, is_dir, folders, query);
    let r = rank_workspace_choices(&cs);
    assert(candidates_for(cs@, known@, is_dir@, folders@, query@));
    proof {
        law_ranked_order(cs@);
        law_ranked_paths_distinct(cs@);
        assert forall|a: int, b: int| 0 <= a < b < r@.len() implies r@[a].path@ != r@[b].path@ by {
            assert(choice_view(r@[a]) == choice_view(cs@[ranked(cs@)[a]].choice));
            assert(choice_view(r@[b]) == choice_view(cs@[ranked(cs@)[b]].choice));
        }
    }
    r
}

impl App {
    /// Remember a workspace a harness started in, newest first, and ask for
    /// the history to be saved.
    pub fn remember_harness_workspace(&mut self, workspace: &String)
        ensures
            texts(final(self).setup.recent_workspaces@) == remembered(
                texts(old(self).setup.recent_workspaces@),
                workspace@,
            ),
            final(self).pending@ == old(self).pending@.push(Cmd::PersistRecentWorkspaces),
            *final(self) == (App {
                setup: Setup { recent_workspaces: final(self).setup.recent_workspaces, ..old(self).setup },
                pending: final(self).pending,
                ..*old(self)
            }),
    {
        self.setup.recent_workspaces = remember_workspace(&self.setup.recent_workspaces, workspace);
        self.pending.push(Cmd::PersistRecentWorkspaces);
    }

    /// A harness of the operator's own started as session `id` in
    /// `workspace`: show it on the Sessions tab with the cursor on its row,
    /// say it is unmanaged, and remember the workspace.
    pub fn harness_started(&mut self, id: &String, name: &String, workspace: &String)
        ensures
            old(self).tab_pos_spec(Tab::Sessions) is Some ==> final(self).tab_index == old(self).tab_pos_spec(
                Tab::Sessions,
            )->0,
            old(self).tab_pos_spec(Tab::Sessions) is None ==> final(self).tab_index == old(self).tab_index,
            final(self).status@ == "Started "@ + name@ + " · unmanaged, the orchestrator will not use it"@,
            texts(final(self).setup.recent_workspaces@) == remembered(
                texts(old(self).setup.recent_workspaces@),
                workspace@,
            ),
            final(self).tabs == old(self).tabs,
    {
        match self.tab_pos(Tab::Sessions) {
            Some(i) => {
                self.tab_index = i;
            },
            None => {},
        }
        self.select_harness_row(id);
        let n = chars_of_string(name);
        let mut t: Vec<char> = Vec::new();
        push_str(&mut t, "Started ");
        push_all(&mut t, &n);
        push_str(&mut t, " · unmanaged, the orchestrator will not use it");
        self.status = string_of(t.as_slice());
        self.remember_harness_workspace(workspace);
    }

    /// Put the rail cursor on the first row of harness session `id`, if it
    /// has one; otherwise leave it where it is.
    pub fn select_harness_row(&mut self, id: &String)
        ensures
            *final(self) == (App {
                agent_index: match first_index(
                    old(self).rail().len() as int,
                    |k: int| text_of(old(self).row_session_spec(k as usize)) == Some(id@),
                ) {
                    Some(k) => k as usize,
                    None => old(self).agent_index,
                },
                ..*old(self)
            }),
    {
        let ghost p = |k: int| text_of(old(self).row_session_spec(k as usize)) == Some(id@);
        let rows = self.rail_rows();
        let mut i: usize = 0;
        while i < rows.len()
            invariant
                i <= rows@.len(),
                rows@ == self.rail(),
                *self == *old(self),
                p == (|k: int| text_of(old(self).row_session_spec(k as usize)) == Some(id@)),
                first_index(i as int, p) is None,
            decreases rows.len() - i,
        {
            let hit = match self.row_session(&rows, i) {
                Some(s) => s == *id,
                None => false,
            };
            assert(hit == p(i as int));
            if hit {
                proof {
                    lemma_first_index_stable(rows@.len() as int, i + 1, p);
                }
                self.agent_index = i;
                return;
            }
            i = i + 1;
        }
    }
}

/// A directory entry read for folder completion: its name and full path.
pub struct FolderEntry {
    pub name: String,
    pub path: String,
}

/// Whether `a` sorts before `b`, character by character (a prefix first).
pub open spec fn lex_lt(a: Seq<char>, b: Seq<char>) -> bool
    decreases a.len(),
{
    if a.len() == 0 {
        b.len() > 0
    } else if b.len() == 0 {
        false
    } else if a[0] != b[0] {
        a[0] < b[0]
    } else {
        lex_lt(a.skip(1), b.skip(1))
    }
}

proof fn lemma_lex_order(a: Seq<char>, b: Seq<char>, c: Seq<char>)
    ensures
        !lex_lt(a, a),
        lex_lt(a, b) ==> !lex_lt(b, a),
        a != b ==> lex_lt(a, b) || lex_lt(b, a),
        lex_lt(a, b) && lex_lt(b, c) ==> lex_lt(a, c),
    decreases a.len(),
{
    if a.len() > 0 {
        lemma_lex_order(a.skip(1), a.skip(1), a.skip(1));
        if b.len() > 0 {
            lemma_lex_order(a.skip(1), b.skip(1), b.skip(1));
            if c.len() > 0 {
                lemma_lex_order(a.skip(1), b.skip(1), c.skip(1));
            }
            if a != b && a[0] == b[0] {
                assert(a.skip(1) != b.skip(1)) by {
                    if a.skip(1) == b.skip(1) {
                        assert(a =~= seq![a[0]] + a.skip(1));
                        assert(b =~= seq![b[0]] + b.skip(1));
                    }
                }
            }
        }
    } else {
        if a != b && b.len() == 0 {
            assert(a =~= b);
        }
    }
}

/// A folder's score against the needle, both compared lower-cased.
pub open spec fn folder_score(e: FolderEntry, needle: Seq<char>) -> Option<usize> {
    as_usize_option(crate::matching::fuzzy_spec(crate::text::lower(e.name@), crate::text::lower(needle)))
}

/// Whether scored folder `i` comes before `j`: a better score, then the
/// smaller path, then the earlier entry.
pub open spec fn precedes(sc: Seq<(Option<usize>, Seq<char>)>, i: int, j: int) -> bool {
    ||| sc[i].0->0 < sc[j].0->0
    ||| sc[i].0->0 == sc[j].0->0 && lex_lt(sc[i].1, sc[j].1)
    ||| sc[i].0->0 == sc[j].0->0 && sc[i].1 == sc[j].1 && i < j
}

/// Whether scored folder `i` matched and is not yet listed.
pub open spec fn open_folder(sc: Seq<(Option<usize>, Seq<char>)>, taken: Seq<int>, i: int) -> bool {
    sc[i].0 is Some && !taken.contains(i)
}

/// The first folder, among the first `n`, that comes before every other
/// one still open.
pub open spec fn best_folder(sc: Seq<(Option<usize>, Seq<char>)>, taken: Seq<int>, n: int) -> Option<int>
    decreases n,
{
    if n <= 0 {
        None
    } else {
        let prev = best_folder(sc, taken, n - 1);
        if open_folder(sc, taken, n - 1) && (prev is None || precedes(sc, n - 1, prev->0)) {
            Some(n - 1)
        } else {
            prev
        }
    }
}

/// The folders listed after `n` rounds, by index.
pub open spec fn folder_picks(sc: Seq<(Option<usize>, Seq<char>)>, n: nat) -> Seq<int>
    decreases n,
{
    if n == 0 {
        seq![]
    } else {
        let prev = folder_picks(sc, (n - 1) as nat);
        match best_folder(sc, prev, sc.len() as int) {
            Some(i) => prev.push(i),
            None => prev,
        }
    }
}

/// The scored entries: each entry's score and path.
pub open spec fn scored(entries: Seq<FolderEntry>, needle: Seq<char>) -> Seq<(Option<usize>, Seq<char>)> {
    entries.map_values(|e: FolderEntry| (folder_score(e, needle), e.path@))
}

proof fn lemma_best_folder(sc: Seq<(Option<usize>, Seq<char>)>, taken: Seq<int>, n: int)
    requires
        0 <= n <= sc.len(),
    ensures
        match best_folder(sc, taken, n) {
            Some(i) => 0 <= i < n && open_folder(sc, taken, i) && forall|j: int|
                0 <= j < n && j != i && #[trigger] open_folder(sc, taken, j) ==> precedes(sc, i, j),
            None => forall|j: int| 0 <= j < n ==> !#[trigger] open_folder(sc, taken, j),
        },
    decreases n,
{
    if n > 0 {
        lemma_best_folder(sc, taken, n - 1);
        let prev = best_folder(sc, taken, n - 1);
        let last = n - 1;
        match prev {
            Some(p) => {
                if open_folder(sc, taken, last) && precedes(sc, last, p) {
                    assert forall|j: int| 0 <= j < n && j != last && #[trigger] open_folder(sc, taken, j) implies precedes(
                        sc,
                        last,
                        j,
                    ) by {
                        if j != p {
                            assert(precedes(sc, p, j));
                            lemma_lex_order(sc[last].1, sc[p].1, sc[j].1);
                        }
                    }
                } else {
                    assert forall|j: int| 0 <= j < n && j != p && #[trigger] open_folder(sc, taken, j) implies precedes(
                        sc,
                        p,
                        j,
                    ) by {
                        if j == last {
                            lemma_lex_order(sc[p].1, sc[last].1, sc[last].1);
                            assert(p < last);
                        }
                    }
                }
            },
            None => {},
        }
    }
}

/// Listed index `k` of `idx` was open when listed and came before every
/// other folder open then.
pub open spec fn folder_pick_ok(sc: Seq<(Option<usize>, Seq<char>)>, idx: Seq<int>, k: int) -> bool {
    &&& 0 <= idx[k] < sc.len()
    &&& open_folder(sc, idx.take(k), idx[k])
    &&& forall|j: int|
        0 <= j < sc.len() && j != idx[k] && #[trigger] open_folder(sc, idx.take(k), j) ==> precedes(sc, idx[k], j)
}

proof fn lemma_folder_picks(sc: Seq<(Option<usize>, Seq<char>)>, n: nat)
    ensures
        folder_picks(sc, n).len() <= n,
        forall|k: int| 0 <= k < folder_picks(sc, n).len() ==> #[trigger] folder_pick_ok(sc, folder_picks(sc, n), k),
        folder_picks(sc, n).len() < n ==> best_folder(sc, folder_picks(sc, n), sc.len() as int) is None,
    decreases n,
{
    if n > 0 {
        let prev = folder_picks(sc, (n - 1) as nat);
        lemma_folder_picks(sc, (n - 1) as nat);
        lemma_best_folder(sc, prev, sc.len() as int);
        let idx = folder_picks(sc, n);
        assert forall|k: int| 0 <= k < idx.len() implies #[trigger] folder_pick_ok(sc, idx, k) by {
            if k < prev.len() {
                assert(idx.take(k) =~= prev.take(k));
                assert(folder_pick_ok(sc, prev, k));
            } else {
                assert(idx.take(k) =~= prev);
            }
        }
    }
}

/// Folder completion lists at most ten folders, only ones whose names match,
/// in order (better score, then smaller path), each once; and short of ten it
/// lists every folder that matches.
pub proof fn law_folder_picks(sc: Seq<(Option<usize>, Seq<char>)>)
    ensures
        folder_picks(sc, MAX_WORKSPACE_CHOICES as nat).len() <= MAX_WORKSPACE_CHOICES,
        forall|k: int|
            0 <= k < folder_picks(sc, MAX_WORKSPACE_CHOICES as nat).len() ==> {
                let i = #[trigger] folder_picks(sc, MAX_WORKSPACE_CHOICES as nat)[k];
                0 <= i < sc.len() && sc[i].0 is Some
            },
        forall|a: int, b: int|
            0 <= a < b < folder_picks(sc, MAX_WORKSPACE_CHOICES as nat).len() ==> precedes(
                sc,
                folder_picks(sc, MAX_WORKSPACE_CHOICES as nat)[a],
                folder_picks(sc, MAX_WORKSPACE_CHOICES as nat)[b],
            ),
        folder_picks(sc, MAX_WORKSPACE_CHOICES as nat).len() < MAX_WORKSPACE_CHOICES ==> forall|j: int|
            0 <= j < sc.len() && sc[j].0 is Some ==> folder_picks(sc, MAX_WORKSPACE_CHOICES as nat).contains(j),
{
    let idx = folder_picks(sc, MAX_WORKSPACE_CHOICES as nat);
    lemma_folder_picks(sc, MAX_WORKSPACE_CHOICES as nat);
    assert forall|k: int| 0 <= k < idx.len() implies 0 <= #[trigger] idx[k] < sc.len() && sc[idx[k]].0 is Some by {
        assert(folder_pick_ok(sc, idx, k));
    }
    assert forall|a: int, b: int| 0 <= a < b < idx.len() implies precedes(sc, idx[a], idx[b]) by {
        assert(folder_pick_ok(sc, idx, a));
        assert(folder_pick_ok(sc, idx, b));
        let ta = idx.take(a);
        let tb = idx.take(b);
        assert(tb[a] == idx[a]);
        assert(idx[b] != idx[a]);
        assert forall|p: int| ta.contains(p) implies tb.contains(p) by {
            let w = choose|w: int| 0 <= w < ta.len() && ta[w] == p;
            assert(tb[w] == p);
        }
        assert(open_folder(sc, ta, idx[b]));
    }
    if idx.len() < MAX_WORKSPACE_CHOICES {
        lemma_best_folder(sc, idx, sc.len() as int);
        assert forall|j: int| 0 <= j < sc.len() && sc[j].0 is Some implies idx.contains(j) by {
            assert(!open_folder(sc, idx, j));
        }
    }
}

/// Whether `a` sorts before `b`, character by character.
pub fn lex_less(a: &Vec<char>, b: &Vec<char>) -> (r: bool)
    ensures
        r == lex_lt(a@, b@),
{
    let mut i: usize = 0;
    assert(a@.skip(0) =~= a@);
    assert(b@.skip(0) =~= b@);
    while i < a.len() && i < b.len() && a[i] == b[i]
        invariant
            i <= a@.len(),
            i <= b@.len(),
            lex_lt(a@, b@) == lex_lt(a@.skip(i as int), b@.skip(i as int)),
        decreases a.len() - i,
    {
        proof {
            assert(a@.skip(i as int).skip(1) =~= a@.skip(i + 1));
            assert(b@.skip(i as int).skip(1) =~= b@.skip(i + 1));
        }
        i = i + 1;
    }
    if i == a.len() {
        i < b.len()
    } else if i == b.len() {
        false
    } else {
        a[i] < b[i]
    }
}

/// Whether scored folder `i` comes before `j` (see [`precedes`]).
fn folder_precedes(sc: &Vec<(Option<usize>, Vec<char>)>, i: usize, j: usize, Ghost(view): Ghost<
    Seq<(Option<usize>, Seq<char>)>,
>) -> (r: bool)
    requires
        i < sc@.len(),
        j < sc@.len(),
        view == sc@.map_values(|e: (Option<usize>, Vec<char>)| (e.0, e.1@)),
        sc@[i as int].0 is Some,
        sc@[j as int].0 is Some,
    ensures
        r == precedes(view, i as int, j as int),
{
    let si = match sc[i].0 {
        Some(v) => v,
        None => 0,
    };
    let sj = match sc[j].0 {
        Some(v) => v,
        None => 0,
    };
    assert(view[i as int] == (sc@[i as int].0, sc@[i as int].1@));
    assert(view[j as int] == (sc@[j as int].0, sc@[j as int].1@));
    if si != sj {
        return si < sj;
    }
    if lex_less(&sc[i].1, &sc[j].1) {
        return true;
    }
    let same = crate::text::same(&sc[i].1, &sc[j].1);
    same && i < j
}

/// Whether index `i` is among `taken`.
fn picked(taken: &Vec<usize>, i: usize) -> (r: bool)
    ensures
        r == taken@.map_values(|k: usize| k as int).contains(i as int),
{
    let mut k: usize = 0;
    while k < taken.len()
        invariant
            k <= taken@.len(),
            forall|m: int| 0 <= m < k ==> taken@[m] != i,
        decreases taken.len() - k,
    {
        if taken[k] == i {
            assert(taken@.map_values(|k: usize| k as int)[k as int] == i as int);
            return true;
        }
        k = k + 1;
    }
    false
}

/// The folder completions for `needle` among `entries`: the matching ones,
/// best first (score, then path), at most ten, with their scores.
pub fn folder_completions(entries: &Vec<FolderEntry>, needle: &str) -> (r: Vec<(usize, String)>)
    requires
        forall|i: int| 0 <= i < entries@.len() ==> utf8_len(#[trigger] entries@[i].name@) <= usize::MAX / 4,
    ensures
        ({
            let sc = scored(entries@, needle@);
            let idx = folder_picks(sc, MAX_WORKSPACE_CHOICES as nat);
            &&& r@.len() == idx.len()
            &&& forall|k: int|
                0 <= k < r@.len() ==> (#[trigger] r@[k]).1@ == sc[idx[k]].1 && Some(r@[k].0) == sc[idx[k]].0
        }),
{
    let n = chars_of(needle);
    let nl = crate::text::lower_of(&n);
    let mut sc: Vec<(Option<usize>, Vec<char>)> = Vec::new();
    let ghost want = scored(entries@, needle@);
    let mut i: usize = 0;
    while i < entries.len()
        invariant
            i <= entries@.len(),
            nl@ == crate::text::lower(needle@),
            want == scored(entries@, needle@),
            forall|k: int| 0 <= k < entries@.len() ==> utf8_len(#[trigger] entries@[k].name@) <= usize::MAX / 4,
            sc@.len() == i,
            forall|k: int| 0 <= k < i ==> (#[trigger] sc@[k]).0 == want[k].0 && sc@[k].1@ == want[k].1,
        decreases entries.len() - i,
    {
        let name = chars_of_string(&entries[i].name);
        let lower = crate::text::lower_of(&name);
        proof {
            crate::matching::lemma_lower_len(name@);
        }
        let score = crate::matching::fuzzy_score(&lower, &nl);
        let path = chars_of_string(&entries[i].path);
        sc.push((score, path));
        i = i + 1;
    }
    let ghost view = sc@.map_values(|e: (Option<usize>, Vec<char>)| (e.0, e.1@));
    assert(view =~= want);
    let mut taken: Vec<usize> = Vec::new();
    let mut round: usize = 0;
    while round < MAX_WORKSPACE_CHOICES
        invariant
            round <= MAX_WORKSPACE_CHOICES,
            view == sc@.map_values(|e: (Option<usize>, Vec<char>)| (e.0, e.1@)),
            taken@.map_values(|k: usize| k as int) == folder_picks(view, round as nat),
            forall|k: int| 0 <= k < taken@.len() ==> #[trigger] taken@[k] < sc@.len(),
        decreases MAX_WORKSPACE_CHOICES - round,
    {
        let ghost tk = taken@.map_values(|k: usize| k as int);
        let mut best: Option<usize> = None;
        let mut j: usize = 0;
        while j < sc.len()
            invariant
                j <= sc@.len(),
                view == sc@.map_values(|e: (Option<usize>, Vec<char>)| (e.0, e.1@)),
                tk == taken@.map_values(|k: usize| k as int),
                match best_folder(view, tk, j as int) {
                    Some(k) => 0 <= k < j && best == Some(k as usize),
                    None => best is None,
                },
            decreases sc.len() - j,
        {
            proof {
                lemma_best_folder(view, tk, j as int);
                assert(view[j as int] == (sc@[j as int].0, sc@[j as int].1@));
            }
            let open = sc[j].0.is_some() && !picked(&taken, j);
            if open {
                let better = match best {
                    None => true,
                    Some(b) => {
                        assert(view[b as int] == (sc@[b as int].0, sc@[b as int].1@));
                        folder_precedes(&sc, j, b, Ghost(view))
                    },
                };
                if better {
                    best = Some(j);
                }
            }
            j = j + 1;
        }
        match best {
            Some(b) => {
                proof {
                    lemma_best_folder(view, tk, sc@.len() as int);
                }
                taken.push(b);
                proof {
                    assert(taken@.map_values(|k: usize| k as int) =~= tk.push(b as int));
                }
            },
            None => {},
        }
        round = round + 1;
    }
    let mut out: Vec<(usize, String)> = Vec::new();
    let mut k: usize = 0;
    while k < taken.len()
        invariant
            k <= taken@.len(),
            view == sc@.map_values(|e: (Option<usize>, Vec<char>)| (e.0, e.1@)),
            view == want,
            taken@.map_values(|k: usize| k as int) == folder_picks(view, MAX_WORKSPACE_CHOICES as nat),
            forall|m: int| 0 <= m < taken@.len() ==> #[trigger] taken@[m] < sc@.len(),
            out@.len() == k,
            forall|m: int|
                0 <= m < k ==> (#[trigger] out@[m]).1@ == want[taken@[m] as int].1 && Some(out@[m].0)
                    == want[taken@[m] as int].0,
        decreases taken.len() - k,
    {
        let t = taken[k];
        proof {
            lemma_folder_picks(view, MAX_WORKSPACE_CHOICES as nat);
            assert(folder_pick_ok(view, folder_picks(view, MAX_WORKSPACE_CHOICES as nat), k as int));
            assert(taken@.map_values(|k: usize| k as int)[k as int] == t as int);
            assert(view[t as int] == (sc@[t as int].0, sc@[t as int].1@));
        }
        let score = match sc[t].0 {
            Some(v) => v,
            None => 0,
        };
        out.push((score, string_of(sc[t].1.as_slice())));
        k = k + 1;
    }
    proof {
        let idx = folder_picks(view, MAX_WORKSPACE_CHOICES as nat);
        assert forall|m: int| 0 <= m < out@.len() implies idx[m] == taken@[m] as int by {
            assert(taken@.map_values(|k: usize| k as int)[m] == taken@[m] as int);
        }
    }
    out
}

/// A favorite as plain text: its name and its path.
pub open spec fn favorite_view(f: (String, String)) -> (Seq<char>, Seq<char>) {
    (f.0@, f.1@)
}

/// The favorites among the first `n` that survive saving `name` for the
/// directory `path`: those whose name differs from `name` in more than ASCII
/// case and whose resolved path (`resolved`, position by position) is not
/// `path`, in their order.
pub open spec fn kept_favorites(
    favs: Seq<(Seq<char>, Seq<char>)>,
    resolved: Seq<Seq<char>>,
    name: Seq<char>,
    path: Seq<char>,
    n: nat,
) -> Seq<(Seq<char>, Seq<char>)>
    decreases n,
{
    if n == 0 {
        Seq::empty()
    } else {
        let prev = kept_favorites(favs, resolved, name, path, (n - 1) as nat);
        let f = favs[n - 1];
        if crate::text::lower(f.0) != crate::text::lower(name) && resolved[n - 1] != path {
            prev.push(f)
        } else {
            prev
        }
    }
}

/// The favorites after saving `name` for `path`: the new one first, then
/// the ones it does not replace.
pub open spec fn favorites_saved(
    favs: Seq<(Seq<char>, Seq<char>)>,
    resolved: Seq<Seq<char>>,
    name: Seq<char>,
    path: Seq<char>,
) -> Seq<(Seq<char>, Seq<char>)> {
    seq![(name, path)] + kept_favorites(favs, resolved, name, path, favs.len())
}

/// The favorites after saving a workspace under `name`: the name trimmed,
/// the new favorite first, and every older favorite dropped whose name is
/// the same up to ASCII case or whose resolved path (`resolved`, one per
/// favorite) is `path`; an empty name is refused.
pub fn save_favorite(
    favorites: &Vec<(String, String)>,
    resolved: &Vec<String>,
    name: &str,
    path: &String,
) -> (r: Result<Vec<(String, String)>, String>)
    requires
        resolved@.len() == favorites@.len(),
    ensures
        (r is Err) == (trim(name@).len() == 0),
        r matches Err(e) ==> e@ == "Favorite name cannot be empty"@,
        r matches Ok(v) ==> v@.map_values(|f: (String, String)| favorite_view(f)) == favorites_saved(
            favorites@.map_values(|f: (String, String)| favorite_view(f)),
            texts(resolved@),
            trim(name@),
            path@,
        ),
{
    let clean = trim_of(&chars_of(name));
    if clean.len() == 0 {
        return Err(owned("Favorite name cannot be empty"));
    }
    let ghost favs = favorites@.map_values(|f: (String, String)| favorite_view(f));
    let ghost res = texts(resolved@);
    let lowered = crate::text::lower_of(&clean);
    let path_chars = chars_of_string(path);
    let mut out: Vec<(String, String)> = Vec::new();
    out.push((string_of(clean.as_slice()), path.clone()));
    let mut i: usize = 0;
    while i < favorites.len()
        invariant
            i <= favorites@.len(),
            resolved@.len() == favorites@.len(),
            favs == favorites@.map_values(|f: (String, String)| favorite_view(f)),
            res == texts(resolved@),
            lowered@ == crate::text::lower(clean@),
            path_chars@ == path@,
            clean@ == trim(name@),
            out@.map_values(|f: (String, String)| favorite_view(f)) == seq![(clean@, path@)]
                + kept_favorites(favs, res, clean@, path@, i as nat),
        decreases favorites.len() - i,
    {
        let fname = crate::text::lower_of(&chars_of_string(&favorites[i].0));
        let fres = chars_of_string(&resolved[i]);
        let ghost before = out@;
        if !crate::text::same(&fname, &lowered) && !crate::text::same(&fres, &path_chars) {
            out.push((favorites[i].0.clone(), favorites[i].1.clone()));
            assert(out@.map_values(|f: (String, String)| favorite_view(f)) =~= before.map_values(
                |f: (String, String)| favorite_view(f),
            ).push(favs[i as int]));
        }
        i = i + 1;
    }
    assert(favs.len() == favorites@.len());
    Ok(out)
}

/// No favorite kept beside a newly saved one shares its name, up to ASCII
/// case, and the list grows by at most the one saved.
pub proof fn law_saved_favorite_name_is_unique(
    favs: Seq<(Seq<char>, Seq<char>)>,
    resolved: Seq<Seq<char>>,
    name: Seq<char>,
    path: Seq<char>,
)
    ensures
        favorites_saved(favs, resolved, name, path)[0] == (name, path),
        favorites_saved(favs, resolved, name, path).len() <= favs.len() + 1,
        forall|k: int|
            1 <= k < favorites_saved(favs, resolved, name, path).len() ==> crate::text::lower(
                #[trigger] favorites_saved(favs, resolved, name, path)[k].0,
            ) != crate::text::lower(name),
{
    lemma_kept_favorites(favs, resolved, name, path, favs.len());
    let out = favorites_saved(favs, resolved, name, path);
    let kept = kept_favorites(favs, resolved, name, path, favs.len());
    assert forall|k: int| 1 <= k < out.len() implies crate::text::lower(#[trigger] out[k].0) != crate::text::lower(name) by {
        assert(out[k] == kept[k - 1]);
    }
}

/// Every kept favorite's name differs from the saved one up to ASCII case,
/// and no more are kept than were looked at.
proof fn lemma_kept_favorites(
    favs: Seq<(Seq<char>, Seq<char>)>,
    resolved: Seq<Seq<char>>,
    name: Seq<char>,
    path: Seq<char>,
    n: nat,
)
    ensures
        kept_favorites(favs, resolved, name, path, n).len() <= n,
        forall|k: int|
            0 <= k < kept_favorites(favs, resolved, name, path, n).len() ==> crate::text::lower(
                #[trigger] kept_favorites(favs, resolved, name, path, n)[k].0,
            ) != crate::text::lower(name),
    decreases n,
{
    if n > 0 {
        lemma_kept_favorites(favs, resolved, name, path, (n - 1) as nat);
    }
}

} // verus!
