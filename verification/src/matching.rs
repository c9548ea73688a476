//! Ranking workspace suggestions against what the operator typed.
//!
//! Scores are "lower is better": an exact match scores 0, a prefix 1, and a
//! loose subsequence match scores by how far apart its characters are, offset
//! so that it never beats an exact or prefix match.
use vstd::prelude::*;

use crate::text::{
    chars_of, is_prefix, is_space, lower, lower_char, lower_of, trim_end, trim_start, same, starts_with, trim, trim_of, utf8_len, utf8_len_of,
    width_of, lemma_utf8_len_add, lemma_utf8_len_bounds,
};

verus! {

/// The offset that keeps a loose known-workspace match behind every exact or
/// prefix match.
pub const KNOWN_FUZZY_SCORE_OFFSET: usize = 20;

/// `a - b`, floored at zero.
pub open spec fn sat_sub(a: int, b: int) -> int {
    if a >= b {
        a - b
    } else {
        0
    }
}

/// The first index at or after `i` holding `ch`.
pub open spec fn first_from(c: Seq<char>, i: int, ch: char) -> Option<int>
    decreases c.len() - i,
{
    if i < 0 || i >= c.len() {
        None
    } else if c[i] == ch {
        Some(i)
    } else {
        first_from(c, i + 1, ch)
    }
}

/// The cost of matching `q` greedily, character by character, in `c` from
/// index `i`: for each query character, the UTF-8 bytes skipped to reach it
/// plus one.
pub open spec fn greedy_cost(c: Seq<char>, i: int, q: Seq<char>) -> Option<int>
    decreases q.len(),
{
    if q.len() == 0 {
        Some(0)
    } else {
        match first_from(c, i, q[0]) {
            None => None,
            Some(j) => match greedy_cost(c, j + 1, q.drop_first()) {
                None => None,
                Some(r) => Some(utf8_len(c.subrange(i, j)) + 1 + r),
            },
        }
    }
}

/// The subsequence score of `query` in `candidate`: 0 for an empty query, the
/// surplus length for a prefix, and otherwise the greedy gap cost plus the
/// surplus length; `None` when some query character cannot be placed.
pub open spec fn fuzzy_spec(c: Seq<char>, q: Seq<char>) -> Option<int> {
    if q.len() == 0 {
        Some(0)
    } else if is_prefix(q, c) {
        Some(sat_sub(utf8_len(c), utf8_len(q)))
    } else {
        match greedy_cost(c, 0, q) {
            None => None,
            Some(s) => Some(s + sat_sub(utf8_len(c), utf8_len(q))),
        }
    }
}

/// The spec score as a `usize`, when it fits.
pub open spec fn as_usize_option(o: Option<int>) -> Option<usize> {
    match o {
        None => None,
        Some(v) => Some(v as usize),
    }
}

/// Skipping characters that are not `ch` does not change where `ch` is found.
proof fn lemma_first_from_skip(c: Seq<char>, i: int, j: int, ch: char)
    requires
        0 <= i <= j <= c.len(),
        forall|m: int| i <= m < j ==> c[m] != ch,
    ensures
        first_from(c, i, ch) == first_from(c, j, ch),
    decreases j - i,
{
    if i < j {
        lemma_first_from_skip(c, i + 1, j, ch);
    }
}

/// A greedy match never costs more bytes than it passes over.
proof fn lemma_greedy_bounded(c: Seq<char>, i: int, q: Seq<char>)
    requires
        0 <= i <= c.len(),
    ensures
        match greedy_cost(c, i, q) {
            Some(r) => 0 <= r <= utf8_len(c.skip(i)),
            None => true,
        },
    decreases q.len(),
{
    lemma_utf8_len_bounds(c.skip(i));
    if q.len() > 0 {
        if let Some(j) = first_from(c, i, q[0]) {
            lemma_first_from_range(c, i, q[0]);
            lemma_greedy_bounded(c, j + 1, q.drop_first());
            lemma_utf8_len_add(c.subrange(i, j + 1), c.skip(j + 1));
            assert(c.subrange(i, j + 1) + c.skip(j + 1) =~= c.skip(i));
            lemma_width_step(c, i, j);
            lemma_utf8_len_bounds(c.subrange(i, j));
        }
    }
}

/// Where `first_from` lands.
proof fn lemma_first_from_range(c: Seq<char>, i: int, ch: char)
    ensures
        match first_from(c, i, ch) {
            Some(j) => i <= j < c.len() && c[j] == ch,
            None => true,
        },
    decreases c.len() - i,
{
    if 0 <= i < c.len() && c[i] != ch {
        lemma_first_from_range(c, i + 1, ch);
    }
}

/// Extending a range by one character adds that character's width.
proof fn lemma_width_step(s: Seq<char>, a: int, b: int)
    requires
        0 <= a <= b < s.len(),
    ensures
        utf8_len(s.subrange(a, b + 1)) == utf8_len(s.subrange(a, b)) + crate::text::char_width(s[b]),
        crate::text::char_width(s[b]) >= 1,
{
    assert(s.subrange(a, b + 1).drop_last() =~= s.subrange(a, b));
}

/// Score how tightly `q` appears as a subsequence of `c`.
pub fn fuzzy_score(c: &Vec<char>, q: &Vec<char>) -> (r: Option<usize>)
    requires
        utf8_len(c@) <= usize::MAX / 4,
    ensures
        r == as_usize_option(fuzzy_spec(c@, q@)),
        fuzzy_spec(c@, q@) matches Some(v) ==> 0 <= v <= 2 * utf8_len(c@),
{
    proof {
        lemma_utf8_len_bounds(c@);
        lemma_utf8_len_bounds(q@);
    }
    if q.len() == 0 {
        return Some(0);
    }
    let clen = utf8_len_of(c);
    if starts_with(c, q) {
        proof {
            assert(c@.take(q.len() as int) == q@);
            assert(c@.subrange(0, q.len() as int) =~= q@);
            lemma_utf8_len_subrange(c@, 0, q.len() as int);
        }
        let qlen = utf8_len_of(q);
        return Some(if clen >= qlen { clen - qlen } else { 0 });
    }
    let mut score: usize = 0;
    let mut i: usize = 0;
    let mut k: usize = 0;
    assert(q@.skip(0) =~= q@);
    while k < q.len()
        invariant
            0 <= k <= q.len(),
            i <= c.len(),
            utf8_len(c@) <= usize::MAX / 4,
            clen == utf8_len(c@),
            q@.len() > 0,
            !is_prefix(q@, c@),
            score <= utf8_len(c@.subrange(0, i as int)),
            greedy_cost(c@, 0, q@) == (match greedy_cost(c@, i as int, q@.skip(k as int)) {
                None => None,
                Some(rest) => Some(score + rest),
            }),
        decreases q.len() - k,
    {
        let ch = q[k];
        let mut j: usize = i;
        let mut acc: usize = 0;
        assert(c@.subrange(i as int, i as int) =~= Seq::<char>::empty());
        while j < c.len() && c[j] != ch
            invariant
                i <= j <= c.len(),
                forall|m: int| i <= m < j ==> c@[m] != ch,
                acc == utf8_len(c@.subrange(i as int, j as int)),
                score + acc <= utf8_len(c@.subrange(0, j as int)),
                utf8_len(c@) <= usize::MAX / 4,
            decreases c.len() - j,
        {
            proof {
                lemma_width_step(c@, i as int, j as int);
                lemma_width_step(c@, 0, j as int);
                lemma_utf8_len_subrange(c@, 0, j + 1);
            }
            acc = acc + width_of(c[j]);
            j = j + 1;
        }
        proof {
            lemma_first_from_skip(c@, i as int, j as int, ch);
            assert(q@.skip(k as int)[0] == ch);
            assert(q@.skip(k as int).drop_first() =~= q@.skip(k + 1));
        }
        if j == c.len() {
            assert(first_from(c@, j as int, ch) == None::<int>);
            assert(greedy_cost(c@, i as int, q@.skip(k as int)) == None::<int>);
            return None;
        }
        proof {
            lemma_width_step(c@, 0, j as int);
            lemma_utf8_len_subrange(c@, 0, j + 1);
        }
        score = score + acc + 1;
        i = j + 1;
        k = k + 1;
    }
    proof {
        assert(q@.skip(q.len() as int) =~= Seq::<char>::empty());
        lemma_utf8_len_subrange(c@, 0, i as int);
        lemma_greedy_bounded(c@, 0, q@);
        assert(c@.skip(0) =~= c@);
    }
    let qlen = utf8_len_of_bounded(q, clen);
    Some(score + if clen >= qlen { clen - qlen } else { 0 })
}

/// The UTF-8 length of `q`, or `bound + 1` once it is known to exceed
/// `bound`; only the comparison with `bound` matters to the caller.
fn utf8_len_of_bounded(q: &Vec<char>, bound: usize) -> (r: usize)
    requires
        bound < usize::MAX,
    ensures
        utf8_len(q@) <= bound ==> r == utf8_len(q@),
        utf8_len(q@) > bound ==> r > bound,
        (r > bound) == (utf8_len(q@) > bound),
{
    let mut total: usize = 0;
    let mut i: usize = 0;
    while i < q.len()
        invariant
            i <= q.len(),
            total == utf8_len(q@.take(i as int)),
            total <= bound,
            bound < usize::MAX,
        decreases q.len() - i,
    {
        proof {
            assert(q@.take(i as int + 1).drop_last() =~= q@.take(i as int));
        }
        let w = width_of(q[i]);
        if w > bound - total {
            proof {
                lemma_utf8_len_add(q@.take(i + 1), q@.skip(i + 1));
                assert(q@.take(i + 1) + q@.skip(i + 1) =~= q@);
                lemma_utf8_len_bounds(q@.skip(i + 1));
            }
            return bound + 1;
        }
        total = total + w;
        i = i + 1;
    }
    assert(q@.take(q.len() as int) =~= q@);
    total
}

/// Subsequence matcher that rewards prefixes and tightly grouped characters.
pub fn fuzzy_subsequence_score(candidate: &str, query: &str) -> (r: Option<usize>)
    requires
        utf8_len(candidate@) <= usize::MAX / 4,
    ensures
        r == as_usize_option(fuzzy_spec(candidate@, query@)),
{
    let c = chars_of(candidate);
    let q = chars_of(query);
    fuzzy_score(&c, &q)
}

/// The last component of `path` as `Path::file_name` reads it, or empty when
/// it has none.
pub uninterp spec fn path_file_name(path: Seq<char>) -> Seq<char>;

/// The final component of `path`, via `std::path::Path::file_name`.
///
/// Claims only that the result is what `file_name` returns (empty for a path
/// with no final component) and, as the standard library documents, that the
/// name is a contiguous part of the path it was read from.
#[verifier::external_body]
pub(crate) fn file_name_of(path: &Vec<char>) -> (r: Vec<char>)
    ensures
        r@ == path_file_name(path@),
        exists|i: int| 0 <= i <= path@.len() - r@.len() && #[trigger] path@.subrange(i, i + r@.len()) == r@,
{
    let owned: String = path.iter().collect();
    match std::path::Path::new(&owned).file_name() {
        Some(name) => name.to_string_lossy().chars().collect(),
        None => Vec::new(),
    }
}

/// The score of `path` against `query`, given the path's final component.
pub open spec fn match_score_spec(path: Seq<char>, name: Seq<char>, query: Seq<char>) -> Option<int> {
    let q = trim(query);
    let pl = lower(path);
    let ql = lower(q);
    let nl = lower(name);
    if q.len() == 0 {
        Some(0)
    } else if pl == ql {
        Some(0)
    } else if is_prefix(ql, pl) {
        Some(1)
    } else if nl == ql {
        Some(0)
    } else if is_prefix(ql, nl) {
        Some(1)
    } else {
        match fuzzy_spec(nl, ql) {
            Some(s) => Some(s + KNOWN_FUZZY_SCORE_OFFSET),
            None => match fuzzy_spec(pl, ql) {
                Some(s) => Some(s + KNOWN_FUZZY_SCORE_OFFSET),
                None => None,
            },
        }
    }
}

/// `utf8_len` of a lower-cased sequence equals that of the original.
pub proof fn lemma_lower_len(s: Seq<char>)
    ensures
        utf8_len(lower(s)) == utf8_len(s),
    decreases s.len(),
{
    if s.len() > 0 {
        lemma_lower_len(s.drop_last());
        assert(lower(s).drop_last() =~= lower(s.drop_last()));
    }
}

/// `utf8_len` of a contiguous part is at most that of the whole.
proof fn lemma_utf8_len_subrange(s: Seq<char>, i: int, j: int)
    requires
        0 <= i <= j <= s.len(),
    ensures
        utf8_len(s.subrange(i, j)) <= utf8_len(s),
{
    lemma_utf8_len_add(s.take(i), s.skip(i));
    assert(s.take(i) + s.skip(i) =~= s);
    lemma_utf8_len_add(s.subrange(i, j), s.skip(j));
    assert(s.subrange(i, j) + s.skip(j) =~= s.skip(i));
    lemma_utf8_len_bounds(s.take(i));
    lemma_utf8_len_bounds(s.skip(j));
}

/// Rank an existing path against the query, knowing its final component
/// `name`; lower scores are better.
pub fn match_score_named(path: &Vec<char>, name: &Vec<char>, query: &Vec<char>) -> (r: Option<usize>)
    requires
        utf8_len(path@) <= usize::MAX / 4,
        utf8_len(name@) <= utf8_len(path@),
    ensures
        r == as_usize_option(match_score_spec(path@, name@, query@)),
        match_score_spec(path@, name@, query@) matches Some(v) ==> 0 <= v <= 2 * utf8_len(path@)
            + KNOWN_FUZZY_SCORE_OFFSET,
{
    proof {
        lemma_utf8_len_bounds(path@);
        lemma_utf8_len_bounds(name@);
    }
    let q = trim_of(query);
    if q.len() == 0 {
        return Some(0);
    }
    let pl = lower_of(path);
    let ql = lower_of(&q);
    if same(&pl, &ql) {
        return Some(0);
    }
    if starts_with(&pl, &ql) {
        return Some(1);
    }
    let nl = lower_of(name);
    if same(&nl, &ql) {
        return Some(0);
    }
    if starts_with(&nl, &ql) {
        return Some(1);
    }
    proof {
        lemma_lower_len(path@);
        lemma_lower_len(name@);
    }
    assert(utf8_len(nl@) <= usize::MAX / 4);
    match fuzzy_score(&nl, &ql) {
        Some(s) => {
            assert(s <= 2 * utf8_len(nl@));
            Some(s + KNOWN_FUZZY_SCORE_OFFSET)
        },
        None => match fuzzy_score(&pl, &ql) {
            Some(s) => {
                assert(s <= 2 * utf8_len(pl@));
                Some(s + KNOWN_FUZZY_SCORE_OFFSET)
            },
            None => None,
        },
    }
}

/// Rank an existing path against the query; lower scores are better.
pub fn match_score(path: &str, query: &str) -> (r: Option<usize>)
    requires
        utf8_len(path@) <= usize::MAX / 4,
    ensures
        r == as_usize_option(match_score_spec(path@, path_file_name(path@), query@)),
        match_score_spec(path@, path_file_name(path@), query@) matches Some(v) ==> 0 <= v <= 2
            * utf8_len(path@) + KNOWN_FUZZY_SCORE_OFFSET,
{
    let p = chars_of(path);
    let q = chars_of(query);
    let name = file_name_of(&p);
    proof {
        let i = choose|i: int| 0 <= i <= p@.len() - name@.len() && #[trigger] p@.subrange(i, i + name@.len()) == name@;
        lemma_utf8_len_subrange(p@, i, i + name@.len());
    }
    match_score_named(&p, &name, &q)
}

/// The better of two optional scores.
pub open spec fn best_of(a: Option<int>, b: Option<int>) -> Option<int> {
    match (a, b) {
        (Some(x), Some(y)) => Some(if x <= y { x } else { y }),
        (Some(x), None) => Some(x),
        (None, y) => y,
    }
}

/// The score of a favorite: its label's and its path's, whichever is better.
pub open spec fn workspace_match_spec(
    path: Seq<char>,
    path_name: Seq<char>,
    label: Option<(Seq<char>, Seq<char>)>,
    query: Seq<char>,
) -> Option<int> {
    let label_score = match label {
        Some((l, ln)) => match_score_spec(l, ln, query),
        None => None,
    };
    best_of(label_score, match_score_spec(path, path_name, query))
}

/// Match a saved name and its path, keeping whichever scores better.
pub fn workspace_match_score(path: &str, label: Option<&str>, query: &str) -> (r: Option<usize>)
    requires
        utf8_len(path@) <= usize::MAX / 4,
        label matches Some(l) ==> utf8_len(l@) <= usize::MAX / 4,
    ensures
        r == as_usize_option(
            workspace_match_spec(
                path@,
                path_file_name(path@),
                match label {
                    Some(l) => Some((l@, path_file_name(l@))),
                    None => None,
                },
                query@,
            ),
        ),
{
    let label_score = match label {
        Some(l) => match_score(l, query),
        None => None,
    };
    let path_score = match_score(path, query);
    match (label_score, path_score) {
        (Some(l), Some(p)) => Some(if l <= p { l } else { p }),
        (Some(l), None) => Some(l),
        (None, p) => p,
    }
}

/// Lower-casing never turns a character into white space or back.
proof fn lemma_lower_char_space(c: char)
    ensures
        is_space(lower_char(c)) == is_space(c),
{
    if 'A' <= c && c <= 'Z' {
        assert(lower_char(c) as u32 == c as u32 + 32);
    }
}

/// Lower-casing and trimming leading white space commute.
proof fn lemma_lower_trim_start(s: Seq<char>)
    ensures
        lower(trim_start(s)) == trim_start(lower(s)),
    decreases s.len(),
{
    if s.len() > 0 {
        lemma_lower_char_space(s[0]);
        assert(lower(s)[0] == lower_char(s[0]));
        if is_space(s[0]) {
            assert(lower(s).drop_first() =~= lower(s.drop_first()));
            lemma_lower_trim_start(s.drop_first());
        }
    } else {
        assert(lower(s) =~= s);
    }
}

/// Lower-casing and trimming trailing white space commute.
proof fn lemma_lower_trim_end(s: Seq<char>)
    ensures
        lower(trim_end(s)) == trim_end(lower(s)),
    decreases s.len(),
{
    if s.len() > 0 {
        lemma_lower_char_space(s.last());
        assert(lower(s).last() == lower_char(s.last()));
        if is_space(s.last()) {
            assert(lower(s).drop_last() =~= lower(s.drop_last()));
            lemma_lower_trim_end(s.drop_last());
        }
    } else {
        assert(lower(s) =~= s);
    }
}

/// Lower-casing and trimming commute.
pub proof fn lemma_lower_trim(s: Seq<char>)
    ensures
        lower(trim(s)) == trim(lower(s)),
{
    lemma_lower_trim_start(s);
    lemma_lower_trim_end(trim_start(s));
}

/// Scoring ignores ASCII case: a path, its final component and a query that
/// differ from another only in the case of ASCII letters score the same.
pub proof fn law_match_score_ignores_case(
    p1: Seq<char>,
    n1: Seq<char>,
    q1: Seq<char>,
    p2: Seq<char>,
    n2: Seq<char>,
    q2: Seq<char>,
)
    requires
        lower(p1) == lower(p2),
        lower(n1) == lower(n2),
        lower(q1) == lower(q2),
    ensures
        match_score_spec(p1, n1, q1) == match_score_spec(p2, n2, q2),
{
    lemma_lower_trim(q1);
    lemma_lower_trim(q2);
    assert(lower(trim(q1)).len() == trim(q1).len());
    assert(lower(trim(q2)).len() == trim(q2).len());
}


/// Whether the positions `idx`, all at or after `from` and strictly
/// increasing, spell `q` in `c`.
pub open spec fn spells(idx: Seq<int>, q: Seq<char>, c: Seq<char>, from: int) -> bool {
    &&& idx.len() == q.len()
    &&& forall|k: int| 0 <= k < idx.len() ==> from <= #[trigger] idx[k] < c.len() && c[idx[k]] == q[k]
    &&& forall|k: int, l: int| 0 <= k < l < idx.len() ==> idx[k] < idx[l]
}

/// Whether `q` occurs in `c` in order, not necessarily contiguously.
pub open spec fn is_subsequence(q: Seq<char>, c: Seq<char>) -> bool {
    exists|idx: Seq<int>| #[trigger] spells(idx, q, c, 0)
}

/// A character present at or after `i` is found, no later than where it is.
proof fn lemma_first_from_finds(c: Seq<char>, i: int, k: int, ch: char)
    requires
        0 <= i <= k < c.len(),
        c[k] == ch,
    ensures
        first_from(c, i, ch) matches Some(j) && j <= k,
    decreases k - i,
{
    if c[i] != ch {
        lemma_first_from_finds(c, i + 1, k, ch);
    }
}

/// A greedy match that succeeds spells the query at increasing positions.
proof fn lemma_greedy_spells(c: Seq<char>, i: int, q: Seq<char>)
    requires
        0 <= i,
        greedy_cost(c, i, q) is Some,
    ensures
        exists|idx: Seq<int>| #[trigger] spells(idx, q, c, i),
    decreases q.len(),
{
    if q.len() == 0 {
        assert(spells(Seq::<int>::empty(), q, c, i));
    } else {
        let j = first_from(c, i, q[0])->0;
        lemma_first_from_range(c, i, q[0]);
        lemma_greedy_spells(c, j + 1, q.drop_first());
        let rest = choose|idx: Seq<int>| #[trigger] spells(idx, q.drop_first(), c, j + 1);
        let idx = seq![j] + rest;
        assert forall|k: int| 0 <= k < idx.len() implies i <= #[trigger] idx[k] < c.len() && c[idx[k]] == q[k] by {
            if k > 0 {
                assert(idx[k] == rest[k - 1]);
            }
        }
        assert forall|k: int, l: int| 0 <= k < l < idx.len() implies idx[k] < idx[l] by {
            assert(idx[l] == rest[l - 1]);
            if k > 0 {
                assert(idx[k] == rest[k - 1]);
            }
        }
        assert(spells(idx, q, c, i));
    }
}

/// A query spelled at increasing positions is matched by the greedy walk.
proof fn lemma_spells_greedy(c: Seq<char>, i: int, q: Seq<char>, idx: Seq<int>)
    requires
        0 <= i,
        spells(idx, q, c, i),
    ensures
        greedy_cost(c, i, q) is Some,
    decreases q.len(),
{
    if q.len() > 0 {
        assert(i <= idx[0] < c.len() && c[idx[0]] == q[0]);
        lemma_first_from_finds(c, i, idx[0], q[0]);
        lemma_first_from_range(c, i, q[0]);
        let j = first_from(c, i, q[0])->0;
        let rest = idx.drop_first();
        assert forall|k: int| 0 <= k < rest.len() implies j + 1 <= #[trigger] rest[k] < c.len()
            && c[rest[k]] == q.drop_first()[k] by {
            assert(rest[k] == idx[k + 1]);
            assert(idx[0] < idx[k + 1]);
        }
        assert forall|k: int, l: int| 0 <= k < l < rest.len() implies rest[k] < rest[l] by {
            assert(rest[k] == idx[k + 1] && rest[l] == idx[l + 1]);
        }
        lemma_spells_greedy(c, j + 1, q.drop_first(), rest);
    }
}

/// The subsequence score exists exactly when the query occurs in the
/// candidate in order.
pub proof fn law_fuzzy_score_exists_iff_subsequence(c: Seq<char>, q: Seq<char>)
    ensures
        fuzzy_spec(c, q) is Some <==> is_subsequence(q, c),
{
    if q.len() == 0 {
        assert(spells(Seq::<int>::empty(), q, c, 0));
    } else if is_prefix(q, c) {
        let idx = Seq::new(q.len(), |k: int| k);
        assert forall|k: int| 0 <= k < idx.len() implies 0 <= #[trigger] idx[k] < c.len() && c[idx[k]] == q[k] by {
            assert(c.take(q.len() as int)[k] == c[k]);
        }
        assert(spells(idx, q, c, 0));
    } else {
        if greedy_cost(c, 0, q) is Some {
            lemma_greedy_spells(c, 0, q);
        }
        if is_subsequence(q, c) {
            let idx = choose|idx: Seq<int>| #[trigger] spells(idx, q, c, 0);
            lemma_spells_greedy(c, 0, q, idx);
        }
    }
}

/// A non-blank query whose characters occur in order in the path, ignoring
/// ASCII case, always ranks the path: its score exists, whatever the path's
/// final component is.
pub proof fn law_subsequence_of_the_path_is_ranked(path: Seq<char>, name: Seq<char>, query: Seq<char>)
    requires
        trim(query).len() > 0,
        is_subsequence(lower(trim(query)), lower(path)),
    ensures
        match_score_spec(path, name, query) is Some,
{
    let ql = lower(trim(query));
    let pl = lower(path);
    law_fuzzy_score_exists_iff_subsequence(pl, ql);
    lemma_lower_len(trim(query));
    assert(ql.len() == trim(query).len());
}

/// A non-blank query whose characters occur in order in the path's final
/// component, ignoring ASCII case, ranks the path too.
pub proof fn law_subsequence_of_the_name_is_ranked(path: Seq<char>, name: Seq<char>, query: Seq<char>)
    requires
        trim(query).len() > 0,
        is_subsequence(lower(trim(query)), lower(name)),
    ensures
        match_score_spec(path, name, query) is Some,
{
    law_fuzzy_score_exists_iff_subsequence(lower(name), lower(trim(query)));
}

} // verus!
