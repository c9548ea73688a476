//! Which harness session the Changes review follows, and the commit it
//! compares against.
//!
//! Resolving a session's launch commit runs Git, so the caller resolves it
//! for each candidate session; this module decides which session wins.
use vstd::prelude::*;

use crate::text::{push_str, string_of};

verus! {

/// A harness session that could anchor the review, with the commit its
/// launch resolved to (`None` when it is not in a Git repository).
pub struct BaselineCandidate {
    pub id: String,
    pub label: String,
    pub started_at: u64,
    pub commit: Option<String>,
}

/// The first candidate with id `id`.
pub open spec fn first_with_id(rows: Seq<BaselineCandidate>, id: Seq<char>) -> Option<int>
    decreases rows.len(),
{
    if rows.len() == 0 {
        None
    } else {
        match first_with_id(rows.drop_last(), id) {
            Some(k) => Some(k),
            None => if rows.last().id@ == id {
                Some(rows.len() - 1)
            } else {
                None
            },
        }
    }
}

/// Whether candidate `k` is usable and started no earlier than any other
/// usable candidate.
pub open spec fn newest_usable(rows: Seq<BaselineCandidate>, k: int) -> bool {
    &&& 0 <= k < rows.len()
    &&& rows[k].commit is Some
    &&& forall|j: int| 0 <= j < rows.len() && (#[trigger] rows[j]).commit is Some ==> rows[j].started_at <= rows[k].started_at
}

/// What choosing a baseline gives: a preferred session that is listed is
/// taken as it is, and refused when it is not in a Git repository; otherwise
/// the newest session that is in one, or none when no session is.
pub open spec fn baseline_chosen(
    rows: Seq<BaselineCandidate>,
    preferred: Option<Seq<char>>,
    r: Result<Option<(usize, String)>, String>,
) -> bool {
    let listed = match preferred {
        Some(p) => first_with_id(rows, p),
        None => None,
    };
    match listed {
        Some(k) => match rows[k].commit {
            Some(c) => r matches Ok(Some((i, c2))) && i == k && c2@ == c@,
            None => r matches Err(e) && e@ == "Selected harness "@ + rows[k].label@ + " is not in a Git repository"@,
        },
        None => match r {
            Ok(Some((i, c))) => newest_usable(rows, i as int) && (rows[i as int].commit matches Some(c2) && c@ == c2@),
            Ok(None) => forall|j: int| 0 <= j < rows.len() ==> (#[trigger] rows[j]).commit is None,
            Err(_) => false,
        },
    }
}

/// The first candidate with id `id`.
fn find_id(rows: &Vec<BaselineCandidate>, id: &String) -> (r: Option<usize>)
    ensures
        match first_with_id(rows@, id@) {
            Some(k) => r matches Some(i) && i as int == k,
            None => r is None,
        },
{
    let mut i: usize = 0;
    while i < rows.len()
        invariant
            i <= rows@.len(),
            first_with_id(rows@.take(i as int), id@) is None,
        decreases rows.len() - i,
    {
        assert(rows@.take(i + 1).drop_last() =~= rows@.take(i as int));
        if rows[i].id == *id {
            proof {
                lemma_first_with_id_prefix(rows@, id@, i + 1);
            }
            return Some(i);
        }
        i = i + 1;
    }
    assert(rows@.take(rows@.len() as int) =~= rows@);
    None
}

/// A match found in a prefix is the match in the whole list.
proof fn lemma_first_with_id_prefix(rows: Seq<BaselineCandidate>, id: Seq<char>, n: int)
    requires
        0 <= n <= rows.len(),
        first_with_id(rows.take(n), id) is Some,
    ensures
        first_with_id(rows, id) == first_with_id(rows.take(n), id),
    decreases rows.len(),
{
    if n == rows.len() {
        assert(rows.take(n) =~= rows);
    } else {
        assert(rows.drop_last().take(n) =~= rows.take(n));
        lemma_first_with_id_prefix(rows.drop_last(), id, n);
    }
}

/// Where `first_with_id` lands.
proof fn lemma_first_with_id_range(rows: Seq<BaselineCandidate>, id: Seq<char>)
    ensures
        first_with_id(rows, id) matches Some(k) ==> 0 <= k < rows.len() && rows[k].id@ == id,
    decreases rows.len(),
{
    if rows.len() > 0 {
        lemma_first_with_id_range(rows.drop_last(), id);
    }
}

/// Choose the session the review follows and its baseline commit: the
/// preferred session when it is listed, refusing it outside Git; else the
/// newest session inside Git, if any.
pub fn choose_harness_baseline(rows: &Vec<BaselineCandidate>, preferred: Option<&String>) -> (r: Result<
    Option<(usize, String)>,
    String,
>)
    ensures
        baseline_chosen(
            rows@,
            match preferred {
                Some(p) => Some(p@),
                None => None,
            },
            r,
        ),
{
    match preferred {
        Some(p) => {
            proof {
                lemma_first_with_id_range(rows@, p@);
            }
            match find_id(rows, p) {
                Some(k) => {
                    if rows[k].commit.is_some() {
                        let c = match &rows[k].commit {
                            Some(c) => c.clone(),
                            None => String::new(),
                        };
                        return Ok(Some((k, c)));
                    }
                    let mut t: Vec<char> = Vec::new();
                    push_str(&mut t, "Selected harness ");
                    push_str(&mut t, rows[k].label.as_str());
                    push_str(&mut t, " is not in a Git repository");
                    assert(t@ == "Selected harness "@ + rows@[k as int].label@ + " is not in a Git repository"@);
                    return Err(string_of(t.as_slice()));
                },
                None => {},
            }
        },
        None => {},
    }
    let mut best: Option<usize> = None;
    let mut i: usize = 0;
    while i < rows.len()
        invariant
            i <= rows@.len(),
            match best {
                Some(b) => b < i && rows@[b as int].commit is Some && forall|j: int|
                    0 <= j < i && (#[trigger] rows@[j]).commit is Some ==> rows@[j].started_at <= rows@[b as int].started_at,
                None => forall|j: int| 0 <= j < i ==> (#[trigger] rows@[j]).commit is None,
            },
        decreases rows.len() - i,
    {
        if rows[i].commit.is_some() {
            match best {
                Some(b) => {
                    if rows[i].started_at > rows[b].started_at {
                        best = Some(i);
                    }
                },
                None => {
                    best = Some(i);
                },
            }
        }
        i = i + 1;
    }
    match best {
        Some(b) => match &rows[b].commit {
            Some(c) => Ok(Some((b, c.clone()))),
            None => Ok(None),
        },
        None => Ok(None),
    }
}

} // verus!
