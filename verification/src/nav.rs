//! The navigation the keyboard and the pointer share: moving the rail
//! cursor, paging a lane's task sublanes behind its `+N more` row, and
//! pointing the live-screen subscription at whatever is selected.
use vstd::prelude::*;

use crate::app::{App, Cmd, Tab};
use crate::rail::{
    AgentRole, SessionRow, TaskState, TaskStatus, WorkerInfo, agent_row_ok, min, pages_for, pages_of, rail_row_ok, revealed, revealed_spec, AgentLane, AgentRow, RailRow,
    SUBTASK_PAGE,
};
use crate::text::{decimal, decimal_of, push_all, push_str, string_of};

verus! {

/// The first selectable row at `k` or beyond it in the direction of travel.
pub open spec fn scan(rows: Seq<RailRow>, k: int, up: bool) -> Option<int>
    decreases (if up { k + 1 } else { rows.len() - k }),
{
    if k < 0 || k >= rows.len() {
        None
    } else if rows[k].selectable_spec() {
        Some(k)
    } else if up {
        scan(rows, k - 1, up)
    } else {
        scan(rows, k + 1, up)
    }
}

/// Where one step from `from` lands: the next selectable row, or `from`
/// itself when none is left in that direction.
pub open spec fn stepped(rows: Seq<RailRow>, from: int, up: bool) -> int {
    match scan(rows, if up { from - 1 } else { from + 1 }, up) {
        Some(k) => k,
        None => from,
    }
}

/// The cursor resolved against a list of `len` rows.
pub open spec fn clamp_cursor(index: usize, len: int) -> int {
    if len == 0 {
        0
    } else {
        min(index as int, len - 1)
    }
}

/// The status line a page step leaves: how many of the lane's tasks are
/// shown, and what Enter on the row does next.
pub open spec fn showing(shown: int, total: int, next: Seq<char>) -> Seq<char> {
    "Showing "@ + decimal(shown as nat) + " of "@ + decimal(total as nat) + " tasks · "@ + next
}

/// The index of the first lane keyed `key`.
pub open spec fn lane_position(lanes: Seq<AgentLane>, key: Seq<char>) -> Option<int> {
    if exists|i: int| 0 <= i < lanes.len() && lanes[i].key@ == key {
        Some(
            choose|i: int|
                0 <= i < lanes.len() && lanes[i].key@ == key && forall|j: int|
                    0 <= j < i ==> lanes[j].key@ != key,
        )
    } else {
        None
    }
}

/// Whether `row` is lane `li`'s overflow row.
pub open spec fn is_more_of(row: RailRow, li: int) -> bool {
    row matches RailRow::Agent(AgentRow::More { lane_index, .. }) && lane_index == li
}

/// Whether `row` belongs to lane `li`.
pub open spec fn is_in_lane(row: RailRow, li: int) -> bool {
    row.lane_of() == Some(li as usize) && 0 <= li
}

/// The first index of `rows` where `p` holds.
pub open spec fn first_where(rows: Seq<RailRow>, p: spec_fn(RailRow) -> bool) -> Option<int> {
    if exists|i: int| 0 <= i < rows.len() && p(rows[i]) {
        Some(
            choose|i: int|
                0 <= i < rows.len() && p(rows[i]) && forall|j: int| 0 <= j < i ==> !p(rows[j]),
        )
    } else {
        None
    }
}

/// Where the cursor goes after a lane keyed `key` changed its rows: its
/// overflow row, else its first row, else the old cursor clamped.
pub open spec fn follow_target(rows: Seq<RailRow>, lanes: Seq<AgentLane>, key: Seq<char>, index: usize) -> int {
    match lane_position(lanes, key) {
        Some(li) => match first_where(rows, |r: RailRow| is_more_of(r, li)) {
            Some(k) => k,
            None => match first_where(rows, |r: RailRow| is_in_lane(r, li)) {
                Some(k) => k,
                None => clamp_cursor(index, rows.len() as int),
            },
        },
        None => clamp_cursor(index, rows.len() as int),
    }
}

/// The first entry of `pages` keyed `key`, if any.
pub open spec fn first_slot(pages: Seq<(String, usize)>, key: Seq<char>) -> Option<int> {
    if exists|i: int| 0 <= i < pages.len() && pages[i].0@ == key {
        Some(
            choose|i: int|
                0 <= i < pages.len() && pages[i].0@ == key && forall|j: int|
                    0 <= j < i ==> pages[j].0@ != key,
        )
    } else {
        None
    }
}

/// Rewriting the first entry keyed `e.0` changes that key's count and no
/// other.
proof fn lemma_pages_update(s: Seq<(String, usize)>, i: int, e: (String, usize), x: Seq<char>)
    requires
        0 <= i < s.len(),
        s[i].0@ == e.0@,
        forall|j: int| 0 <= j < i ==> s[j].0@ != e.0@,
    ensures
        pages_of(s.update(i, e), x) == (if x == e.0@ {
            e.1
        } else {
            pages_of(s, x)
        }),
    decreases i,
{
    if i == 0 {
        assert(s.update(0, e).drop_first() =~= s.drop_first());
    } else {
        assert(s.update(i, e).drop_first() =~= s.drop_first().update(i - 1, e));
        lemma_pages_update(s.drop_first(), i - 1, e, x);
    }
}

/// Appending an entry for a key not yet listed sets that key's count and no
/// other.
proof fn lemma_pages_push(s: Seq<(String, usize)>, e: (String, usize), x: Seq<char>)
    requires
        forall|j: int| 0 <= j < s.len() ==> s[j].0@ != e.0@,
    ensures
        pages_of(s.push(e), x) == (if x == e.0@ {
            e.1
        } else {
            pages_of(s, x)
        }),
    decreases s.len(),
{
    if s.len() > 0 {
        assert(s.push(e).drop_first() =~= s.drop_first().push(e));
        lemma_pages_push(s.drop_first(), e, x);
    } else {
        assert(s.push(e).drop_first() =~= s);
    }
}

/// The first entry keyed `key` has that key's count.
proof fn lemma_pages_first(s: Seq<(String, usize)>, i: int, key: Seq<char>)
    requires
        0 <= i < s.len(),
        s[i].0@ == key,
        forall|j: int| 0 <= j < i ==> s[j].0@ != key,
    ensures
        pages_of(s, key) == s[i].1,
    decreases i,
{
    if i > 0 {
        lemma_pages_first(s.drop_first(), i - 1, key);
    }
}

/// A key with no entry has no expansion.
proof fn lemma_pages_absent(s: Seq<(String, usize)>, key: Seq<char>)
    requires
        forall|j: int| 0 <= j < s.len() ==> s[j].0@ != key,
    ensures
        pages_of(s, key) == 0,
    decreases s.len(),
{
    if s.len() > 0 {
        lemma_pages_absent(s.drop_first(), key);
    }
}

/// Set how many pages the lane keyed `key` is expanded by, leaving every
/// other lane's expansion alone.
pub fn set_pages(pages: &mut Vec<(String, usize)>, key: &String, n: usize)
    ensures
        forall|x: Seq<char>|
            #[trigger] pages_of(final(pages)@, x) == (if x == key@ {
                n
            } else {
                pages_of(old(pages)@, x)
            }),
{
    let mut i: usize = 0;
    while i < pages.len()
        invariant
            i <= pages@.len(),
            pages@ == old(pages)@,
            forall|j: int| 0 <= j < i ==> pages@[j].0@ != key@,
        decreases pages.len() - i,
    {
        if pages[i].0 == *key {
            let ghost before = pages@;
            let e = (key.clone(), n);
            pages.set(i, e);
            proof {
                assert(pages@ == before.update(i as int, e));
                assert forall|x: Seq<char>| #[trigger] pages_of(pages@, x) == (if x == key@ {
                    n
                } else {
                    pages_of(before, x)
                }) by {
                    lemma_pages_update(before, i as int, e, x);
                }
            }
            return;
        }
        i = i + 1;
    }
    let ghost before = pages@;
    let e = (key.clone(), n);
    pages.push(e);
    proof {
        assert forall|x: Seq<char>| #[trigger] pages_of(pages@, x) == (if x == key@ {
            n
        } else {
            pages_of(before, x)
        }) by {
            lemma_pages_push(before, e, x);
        }
    }
}

/// Find the first lane keyed `key`.
pub fn find_lane(lanes: &Vec<AgentLane>, key: &String) -> (r: Option<usize>)
    ensures
        match r {
            Some(i) => lane_position(lanes@, key@) == Some(i as int),
            None => lane_position(lanes@, key@) is None,
        },
{
    let mut i: usize = 0;
    while i < lanes.len()
        invariant
            i <= lanes@.len(),
            forall|j: int| 0 <= j < i ==> lanes@[j].key@ != key@,
        decreases lanes.len() - i,
    {
        if lanes[i].key == *key {
            proof {
                let c = choose|c: int|
                    0 <= c < lanes@.len() && lanes@[c].key@ == key@ && forall|j: int|
                        0 <= j < c ==> lanes@[j].key@ != key@;
                assert(0 <= i < lanes@.len() && lanes@[i as int].key@ == key@ && forall|j: int|
                    0 <= j < i ==> lanes@[j].key@ != key@);
                if c < i {
                } else if c > i {
                    assert(lanes@[i as int].key@ != key@);
                }
            }
            return Some(i);
        }
        i = i + 1;
    }
    None
}

/// Find the first row of `rows` that is lane `li`'s overflow row.
fn find_more(rows: &Vec<RailRow>, li: usize) -> (r: Option<usize>)
    ensures
        match r {
            Some(k) => first_where(rows@, |r: RailRow| is_more_of(r, li as int)) == Some(k as int),
            None => first_where(rows@, |r: RailRow| is_more_of(r, li as int)) is None,
        },
{
    let ghost p = |r: RailRow| is_more_of(r, li as int);
    let mut k: usize = 0;
    while k < rows.len()
        invariant
            k <= rows@.len(),
            p == (|r: RailRow| is_more_of(r, li as int)),
            forall|j: int| 0 <= j < k ==> !p(rows@[j]),
        decreases rows.len() - k,
    {
        let hit = match rows[k] {
            RailRow::Agent(AgentRow::More { lane_index, .. }) => lane_index == li,
            _ => false,
        };
        if hit {
            proof {
                assert(p(rows@[k as int]));
                let c = choose|c: int|
                    0 <= c < rows@.len() && p(rows@[c]) && forall|j: int| 0 <= j < c ==> !p(rows@[j]);
                if c > k {
                    assert(!p(rows@[k as int]));
                }
            }
            return Some(k);
        }
        k = k + 1;
    }
    None
}

/// Find the first row of `rows` that belongs to lane `li`.
fn find_in_lane(rows: &Vec<RailRow>, li: usize) -> (r: Option<usize>)
    ensures
        match r {
            Some(k) => first_where(rows@, |r: RailRow| is_in_lane(r, li as int)) == Some(k as int),
            None => first_where(rows@, |r: RailRow| is_in_lane(r, li as int)) is None,
        },
{
    let ghost p = |r: RailRow| is_in_lane(r, li as int);
    let mut k: usize = 0;
    while k < rows.len()
        invariant
            k <= rows@.len(),
            p == (|r: RailRow| is_in_lane(r, li as int)),
            forall|j: int| 0 <= j < k ==> !p(rows@[j]),
        decreases rows.len() - k,
    {
        let hit = match rows[k] {
            RailRow::Agent(AgentRow::Lane { lane_index }) => lane_index == li,
            RailRow::Agent(AgentRow::Sub { lane_index, .. }) => lane_index == li,
            RailRow::Agent(AgentRow::More { lane_index, .. }) => lane_index == li,
            _ => false,
        };
        if hit {
            proof {
                assert(p(rows@[k as int]));
                let c = choose|c: int|
                    0 <= c < rows@.len() && p(rows@[c]) && forall|j: int| 0 <= j < c ==> !p(rows@[j]);
                if c > k {
                    assert(!p(rows@[k as int]));
                }
            }
            return Some(k);
        }
        k = k + 1;
    }
    None
}

/// The first selectable row from `k` on in the direction of travel.
fn scan_rows(rows: &Vec<RailRow>, k: usize, up: bool) -> (r: Option<usize>)
    ensures
        match r {
            Some(j) => scan(rows@, k as int, up) == Some(j as int),
            None => scan(rows@, k as int, up) is None,
        },
    decreases (if up { k as int + 1 } else { rows@.len() - k }),
{
    if k >= rows.len() {
        return None;
    }
    if rows[k].selectable() {
        return Some(k);
    }
    assert(scan(rows@, k as int, up) == (if up {
        scan(rows@, k - 1, up)
    } else {
        scan(rows@, k + 1, up)
    }));
    if up {
        if k == 0 {
            None
        } else {
            scan_rows(rows, k - 1, up)
        }
    } else {
        scan_rows(rows, k + 1, up)
    }
}

/// The status line after a page step on a lane of `total` tasks that hid
/// `hidden` of them and is now expanded by `after` pages.
pub open spec fn page_status(hidden: usize, after: usize, total: int) -> Seq<char> {
    if hidden > 0 {
        showing(
            min(revealed_spec(after), total),
            total,
            if revealed_spec(after) < total {
                "↵ for more"@
            } else {
                "↵ collapses"@
            },
        )
    } else {
        showing(min(SUBTASK_PAGE as int, total), total, "↵ expands"@)
    }
}

/// The status line after a page step.
fn page_status_of(hidden: usize, after: usize, total: usize) -> (r: String)
    ensures
        r@ == page_status(hidden, after, total as int),
{
    if hidden > 0 {
        let shown_now = revealed(after);
        let shown = if shown_now < total {
            shown_now
        } else {
            total
        };
        if shown_now < total {
            showing_status(shown, total, "↵ for more")
        } else {
            showing_status(shown, total, "↵ collapses")
        }
    } else {
        let shown = if SUBTASK_PAGE < total {
            SUBTASK_PAGE
        } else {
            total
        };
        showing_status(shown, total, "↵ expands")
    }
}

/// The status line of a page step, spelled out.
fn showing_status(shown: usize, total: usize, next: &str) -> (r: String)
    ensures
        r@ == showing(shown as int, total as int, next@),
{
    let mut msg: Vec<char> = Vec::new();
    push_str(&mut msg, "Showing ");
    push_all(&mut msg, &decimal_of(shown));
    push_str(&mut msg, " of ");
    push_all(&mut msg, &decimal_of(total));
    push_str(&mut msg, " tasks · ");
    push_str(&mut msg, next);
    string_of(msg.as_slice())
}

impl App {
    /// The rail cursor resolved against `rows`.
    pub fn rail_cursor(&self, rows: &Vec<RailRow>) -> (r: usize)
        ensures
            r == clamp_cursor(self.agent_index, rows@.len() as int),
            rows@.len() > 0 ==> r < rows@.len(),
    {
        if rows.len() == 0 {
            0
        } else if self.agent_index < rows.len() - 1 {
            self.agent_index
        } else {
            rows.len() - 1
        }
    }

    /// The rail row under the cursor.
    pub open spec fn cursor_row(&self) -> Option<RailRow> {
        let rows = self.rail();
        if rows.len() == 0 {
            None
        } else {
            Some(rows[clamp_cursor(self.agent_index, rows.len() as int)])
        }
    }

    /// Move the rail cursor to the next or previous selectable row. A
    /// cursor that would leave the rail stays where it was.
    pub fn move_rail_index(&mut self, up: bool)
        ensures
            *final(self) == rail_moved(*old(self), up),
            old(self).rail().len() == 0 ==> *final(self) == *old(self),
            old(self).rail().len() > 0 ==> *final(self) == (App {
                agent_index: stepped(
                    old(self).rail(),
                    clamp_cursor(old(self).agent_index, old(self).rail().len() as int),
                    up,
                ) as usize,
                ..*old(self)
            }),
    {
        let rows = self.rail_rows();
        if rows.len() == 0 {
            return;
        }
        let clamped = self.rail_cursor(&rows);
        let found = if up {
            if clamped == 0 {
                None
            } else {
                scan_rows(&rows, clamped - 1, true)
            }
        } else {
            scan_rows(&rows, clamped + 1, false)
        };
        proof {
            if up && clamped == 0 {
                assert(scan(rows@, -1, true) is None);
            }
        }
        self.agent_index = match found {
            Some(k) => k,
            None => clamped,
        };
    }

    /// How many sublanes the lane keyed `key` reveals at its current
    /// expansion.
    pub fn revealed_subtasks(&self, key: &String) -> (r: usize)
        ensures
            r == revealed_spec(pages_of(self.subtask_pages@, key@)),
    {
        revealed(pages_for(&self.subtask_pages, key))
    }

    /// Put the cursor back on a lane's overflow row after its rows moved,
    /// falling back to the lane's first row and then to clamping.
    pub fn follow_overflow_row(&mut self, key: &String)
        ensures
            final(self).agent_index == follow_target(
                old(self).rail(),
                old(self).lanes@,
                key@,
                old(self).agent_index,
            ),
            *final(self) == (App {
                agent_index: follow_target(
                    old(self).rail(),
                    old(self).lanes@,
                    key@,
                    old(self).agent_index,
                ) as usize,
                ..*old(self)
            }),
    {
        let rows = self.rail_rows();
        let fallback = if rows.len() == 0 {
            0
        } else {
            self.rail_cursor(&rows)
        };
        let target = match find_lane(&self.lanes, key) {
            Some(li) => match find_more(&rows, li) {
                Some(k) => k,
                None => match find_in_lane(&rows, li) {
                    Some(k) => k,
                    None => fallback,
                },
            },
            None => fallback,
        };
        self.agent_index = target;
    }

    /// The overflow row under the cursor, as its lane and hidden count.
    pub fn cursor_overflow(&self) -> (r: Option<(usize, usize)>)
        ensures
            match r {
                Some((li, h)) => self.cursor_row() == Some(
                    RailRow::Agent(AgentRow::More { lane_index: li, hidden: h }),
                ) && agent_row_ok(
                    AgentRow::More { lane_index: li, hidden: h },
                    self.lanes@,
                    self.subtask_pages@,
                ),
                None => !(self.cursor_row() matches Some(RailRow::Agent(AgentRow::More { .. }))),
            },
    {
        let rows = self.rail_rows();
        if rows.len() == 0 {
            return None;
        }
        let cursor = self.rail_cursor(&rows);
        proof {
            assert(rail_row_ok(rows@[cursor as int], self.lanes@, self.subtask_pages@, self.session_count()));
        }
        match rows[cursor] {
            RailRow::Agent(AgentRow::More { lane_index, hidden }) => Some((lane_index, hidden)),
            _ => None,
        }
    }

    /// Step lane `li`'s expansion: one more page while it hides tasks, back
    /// to the first page once it hides none; and say what is now shown.
    #[verifier::rlimit(40)]
    fn step_pages(&mut self, li: usize, hidden: usize) -> (key: String)
        requires
            agent_row_ok(
                AgentRow::More { lane_index: li, hidden },
                old(self).lanes@,
                old(self).subtask_pages@,
            ),
        ensures
            key@ == old(self).lanes@[li as int].key@,
            ({
                let lane = old(self).lanes@[li as int];
                let total = lane.tasks@.len() as int;
                let after = if hidden > 0 {
                    (pages_of(old(self).subtask_pages@, lane.key@) + 1) as usize
                } else {
                    0usize
                };
                &&& forall|x: Seq<char>|
                    #[trigger] pages_of(final(self).subtask_pages@, x) == (if x == lane.key@ {
                        after
                    } else {
                        pages_of(old(self).subtask_pages@, x)
                    })
                &&& final(self).status@ == page_status(hidden, after, total)
            }),
            *final(self) == (App {
                subtask_pages: final(self).subtask_pages,
                status: final(self).status,
                ..*old(self)
            }),
    {
        let key = self.lanes[li].key.clone();
        let total = self.lanes[li].tasks.len();
        let after = if hidden > 0 {
            pages_for(&self.subtask_pages, &key) + 1
        } else {
            0
        };
        set_pages(&mut self.subtask_pages, &key, after);
        self.status = page_status_of(hidden, after, total);
        key
    }

    /// Page the lane under the cursor open by one page, or fold a fully
    /// revealed lane back to its first page, and keep the cursor on the row
    /// it acted on. Returns whether the cursor was on an overflow row at all;
    /// when it was not, nothing changes.
    #[verifier::rlimit(40)]
    pub fn page_subtasks(&mut self) -> (r: bool)
        ensures
            final(self).tabs == old(self).tabs,
            r == (old(self).cursor_row() matches Some(RailRow::Agent(AgentRow::More { .. }))),
            !r ==> *final(self) == *old(self),
            r ==> paged(*old(self), *final(self)),
    {
        match self.cursor_overflow() {
            Some((li, hidden)) => {
                let key = self.step_pages(li, hidden);
                self.follow_overflow_row(&key);
                true
            },
            None => false,
        }
    }
}

/// What paging the overflow row under the cursor does: the lane's page count
/// steps (or folds back to none once nothing is hidden), the status says how
/// many sublanes show, the cursor follows the lane's overflow row, and nothing
/// else changes.
pub open spec fn paged(before: App, after: App) -> bool {
    before.cursor_row() matches Some(RailRow::Agent(AgentRow::More { lane_index, hidden })) && {
        let lane = before.lanes@[lane_index as int];
        let total = lane.tasks@.len() as int;
        let next = if hidden > 0 {
            (pages_of(before.subtask_pages@, lane.key@) + 1) as usize
        } else {
            0usize
        };
        &&& lane_index < before.lanes@.len()
        &&& forall|x: Seq<char>|
            #[trigger] pages_of(after.subtask_pages@, x) == (if x == lane.key@ {
                next
            } else {
                pages_of(before.subtask_pages@, x)
            })
        &&& after.status@ == page_status(hidden, next, total)
        &&& after.agent_index == follow_target(after.rail(), after.lanes@, lane.key@, before.agent_index)
        &&& after == (App {
            subtask_pages: after.subtask_pages,
            status: after.status,
            agent_index: after.agent_index,
            ..before
        })
    }
}

/// A watch target as plain text: the worker address and the task id.
pub open spec fn target_view(t: Option<(String, String)>) -> Option<(Seq<char>, Seq<char>)> {
    match t {
        Some((a, b)) => Some((a@, b@)),
        None => None,
    }
}

/// The link address streams for roster agent `id` go to: the address of the
/// first worker registered under `id`, else `id` itself (a worker added by
/// address is registered under it).
pub open spec fn address_for(workers: Seq<WorkerInfo>, id: Seq<char>) -> Seq<char> {
    if exists|i: int| 0 <= i < workers.len() && workers[i].id@ == id {
        workers[choose|i: int|
            0 <= i < workers.len() && workers[i].id@ == id && forall|j: int|
                0 <= j < i ==> workers[j].id@ != id].address@
    } else {
        id
    }
}

/// The address streams for roster agent `id` go to.
pub fn address_of(workers: &Vec<WorkerInfo>, id: &String) -> (r: String)
    ensures
        r@ == address_for(workers@, id@),
{
    let mut i: usize = 0;
    while i < workers.len()
        invariant
            i <= workers@.len(),
            forall|j: int| 0 <= j < i ==> workers@[j].id@ != id@,
        decreases workers.len() - i,
    {
        if workers[i].id == *id {
            proof {
                let c = choose|c: int|
                    0 <= c < workers@.len() && workers@[c].id@ == id@ && forall|j: int|
                        0 <= j < c ==> workers@[j].id@ != id@;
                assert(0 <= i < workers@.len() && workers@[i as int].id@ == id@ && forall|j: int|
                    0 <= j < i ==> workers@[j].id@ != id@);
                if c > i {
                    assert(workers@[i as int].id@ != id@);
                }
            }
            return workers[i].address.clone();
        }
        i = i + 1;
    }
    id.clone()
}

/// Whether two watch targets name the same stream.
pub fn same_target(a: &Option<(String, String)>, b: &Option<(String, String)>) -> (r: bool)
    ensures
        r == (target_view(*a) == target_view(*b)),
{
    match (a, b) {
        (Some((x1, y1)), Some((x2, y2))) => {
            let r = *x1 == *x2 && *y1 == *y2;
            proof {
                if !r {
                    let (p, q) = target_view(*a)->0;
                    let (u, v) = target_view(*b)->0;
                    if x1@ != x2@ {
                        assert(p != u);
                    } else {
                        assert(q != v);
                    }
                }
            }
            r
        },
        (None, None) => true,
        _ => false,
    }
}

/// A copy of a watch target.
fn copy_target(t: &Option<(String, String)>) -> (r: Option<(String, String)>)
    ensures
        target_view(r) == target_view(*t),
{
    match t {
        Some((a, b)) => Some((a.clone(), b.clone())),
        None => None,
    }
}

impl App {
    /// What the current selection asks to watch: on the Sessions tab, the
    /// task under the cursor in a roster agent's lane, streamed from its
    /// worker.
    pub open spec fn watch_target_spec(&self) -> Option<(Seq<char>, Seq<char>)> {
        if self.tab_spec() != Some(Tab::Sessions) {
            None
        } else {
            match self.cursor_row() {
                Some(RailRow::Agent(AgentRow::Sub { lane_index, task_index })) => {
                    let lane = self.lanes@[lane_index as int];
                    if lane.role != AgentRole::Agent {
                        None
                    } else {
                        match lane.agent_id {
                            Some(a) => Some(
                                (
                                    address_for(self.setup.workers@, a@),
                                    lane.tasks@[task_index as int].task_id@,
                                ),
                            ),
                            None => None,
                        }
                    }
                },
                _ => None,
            }
        }
    }

    /// The task row under the cursor, as its lane and task indices.
    pub fn cursor_task(&self) -> (r: Option<(usize, usize)>)
        ensures
            match r {
                Some((li, ti)) => {
                    &&& self.cursor_row() == Some(
                        RailRow::Agent(AgentRow::Sub { lane_index: li, task_index: ti }),
                    )
                    &&& li < self.lanes@.len()
                    &&& ti < self.lanes@[li as int].tasks@.len()
                },
                None => !(self.cursor_row() matches Some(RailRow::Agent(AgentRow::Sub { .. }))),
            },
    {
        let rows = self.rail_rows();
        if rows.len() == 0 {
            return None;
        }
        let cursor = self.rail_cursor(&rows);
        proof {
            assert(rail_row_ok(rows@[cursor as int], self.lanes@, self.subtask_pages@, self.session_count()));
        }
        match rows[cursor] {
            RailRow::Agent(AgentRow::Sub { lane_index, task_index }) => Some((lane_index, task_index)),
            _ => None,
        }
    }

    /// The lane of the lane-list row under the cursor: a lane, one of its
    /// tasks, or its overflow row.
    pub open spec fn selected_lane_spec(&self) -> Option<usize> {
        match self.cursor_row() {
            Some(RailRow::Agent(AgentRow::Lane { lane_index })) => Some(lane_index),
            Some(RailRow::Agent(AgentRow::Sub { lane_index, .. })) => Some(lane_index),
            Some(RailRow::Agent(AgentRow::More { lane_index, .. })) => Some(lane_index),
            _ => None,
        }
    }

    /// The lane under the cursor, a selected task's or overflow row's included.
    pub fn selected_agent_lane(&self) -> (r: Option<usize>)
        ensures
            r == self.selected_lane_spec(),
            r matches Some(i) ==> i < self.lanes@.len(),
    {
        let rows = self.rail_rows();
        if rows.len() == 0 {
            return None;
        }
        let cursor = self.rail_cursor(&rows);
        proof {
            assert(rail_row_ok(rows@[cursor as int], self.lanes@, self.subtask_pages@, self.session_count()));
        }
        match rows[cursor] {
            RailRow::Agent(AgentRow::Lane { lane_index }) => Some(lane_index),
            RailRow::Agent(AgentRow::Sub { lane_index, .. }) => Some(lane_index),
            RailRow::Agent(AgentRow::More { lane_index, .. }) => Some(lane_index),
            _ => None,
        }
    }

    /// Whether rail row `k` heads the lane of agent `id`.
    pub open spec fn heads_agent(&self, k: int, id: Seq<char>) -> bool {
        0 <= k < self.rail().len() && match self.rail()[k] {
            RailRow::Agent(AgentRow::Lane { lane_index }) => lane_index < self.lanes@.len() && (
            self.lanes@[lane_index as int].agent_id matches Some(a) && a@ == id),
            _ => false,
        }
    }

    /// The agent whose lane the cursor is in, if the lane has one.
    pub fn selected_agent_id(&self) -> (r: Option<String>)
        ensures
            r == match self.selected_lane_spec() {
                Some(li) => self.lanes@[li as int].agent_id,
                None => None,
            },
    {
        match self.selected_agent_lane() {
            Some(li) => self.lanes[li].agent_id.clone(),
            None => None,
        }
    }

    /// Put the rail cursor on the first row heading agent `agent_id`'s lane,
    /// if there is one; otherwise leave it where it is.
    pub fn select_agent_row(&mut self, agent_id: &String)
        ensures
            *final(self) == (App {
                agent_index: match first_index(old(self).rail().len() as int, |k: int| old(self).heads_agent(k, agent_id@)) {
                    Some(k) => k as usize,
                    None => old(self).agent_index,
                },
                ..*old(self)
            }),
    {
        let ghost p = |k: int| old(self).heads_agent(k, agent_id@);
        let rows = self.rail_rows();
        let mut i: usize = 0;
        while i < rows.len()
            invariant
                i <= rows@.len(),
                rows@ == self.rail(),
                *self == *old(self),
                p == (|k: int| old(self).heads_agent(k, agent_id@)),
                first_index(i as int, p) is None,
                forall|k: int|
                    0 <= k < rows@.len() ==> rail_row_ok(
                        #[trigger] rows@[k],
                        self.lanes@,
                        self.subtask_pages@,
                        self.session_count(),
                    ),
            decreases rows.len() - i,
        {
            let mut hit = false;
            match rows[i] {
                RailRow::Agent(AgentRow::Lane { lane_index }) => {
                    assert(rail_row_ok(rows@[i as int], self.lanes@, self.subtask_pages@, self.session_count()));
                    match &self.lanes[lane_index].agent_id {
                        Some(a) => {
                            hit = *a == *agent_id;
                        },
                        None => {},
                    }
                },
                _ => {},
            }
            assert(hit == p(i as int));
            if hit {
                proof {
                    lemma_first_index_stable(rows@.len() as int, i + 1, p);
                }
                self.agent_index = i;
                return;
            }
            i = i + 1;
        }
    }

    /// The task under the cursor, when a task sublane is selected.
    pub fn selected_agent_task(&self) -> (r: Option<&TaskState>)
        ensures
            match self.cursor_row() {
                Some(RailRow::Agent(AgentRow::Sub { lane_index, task_index })) => r == Some(
                    &self.lanes@[lane_index as int].tasks@[task_index as int],
                ),
                _ => r is None,
            },
    {
        match self.cursor_task() {
            Some((li, ti)) => Some(&self.lanes[li].tasks[ti]),
            None => None,
        }
    }

    /// The `(worker address, task id)` the current selection asks to watch.
    pub fn watch_target(&self) -> (r: Option<(String, String)>)
        ensures
            target_view(r) == self.watch_target_spec(),
    {
        if self.tab() != Some(Tab::Sessions) {
            return None;
        }
        match self.cursor_task() {
            Some((li, ti)) => {
                let lane = &self.lanes[li];
                if lane.role != AgentRole::Agent {
                    return None;
                }
                match &lane.agent_id {
                    Some(a) => Some((address_of(&self.setup.workers, a), lane.tasks[ti].task_id.clone())),
                    None => None,
                }
            },
            None => None,
        }
    }

    /// Point the live-screen subscription at whatever is selected now.
    /// Returns a command only when the target changed.
    pub fn retarget_watch(&mut self) -> (r: Option<Cmd>)
        ensures
            target_view(final(self).watching) == old(self).watch_target_spec(),
            *final(self) == (App { watching: final(self).watching, ..*old(self) }),
            target_view(old(self).watching) == old(self).watch_target_spec() ==> r is None
                && final(self).watching == old(self).watching,
            target_view(old(self).watching) != old(self).watch_target_spec() ==> (r matches Some(
                Cmd::WatchTask { stop, start },
            ) && target_view(stop) == target_view(old(self).watching) && target_view(start)
                == old(self).watch_target_spec()),
    {
        let desired = self.watch_target();
        if same_target(&desired, &self.watching) {
            return None;
        }
        let stop = self.watching.take();
        self.watching = copy_target(&desired);
        Some(Cmd::WatchTask { stop, start: desired })
    }

    /// The selected running task, when it may be killed, as plain text.
    pub open spec fn kill_target_spec(&self) -> Option<(Seq<char>, Seq<char>)> {
        match self.cursor_row() {
            Some(RailRow::Agent(AgentRow::Sub { lane_index, task_index })) => if self.lanes@[
                lane_index as int].tasks@[task_index as int].status == TaskStatus::Running {
                self.watch_target_spec()
            } else {
                None
            },
            _ => None,
        }
    }

    /// The selected running task, when it may be killed: a watchable task
    /// that is still running.
    pub fn kill_target(&self) -> (r: Option<(String, String)>)
        ensures
            target_view(r) == self.kill_target_spec(),
            target_view(r) == (match self.cursor_row() {
                Some(RailRow::Agent(AgentRow::Sub { lane_index, task_index })) => if self.lanes@[
                    lane_index as int].tasks@[task_index as int].status == TaskStatus::Running {
                    self.watch_target_spec()
                } else {
                    None
                },
                _ => None,
            }),
    {
        match self.cursor_task() {
            Some((li, ti)) => {
                if self.lanes[li].tasks[ti].status == TaskStatus::Running {
                    self.watch_target()
                } else {
                    None
                }
            },
            None => None,
        }
    }
}

/// Retargeting twice in a row changes nothing the second time: the first
/// call already points the subscription at the selection.
pub proof fn law_retarget_settles(before: App, after: App)
    requires
        target_view(after.watching) == before.watch_target_spec(),
        after == (App { watching: after.watching, ..before }),
    ensures
        target_view(after.watching) == after.watch_target_spec(),
{
}

/// The state after moving the rail cursor one selectable row up or down.
pub open spec fn rail_moved(a: App, up: bool) -> App {
    if a.rail().len() == 0 {
        a
    } else {
        App {
            agent_index: stepped(a.rail(), clamp_cursor(a.agent_index, a.rail().len() as int), up) as usize,
            ..a
        }
    }
}

/// The first `k` below `n` that satisfies `p`.
pub open spec fn first_index(n: int, p: spec_fn(int) -> bool) -> Option<int>
    decreases n,
{
    if n <= 0 {
        None
    } else {
        match first_index(n - 1, p) {
            Some(k) => Some(k),
            None => if p(n - 1) {
                Some(n - 1)
            } else {
                None
            },
        }
    }
}

/// Once a first match is found below `m`, looking further changes nothing.
pub proof fn lemma_first_index_stable(n: int, m: int, p: spec_fn(int) -> bool)
    requires
        0 <= m <= n,
        first_index(m, p) is Some,
    ensures
        first_index(n, p) == first_index(m, p),
    decreases n - m,
{
    if n > m {
        lemma_first_index_stable(n - 1, m, p);
    }
}

/// With no `k` below `n` satisfying `p`, there is no first one.
pub proof fn lemma_first_index_none(n: int, p: spec_fn(int) -> bool)
    requires
        forall|k: int| 0 <= k < n ==> !#[trigger] p(k),
    ensures
        first_index(n, p) is None,
    decreases n,
{
    if n > 0 {
        lemma_first_index_none(n - 1, p);
    }
}

/// The first `k` below `n` satisfying `p` is `i` when `i` satisfies it and
/// nothing before it does.
pub proof fn lemma_first_index_at(n: int, i: int, p: spec_fn(int) -> bool)
    requires
        0 <= i < n,
        p(i),
        forall|k: int| 0 <= k < i ==> !#[trigger] p(k),
    ensures
        first_index(n, p) == Some(i),
{
    lemma_first_index_none(i, p);
    assert(first_index(i + 1, p) == Some(i));
    lemma_first_index_stable(n, i + 1, p);
}

} // verus!
