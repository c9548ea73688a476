//! The Sessions rail: the agent lanes, their task sublanes paged behind a
//! `+N more` row, the `+ New harness` action, and the harnesses the operator
//! started, under one cursor.
use vstd::prelude::*;

use crate::app::{App, Cmd, Control, Tab};

verus! {

/// How many of a lane's task sublanes one page reveals.
pub const SUBTASK_PAGE: usize = 10;

/// The tier a lane belongs to.
#[derive(Clone, Copy, Debug, PartialEq, Eq, Structural)]
pub enum AgentRole {
    Orchestrator,
    Reasoning,
    Compress,
    Agent,
}

/// Where a task stands.
#[derive(Clone, Copy, Debug, PartialEq, Eq, Structural)]
pub enum TaskStatus {
    Running,
    Done,
    Failed,
}

/// One task folded from the event stream.
pub struct TaskState {
    pub task_id: String,
    /// The cycle the task runs in, when it has one.
    pub cycle_id: Option<String>,
    pub status: TaskStatus,
    pub question_id: Option<String>,
    pub attention: Option<String>,
}

/// One lane of the rail: an agent and the tasks it has run.
pub struct AgentLane {
    pub key: String,
    pub label: String,
    pub role: AgentRole,
    pub agent_id: Option<String>,
    pub tasks: Vec<TaskState>,
}

/// A live harness session on this device.
pub struct SessionRow {
    pub id: String,
    pub user_spawned: bool,
    pub started_at: u64,
    pub control: Control,
    pub running: bool,
    pub cwd: String,
}

/// A worker in the runtime's roster.
pub struct WorkerInfo {
    pub id: String,
    pub address: String,
    pub label: Option<String>,
    pub roles: Vec<String>,
}

/// One row of the lane list.
#[derive(Clone, Copy, Debug, PartialEq, Eq, Structural)]
pub enum AgentRow {
    /// A lane header.
    Lane { lane_index: usize },
    /// One of a lane's tasks.
    Sub { lane_index: usize, task_index: usize },
    /// A lane's `+N more` row, or its collapse control when `hidden` is 0.
    More { lane_index: usize, hidden: usize },
}

/// One row of the rail.
#[derive(Clone, Copy, Debug, PartialEq, Eq, Structural)]
pub enum RailRow {
    /// A lane, task sublane, or overflow row.
    Agent(AgentRow),
    /// The action row that starts a harness of the operator's own.
    NewHarness,
    /// The divider above the operator's own harnesses.
    HarnessSeparator,
    /// A harness the operator started, by its index in the harness list.
    Harness(usize),
}

impl RailRow {
    /// Whether the cursor may land on this row.
    pub open spec fn selectable_spec(&self) -> bool {
        !(*self is HarnessSeparator)
    }

    /// Whether the cursor may land on this row.
    pub fn selectable(&self) -> (r: bool)
        ensures
            r == self.selectable_spec(),
    {
        match self {
            RailRow::Agent(_) => true,
            RailRow::NewHarness => true,
            RailRow::HarnessSeparator => false,
            RailRow::Harness(_) => true,
        }
    }

    /// The harness session this row stands for, looked up in this device's
    /// session list.
    pub fn session_id(&self, sessions: &Option<Vec<SessionRow>>) -> (r: Option<String>)
        ensures
            match (*self, *sessions) {
                (RailRow::Harness(i), Some(h)) => if i < h@.len() {
                    r == Some(h@[i as int].id)
                } else {
                    r is None
                },
                _ => r is None,
            },
    {
        match (self, sessions) {
            (RailRow::Harness(i), Some(h)) => {
                if *i < h.len() {
                    Some(h[*i].id.clone())
                } else {
                    None
                }
            },
            _ => None,
        }
    }

    /// Whether this row is the "start a harness" action.
    pub fn is_new_harness(&self) -> (r: bool)
        ensures
            r == (*self is NewHarness),
    {
        matches!(self, RailRow::NewHarness)
    }

    /// The index into the own-harness list this row names, if it names one.
    pub fn session_index(&self) -> (r: Option<usize>)
        ensures
            r == (match *self {
                RailRow::Harness(i) => Some(i),
                _ => None,
            }),
    {
        match self {
            RailRow::Harness(i) => Some(*i),
            _ => None,
        }
    }

    /// The lane this row belongs to, if any.
    pub open spec fn lane_of(&self) -> Option<usize> {
        match *self {
            RailRow::Agent(AgentRow::Lane { lane_index }) => Some(lane_index),
            RailRow::Agent(AgentRow::Sub { lane_index, .. }) => Some(lane_index),
            RailRow::Agent(AgentRow::More { lane_index, .. }) => Some(lane_index),
            _ => None,
        }
    }
}

/// How many pages a lane keyed `key` has been expanded by.
pub open spec fn pages_of(pages: Seq<(String, usize)>, key: Seq<char>) -> usize
    decreases pages.len(),
{
    if pages.len() == 0 {
        0
    } else if pages[0].0@ == key {
        pages[0].1
    } else {
        pages_of(pages.drop_first(), key)
    }
}

/// `a + b` floored at `usize::MAX`.
pub open spec fn sat_add(a: int, b: int) -> int {
    if a + b > usize::MAX {
        usize::MAX as int
    } else {
        a + b
    }
}

/// `a * b` floored at `usize::MAX`.
pub open spec fn sat_mul(a: int, b: int) -> int {
    if a * b > usize::MAX {
        usize::MAX as int
    } else {
        a * b
    }
}

/// How many sublanes a lane reveals after `pages` expansions.
pub open spec fn revealed_spec(pages: usize) -> int {
    sat_mul(SUBTASK_PAGE as int, sat_add(pages as int, 1))
}

/// `min(a, b)`.
pub open spec fn min(a: int, b: int) -> int {
    if a <= b {
        a
    } else {
        b
    }
}

/// The rows one lane contributes: its header, the revealed tasks, and an
/// overflow row when it has more tasks than one page.
pub open spec fn lane_rows(li: int, lane: AgentLane, pages: usize) -> Seq<AgentRow> {
    let total = lane.tasks@.len() as int;
    let shown = min(revealed_spec(pages), total);
    seq![AgentRow::Lane { lane_index: li as usize }] + Seq::new(
        shown as nat,
        |t: int| AgentRow::Sub { lane_index: li as usize, task_index: t as usize },
    ) + (if total > SUBTASK_PAGE {
        seq![AgentRow::More { lane_index: li as usize, hidden: (total - shown) as usize }]
    } else {
        Seq::<AgentRow>::empty()
    })
}

/// The rows of the first `n` lanes.
pub open spec fn agent_rows_upto(lanes: Seq<AgentLane>, pages: Seq<(String, usize)>, n: int) -> Seq<
    AgentRow,
>
    decreases n,
{
    if n <= 0 {
        Seq::empty()
    } else {
        agent_rows_upto(lanes, pages, n - 1) + lane_rows(
            n - 1,
            lanes[n - 1],
            pages_of(pages, lanes[n - 1].key@),
        )
    }
}

/// The rows of every lane.
pub open spec fn agent_rows_spec(lanes: Seq<AgentLane>, pages: Seq<(String, usize)>) -> Seq<
    AgentRow,
> {
    agent_rows_upto(lanes, pages, lanes.len() as int)
}

/// Look up how many pages a lane is expanded by.
pub fn pages_for(pages: &Vec<(String, usize)>, key: &String) -> (r: usize)
    ensures
        r == pages_of(pages@, key@),
{
    let mut i: usize = 0;
    assert(pages@.skip(0) =~= pages@);
    while i < pages.len()
        invariant
            i <= pages.len(),
            pages_of(pages@, key@) == pages_of(pages@.skip(i as int), key@),
        decreases pages.len() - i,
    {
        assert(pages@.skip(i as int).drop_first() =~= pages@.skip(i + 1));
        if pages[i].0 == *key {
            return pages[i].1;
        }
        i = i + 1;
    }
    0
}

/// How many sublanes a lane reveals after `pages` expansions.
pub fn revealed(pages: usize) -> (r: usize)
    ensures
        r == revealed_spec(pages),
{
    let n = pages.saturating_add(1);
    if n > usize::MAX / SUBTASK_PAGE {
        usize::MAX
    } else {
        SUBTASK_PAGE * n
    }
}

/// The lane list with each lane paged to its expansion.
pub fn agent_rows(lanes: &Vec<AgentLane>, pages: &Vec<(String, usize)>) -> (r: Vec<AgentRow>)
    ensures
        r@ == agent_rows_spec(lanes@, pages@),
{
    let mut rows: Vec<AgentRow> = Vec::new();
    let mut li: usize = 0;
    while li < lanes.len()
        invariant
            li <= lanes.len(),
            rows@ == agent_rows_upto(lanes@, pages@, li as int),
        decreases lanes.len() - li,
    {
        let lane = &lanes[li];
        let p = pages_for(pages, &lane.key);
        let total = lane.tasks.len();
        let cap = revealed(p);
        let shown = if cap <= total { cap } else { total };
        let ghost before = rows@;
        rows.push(AgentRow::Lane { lane_index: li });
        let mut t: usize = 0;
        while t < shown
            invariant
                t <= shown,
                rows@ == before + seq![AgentRow::Lane { lane_index: li }] + Seq::new(
                    t as nat,
                    |k: int| AgentRow::Sub { lane_index: li, task_index: k as usize },
                ),
            decreases shown - t,
        {
            rows.push(AgentRow::Sub { lane_index: li, task_index: t });
            t = t + 1;
            assert(rows@ =~= before + seq![AgentRow::Lane { lane_index: li }] + Seq::new(
                t as nat,
                |k: int| AgentRow::Sub { lane_index: li, task_index: k as usize },
            ));
        }
        if total > SUBTASK_PAGE {
            rows.push(AgentRow::More { lane_index: li, hidden: total - shown });
        }
        li = li + 1;
        assert(rows@ =~= agent_rows_upto(lanes@, pages@, li as int));
    }
    rows
}


/// What every row of the lane list promises about the lanes it was built
/// from: its indices are in range, and an overflow row counts exactly the
/// tasks its lane still hides.
pub open spec fn agent_row_ok(row: AgentRow, lanes: Seq<AgentLane>, pages: Seq<(String, usize)>) -> bool {
    match row {
        AgentRow::Lane { lane_index } => lane_index < lanes.len(),
        AgentRow::Sub { lane_index, task_index } => lane_index < lanes.len() && task_index
            < lanes[lane_index as int].tasks@.len(),
        AgentRow::More { lane_index, hidden } => lane_index < lanes.len() && {
            let total = lanes[lane_index as int].tasks@.len() as int;
            &&& total > SUBTASK_PAGE
            &&& hidden == total - min(
                revealed_spec(pages_of(pages, lanes[lane_index as int].key@)),
                total,
            )
        },
    }
}

/// Every row of the first `n` lanes keeps [`agent_row_ok`].
pub proof fn lemma_agent_rows_ok(lanes: Seq<AgentLane>, pages: Seq<(String, usize)>, n: int)
    requires
        0 <= n <= lanes.len() <= usize::MAX,
    ensures
        forall|k: int|
            0 <= k < agent_rows_upto(lanes, pages, n).len() ==> agent_row_ok(
                #[trigger] agent_rows_upto(lanes, pages, n)[k],
                lanes,
                pages,
            ),
    decreases n,
{
    if n > 0 {
        lemma_agent_rows_ok(lanes, pages, n - 1);
        let prev = agent_rows_upto(lanes, pages, n - 1);
        let lane = lanes[n - 1];
        let mine = lane_rows(n - 1, lane, pages_of(pages, lane.key@));
        assert(agent_rows_upto(lanes, pages, n) == prev + mine);
        let p = pages_of(pages, lane.key@);
        let total = lane.tasks@.len() as int;
        let shown = min(revealed_spec(p), total);
        let head = seq![AgentRow::Lane { lane_index: (n - 1) as usize }];
        let subs = Seq::new(
            shown as nat,
            |t: int| AgentRow::Sub { lane_index: (n - 1) as usize, task_index: t as usize },
        );
        let more = if total > SUBTASK_PAGE {
            seq![AgentRow::More { lane_index: (n - 1) as usize, hidden: (total - shown) as usize }]
        } else {
            Seq::<AgentRow>::empty()
        };
        assert(mine == head + subs + more);
        assert(total <= usize::MAX) by {
            assert(lane.tasks@.len() == lane.tasks.len());
        }
        assert forall|k: int| 0 <= k < mine.len() implies agent_row_ok(#[trigger] mine[k], lanes, pages) by {
            if k == 0 {
                assert(mine[k] == head[0]);
            } else if k < 1 + shown {
                assert(mine[k] == subs[k - 1]);
            } else {
                assert(mine[k] == more[k - 1 - shown]);
            }
        }
        assert forall|k: int| 0 <= k < (prev + mine).len() implies agent_row_ok(#[trigger] (prev + mine)[k], lanes, pages) by {
            if k >= prev.len() {
                assert((prev + mine)[k] == mine[k - prev.len()]);
            } else {
                assert((prev + mine)[k] == prev[k]);
            }
        }
    }
}

/// What every row of the rail promises: lane rows keep [`agent_row_ok`],
/// and a harness row names a session in the device's list.
pub open spec fn rail_row_ok(
    row: RailRow,
    lanes: Seq<AgentLane>,
    pages: Seq<(String, usize)>,
    sessions: int,
) -> bool {
    match row {
        RailRow::Agent(r) => agent_row_ok(r, lanes, pages),
        RailRow::Harness(i) => i < sessions,
        _ => true,
    }
}

/// `a` is listed before `b`: it started earlier, or at the same time and was
/// registered first.
pub open spec fn started_before(rows: Seq<SessionRow>, a: usize, b: usize) -> bool {
    rows[a as int].started_at < rows[b as int].started_at || (rows[a as int].started_at
        == rows[b as int].started_at && a < b)
}

/// `own` lists exactly the operator-started sessions of `rows`, oldest first
/// (ties in registration order).
pub open spec fn own_order(rows: Seq<SessionRow>, own: Seq<usize>) -> bool {
    &&& forall|i: int, j: int|
        0 <= i < j < own.len() ==> started_before(rows, #[trigger] own[i], #[trigger] own[j])
    &&& forall|k: int| 0 <= k < own.len() ==> #[trigger] own[k] < rows.len()
    &&& forall|x: usize|
        #![trigger own.contains(x)]
        own.contains(x) <==> (x < rows.len() && rows[x as int].user_spawned)
}

/// The sessions this operator started, oldest first, as indices into `rows`.
///
/// Exited ones stay listed: the last screen is often the reason it exited.
pub fn own_harness_order(rows: &Vec<SessionRow>) -> (r: Vec<usize>)
    ensures
        own_order(rows@, r@),
{
    let mut own: Vec<usize> = Vec::new();
    let mut i: usize = 0;
    while i < rows.len()
        invariant
            i <= rows.len(),
            forall|a: int, b: int|
                0 <= a < b < own@.len() ==> started_before(rows@, #[trigger] own@[a], #[trigger] own@[b]),
            forall|k: int| 0 <= k < own@.len() ==> #[trigger] own@[k] < i,
            forall|x: usize|
                #![trigger own@.contains(x)]
                own@.contains(x) <==> (x < i && rows@[x as int].user_spawned),
        decreases rows.len() - i,
    {
        if rows[i].user_spawned {
            let at = rows[i].started_at;
            let mut p: usize = 0;
            while p < own.len() && rows[own[p]].started_at <= at
                invariant
                    p <= own.len(),
                    forall|k: int| 0 <= k < own@.len() ==> #[trigger] own@[k] < i,
                    i < rows.len(),
                    at == rows@[i as int].started_at,
                    forall|k: int| 0 <= k < p ==> rows@[#[trigger] own@[k] as int].started_at <= at,
                decreases own.len() - p,
            {
                p = p + 1;
            }
            let ghost old_own = own@;
            proof {
                if p < own.len() {
                    assert forall|k: int| p <= k < old_own.len() implies rows@[#[trigger] old_own[k] as int].started_at > at by {
                        if k > p {
                            assert(started_before(rows@, old_own[p as int], old_own[k]));
                        }
                    }
                }
            }
            own.insert(p, i);
            proof {
                assert(own@ =~= old_own.insert(p as int, i));
                assert forall|a: int, b: int| 0 <= a < b < own@.len() implies started_before(rows@, #[trigger] own@[a], #[trigger] own@[b]) by {
                    if a < p && b == p {
                    } else if a < p && b > p {
                        assert(own@[b] == old_own[b - 1]);
                        assert(started_before(rows@, old_own[a], old_own[b - 1]));
                    } else if a == p {
                        assert(own@[b] == old_own[b - 1]);
                    } else if a > p {
                        assert(own@[a] == old_own[a - 1]);
                        assert(own@[b] == old_own[b - 1]);
                    }
                }
                assert forall|x: usize| #![trigger own@.contains(x)] own@.contains(x) <==> (x < i + 1 && rows@[x as int].user_spawned) by {
                    if own@.contains(x) {
                        let k = choose|k: int| 0 <= k < own@.len() && own@[k] == x;
                        if k < p {
                            assert(old_own[k] == x);
                            assert(old_own.contains(x));
                        } else if k > p {
                            assert(old_own[k - 1] == x);
                            assert(old_own.contains(x));
                        }
                    }
                    if x < i && rows@[x as int].user_spawned {
                        assert(old_own.contains(x));
                        let k = choose|k: int| 0 <= k < old_own.len() && old_own[k] == x;
                        if k < p {
                            assert(own@[k] == x);
                        } else {
                            assert(own@[k + 1] == x);
                        }
                    }
                    if x == i {
                        assert(own@[p as int] == x);
                    }
                }
            }
        } else {
            proof {
                assert forall|x: usize| #![trigger own@.contains(x)] own@.contains(x) <==> (x < i + 1 && rows@[x as int].user_spawned) by {
                    if own@.contains(x) {
                        let k = choose|k: int| 0 <= k < own@.len() && own@[k] == x;
                        assert(own@[k] < i);
                    }
                }
            }
        }
        i = i + 1;
    }
    own
}

/// The index of the first orchestrator lane header at or after `k`.
pub open spec fn first_orchestrator_from(rows: Seq<AgentRow>, lanes: Seq<AgentLane>, k: int) -> Option<int>
    decreases rows.len() - k,
{
    if k < 0 || k >= rows.len() {
        None
    } else if is_orchestrator_row(rows[k], lanes) {
        Some(k)
    } else {
        first_orchestrator_from(rows, lanes, k + 1)
    }
}

/// Whether `row` is the header of an orchestrator lane.
pub open spec fn is_orchestrator_row(row: AgentRow, lanes: Seq<AgentLane>) -> bool {
    match row {
        AgentRow::Lane { lane_index } => lane_index < lanes.len() && lanes[lane_index as int].role
            == AgentRole::Orchestrator,
        _ => false,
    }
}

/// The lane rows as rail rows.
pub open spec fn as_rail(rows: Seq<AgentRow>) -> Seq<RailRow> {
    rows.map_values(|r: AgentRow| RailRow::Agent(r))
}

/// The rail: the lanes, `+ New harness` directly under the first orchestrator
/// lane (or on top when there is none yet) on a hosting device, then the
/// operator's own harnesses under their divider.
pub open spec fn rail_rows_spec(
    rows: Seq<AgentRow>,
    lanes: Seq<AgentLane>,
    can_start: bool,
    own: Seq<usize>,
) -> Seq<RailRow> {
    let base = as_rail(rows);
    let with_action = if !can_start {
        base
    } else {
        match first_orchestrator_from(rows, lanes, 0) {
            Some(k) => base.take(k + 1) + seq![RailRow::NewHarness] + base.skip(k + 1),
            None => seq![RailRow::NewHarness] + base,
        }
    };
    if own.len() == 0 {
        with_action
    } else {
        with_action + seq![RailRow::HarnessSeparator] + own.map_values(|i: usize| RailRow::Harness(i))
    }
}

/// The divider and the operator's own harnesses that end the rail; nothing
/// when there are none.
pub open spec fn own_tail(own: Seq<usize>) -> Seq<RailRow> {
    if own.len() == 0 {
        Seq::empty()
    } else {
        seq![RailRow::HarnessSeparator] + own.map_values(|i: usize| RailRow::Harness(i))
    }
}

/// The shape of the rail: the lane rows in their order, with `+ New
/// harness` inserted once among them exactly when the device can start a
/// harness, and then, only when the operator has harnesses of their own, the
/// divider followed by those harnesses, ending the rail.
pub proof fn law_rail_layout(rows: Seq<AgentRow>, lanes: Seq<AgentLane>, can_start: bool, own: Seq<usize>)
    ensures
        forall|k: int| 0 <= k < as_rail(rows).len() ==> #[trigger] as_rail(rows)[k] == RailRow::Agent(rows[k]),
        as_rail(rows).len() == rows.len(),
        !can_start ==> rail_rows_spec(rows, lanes, can_start, own) == as_rail(rows) + own_tail(own),
        can_start ==> exists|p: int|
            0 <= p <= rows.len() && #[trigger] rail_rows_spec(rows, lanes, can_start, own) == as_rail(rows).take(p)
                + seq![RailRow::NewHarness] + as_rail(rows).skip(p) + own_tail(own),
{
    let base = as_rail(rows);
    let r = rail_rows_spec(rows, lanes, can_start, own);
    if own.len() == 0 {
        assert(r =~= r + own_tail(own));
    }
    if !can_start {
        if own.len() == 0 {
            assert(r =~= base + own_tail(own));
        } else {
            assert(r =~= base + own_tail(own));
        }
    } else {
        lemma_first_orchestrator_range(rows, lanes, 0);
        match first_orchestrator_from(rows, lanes, 0) {
            Some(k) => {
                assert(0 <= k < rows.len());
                let w = base.take(k + 1) + seq![RailRow::NewHarness] + base.skip(k + 1);
                assert(r =~= w + own_tail(own));
                assert(r == base.take(k + 1) + seq![RailRow::NewHarness] + base.skip(k + 1) + own_tail(own));
            },
            None => {
                assert(base.take(0) =~= Seq::<RailRow>::empty());
                assert(base.skip(0) =~= base);
                assert(r =~= base.take(0) + seq![RailRow::NewHarness] + base.skip(0) + own_tail(own));
            },
        }
    }
}

/// When no orchestrator header lies in `[k, j)`, the first one is found from `j`.
proof fn lemma_first_orchestrator_skip(rows: Seq<AgentRow>, lanes: Seq<AgentLane>, k: int, j: int)
    requires
        0 <= k <= j <= rows.len(),
        forall|m: int| k <= m < j ==> !is_orchestrator_row(#[trigger] rows[m], lanes),
    ensures
        first_orchestrator_from(rows, lanes, k) == first_orchestrator_from(rows, lanes, j),
    decreases j - k,
{
    if k < j {
        lemma_first_orchestrator_skip(rows, lanes, k + 1, j);
    }
}

/// Every row of an assembled rail keeps [`rail_row_ok`] when its lane rows
/// and own-harness indices do.
pub proof fn lemma_rail_rows_ok(
    rows: Seq<AgentRow>,
    lanes: Seq<AgentLane>,
    pages: Seq<(String, usize)>,
    can_start: bool,
    own: Seq<usize>,
    sessions: int,
)
    requires
        forall|k: int| 0 <= k < rows.len() ==> agent_row_ok(#[trigger] rows[k], lanes, pages),
        forall|k: int| 0 <= k < own.len() ==> #[trigger] own[k] < sessions,
    ensures
        forall|k: int|
            0 <= k < rail_rows_spec(rows, lanes, can_start, own).len() ==> rail_row_ok(
                #[trigger] rail_rows_spec(rows, lanes, can_start, own)[k],
                lanes,
                pages,
                sessions,
            ),
{
    let base = as_rail(rows);
    assert forall|k: int| 0 <= k < base.len() implies rail_row_ok(#[trigger] base[k], lanes, pages, sessions) by {
        assert(base[k] == RailRow::Agent(rows[k]));
    }
    let with_action = if !can_start {
        base
    } else {
        match first_orchestrator_from(rows, lanes, 0) {
            Some(k) => base.take(k + 1) + seq![RailRow::NewHarness] + base.skip(k + 1),
            None => seq![RailRow::NewHarness] + base,
        }
    };
    assert forall|k: int| 0 <= k < with_action.len() implies rail_row_ok(#[trigger] with_action[k], lanes, pages, sessions) by {
        if can_start {
            match first_orchestrator_from(rows, lanes, 0) {
                Some(j) => {
                    lemma_first_orchestrator_range(rows, lanes, 0);
                    if k < j + 1 {
                        assert(with_action[k] == base[k]);
                    } else if k > j + 1 {
                        assert(with_action[k] == base[k - 1]);
                    }
                },
                None => {
                    if k > 0 {
                        assert(with_action[k] == base[k - 1]);
                    }
                },
            }
        }
    }
    let tail = own.map_values(|i: usize| RailRow::Harness(i));
    if own.len() > 0 {
        let all = with_action + seq![RailRow::HarnessSeparator] + tail;
        assert forall|k: int| 0 <= k < all.len() implies rail_row_ok(#[trigger] all[k], lanes, pages, sessions) by {
            if k < with_action.len() {
                assert(all[k] == with_action[k]);
            } else if k > with_action.len() {
                assert(all[k] == tail[k - with_action.len() - 1]);
                assert(own[k - with_action.len() - 1] < sessions);
            }
        }
    }
}

/// A found orchestrator header lies inside the rows.
proof fn lemma_first_orchestrator_range(rows: Seq<AgentRow>, lanes: Seq<AgentLane>, k: int)
    ensures
        first_orchestrator_from(rows, lanes, k) matches Some(j) ==> k <= j < rows.len(),
    decreases rows.len() - k,
{
    if 0 <= k < rows.len() && !is_orchestrator_row(rows[k], lanes) {
        lemma_first_orchestrator_range(rows, lanes, k + 1);
    }
}

/// Whether `row` heads an orchestrator lane.
pub fn orchestrator_row(row: &AgentRow, lanes: &Vec<AgentLane>) -> (r: bool)
    ensures
        r == is_orchestrator_row(*row, lanes@),
{
    match row {
        AgentRow::Lane { lane_index } => *lane_index < lanes.len() && lanes[*lane_index].role
            == AgentRole::Orchestrator,
        _ => false,
    }
}

/// Assemble the rail from the lane rows and the operator's own harnesses.
pub fn assemble_rail(
    rows: &Vec<AgentRow>,
    lanes: &Vec<AgentLane>,
    can_start: bool,
    own: &Vec<usize>,
) -> (r: Vec<RailRow>)
    ensures
        r@ == rail_rows_spec(rows@, lanes@, can_start, own@),
{
    let mut out: Vec<RailRow> = Vec::new();
    let mut placed = !can_start;
    let mut i: usize = 0;
    let ghost base = as_rail(rows@);
    while i < rows.len()
        invariant
            i <= rows.len(),
            base == as_rail(rows@),
            !can_start ==> placed && out@ == base.take(i as int),
            can_start && !placed ==> out@ == base.take(i as int) && forall|m: int|
                0 <= m < i ==> !is_orchestrator_row(#[trigger] rows@[m], lanes@),
            can_start && placed ==> (first_orchestrator_from(rows@, lanes@, 0) matches Some(k) && 0 <= k
                < i && out@ == base.take(k + 1) + seq![RailRow::NewHarness] + base.subrange(
                k + 1,
                i as int,
            )),
        decreases rows.len() - i,
    {
        let orchestrator = orchestrator_row(&rows[i], lanes);
        let ghost prev = out@;
        out.push(RailRow::Agent(rows[i]));
        proof {
            assert(base.len() == rows@.len());
            assert(base[i as int] == RailRow::Agent(rows@[i as int]));
            if can_start && placed {
                let k = first_orchestrator_from(rows@, lanes@, 0)->0;
                assert(prev == base.take(k + 1) + seq![RailRow::NewHarness] + base.subrange(k + 1, i as int));
                assert(out@ == prev.push(base[i as int]));
                assert(base.subrange(k + 1, i + 1) =~= base.subrange(k + 1, i as int).push(base[i as int]));
                assert(out@ =~= base.take(k + 1) + seq![RailRow::NewHarness] + base.subrange(
                    k + 1,
                    i + 1,
                ));
            } else {
                assert(out@ =~= base.take(i + 1));
            }
        }
        if orchestrator && !placed {
            proof {
                lemma_first_orchestrator_skip(rows@, lanes@, 0, i as int);
                assert(first_orchestrator_from(rows@, lanes@, i as int) == Some(i as int));
                assert(base.subrange(i + 1, i + 1) =~= Seq::<RailRow>::empty());
            }
            out.push(RailRow::NewHarness);
            placed = true;
            proof {
                assert(out@ =~= base.take(i + 1) + seq![RailRow::NewHarness] + base.subrange(
                    i + 1,
                    i + 1,
                ));
            }
        }
        i = i + 1;
    }
    proof {
        assert(base.take(rows@.len() as int) =~= base);
        if can_start && placed {
            let k = first_orchestrator_from(rows@, lanes@, 0)->0;
            assert(base.subrange(k + 1, rows@.len() as int) =~= base.skip(k + 1));
        }
        if can_start && !placed {
            lemma_first_orchestrator_skip(rows@, lanes@, 0, rows@.len() as int);
        }
    }
    if !placed {
        out.insert(0, RailRow::NewHarness);
        assert(out@ =~= seq![RailRow::NewHarness] + base);
    }
    if own.len() > 0 {
        let ghost before = out@;
        out.push(RailRow::HarnessSeparator);
        let mut j: usize = 0;
        while j < own.len()
            invariant
                j <= own.len(),
                out@ == before + seq![RailRow::HarnessSeparator] + own@.take(j as int).map_values(
                    |x: usize| RailRow::Harness(x),
                ),
            decreases own.len() - j,
        {
            out.push(RailRow::Harness(own[j]));
            j = j + 1;
            assert(out@ =~= before + seq![RailRow::HarnessSeparator] + own@.take(
                j as int,
            ).map_values(|x: usize| RailRow::Harness(x)));
        }
        assert(own@.take(own.len() as int) =~= own@);
    }
    out
}

/// `own` lists the operator's own harnesses of `harnesses`, oldest first;
/// it is empty when this device hosts nothing.
pub open spec fn own_spec_of(harnesses: Option<Vec<SessionRow>>, own: Seq<usize>) -> bool {
    match harnesses {
        Some(h) => own_order(h@, own),
        None => own.len() == 0,
    }
}

/// The one list satisfying [`own_spec_of`].
pub open spec fn own_choice(harnesses: Option<Vec<SessionRow>>) -> Seq<usize> {
    choose|own: Seq<usize>| own_spec_of(harnesses, own)
}

/// The rail as the operator sees it, from the lanes, their expansions and
/// the device's harness sessions.
#[verifier::opaque]
pub open spec fn rail_of(
    lanes: Seq<AgentLane>,
    pages: Seq<(String, usize)>,
    harnesses: Option<Vec<SessionRow>>,
) -> Seq<RailRow> {
    rail_rows_spec(
        agent_rows_spec(lanes, pages),
        lanes,
        harnesses is Some,
        own_choice(harnesses),
    )
}

impl App {
    /// The operator's own harnesses, oldest first, as indices into the
    /// device's session list; empty when this device hosts nothing.
    pub open spec fn own_spec(&self, own: Seq<usize>) -> bool {
        own_spec_of(self.harnesses, own)
    }

    /// The one list satisfying [`own_spec`](Self::own_spec).
    pub open spec fn own_of(&self) -> Seq<usize> {
        own_choice(self.harnesses)
    }

    /// The harnesses this operator started, oldest first.
    pub fn own_harness_rows(&self) -> (r: Vec<usize>)
        ensures
            self.own_spec(r@),
            r@ == self.own_of(),
    {
        let r = match &self.harnesses {
            Some(h) => own_harness_order(h),
            None => Vec::new(),
        };
        proof {
            assert(self.own_spec(r@));
            let o = self.own_of();
            assert(self.own_spec(o));
            match &self.harnesses {
                Some(h) => lemma_own_order_unique(h@, r@, o),
                None => assert(r@ =~= o),
            }
        }
        r
    }

    /// The rail as the operator sees it.
    pub open spec fn rail(&self) -> Seq<RailRow> {
        rail_of(self.lanes@, self.subtask_pages@, self.harnesses)
    }

    /// The rail's rows: the lanes, the `+ New harness` action, and the
    /// operator's own harnesses.
    pub fn rail_rows(&self) -> (r: Vec<RailRow>)
        ensures
            r@ == self.rail(),
            forall|k: int|
                0 <= k < r@.len() ==> rail_row_ok(
                    #[trigger] r@[k],
                    self.lanes@,
                    self.subtask_pages@,
                    self.session_count(),
                ),
    {
        let rows = agent_rows(&self.lanes, &self.subtask_pages);
        let own = self.own_harness_rows();
        proof {
            reveal(rail_of);
            assert(self.lanes@.len() == self.lanes.len());
            lemma_agent_rows_ok(self.lanes@, self.subtask_pages@, self.lanes@.len() as int);
            assert forall|k: int| 0 <= k < own@.len() implies #[trigger] own@[k] < self.session_count() by {
                match &self.harnesses {
                    Some(h) => {},
                    None => {},
                }
            }
            lemma_rail_rows_ok(
                rows@,
                self.lanes@,
                self.subtask_pages@,
                self.harnesses is Some,
                own@,
                self.session_count(),
            );
        }
        assemble_rail(&rows, &self.lanes, self.harnesses.is_some(), &own)
    }

    /// How many live harness sessions this device lists.
    pub open spec fn session_count(&self) -> int {
        match self.harnesses {
            Some(h) => h@.len() as int,
            None => 0,
        }
    }
}

/// Two lists that are strictly ordered by start time and hold the same
/// sessions are the same list.
proof fn lemma_ordered_unique(rows: Seq<SessionRow>, a: Seq<usize>, b: Seq<usize>)
    requires
        forall|i: int, j: int| 0 <= i < j < a.len() ==> started_before(rows, #[trigger] a[i], #[trigger] a[j]),
        forall|i: int, j: int| 0 <= i < j < b.len() ==> started_before(rows, #[trigger] b[i], #[trigger] b[j]),
        forall|x: usize| #![trigger a.contains(x)] #![trigger b.contains(x)] a.contains(x) <==> b.contains(x),
    ensures
        a == b,
    decreases a.len(),
{
    if a.len() == 0 {
        if b.len() > 0 {
            assert(b.contains(b[0]));
        }
        assert(a =~= b);
    } else {
        assert(a.contains(a[0]));
        assert(b.contains(a[0]));
        assert(b.len() > 0);
        assert(b.contains(b[0]));
        assert(a.contains(b[0]));
        if a[0] != b[0] {
            let ia = choose|k: int| 0 <= k < b.len() && b[k] == a[0];
            let ib = choose|k: int| 0 <= k < a.len() && a[k] == b[0];
            assert(ia > 0);
            assert(ib > 0);
            assert(started_before(rows, b[0], b[ia]));
            assert(started_before(rows, a[0], a[ib]));
            assert(false);
        }
        let ta = a.drop_first();
        let tb = b.drop_first();
        assert forall|x: usize| #![trigger ta.contains(x)] #![trigger tb.contains(x)] ta.contains(x) <==> tb.contains(x) by {
            if ta.contains(x) {
                let k = choose|k: int| 0 <= k < ta.len() && ta[k] == x;
                assert(a[k + 1] == x);
                assert(started_before(rows, a[0], a[k + 1]));
                assert(a.contains(x));
                assert(b.contains(x));
                let m = choose|m: int| 0 <= m < b.len() && b[m] == x;
                assert(m != 0);
                assert(tb[m - 1] == x);
            }
            if tb.contains(x) {
                let k = choose|k: int| 0 <= k < tb.len() && tb[k] == x;
                assert(b[k + 1] == x);
                assert(started_before(rows, b[0], b[k + 1]));
                assert(b.contains(x));
                assert(a.contains(x));
                let m = choose|m: int| 0 <= m < a.len() && a[m] == x;
                assert(m != 0);
                assert(ta[m - 1] == x);
            }
        }
        assert forall|i: int, j: int| 0 <= i < j < ta.len() implies started_before(rows, #[trigger] ta[i], #[trigger] ta[j]) by {
            assert(ta[i] == a[i + 1] && ta[j] == a[j + 1]);
        }
        assert forall|i: int, j: int| 0 <= i < j < tb.len() implies started_before(rows, #[trigger] tb[i], #[trigger] tb[j]) by {
            assert(tb[i] == b[i + 1] && tb[j] == b[j + 1]);
        }
        lemma_ordered_unique(rows, ta, tb);
        assert(a =~= seq![a[0]] + ta);
        assert(b =~= seq![b[0]] + tb);
    }
}

/// The operator's own harness order is unique.
pub proof fn lemma_own_order_unique(rows: Seq<SessionRow>, a: Seq<usize>, b: Seq<usize>)
    requires
        own_order(rows, a),
        own_order(rows, b),
    ensures
        a == b,
{
    assert forall|x: usize| #![trigger a.contains(x)] #![trigger b.contains(x)] a.contains(x) <==> b.contains(x) by {
    }
    lemma_ordered_unique(rows, a, b);
}
/// Whether waiting session `id` still needs the operator: the keyboard is
/// not attached to it.
pub open spec fn unattended(attached: Option<String>) -> spec_fn(String) -> bool {
    |id: String| !(attached matches Some(a) && a@ == id@)
}

/// How many of the waiting sessions need the operator: those the keyboard
/// is not attached to.
pub fn count_waiting(waiting: &Vec<String>, attached: &Option<String>) -> (r: usize)
    ensures
        r == waiting@.filter(unattended(*attached)).len(),
{
    let ghost p = unattended(*attached);
    let mut n: usize = 0;
    let mut i: usize = 0;
    proof {
        reveal(Seq::filter);
        assert(waiting@.take(0) =~= Seq::<String>::empty());
    }
    while i < waiting.len()
        invariant
            i <= waiting@.len(),
            p == unattended(*attached),
            n == waiting@.take(i as int).filter(p).len(),
            n <= i,
        decreases waiting.len() - i,
    {
        let skip = match attached {
            Some(a) => *a == waiting[i],
            None => false,
        };
        proof {
            reveal(Seq::filter);
            let t = waiting@.take(i + 1);
            assert(t.drop_last() =~= waiting@.take(i as int));
            assert(t.last() == waiting@[i as int]);
            assert(skip == !p(waiting@[i as int]));
        }
        if !skip {
            n = n + 1;
        }
        i = i + 1;
    }
    assert(waiting@.take(i as int) =~= waiting@);
    n
}

} // verus!
