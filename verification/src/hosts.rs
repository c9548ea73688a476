//! The Hosts page: the `Host → Agents` tree flattened into the rows the
//! cursor walks, what the row under the cursor acts on, and the keys that
//! browse and mutate the roster and assign roles.
use vstd::prelude::*;

use crate::app::{owned, App, Cmd, Menus, Prompt, PromptKind, RoutingPage, WorkerOp};
use crate::composer::Draft;
use crate::keymap::KeyCode;
use crate::rail::WorkerInfo;
use crate::settings::{step_index, stepped_index, SettingsKey};
use crate::text::{chars_of_string, push_all, push_str, string_of};

verus! {

/// Whether a host is this machine's own or a peer's.
#[derive(Clone, Copy, Debug, PartialEq, Eq, Structural)]
pub enum HostKind {
    Local,
    Remote,
}

/// One agent under a host.
pub struct HostAgentRow {
    pub agent_id: String,
    /// Whether the roster has it running.
    pub live: bool,
    /// Whether it is declared on this machine, so its roles may be edited here.
    pub editable: bool,
    pub roles: Vec<String>,
}

/// A host and the agents under it.
pub struct HostRow {
    pub id: String,
    pub label: String,
    pub kind: HostKind,
    pub agents: Vec<HostAgentRow>,
    /// The roster entry that probed the machine, if any.
    pub detail_worker: Option<String>,
}

/// One line on the Hosts page: a host header (`agent` is `None`) or one agent
/// under it.
#[derive(Clone, Copy, Debug, PartialEq, Eq, Structural)]
pub struct HostsRow {
    pub host: usize,
    pub agent: Option<usize>,
}

/// The Hosts page's state: the tree the runtime reported, the cursor over it,
/// and the role toggles beside it.
pub struct HostsState {
    pub tree: Vec<HostRow>,
    pub index: usize,
    pub roles_focus: bool,
    pub role_index: usize,
    /// The agent templates whose roles may be assigned, by id.
    pub templates: Vec<String>,
    /// Highlighted default-host strategy.
    pub routing_strategy_index: usize,
    /// Highlighted subscription strategy.
    pub subscription_strategy_index: usize,
    /// Whether the subscription column has the keyboard.
    pub subscription_focused: bool,
    /// How many rows the template catalog shows, as the fleet was last read.
    pub template_rows: usize,
    /// The template row under the cursor.
    pub template_index: usize,
    /// How far the template popup is scrolled.
    pub template_scroll: usize,
}

impl HostsState {
    /// No hosts, cursor at the top, toggles unfocused.
    pub fn new() -> (r: HostsState)
        ensures
            r.tree@.len() == 0,
            r.index == 0,
            !r.roles_focus,
            r.role_index == 0,
            r.templates@.len() == 0,
            r.routing_strategy_index == 0 && r.subscription_strategy_index == 0 && !r.subscription_focused,
    {
        HostsState {
            tree: Vec::new(),
            index: 0,
            roles_focus: false,
            role_index: 0,
            templates: Vec::new(),
            routing_strategy_index: 0,
            subscription_strategy_index: 0,
            subscription_focused: false,
            template_rows: 0,
            template_index: 0,
            template_scroll: 0,
        }
    }
}

/// The rows of one host: its header, then one per agent.
pub open spec fn host_lines(host: int, agents: nat) -> Seq<HostsRow> {
    seq![HostsRow { host: host as usize, agent: None }] + Seq::new(
        agents,
        |a: int| HostsRow { host: host as usize, agent: Some(a as usize) },
    )
}

/// The tree flattened into rows, host by host.
pub open spec fn flatten_spec(tree: Seq<HostRow>) -> Seq<HostsRow>
    decreases tree.len(),
{
    if tree.len() == 0 {
        seq![]
    } else {
        flatten_spec(tree.drop_last()) + host_lines(tree.len() - 1, tree.last().agents@.len())
    }
}

/// Flatten the tree into the rows the list draws and the cursor walks.
pub fn flatten(tree: &Vec<HostRow>) -> (r: Vec<HostsRow>)
    ensures
        r@ == flatten_spec(tree@),
{
    let mut rows: Vec<HostsRow> = Vec::new();
    let mut h: usize = 0;
    while h < tree.len()
        invariant
            h <= tree@.len(),
            rows@ == flatten_spec(tree@.take(h as int)),
        decreases tree.len() - h,
    {
        let ghost start = rows@;
        rows.push(HostsRow { host: h, agent: None });
        let n = tree[h].agents.len();
        let mut a: usize = 0;
        while a < n
            invariant
                a <= n,
                n == tree@[h as int].agents@.len(),
                h < tree@.len(),
                rows@ == start + seq![HostsRow { host: h, agent: None }] + Seq::new(
                    a as nat,
                    |k: int| HostsRow { host: h, agent: Some(k as usize) },
                ),
            decreases n - a,
        {
            rows.push(HostsRow { host: h, agent: Some(a) });
            a = a + 1;
            assert(rows@ =~= start + seq![HostsRow { host: h, agent: None }] + Seq::new(
                a as nat,
                |k: int| HostsRow { host: h, agent: Some(k as usize) },
            ));
        }
        proof {
            assert(tree@.take(h + 1).drop_last() =~= tree@.take(h as int));
            assert(rows@ =~= flatten_spec(tree@.take(h + 1)));
        }
        h = h + 1;
    }
    assert(tree@.take(h as int) =~= tree@);
    rows
}

/// Whether `roles` holds `role`.
pub open spec fn holds(roles: Seq<Seq<char>>, role: Seq<char>) -> bool {
    exists|i: int| 0 <= i < roles.len() && roles[i] == role
}

/// The first position of `role` in `roles`.
pub open spec fn first_at(roles: Seq<Seq<char>>, role: Seq<char>) -> int {
    choose|i: int| 0 <= i < roles.len() && roles[i] == role && forall|j: int| 0 <= j < i ==> roles[j] != role
}

/// `roles` with `role` toggled: its first occurrence removed when held,
/// otherwise appended.
pub open spec fn toggled(roles: Seq<Seq<char>>, role: Seq<char>) -> Seq<Seq<char>> {
    if holds(roles, role) {
        roles.remove(first_at(roles, role))
    } else {
        roles.push(role)
    }
}

/// Strings as plain text.
pub open spec fn texts(v: Seq<String>) -> Seq<Seq<char>> {
    v.map_values(|s: String| s@)
}

/// Toggle `role` in `roles`; returns the new list and whether it was added.
pub fn toggle_role(roles: &Vec<String>, role: &String) -> (r: (Vec<String>, bool))
    ensures
        texts(r.0@) == toggled(texts(roles@), role@),
        r.1 == !holds(texts(roles@), role@),
{
    let mut i: usize = 0;
    while i < roles.len()
        invariant
            i <= roles@.len(),
            forall|j: int| 0 <= j < i ==> roles@[j]@ != role@,
        decreases roles.len() - i,
    {
        if roles[i] == *role {
            let mut out: Vec<String> = Vec::new();
            let mut k: usize = 0;
            while k < roles.len()
                invariant
                    k <= roles@.len(),
                    i < roles@.len(),
                    texts(out@) == remove_value_at_spec(texts(roles@.take(k as int)), i as int),
                decreases roles.len() - k,
            {
                let ghost before = texts(out@);
                let ghost t0 = texts(roles@.take(k as int));
                if k != i {
                    out.push(roles[k].clone());
                    assert(texts(out@) =~= before.push(roles@[k as int]@));
                }
                k = k + 1;
                proof {
                    let t1 = texts(roles@.take(k as int));
                    assert(t1 =~= t0.push(roles@[k - 1]@));
                    if (k - 1) as int == i as int {
                        assert(remove_value_at_spec(t1, i as int) =~= t0);
                    } else if (k - 1) as int > i as int {
                        assert(remove_value_at_spec(t1, i as int) =~= remove_value_at_spec(t0, i as int).push(
                            roles@[k - 1]@,
                        ));
                    } else {
                        assert(remove_value_at_spec(t1, i as int) =~= t1);
                        assert(remove_value_at_spec(t0, i as int) =~= t0);
                    }
                }
            }
            proof {
                assert(roles@.take(k as int) =~= roles@);
                assert(texts(roles@)[i as int] == role@);
                assert(holds(texts(roles@), role@));
                let f = first_at(texts(roles@), role@);
                assert(f == i as int) by {
                    if f < i {
                        assert(texts(roles@)[f] == role@);
                    }
                    if f > i {
                        assert(texts(roles@)[i as int] != role@);
                    }
                }
                assert(texts(out@) =~= texts(roles@).remove(i as int));
            }
            return (out, false);
        }
        i = i + 1;
    }
    let mut out: Vec<String> = Vec::new();
    let mut k: usize = 0;
    while k < roles.len()
        invariant
            k <= roles@.len(),
            texts(out@) == texts(roles@.take(k as int)),
        decreases roles.len() - k,
    {
        let ghost before = texts(out@);
        out.push(roles[k].clone());
        assert(texts(out@) =~= before.push(roles@[k as int]@));
        k = k + 1;
        assert(texts(out@) =~= texts(roles@.take(k as int)));
    }
    out.push(role.clone());
    proof {
        assert(roles@.take(k as int) =~= roles@);
        assert(!holds(texts(roles@), role@)) by {
            if holds(texts(roles@), role@) {
                let j = choose|j: int| 0 <= j < texts(roles@).len() && texts(roles@)[j] == role@;
                assert(roles@[j]@ == role@);
            }
        }
        assert(texts(out@) =~= texts(roles@).push(role@));
    }
    (out, true)
}

/// `s` without position `i`, when it has one.
pub open spec fn remove_value_at_spec(s: Seq<Seq<char>>, i: int) -> Seq<Seq<char>> {
    if i < s.len() {
        s.remove(i)
    } else {
        s
    }
}

/// `o` as plain text.
pub open spec fn opt_view(o: Option<String>) -> Option<Seq<char>> {
    match o {
        Some(s) => Some(s@),
        None => None,
    }
}

/// The first roster entry whose id is `id`.
pub open spec fn worker_with(workers: Seq<WorkerInfo>, id: Seq<char>) -> Option<int> {
    if exists|i: int| 0 <= i < workers.len() && workers[i].id@ == id {
        Some(
            choose|i: int|
                0 <= i < workers.len() && workers[i].id@ == id && forall|j: int| 0 <= j < i ==> workers[j].id@ != id,
        )
    } else {
        None
    }
}

/// How a roster entry is named in the status line: its label, else its
/// address.
pub open spec fn worker_name(w: WorkerInfo) -> Seq<char> {
    match w.label {
        Some(l) => l@,
        None => w.address@,
    }
}

impl App {
    /// The rows the Hosts page lists.
    pub open spec fn host_rows(&self) -> Seq<HostsRow> {
        flatten_spec(self.hosts.tree@)
    }

    /// The row under the cursor, the cursor clamped into the list.
    pub open spec fn host_row_spec(&self) -> Option<HostsRow> {
        let rows = self.host_rows();
        if rows.len() == 0 {
            None
        } else if self.hosts.index < rows.len() {
            Some(rows[self.hosts.index as int])
        } else {
            Some(rows[rows.len() - 1])
        }
    }

    /// The host the cursor's row belongs to.
    pub open spec fn host_spec(&self) -> Option<usize> {
        match self.host_row_spec() {
            Some(row) => if row.host < self.hosts.tree@.len() {
                Some(row.host)
            } else {
                None
            },
            None => None,
        }
    }

    /// The agent under the cursor, when the cursor is on an agent row.
    pub open spec fn host_agent_spec(&self) -> Option<HostAgentRow> {
        match (self.host_row_spec(), self.host_spec()) {
            (Some(row), Some(h)) => match row.agent {
                Some(a) => if a < self.hosts.tree@[h as int].agents@.len() {
                    Some(self.hosts.tree@[h as int].agents@[a as int])
                } else {
                    None
                },
                None => None,
            },
            _ => None,
        }
    }

    /// The roster entry id the cursor's row acts on: the agent itself when it
    /// is running, or the entry that probed the host on a header row.
    pub open spec fn host_target_spec(&self) -> Option<Seq<char>> {
        match (self.host_row_spec(), self.host_spec()) {
            (Some(row), Some(h)) => match row.agent {
                Some(_) => match self.host_agent_spec() {
                    Some(agent) => if agent.live {
                        Some(agent.agent_id@)
                    } else {
                        None
                    },
                    None => None,
                },
                None => opt_view(self.hosts.tree@[h as int].detail_worker),
            },
            _ => None,
        }
    }

    /// The roster entry the cursor's row acts on.
    pub open spec fn host_worker_spec(&self) -> Option<int> {
        match self.host_target_spec() {
            Some(id) => worker_with(self.setup.workers@, id),
            None => None,
        }
    }

    /// The rows and the clamped cursor.
    pub fn hosts_view(&self) -> (r: (Vec<HostsRow>, usize))
        ensures
            r.0@ == self.host_rows(),
            r.0@.len() > 0 ==> r.1 < r.0@.len() && self.host_row_spec() == Some(r.0@[r.1 as int]),
            r.0@.len() == 0 ==> self.host_row_spec() is None,
    {
        let rows = flatten(&self.hosts.tree);
        let selected = if rows.len() == 0 {
            0
        } else if self.hosts.index < rows.len() {
            self.hosts.index
        } else {
            rows.len() - 1
        };
        (rows, selected)
    }

    /// How many rows the Hosts page lists.
    pub fn hosts_row_count(&self) -> (r: usize)
        ensures
            r == self.host_rows().len(),
    {
        flatten(&self.hosts.tree).len()
    }

    /// The host the cursor's row belongs to, by its index in the tree.
    pub fn selected_host_row(&self) -> (r: Option<usize>)
        ensures
            r == self.host_spec(),
    {
        let (rows, selected) = self.hosts_view();
        if rows.len() == 0 {
            return None;
        }
        let h = rows[selected].host;
        if h < self.hosts.tree.len() {
            Some(h)
        } else {
            None
        }
    }

    /// The agent under the cursor, when the cursor is on an agent row.
    pub fn selected_host_agent(&self) -> (r: Option<HostAgentRow>)
        ensures
            match (r, self.host_agent_spec()) {
                (Some(a), Some(b)) => a.agent_id@ == b.agent_id@ && a.live == b.live && a.editable == b.editable
                    && texts(a.roles@) == texts(b.roles@),
                (None, None) => true,
                _ => false,
            },
    {
        let (rows, selected) = self.hosts_view();
        if rows.len() == 0 {
            return None;
        }
        let row = rows[selected];
        if row.host >= self.hosts.tree.len() {
            return None;
        }
        match row.agent {
            Some(a) => {
                if a < self.hosts.tree[row.host].agents.len() {
                    let agent = &self.hosts.tree[row.host].agents[a];
                    let roles = copy_strings(&agent.roles);
                    Some(
                        HostAgentRow {
                            agent_id: agent.agent_id.clone(),
                            live: agent.live,
                            editable: agent.editable,
                            roles,
                        },
                    )
                } else {
                    None
                }
            },
            None => None,
        }
    }

    /// Whether the session picker is on screen.
    pub fn session_picker_open(&self) -> (r: bool)
        ensures
            r == self.session_picker is Some,
    {
        self.session_picker.is_some()
    }

    /// Whether the role toggles hold the arrows.
    pub fn host_roles_focused(&self) -> (r: bool)
        ensures
            r == self.hosts.roles_focus,
    {
        self.hosts.roles_focus
    }

    /// Whether the cursor is on a host header rather than an agent.
    pub fn hosts_cursor_on_host(&self) -> (r: bool)
        ensures
            r == (self.host_row_spec() matches Some(row) && row.agent is None),
    {
        let (rows, selected) = self.hosts_view();
        rows.len() > 0 && rows[selected].agent.is_none()
    }

    /// Whether the host under the cursor is this machine's own, so its agents
    /// may be edited from here.
    pub fn selected_host_is_local(&self) -> (r: bool)
        ensures
            r == (self.host_spec() matches Some(h) && self.hosts.tree@[h as int].kind == HostKind::Local),
    {
        match self.selected_host_row() {
            Some(h) => self.hosts.tree[h].kind == HostKind::Local,
            None => false,
        }
    }

    /// The roster entry id the cursor's row acts on.
    fn host_target(&self) -> (r: Option<String>)
        ensures
            opt_view(r) == self.host_target_spec(),
    {
        let (rows, selected) = self.hosts_view();
        if rows.len() == 0 {
            return None;
        }
        let row = rows[selected];
        if row.host >= self.hosts.tree.len() {
            return None;
        }
        let host = &self.hosts.tree[row.host];
        match row.agent {
            Some(a) => {
                if a < host.agents.len() && host.agents[a].live {
                    Some(host.agents[a].agent_id.clone())
                } else {
                    None
                }
            },
            None => match &host.detail_worker {
                Some(w) => Some(w.clone()),
                None => None,
            },
        }
    }

    /// The roster entry the cursor's row acts on, by its index in the roster.
    pub fn selected_host(&self) -> (r: Option<usize>)
        ensures
            match r {
                Some(k) => self.host_worker_spec() == Some(k as int) && k < self.setup.workers@.len(),
                None => self.host_worker_spec() is None,
            },
    {
        let id = match self.host_target() {
            Some(id) => id,
            None => {
                return None;
            },
        };
        let mut i: usize = 0;
        while i < self.setup.workers.len()
            invariant
                i <= self.setup.workers@.len(),
                self.host_target_spec() == Some(id@),
                forall|j: int| 0 <= j < i ==> self.setup.workers@[j].id@ != id@,
            decreases self.setup.workers.len() - i,
        {
            if self.setup.workers[i].id == id {
                proof {
                    assert(self.setup.workers@[i as int].id@ == id@);
                    assert(self.host_target_spec() == Some(id@));
                    let c = choose|k: int|
                        0 <= k < self.setup.workers@.len() && self.setup.workers@[k].id@ == id@ && forall|j: int|
                            0 <= j < k ==> self.setup.workers@[j].id@ != id@;
                    assert(c == i as int) by {
                        if c < i {
                            assert(self.setup.workers@[c].id@ != id@);
                        }
                        if c > i {
                            assert(self.setup.workers@[i as int].id@ == id@);
                        }
                    }
                    assert(worker_with(self.setup.workers@, id@) == Some(i as int));
                }
                return Some(i);
            }
            i = i + 1;
        }
        None
    }
}

/// Copies of `v`.
pub fn copy_strings(v: &Vec<String>) -> (r: Vec<String>)
    ensures
        r@ == v@,
{
    let mut out: Vec<String> = Vec::new();
    let mut i: usize = 0;
    while i < v.len()
        invariant
            i <= v@.len(),
            out@ == v@.take(i as int),
        decreases v.len() - i,
    {
        out.push(v[i].clone());
        i = i + 1;
        assert(out@ =~= v@.take(i as int));
    }
    assert(v@.take(i as int) =~= v@);
    out
}

/// `a`, then `b`, as one line of text.
fn line2(a: &str, b: &Vec<char>) -> (r: String)
    ensures
        r@ == a@ + b@,
{
    let mut t: Vec<char> = Vec::new();
    push_str(&mut t, a);
    push_all(&mut t, b);
    string_of(t.as_slice())
}

/// `a`, then `b`, then `c`, as one line of text.
fn line3(a: &str, b: &Vec<char>, c: &str) -> (r: String)
    ensures
        r@ == a@ + b@ + c@,
{
    let mut t: Vec<char> = Vec::new();
    push_str(&mut t, a);
    push_all(&mut t, b);
    push_str(&mut t, c);
    string_of(t.as_slice())
}

impl App {
    /// The name a roster entry goes by in the status line.
    fn worker_name_of(&self, w: usize) -> (r: Vec<char>)
        requires
            w < self.setup.workers@.len(),
        ensures
            r@ == worker_name(self.setup.workers@[w as int]),
    {
        match &self.setup.workers[w].label {
            Some(l) => chars_of_string(l),
            None => chars_of_string(&self.setup.workers[w].address),
        }
    }

    /// Open the prompt that adds a host.
    pub fn open_add_host_prompt(&mut self)
        ensures
            final(self).prompt matches Some(p) && p.kind == PromptKind::HostAdd && p.draft.text@.len() == 0
                && p.draft.cursor == 0 && p.title@ == "Add host — address or @handle, optional label"@,
            final(self).status@ == "Add host · Enter save · Esc cancel"@,
            *final(self) == (App { prompt: final(self).prompt, status: final(self).status, ..*old(self) }),
    {
        self.prompt = Some(
            Prompt {
                kind: PromptKind::HostAdd,
                title: owned("Add host — address or @handle, optional label"),
                draft: Draft::new(),
            },
        );
        self.status = owned("Add host · Enter save · Esc cancel");
    }

    /// Drive the role toggles of the host under the cursor. `None` leaves the
    /// key to the host list.
    pub fn host_roles_key(&mut self, code: KeyCode) -> (r: Option<SettingsKey>)
        ensures
            r is None ==> *final(self) == roles_left(*old(self)),
            r is Some == roles_taken(*old(self), code),
            roles_key_outcome(*old(self), code, *final(self), r),
            final(self).tabs == old(self).tabs,
            final(self).menus == old(self).menus,
            old(self).hosts.templates@.len() == 0 ==> r is None && *final(self) == (App {
                hosts: HostsState { roles_focus: false, ..old(self).hosts },
                ..*old(self)
            }),
            old(self).hosts.templates@.len() > 0 ==> match code {
                KeyCode::Left | KeyCode::Char('h') => r == Some(SettingsKey::Handled(None)) && !final(self).hosts.roles_focus
                    && final(self).status@ == "Hosts · → to assign roles"@,
                KeyCode::Up | KeyCode::Char('k') => r == Some(SettingsKey::Handled(None)) && final(self).hosts.role_index
                    == stepped_index(old(self).hosts.role_index, old(self).hosts.templates@.len() as usize, true),
                KeyCode::Down | KeyCode::Char('j') => r == Some(SettingsKey::Handled(None))
                    && final(self).hosts.role_index == stepped_index(
                    old(self).hosts.role_index,
                    old(self).hosts.templates@.len() as usize,
                    false,
                ),
                KeyCode::Char(' ') | KeyCode::Enter => match old(self).host_worker_spec() {
                    Some(w) => if old(self).hosts.role_index < old(self).hosts.templates@.len() {
                        let worker = old(self).setup.workers@[w];
                        let role = old(self).hosts.templates@[old(self).hosts.role_index as int];
                        let added = !holds(texts(worker.roles@), role@);
                        &&& r matches Some(SettingsKey::Handled(Some(Cmd::WorkerOp(crate::app::WorkerOp::SetRoles { id, roles }))))
                        &&& id@ == worker.id@
                        &&& texts(roles@) == toggled(texts(worker.roles@), role@)
                        &&& final(self).status@ == worker.id@ + (if added {
                            " now offered for "@
                        } else {
                            " no longer offered for "@
                        }) + role@
                    } else {
                        r is None
                    },
                    None => r is None,
                },
                _ => r is None && *final(self) == *old(self),
            },
    {
        if self.hosts.templates.len() == 0 {
            self.hosts.roles_focus = false;
            return None;
        }
        match code {
            KeyCode::Left | KeyCode::Char('h') => {
                self.hosts.roles_focus = false;
                self.status = owned("Hosts · → to assign roles");
                Some(SettingsKey::Handled(None))
            },
            KeyCode::Up | KeyCode::Char('k') => {
                self.hosts.role_index = step_index(self.hosts.role_index, self.hosts.templates.len(), true);
                Some(SettingsKey::Handled(None))
            },
            KeyCode::Down | KeyCode::Char('j') => {
                self.hosts.role_index = step_index(self.hosts.role_index, self.hosts.templates.len(), false);
                Some(SettingsKey::Handled(None))
            },
            KeyCode::Char(' ') | KeyCode::Enter => {
                let w = match self.selected_host() {
                    Some(w) => w,
                    None => {
                        return None;
                    },
                };
                if self.hosts.role_index >= self.hosts.templates.len() {
                    return None;
                }
                let role = self.hosts.templates[self.hosts.role_index].clone();
                let (roles, added) = toggle_role(&self.setup.workers[w].roles, &role);
                let id = self.setup.workers[w].id.clone();
                let idc = chars_of_string(&id);
                let rc = chars_of_string(&role);
                let mut t: Vec<char> = Vec::new();
                push_all(&mut t, &idc);
                if added {
                    push_str(&mut t, " now offered for ");
                } else {
                    push_str(&mut t, " no longer offered for ");
                }
                push_all(&mut t, &rc);
                self.status = string_of(t.as_slice());
                Some(SettingsKey::Handled(Some(Cmd::WorkerOp(crate::app::WorkerOp::SetRoles { id, roles }))))
            },
            _ => None,
        }
    }

    /// A roster command on the entry under the cursor, with the status naming
    /// what it does.
    fn host_op(&mut self, code: KeyCode) -> (r: SettingsKey)
        requires
            code == KeyCode::Char('s') || code == KeyCode::Enter || code == KeyCode::Char('d') || code
                == KeyCode::Char('x') || code == KeyCode::Char('r'),
        ensures
            host_op_outcome(*old(self), code, *final(self), r),
            final(self).tabs == old(self).tabs,
            match old(self).host_worker_spec() {
                Some(w) => {
                    let worker = old(self).setup.workers@[w];
                    &&& r matches SettingsKey::Handled(Some(Cmd::WorkerOp(op)))
                    &&& *final(self) == (App { status: final(self).status, ..*old(self) })
                    &&& if code == KeyCode::Char('s') || code == KeyCode::Enter {
                        (op matches crate::app::WorkerOp::Select { id } && id@ == worker.id@) && final(self).status@
                            == "Selecting "@ + worker_name(worker)
                    } else if code == KeyCode::Char('r') {
                        (op matches crate::app::WorkerOp::RefreshDetails { id } && id@ == worker.id@)
                            && final(self).status@ == "Refreshing "@ + worker.id@ + " details…"@
                    } else {
                        (op matches crate::app::WorkerOp::Remove { id } && id@ == worker.id@) && final(self).status@
                            == "Removing "@ + worker_name(worker)
                    }
                },
                None => r == SettingsKey::Handled(None) && *final(self) == *old(self),
            },
    {
        let w = match self.selected_host() {
            Some(w) => w,
            None => {
                return SettingsKey::Handled(None);
            },
        };
        let id = self.setup.workers[w].id.clone();
        if code == KeyCode::Char('r') {
            let idc = chars_of_string(&id);
            self.status = line3("Refreshing ", &idc, " details…");
            return SettingsKey::Handled(Some(Cmd::WorkerOp(crate::app::WorkerOp::RefreshDetails { id })));
        }
        let name = self.worker_name_of(w);
        if code == KeyCode::Char('s') || code == KeyCode::Enter {
            self.status = line2("Selecting ", &name);
            SettingsKey::Handled(Some(Cmd::WorkerOp(crate::app::WorkerOp::Select { id })))
        } else {
            self.status = line2("Removing ", &name);
            SettingsKey::Handled(Some(Cmd::WorkerOp(crate::app::WorkerOp::Remove { id })))
        }
    }

    /// Open the prompt that edits the label of the entry under the cursor.
    fn edit_host_label(&mut self)
        ensures
            label_edit_opened(*old(self), *final(self)),
            match old(self).host_worker_spec() {
                Some(w) => {
                    let worker = old(self).setup.workers@[w];
                    &&& final(self).prompt matches Some(p) && (p.kind matches PromptKind::HostEditLabel(id) && id@
                        == worker.id@) && p.title@ == "Edit label — "@ + worker.address@ && p.draft.text@ == (
                    match worker.label {
                        Some(l) => l@,
                        None => Seq::<char>::empty(),
                    }) && p.draft.cursor == p.draft.text@.len()
                    &&& final(self).status@ == "Edit label · Enter save · Esc cancel"@
                    &&& *final(self) == (App { prompt: final(self).prompt, status: final(self).status, ..*old(self) })
                },
                None => *final(self) == *old(self),
            },
    {
        let w = match self.selected_host() {
            Some(w) => w,
            None => {
                return;
            },
        };
        let text = match &self.setup.workers[w].label {
            Some(l) => chars_of_string(l),
            None => Vec::new(),
        };
        let addr = chars_of_string(&self.setup.workers[w].address);
        let title = line2("Edit label — ", &addr);
        self.prompt = Some(
            Prompt {
                kind: PromptKind::HostEditLabel(self.setup.workers[w].id.clone()),
                title,
                draft: Draft::with_text(text),
            },
        );
        self.status = owned("Edit label · Enter save · Esc cancel");
    }

    /// Browse and mutate the host roster: arrows move, `→` focuses the role
    /// toggles, `a` adds a host, `s`/Enter selects, `d`/`x` removes, `e` edits
    /// the label, and `r` refreshes the entry's details.
    pub fn hosts_key(&mut self, code: KeyCode) -> (r: SettingsKey)
        ensures
            hosts_keyed(*old(self), code, *final(self), r),
            old(self).hosts.roles_focus && !roles_taken(*old(self), code) ==> host_list_keyed(roles_left(*old(self)), code, *final(self), r),
            old(self).hosts.roles_focus && roles_taken(*old(self), code) ==> roles_key_outcome(*old(self), code, *final(self), Some(r)),
            !old(self).hosts.roles_focus ==> host_list_keyed(*old(self), code, *final(self), r),
            final(self).tabs == old(self).tabs,
            final(self).menus.routing_pages == old(self).menus.routing_pages,
    {
        if self.hosts.roles_focus {
            match self.host_roles_key(code) {
                Some(handled) => {
                    return handled;
                },
                None => {},
            }
        }
        self.host_list_key(code)
    }

    /// A key on the host list itself.
    #[verifier::rlimit(80)]
    #[verifier::spinoff_prover]
    fn host_list_key(&mut self, code: KeyCode) -> (r: SettingsKey)
        ensures
            host_list_keyed(*old(self), code, *final(self), r),
            final(self).tabs == old(self).tabs,
            final(self).menus.routing_pages == old(self).menus.routing_pages,
    {
        match code {
            KeyCode::Up | KeyCode::Char('k') => {
                self.hosts.index = step_index(self.hosts.index, self.setup.workers.len(), true);
                SettingsKey::Handled(None)
            },
            KeyCode::Down | KeyCode::Char('j') => {
                self.hosts.index = step_index(self.hosts.index, self.setup.workers.len(), false);
                SettingsKey::Handled(None)
            },
            KeyCode::Right | KeyCode::Char('l') => {
                if self.selected_host().is_none() {
                    return SettingsKey::Handled(None);
                }
                if self.hosts.templates.len() == 0 {
                    self.status = owned("No agent templates are declared — nothing to assign");
                    return SettingsKey::Handled(None);
                }
                self.hosts.roles_focus = true;
                self.hosts.role_index = 0;
                self.status = owned("Roles · Space toggles · ← back to the host list");
                SettingsKey::Handled(None)
            },
            KeyCode::Char('a') => {
                match self.routing_pos(RoutingPage::AddHost) {
                    Some(i) => {
                        self.menus.routing_index = i;
                    },
                    None => {},
                }
                self.open_add_host_prompt();
                SettingsKey::Handled(None)
            },
            KeyCode::Char('s') | KeyCode::Enter | KeyCode::Char('d') | KeyCode::Char('x') | KeyCode::Char('r') => {
                self.host_op(code)
            },
            KeyCode::Char('e') => {
                self.edit_host_label();
                SettingsKey::Handled(None)
            },
            _ => SettingsKey::Unhandled,
        }
    }

    /// The position of `page` in the Hosts tab's menu.
    pub fn routing_pos(&self, page: RoutingPage) -> (r: Option<usize>)
        ensures
            match r {
                Some(i) => i < self.menus.routing_pages@.len() && self.menus.routing_pages@[i as int] == page,
                None => forall|j: int| 0 <= j < self.menus.routing_pages@.len() ==> self.menus.routing_pages@[j] != page,
            },
    {
        let mut i: usize = 0;
        while i < self.menus.routing_pages.len()
            invariant
                i <= self.menus.routing_pages@.len(),
                forall|j: int| 0 <= j < i ==> self.menus.routing_pages@[j] != page,
            decreases self.menus.routing_pages.len() - i,
        {
            if self.menus.routing_pages[i] == page {
                return Some(i);
            }
            i = i + 1;
        }
        None
    }
}

/// The menu name of a Hosts-tab page.
pub open spec fn routing_name(page: RoutingPage) -> Seq<char> {
    match page {
        RoutingPage::Hosts => "Hosts"@,
        RoutingPage::Workspaces => "Workspaces"@,
        RoutingPage::Templates => "Agent Templates"@,
        RoutingPage::AddHost => "Add Host"@,
        RoutingPage::Harnesses => "Harnesses"@,
        RoutingPage::Strategies => "Strategies"@,
    }
}

/// The menu name of a Hosts-tab page.
pub fn routing_name_of(page: RoutingPage) -> (r: &'static str)
    ensures
        r@ == routing_name(page),
{
    match page {
        RoutingPage::Hosts => "Hosts",
        RoutingPage::Workspaces => "Workspaces",
        RoutingPage::Templates => "Agent Templates",
        RoutingPage::AddHost => "Add Host",
        RoutingPage::Harnesses => "Harnesses",
        RoutingPage::Strategies => "Strategies",
    }
}

impl App {
    /// The Workspaces page's keys: `a` asks for a directory to add.
    pub fn workspaces_key(&mut self, code: KeyCode) -> (r: SettingsKey)
        ensures
            workspaces_keyed(*old(self), code, *final(self), r),
            code == KeyCode::Char('a') ==> r == SettingsKey::Handled(None) && (final(self).prompt matches Some(p)
                && p.kind == PromptKind::WorkspaceAdd && p.draft.text@.len() == 0 && p.title@
                == "Add workspace — absolute path to a directory"@) && final(self).status@
                == "Add workspace · Enter save · Esc cancel"@ && *final(self) == (App {
                prompt: final(self).prompt,
                status: final(self).status,
                ..*old(self)
            }),
            code != KeyCode::Char('a') ==> r is Unhandled && *final(self) == *old(self),
    {
        if code == KeyCode::Char('a') {
            self.prompt = Some(
                Prompt {
                    kind: PromptKind::WorkspaceAdd,
                    title: owned("Add workspace — absolute path to a directory"),
                    draft: Draft::new(),
                },
            );
            self.status = owned("Add workspace · Enter save · Esc cancel");
            return SettingsKey::Handled(None);
        }
        SettingsKey::Unhandled
    }

    /// The Add Host page's keys: Enter or `a` asks for the host's address,
    /// `c` copies the line to run on the machine being added, and the arrows
    /// are taken so they cannot leave a page that has no list.
    pub fn add_host_key(&mut self, code: KeyCode) -> (r: SettingsKey)
        ensures
            add_host_keyed(*old(self), code, *final(self), r),
            (code == KeyCode::Enter || code == KeyCode::Char('a')) ==> r == SettingsKey::Handled(None)
                && (final(self).prompt matches Some(p) && p.kind == PromptKind::HostAdd && p.draft.text@.len() == 0)
                && *final(self) == (App { prompt: final(self).prompt, status: final(self).status, ..*old(self) }),
            code == KeyCode::Char('c') ==> (r matches SettingsKey::Handled(Some(Cmd::CopyLine { what, text })) && what@
                == "the worker install line"@ && text == old(self).setup.remote_join_command) && *final(self)
                == *old(self),
            (code == KeyCode::Up || code == KeyCode::Char('k') || code == KeyCode::Down || code == KeyCode::Char(
                'j',
            )) ==> r == SettingsKey::Handled(None) && *final(self) == *old(self),
            !(code == KeyCode::Enter || code == KeyCode::Char('a') || code == KeyCode::Char('c') || code
                == KeyCode::Up || code == KeyCode::Char('k') || code == KeyCode::Down || code == KeyCode::Char('j'))
                ==> r is Unhandled && *final(self) == *old(self),
    {
        match code {
            KeyCode::Enter | KeyCode::Char('a') => {
                self.open_add_host_prompt();
                SettingsKey::Handled(None)
            },
            KeyCode::Char('c') => SettingsKey::Handled(
                Some(
                    Cmd::CopyLine {
                        what: owned("the worker install line"),
                        text: self.setup.remote_join_command.clone(),
                    },
                ),
            ),
            KeyCode::Up | KeyCode::Char('k') | KeyCode::Down | KeyCode::Char('j') => SettingsKey::Handled(None),
            _ => SettingsKey::Unhandled,
        }
    }

    /// The Strategies page's keys: the arrows move the highlight in the
    /// focused column without leaving its list, `←`/`h` focuses the
    /// default-host strategies and `→`/`l`/Tab the subscription ones, and
    /// Enter applies, and remembers, the highlighted strategy.
    pub fn strategies_key(&mut self, code: KeyCode) -> (r: SettingsKey)
        ensures
            strategies_keyed(*old(self), code, *final(self), r),
            ({
                let h = old(self).hosts;
                let routes = old(self).setup.routing_strategies@;
                let subs = old(self).setup.subscription_strategies@;
                match code {
                    KeyCode::Up | KeyCode::Char('k') | KeyCode::Down | KeyCode::Char('j') => {
                        let up = code == KeyCode::Up || code == KeyCode::Char('k');
                        r == SettingsKey::Handled(None) && *final(self) == (App {
                            hosts: if h.subscription_focused {
                                HostsState {
                                    subscription_strategy_index: stepped_index(
                                        h.subscription_strategy_index,
                                        subs.len() as usize,
                                        up,
                                    ),
                                    ..h
                                }
                            } else {
                                HostsState {
                                    routing_strategy_index: stepped_index(
                                        h.routing_strategy_index,
                                        routes.len() as usize,
                                        up,
                                    ),
                                    ..h
                                }
                            },
                            ..*old(self)
                        })
                    },
                    KeyCode::Left | KeyCode::Char('h') => r == SettingsKey::Handled(None) && *final(self) == (App {
                        hosts: HostsState { subscription_focused: false, ..h },
                        ..*old(self)
                    }),
                    KeyCode::Right | KeyCode::Char('l') | KeyCode::Tab => r == SettingsKey::Handled(None)
                        && *final(self) == (App { hosts: HostsState { subscription_focused: true, ..h }, ..*old(self) }),
                    KeyCode::Enter => *final(self) == *old(self) && if h.subscription_focused {
                        if h.subscription_strategy_index < subs.len() {
                            r matches SettingsKey::Handled(
                                Some(Cmd::WorkerOp(WorkerOp::ApplySubscriptionStrategy { strategy })),
                            ) && strategy == subs[h.subscription_strategy_index as int]
                        } else {
                            r == SettingsKey::Handled(None)
                        }
                    } else {
                        if h.routing_strategy_index < routes.len() {
                            r matches SettingsKey::Handled(Some(Cmd::WorkerOp(WorkerOp::ApplyStrategy { strategy })))
                                && strategy == routes[h.routing_strategy_index as int]
                        } else {
                            r == SettingsKey::Handled(None)
                        }
                    },
                    _ => r is Unhandled && *final(self) == *old(self),
                }
            }),
    {
        match code {
            KeyCode::Up | KeyCode::Char('k') | KeyCode::Down | KeyCode::Char('j') => {
                let up = code == KeyCode::Up || code == KeyCode::Char('k');
                if self.hosts.subscription_focused {
                    self.hosts.subscription_strategy_index = step_index(
                        self.hosts.subscription_strategy_index,
                        self.setup.subscription_strategies.len(),
                        up,
                    );
                } else {
                    self.hosts.routing_strategy_index = step_index(
                        self.hosts.routing_strategy_index,
                        self.setup.routing_strategies.len(),
                        up,
                    );
                }
                SettingsKey::Handled(None)
            },
            KeyCode::Left | KeyCode::Char('h') => {
                self.hosts.subscription_focused = false;
                SettingsKey::Handled(None)
            },
            KeyCode::Right | KeyCode::Char('l') | KeyCode::Tab => {
                self.hosts.subscription_focused = true;
                SettingsKey::Handled(None)
            },
            KeyCode::Enter => {
                if self.hosts.subscription_focused {
                    let i = self.hosts.subscription_strategy_index;
                    if i < self.setup.subscription_strategies.len() {
                        let strategy = self.setup.subscription_strategies[i].clone();
                        return SettingsKey::Handled(
                            Some(Cmd::WorkerOp(WorkerOp::ApplySubscriptionStrategy { strategy })),
                        );
                    }
                } else {
                    let i = self.hosts.routing_strategy_index;
                    if i < self.setup.routing_strategies.len() {
                        let strategy = self.setup.routing_strategies[i].clone();
                        return SettingsKey::Handled(Some(Cmd::WorkerOp(WorkerOp::ApplyStrategy { strategy })));
                    }
                }
                SettingsKey::Handled(None)
            },
            _ => SettingsKey::Unhandled,
        }
    }

    /// Handle a key on the Hosts tab: the page menu first, then the page.
    pub fn on_routing_key(&mut self, code: KeyCode) -> (r: SettingsKey)
        ensures
            final(self).tabs == old(self).tabs,
            final(self).menus.routing_pages == old(self).menus.routing_pages,
            !old(self).menus.routing_focused && (code == KeyCode::Up || code == KeyCode::Down) ==> r
                == SettingsKey::Handled(None) && final(self).menus.routing_index == stepped_index(
                old(self).menus.routing_index,
                old(self).menus.routing_pages@.len() as usize,
                code == KeyCode::Up,
            ),
            !old(self).menus.routing_focused && (code == KeyCode::Enter || code == KeyCode::Right) ==> {
                &&& final(self).menus.routing_focused
                &&& r == SettingsKey::Handled(
                    if old(self).routing_page_spec() == Some(RoutingPage::Harnesses) || old(self).routing_page_spec()
                        == Some(RoutingPage::Templates) || old(self).routing_page_spec() == Some(
                        RoutingPage::Workspaces,
                    ) {
                        Some(Cmd::RefreshFleet)
                    } else {
                        None
                    },
                )
                &&& old(self).routing_page_spec() matches Some(page) ==> final(self).status@ == routing_name(page)
                    + " · Esc to go back to the menu"@
            },
            old(self).menus.routing_focused && (code == KeyCode::Esc || code == KeyCode::Left) ==> r
                == SettingsKey::Handled(None) && !final(self).menus.routing_focused && final(self).status@
                == "Routing · menu"@,
            routing_page_keyed(*old(self), code, *final(self), r),
            routing_nav_keyed(*old(self), code, *final(self), r),
    {
        let n = self.menus.routing_pages.len();
        let mut index = self.menus.routing_index;
        let mut focused = self.menus.routing_focused;
        let action = crate::settings::navigate(code, n, &mut index, &mut focused, true);
        self.menus.routing_index = index;
        self.menus.routing_focused = focused;
        match action {
            crate::settings::NavAction::SelectionChanged | crate::settings::NavAction::Consumed => {
                return SettingsKey::Handled(None);
            },
            crate::settings::NavAction::Entered => {
                let page = self.routing_page();
                match page {
                    Some(p) => {
                        let mut t = crate::text::chars_of(routing_name_of(p));
                        push_str(&mut t, " · Esc to go back to the menu");
                        self.status = string_of(t.as_slice());
                    },
                    None => {},
                }
                let refresh = page == Some(RoutingPage::Harnesses) || page == Some(RoutingPage::Templates) || page
                    == Some(RoutingPage::Workspaces);
                return SettingsKey::Handled(
                    if refresh {
                        Some(Cmd::RefreshFleet)
                    } else {
                        None
                    },
                );
            },
            crate::settings::NavAction::Left => {
                self.status = owned("Routing · menu");
                return SettingsKey::Handled(None);
            },
            crate::settings::NavAction::Unhandled => {},
        }
        match self.routing_page() {
            Some(RoutingPage::Hosts) => self.hosts_key(code),
            Some(RoutingPage::Workspaces) => self.workspaces_key(code),
            Some(RoutingPage::AddHost) => self.add_host_key(code),
            Some(RoutingPage::Strategies) => self.strategies_key(code),
            Some(RoutingPage::Templates) => self.templates_key(code),
            Some(RoutingPage::Harnesses) => self.harnesses_key(code),
            _ => SettingsKey::Unhandled,
        }
    }
}

/// What a roster command on the entry under the cursor does.
pub open spec fn host_op_outcome(before: App, code: KeyCode, after: App, r: SettingsKey) -> bool {
    &&& (after.tabs == before.tabs)
    &&& (match before.host_worker_spec() {
                Some(w) => {
                    let worker = before.setup.workers@[w];
                    &&& r matches SettingsKey::Handled(Some(Cmd::WorkerOp(op)))
                    &&& after == (App { status: after.status, ..before })
                    &&& if code == KeyCode::Char('s') || code == KeyCode::Enter {
                        (op matches crate::app::WorkerOp::Select { id } && id@ == worker.id@) && after.status@
                            == "Selecting "@ + worker_name(worker)
                    } else if code == KeyCode::Char('r') {
                        (op matches crate::app::WorkerOp::RefreshDetails { id } && id@ == worker.id@)
                            && after.status@ == "Refreshing "@ + worker.id@ + " details…"@
                    } else {
                        (op matches crate::app::WorkerOp::Remove { id } && id@ == worker.id@) && after.status@
                            == "Removing "@ + worker_name(worker)
                    }
                },
                None => r == SettingsKey::Handled(None) && after == before,
            })
}

/// What opening the label editor of the entry under the cursor does.
pub open spec fn label_edit_opened(before: App, after: App) -> bool {
    &&& (match before.host_worker_spec() {
                Some(w) => {
                    let worker = before.setup.workers@[w];
                    &&& after.prompt matches Some(p) && (p.kind matches PromptKind::HostEditLabel(id) && id@
                        == worker.id@) && p.title@ == "Edit label — "@ + worker.address@ && p.draft.text@ == (
                    match worker.label {
                        Some(l) => l@,
                        None => Seq::<char>::empty(),
                    }) && p.draft.cursor == p.draft.text@.len()
                    &&& after.status@ == "Edit label · Enter save · Esc cancel"@
                    &&& after == (App { prompt: after.prompt, status: after.status, ..before })
                },
                None => after == before,
            })
}

/// What a key does to the role toggles.
pub open spec fn roles_key_outcome(before: App, code: KeyCode, after: App, r: Option<SettingsKey>) -> bool {
    &&& (after.tabs == before.tabs)
    &&& (after.menus == before.menus)
    &&& (before.hosts.templates@.len() == 0 ==> r is None && after == (App {
                hosts: HostsState { roles_focus: false, ..before.hosts },
                ..before
            }))
    &&& (before.hosts.templates@.len() > 0 ==> match code {
                KeyCode::Left | KeyCode::Char('h') => r == Some(SettingsKey::Handled(None)) && !after.hosts.roles_focus
                    && after.status@ == "Hosts · → to assign roles"@,
                KeyCode::Up | KeyCode::Char('k') => r == Some(SettingsKey::Handled(None)) && after.hosts.role_index
                    == stepped_index(before.hosts.role_index, before.hosts.templates@.len() as usize, true),
                KeyCode::Down | KeyCode::Char('j') => r == Some(SettingsKey::Handled(None))
                    && after.hosts.role_index == stepped_index(
                    before.hosts.role_index,
                    before.hosts.templates@.len() as usize,
                    false,
                ),
                KeyCode::Char(' ') | KeyCode::Enter => match before.host_worker_spec() {
                    Some(w) => if before.hosts.role_index < before.hosts.templates@.len() {
                        let worker = before.setup.workers@[w];
                        let role = before.hosts.templates@[before.hosts.role_index as int];
                        let added = !holds(texts(worker.roles@), role@);
                        &&& r matches Some(SettingsKey::Handled(Some(Cmd::WorkerOp(crate::app::WorkerOp::SetRoles { id, roles }))))
                        &&& id@ == worker.id@
                        &&& texts(roles@) == toggled(texts(worker.roles@), role@)
                        &&& after.status@ == worker.id@ + (if added {
                            " now offered for "@
                        } else {
                            " no longer offered for "@
                        }) + role@
                    } else {
                        r is None
                    },
                    None => r is None,
                },
                _ => r is None && after == before,
            })
}

/// Whether the role toggles take a key: with templates declared, the side
/// and vertical arrows, and Space or Enter on a role of a selected entry.
pub open spec fn roles_taken(before: App, code: KeyCode) -> bool {
    before.hosts.templates@.len() > 0 && match code {
        KeyCode::Left | KeyCode::Char('h') | KeyCode::Up | KeyCode::Char('k') | KeyCode::Down | KeyCode::Char(
            'j',
        ) => true,
        KeyCode::Char(' ') | KeyCode::Enter => before.host_worker_spec() is Some && before.hosts.role_index
            < before.hosts.templates@.len(),
        _ => false,
    }
}

/// The state a key the role toggles do not take leaves behind: the toggles
/// lose the keyboard when there are no templates to toggle.
pub open spec fn roles_left(before: App) -> App {
    if before.hosts.templates@.len() == 0 {
        App { hosts: HostsState { roles_focus: false, ..before.hosts }, ..before }
    } else {
        before
    }
}

/// What a key does to the host list: the arrows move the cursor, `→` hands
/// the keyboard to the role toggles, `a` opens the Add Host prompt, `e` the
/// label editor, `s`/Enter selects, `d`/`x` removes and `r` refreshes the
/// entry under the cursor; other keys are not the list's.
pub open spec fn host_list_keyed(before: App, code: KeyCode, after: App, r: SettingsKey) -> bool {
    match code {
        KeyCode::Up | KeyCode::Char('k') => r == SettingsKey::Handled(None) && after == (App {
            hosts: HostsState {
                index: stepped_index(before.hosts.index, before.setup.workers@.len() as usize, true),
                ..before.hosts
            },
            ..before
        }),
        KeyCode::Down | KeyCode::Char('j') => r == SettingsKey::Handled(None) && after == (App {
            hosts: HostsState {
                index: stepped_index(before.hosts.index, before.setup.workers@.len() as usize, false),
                ..before.hosts
            },
            ..before
        }),
        KeyCode::Right | KeyCode::Char('l') => r == SettingsKey::Handled(None) && if before.host_worker_spec() is None {
            after == before
        } else if before.hosts.templates@.len() == 0 {
            after.status@ == "No agent templates are declared — nothing to assign"@ && after == (App {
                status: after.status,
                ..before
            })
        } else {
            after == (App {
                hosts: HostsState { roles_focus: true, role_index: 0, ..before.hosts },
                status: after.status,
                ..before
            }) && after.status@ == "Roles · Space toggles · ← back to the host list"@
        },
        KeyCode::Char('a') => r == SettingsKey::Handled(None) && (after.prompt matches Some(p) && p.kind
            == PromptKind::HostAdd && p.draft.text@.len() == 0) && after.status@ == "Add host · Enter save · Esc cancel"@,
        KeyCode::Char('e') => r == SettingsKey::Handled(None) && label_edit_opened(before, after),
        KeyCode::Char('s') | KeyCode::Enter | KeyCode::Char('d') | KeyCode::Char('x') | KeyCode::Char('r') => host_op_outcome(
            before,
            code,
            after,
            r,
        ),
        _ => r is Unhandled && after == before,
    }
}

/// What a key does on the Hosts page: the role editor takes its keys while focused, and the roster the rest.
pub open spec fn hosts_keyed(before: App, code: KeyCode, after: App, r: SettingsKey) -> bool {
    &&& (before.hosts.roles_focus && !roles_taken(before, code) ==> host_list_keyed(roles_left(before), code, after, r))
    &&& (before.hosts.roles_focus && roles_taken(before, code) ==> roles_key_outcome(before, code, after, Some(r)))
    &&& (!before.hosts.roles_focus ==> host_list_keyed(before, code, after, r))
    &&& (after.tabs == before.tabs)
    &&& (after.menus.routing_pages == before.menus.routing_pages)
}

/// What a key does on the Workspaces page.
pub open spec fn workspaces_keyed(before: App, code: KeyCode, after: App, r: SettingsKey) -> bool {
    &&& (code == KeyCode::Char('a') ==> r == SettingsKey::Handled(None) && (after.prompt matches Some(p)
                && p.kind == PromptKind::WorkspaceAdd && p.draft.text@.len() == 0 && p.title@
                == "Add workspace — absolute path to a directory"@) && after.status@
                == "Add workspace · Enter save · Esc cancel"@ && after == (App {
                prompt: after.prompt,
                status: after.status,
                ..before
            }))
    &&& (code != KeyCode::Char('a') ==> r is Unhandled && after == before)
}

/// What a key does on the Add host page.
pub open spec fn add_host_keyed(before: App, code: KeyCode, after: App, r: SettingsKey) -> bool {
    &&& ((code == KeyCode::Enter || code == KeyCode::Char('a')) ==> r == SettingsKey::Handled(None)
                && (after.prompt matches Some(p) && p.kind == PromptKind::HostAdd && p.draft.text@.len() == 0)
                && after == (App { prompt: after.prompt, status: after.status, ..before }))
    &&& (code == KeyCode::Char('c') ==> (r matches SettingsKey::Handled(Some(Cmd::CopyLine { what, text })) && what@
                == "the worker install line"@ && text == before.setup.remote_join_command) && after
                == before)
    &&& ((code == KeyCode::Up || code == KeyCode::Char('k') || code == KeyCode::Down || code == KeyCode::Char(
                'j',
            )) ==> r == SettingsKey::Handled(None) && after == before)
    &&& (!(code == KeyCode::Enter || code == KeyCode::Char('a') || code == KeyCode::Char('c') || code
                == KeyCode::Up || code == KeyCode::Char('k') || code == KeyCode::Down || code == KeyCode::Char('j'))
                ==> r is Unhandled && after == before)
}

/// What a key does on the Strategies page.
pub open spec fn strategies_keyed(before: App, code: KeyCode, after: App, r: SettingsKey) -> bool {
    &&& (({
                let h = before.hosts;
                let routes = before.setup.routing_strategies@;
                let subs = before.setup.subscription_strategies@;
                match code {
                    KeyCode::Up | KeyCode::Char('k') | KeyCode::Down | KeyCode::Char('j') => {
                        let up = code == KeyCode::Up || code == KeyCode::Char('k');
                        r == SettingsKey::Handled(None) && after == (App {
                            hosts: if h.subscription_focused {
                                HostsState {
                                    subscription_strategy_index: stepped_index(
                                        h.subscription_strategy_index,
                                        subs.len() as usize,
                                        up,
                                    ),
                                    ..h
                                }
                            } else {
                                HostsState {
                                    routing_strategy_index: stepped_index(
                                        h.routing_strategy_index,
                                        routes.len() as usize,
                                        up,
                                    ),
                                    ..h
                                }
                            },
                            ..before
                        })
                    },
                    KeyCode::Left | KeyCode::Char('h') => r == SettingsKey::Handled(None) && after == (App {
                        hosts: HostsState { subscription_focused: false, ..h },
                        ..before
                    }),
                    KeyCode::Right | KeyCode::Char('l') | KeyCode::Tab => r == SettingsKey::Handled(None)
                        && after == (App { hosts: HostsState { subscription_focused: true, ..h }, ..before }),
                    KeyCode::Enter => after == before && if h.subscription_focused {
                        if h.subscription_strategy_index < subs.len() {
                            r matches SettingsKey::Handled(
                                Some(Cmd::WorkerOp(WorkerOp::ApplySubscriptionStrategy { strategy })),
                            ) && strategy == subs[h.subscription_strategy_index as int]
                        } else {
                            r == SettingsKey::Handled(None)
                        }
                    } else {
                        if h.routing_strategy_index < routes.len() {
                            r matches SettingsKey::Handled(Some(Cmd::WorkerOp(WorkerOp::ApplyStrategy { strategy })))
                                && strategy == routes[h.routing_strategy_index as int]
                        } else {
                            r == SettingsKey::Handled(None)
                        }
                    },
                    _ => r is Unhandled && after == before,
                }
            }))
}

/// Whether the Hosts tab's menu leaves `code` to the page: when the menu
/// has the keyboard, all but Up, Down, Enter and Right; when the page has
/// it, all but Esc and Left.
pub open spec fn nav_passes(focused: bool, code: KeyCode) -> bool {
    if focused {
        !(code == KeyCode::Esc || code == KeyCode::Left)
    } else {
        !(code == KeyCode::Up || code == KeyCode::Down || code == KeyCode::Enter || code == KeyCode::Right)
    }
}

/// What a key the menu leaves to the page does: the Hosts, Workspaces,
/// Templates, Add host, Harnesses and Strategies pages take their own keys.
pub open spec fn routing_page_keyed(before: App, code: KeyCode, after: App, r: SettingsKey) -> bool {
    nav_passes(before.menus.routing_focused, code) ==> match before.routing_page_spec() {
        Some(RoutingPage::Hosts) => hosts_keyed(before, code, after, r),
        Some(RoutingPage::Workspaces) => workspaces_keyed(before, code, after, r),
        Some(RoutingPage::AddHost) => add_host_keyed(before, code, after, r),
        Some(RoutingPage::Strategies) => strategies_keyed(before, code, after, r),
        Some(RoutingPage::Templates) => templates_keyed(before, code, after, r),
        Some(RoutingPage::Harnesses) => crate::lists::harnesses_keyed(before, code, after, r),
        _ => r is Unhandled && after == before,
    }
}

/// What the Hosts tab's menu does with the keys it keeps: Up and Down walk
/// the pages; Enter and Right step into the page, asking for the fleet on
/// the Harnesses, Templates and Workspaces pages and naming the page in the
/// status line; Esc and Left step back to the menu.
pub open spec fn routing_nav_keyed(before: App, code: KeyCode, after: App, r: SettingsKey) -> bool {
    let m = before.menus;
    let n = m.routing_pages@.len();
    if !m.routing_focused && (code == KeyCode::Up || code == KeyCode::Down) {
        r == SettingsKey::Handled(None) && after == (App {
            menus: Menus { routing_index: stepped_index(m.routing_index, n as usize, code == KeyCode::Up), ..m },
            ..before
        })
    } else if !m.routing_focused && (code == KeyCode::Enter || code == KeyCode::Right) {
        let page = before.routing_page_spec();
        &&& r == SettingsKey::Handled(
            if page == Some(RoutingPage::Harnesses) || page == Some(RoutingPage::Templates) || page == Some(
                RoutingPage::Workspaces,
            ) {
                Some(Cmd::RefreshFleet)
            } else {
                None
            },
        )
        &&& match page {
            Some(p) => after.status@ == routing_name(p) + " · Esc to go back to the menu"@,
            None => after.status == before.status,
        }
        &&& after == (App { menus: Menus { routing_focused: true, ..m }, status: after.status, ..before })
    } else if m.routing_focused && (code == KeyCode::Esc || code == KeyCode::Left) {
        &&& r == SettingsKey::Handled(None)
        &&& after.status@ == "Routing · menu"@
        &&& after == (App { menus: Menus { routing_focused: false, ..m }, status: after.status, ..before })
    } else {
        true
    }
}

/// What a key does on the Templates page. While the popup is open, Esc and
/// Enter close it and the page keys scroll it by five rows; otherwise Enter
/// opens it on a non-empty catalog, Up (`k`) and Down (`j`) walk the catalog,
/// `i` asks for the built-in catalog to be installed and `r` for the fleet
/// to be read again. Any other key is not the page's.
pub open spec fn templates_keyed(before: App, code: KeyCode, after: App, r: SettingsKey) -> bool {
    let h = before.hosts;
    let modal = before.template_modal;
    if modal && (code == KeyCode::Esc || code == KeyCode::Enter) {
        r == SettingsKey::Handled(None) && after == (App {
            template_modal: false,
            hosts: HostsState { template_scroll: 0, ..h },
            ..before
        })
    } else if modal && code == KeyCode::PageDown {
        r == SettingsKey::Handled(None) && after == (App {
            hosts: HostsState {
                template_scroll: if h.template_scroll <= usize::MAX - 5 { (h.template_scroll + 5) as usize } else { usize::MAX },
                ..h
            },
            ..before
        })
    } else if modal && code == KeyCode::PageUp {
        r == SettingsKey::Handled(None) && after == (App {
            hosts: HostsState {
                template_scroll: if h.template_scroll >= 5 { (h.template_scroll - 5) as usize } else { 0 },
                ..h
            },
            ..before
        })
    } else if code == KeyCode::Enter && h.template_rows > 0 {
        r == SettingsKey::Handled(None) && after == (App {
            template_modal: true,
            hosts: HostsState { template_scroll: 0, ..h },
            ..before
        })
    } else if code == KeyCode::Up || code == KeyCode::Char('k') || code == KeyCode::Down || code == KeyCode::Char('j') {
        r == SettingsKey::Handled(None) && after == (App {
            hosts: HostsState {
                template_index: stepped_index(
                    h.template_index,
                    h.template_rows,
                    code == KeyCode::Up || code == KeyCode::Char('k'),
                ),
                template_scroll: 0,
                ..h
            },
            ..before
        })
    } else if code == KeyCode::Char('i') {
        r == SettingsKey::Handled(Some(Cmd::InstallTemplates)) && after == before
    } else if code == KeyCode::Char('r') {
        r == SettingsKey::Handled(Some(Cmd::RefreshFleet)) && after.status@ == "Refreshing fleet…"@ && after == (App {
            status: after.status,
            ..before
        })
    } else {
        r is Unhandled && after == before
    }
}

impl App {
    /// Handle a key on the Templates page.
    pub fn templates_key(&mut self, code: KeyCode) -> (r: SettingsKey)
        ensures
            templates_keyed(*old(self), code, *final(self), r),
            final(self).tabs == old(self).tabs,
            final(self).menus == old(self).menus,
    {
        if self.template_modal {
            if code == KeyCode::Esc || code == KeyCode::Enter {
                self.template_modal = false;
                self.hosts.template_scroll = 0;
                return SettingsKey::Handled(None);
            }
            if code == KeyCode::PageDown {
                self.hosts.template_scroll = self.hosts.template_scroll.saturating_add(5);
                return SettingsKey::Handled(None);
            }
            if code == KeyCode::PageUp {
                self.hosts.template_scroll = self.hosts.template_scroll.saturating_sub(5);
                return SettingsKey::Handled(None);
            }
        }
        if code == KeyCode::Enter && self.hosts.template_rows > 0 {
            self.template_modal = true;
            self.hosts.template_scroll = 0;
            SettingsKey::Handled(None)
        } else if code == KeyCode::Up || code == KeyCode::Char('k') || code == KeyCode::Down || code == KeyCode::Char(
            'j',
        ) {
            self.hosts.template_index = step_index(
                self.hosts.template_index,
                self.hosts.template_rows,
                code == KeyCode::Up || code == KeyCode::Char('k'),
            );
            self.hosts.template_scroll = 0;
            SettingsKey::Handled(None)
        } else if code == KeyCode::Char('i') {
            SettingsKey::Handled(Some(Cmd::InstallTemplates))
        } else if code == KeyCode::Char('r') {
            self.status = owned("Refreshing fleet…");
            SettingsKey::Handled(Some(Cmd::RefreshFleet))
        } else {
            SettingsKey::Unhandled
        }
    }
}

} // verus!
