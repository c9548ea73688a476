//! Declared agents: offering to declare one for a directory a session was
//! started in, the "+ New agent" picker, and opening a named session under
//! an agent this device hosts.
use vstd::prelude::*;

use crate::app::{owned, App, Prompt, PromptKind};
use crate::composer::Draft;
use crate::harness::{HarnessChoice, HarnessPicker, PickerPurpose, PickerStep};
use crate::rail::RailRow;
use crate::text::{lower, lower_of, push_all, push_str, string_of, trim, trim_of};

verus! {

/// An agent declared in the fleet: a harness in a workspace on a host.
pub struct AgentDeclaration {
    pub agent_id: String,
    /// The host the agent lives on; blank means this device.
    pub host_id: String,
    pub harness: String,
    pub workspace: Option<String>,
    pub name: Option<String>,
}

/// `s` without its trailing `/` characters.
pub open spec fn strip_slashes(s: Seq<char>) -> Seq<char>
    decreases s.len(),
{
    if s.len() > 0 && s.last() == '/' {
        strip_slashes(s.drop_last())
    } else {
        s
    }
}

/// `s` without its trailing `/` characters.
pub fn strip_slashes_of(s: &Vec<char>) -> (r: Vec<char>)
    ensures
        r@ == strip_slashes(s@),
{
    let mut n = s.len();
    assert(s@.take(n as int) =~= s@);
    while n > 0 && s[n - 1] == '/'
        invariant
            n <= s@.len(),
            strip_slashes(s@) == strip_slashes(s@.take(n as int)),
        decreases n,
    {
        assert(s@.take(n as int).drop_last() =~= s@.take(n - 1));
        n = n - 1;
    }
    let mut out: Vec<char> = Vec::new();
    let mut i: usize = 0;
    while i < n
        invariant
            i <= n <= s@.len(),
            out@ == s@.take(i as int),
        decreases n - i,
    {
        out.push(s[i]);
        i = i + 1;
        assert(out@ =~= s@.take(i as int));
    }
    out
}

/// Whether a declaration lives on this device.
pub open spec fn is_local(d: AgentDeclaration, local: Seq<char>) -> bool {
    trim(d.host_id@).len() == 0 || trim(d.host_id@) == trim(local)
}

/// Whether a declaration already covers `harness` in `workspace`: the
/// harness names match ignoring case, the workspaces ignoring trailing `/`.
pub open spec fn covers(d: AgentDeclaration, harness: Seq<char>, workspace: Seq<char>) -> bool {
    &&& lower(trim(d.harness@)) == lower(trim(harness))
    &&& d.workspace matches Some(w) && strip_slashes(trim(w@)) == strip_slashes(trim(workspace))
}

/// The host a declaration of `id` names, trimmed, when the first
/// declaration of `id` names one.
pub open spec fn elsewhere_host(decls: Seq<AgentDeclaration>, id: Seq<char>) -> Option<Seq<char>> {
    if exists|i: int| 0 <= i < decls.len() && decls[i].agent_id@ == id {
        let k = choose|i: int|
            0 <= i < decls.len() && decls[i].agent_id@ == id && forall|j: int|
                0 <= j < i ==> decls[j].agent_id@ != id;
        if trim(decls[k].host_id@).len() > 0 {
            Some(trim(decls[k].host_id@))
        } else {
            None
        }
    } else {
        None
    }
}

/// Why no session opens for `id` here.
pub open spec fn refusal(decls: Seq<AgentDeclaration>, id: Seq<char>) -> Seq<char> {
    match elsewhere_host(decls, id) {
        Some(h) => id + " is declared on "@ + h + " — open its sessions on that machine"@,
        None => "No agent \""@ + id + "\" is declared on this device"@,
    }
}

/// Whether two character sequences are equal.
fn same_chars(a: &Vec<char>, b: &Vec<char>) -> (r: bool)
    ensures
        r == (a@ == b@),
{
    crate::text::same(a, b)
}

/// What opening the new-agent picker does: refused when this device is not
/// hosting or knows no harness, otherwise the picker opens on the harness
/// step over every harness this device knows.
pub open spec fn agent_picker_opened(before: App, after: App) -> bool {
    &&& before.harnesses is None ==> after.status@ == "This device is not hosting, so it has no agents to declare"@
        && after.session_picker == before.session_picker
    &&& before.harnesses is Some && before.setup.harness_choices@.len() == 0 ==> after.status@
        == "No harness CLIs found on this device"@ && after.session_picker == before.session_picker
    &&& before.harnesses is Some && before.setup.harness_choices@.len() > 0 ==> (after.session_picker matches Some(p)
        && p.purpose == PickerPurpose::DeclareAgent && p.step == PickerStep::Harness && p.index == 0
        && p.choices@.len() == before.setup.harness_choices@.len() && p.cwd@ == before.setup.harness_workspace@)
        && after.status@ == "New agent · pick a harness · Enter workspace · Esc cancel"@
    &&& after.tabs == before.tabs
}

impl App {
    /// Whether declaration `d` lives on this device.
    fn local(&self, d: &AgentDeclaration) -> (r: bool)
        ensures
            r == is_local(*d, self.setup.local_host_id@),
    {
        let h = trim_of(&crate::text::chars_of_string(&d.host_id));
        if h.len() == 0 {
            return true;
        }
        let l = trim_of(&crate::text::chars_of_string(&self.setup.local_host_id));
        same_chars(&h, &l)
    }

    /// Whether a declaration on this device already covers the pair.
    pub open spec fn declared_here(&self, harness: Seq<char>, workspace: Seq<char>) -> bool {
        exists|i: int|
            0 <= i < self.setup.agent_declarations@.len() && is_local(
                #[trigger] self.setup.agent_declarations@[i],
                self.setup.local_host_id@,
            ) && covers(self.setup.agent_declarations@[i], harness, workspace)
    }

    /// Whether a declaration on this device already covers the pair.
    fn is_declared_here(&self, harness: &String, workspace: &String) -> (r: bool)
        ensures
            r == self.declared_here(harness@, workspace@),
    {
        let h = lower_of(&trim_of(&crate::text::chars_of_string(harness)));
        let w = strip_slashes_of(&trim_of(&crate::text::chars_of_string(workspace)));
        let mut i: usize = 0;
        while i < self.setup.agent_declarations.len()
            invariant
                i <= self.setup.agent_declarations@.len(),
                h@ == lower(trim(harness@)),
                w@ == strip_slashes(trim(workspace@)),
                forall|j: int|
                    0 <= j < i ==> !(is_local(
                        #[trigger] self.setup.agent_declarations@[j],
                        self.setup.local_host_id@,
                    ) && covers(self.setup.agent_declarations@[j], harness@, workspace@)),
            decreases self.setup.agent_declarations.len() - i,
        {
            let d = &self.setup.agent_declarations[i];
            if self.local(d) {
                let dh = lower_of(&trim_of(&crate::text::chars_of_string(&d.harness)));
                let matched = match &d.workspace {
                    Some(dw) => {
                        let dw2 = strip_slashes_of(&trim_of(&crate::text::chars_of_string(dw)));
                        same_chars(&dh, &h) && same_chars(&dw2, &w)
                    },
                    None => false,
                };
                if matched {
                    return true;
                }
            }
            i = i + 1;
        }
        false
    }

    /// Ask for a name for a new agent of `harness` in `workspace`.
    pub fn prompt_agent_name(&mut self, harness: &String, workspace: &String)
        ensures
            final(self).prompt matches Some(p) && p.kind == (PromptKind::AgentName {
                harness: *harness,
                workspace: *workspace,
            }) && p.draft.text@.len() == 0 && p.draft.cursor == 0,
            *final(self) == (App { prompt: final(self).prompt, ..*old(self) }),
    {
        let ws = crate::text::chars_of_string(workspace);
        let name = crate::matching::file_name_of(&ws);
        let folder = if name.len() > 0 {
            name
        } else {
            ws
        };
        let mut t: Vec<char> = Vec::new();
        push_str(&mut t, "Name this agent — ");
        push_str(&mut t, harness.as_str());
        push_str(&mut t, " × ");
        push_all(&mut t, &folder);
        push_str(&mut t, " (blank keeps the default)");
        self.prompt = Some(
            Prompt {
                kind: PromptKind::AgentName { harness: harness.clone(), workspace: workspace.clone() },
                title: string_of(t.as_slice()),
                draft: Draft::new(),
            },
        );
    }

    /// Offer to declare an agent for a session started in a directory no
    /// declaration on this device covers yet.
    pub fn offer_agent_declaration(&mut self, harness: &String, workspace: &String)
        ensures
            old(self).harnesses is None || old(self).declared_here(harness@, workspace@) ==> *final(self)
                == *old(self),
            old(self).harnesses is Some && !old(self).declared_here(harness@, workspace@) ==> (final(self).prompt matches Some(p) && p.kind == (PromptKind::AgentName {
                harness: *harness,
                workspace: *workspace,
            })) && *final(self) == (App { prompt: final(self).prompt, ..*old(self) }),
    {
        if self.harnesses.is_none() {
            return;
        }
        if self.is_declared_here(harness, workspace) {
            return;
        }
        self.prompt_agent_name(harness, workspace);
    }

    /// The first declaration on this device for `agent_id`, compared
    /// trimmed.
    fn declaration_for(&self, agent_id: &String) -> (r: Option<usize>)
        ensures
            match r {
                Some(i) => i < self.setup.agent_declarations@.len() && is_local(
                    self.setup.agent_declarations@[i as int],
                    self.setup.local_host_id@,
                ) && trim(self.setup.agent_declarations@[i as int].agent_id@) == trim(agent_id@),
                None => forall|j: int|
                    0 <= j < self.setup.agent_declarations@.len() ==> !(is_local(
                        #[trigger] self.setup.agent_declarations@[j],
                        self.setup.local_host_id@,
                    ) && trim(self.setup.agent_declarations@[j].agent_id@) == trim(agent_id@)),
            },
    {
        let want = trim_of(&crate::text::chars_of_string(agent_id));
        let mut i: usize = 0;
        while i < self.setup.agent_declarations.len()
            invariant
                i <= self.setup.agent_declarations@.len(),
                want@ == trim(agent_id@),
                forall|j: int|
                    0 <= j < i ==> !(is_local(
                        #[trigger] self.setup.agent_declarations@[j],
                        self.setup.local_host_id@,
                    ) && trim(self.setup.agent_declarations@[j].agent_id@) == trim(agent_id@)),
            decreases self.setup.agent_declarations.len() - i,
        {
            let d = &self.setup.agent_declarations[i];
            if self.local(d) {
                let id = trim_of(&crate::text::chars_of_string(&d.agent_id));
                if same_chars(&id, &want) {
                    return Some(i);
                }
            }
            i = i + 1;
        }
        None
    }

    /// Say why no session can open for `agent_id` here: it lives on another
    /// machine, or nothing declares it.
    pub fn refuse_absent_declaration(&mut self, agent_id: &String)
        ensures
            final(self).status@ == refusal(old(self).setup.agent_declarations@, agent_id@),
            *final(self) == (App { status: final(self).status, ..*old(self) }),
    {
        let mut elsewhere: Option<Vec<char>> = None;
        let mut i: usize = 0;
        let mut found = false;
        while i < self.setup.agent_declarations.len() && !found
            invariant
                i <= self.setup.agent_declarations@.len(),
                !found ==> elsewhere is None && forall|j: int| 0 <= j < i ==> self.setup.agent_declarations@[j].agent_id@ != agent_id@,
                found ==> match elsewhere {
                    Some(h) => elsewhere_host(self.setup.agent_declarations@, agent_id@) == Some(h@),
                    None => elsewhere_host(self.setup.agent_declarations@, agent_id@) is None,
                },
            decreases self.setup.agent_declarations.len() - i + (if found { 0int } else { 1int }),
        {
            if self.setup.agent_declarations[i].agent_id == *agent_id {
                proof {
                    let decls = self.setup.agent_declarations@;
                    let k = choose|k: int|
                        0 <= k < decls.len() && decls[k].agent_id@ == agent_id@ && forall|j: int|
                            0 <= j < k ==> decls[j].agent_id@ != agent_id@;
                    assert(0 <= i < decls.len() && decls[i as int].agent_id@ == agent_id@ && forall|j: int|
                        0 <= j < i ==> decls[j].agent_id@ != agent_id@);
                    if k > i {
                        assert(decls[i as int].agent_id@ != agent_id@);
                    }
                }
                let h = trim_of(&crate::text::chars_of_string(&self.setup.agent_declarations[i].host_id));
                if h.len() > 0 {
                    elsewhere = Some(h);
                }
                found = true;
            } else {
                i = i + 1;
            }
        }
        let mut msg: Vec<char> = Vec::new();
        match elsewhere {
            Some(host) => {
                push_str(&mut msg, agent_id.as_str());
                push_str(&mut msg, " is declared on ");
                push_all(&mut msg, &host);
                push_str(&mut msg, " — open its sessions on that machine");
            },
            None => {
                push_str(&mut msg, "No agent \"");
                push_str(&mut msg, agent_id.as_str());
                push_str(&mut msg, "\" is declared on this device");
            },
        }
        self.status = string_of(msg.as_slice());
    }

    /// Ask for a name for a new session under declared agent `agent_id`, or
    /// say why none can open here.
    pub fn open_new_session(&mut self, agent_id: &String)
        ensures
            final(self).tabs == old(self).tabs,
            (forall|j: int|
                0 <= j < old(self).setup.agent_declarations@.len() ==> !(is_local(
                    #[trigger] old(self).setup.agent_declarations@[j],
                    old(self).setup.local_host_id@,
                ) && trim(old(self).setup.agent_declarations@[j].agent_id@) == trim(agent_id@)))
                ==> final(self).prompt == old(self).prompt && final(self).status@ == refusal(
                old(self).setup.agent_declarations@,
                agent_id@,
            ),
    {
        let i = match self.declaration_for(agent_id) {
            Some(i) => i,
            None => {
                self.refuse_absent_declaration(agent_id);
                return;
            },
        };
        let (harness, workspace) = match &self.setup.agent_declarations[i].workspace {
            Some(w) => (self.setup.agent_declarations[i].harness.clone(), w.clone()),
            None => {
                let mut msg: Vec<char> = Vec::new();
                push_str(&mut msg, agent_id.as_str());
                push_str(&mut msg, " declares no workspace to open a session in");
                self.status = string_of(msg.as_slice());
                return;
            },
        };
        let mut t: Vec<char> = Vec::new();
        push_str(&mut t, "Name this session — ");
        push_str(&mut t, harness.as_str());
        push_str(&mut t, " in ");
        push_str(&mut t, workspace.as_str());
        push_str(&mut t, " (blank leaves it unnamed)");
        self.prompt = Some(
            Prompt {
                kind: PromptKind::SessionName { agent_id: agent_id.clone(), managed: false },
                title: string_of(t.as_slice()),
                draft: Draft::new(),
            },
        );
    }

    /// Whether the rail cursor sits on the `+ New agent` action row.
    pub fn on_new_agent_row(&self) -> (r: bool)
        ensures
            r == (self.cursor_row() == Some(RailRow::NewHarness)),
    {
        let rows = self.rail_rows();
        if rows.len() == 0 {
            return false;
        }
        let c = self.rail_cursor(&rows);
        rows[c].is_new_harness()
    }

    /// Open the picker to declare a new agent: a harness, then a directory.
    pub fn open_new_agent_picker(&mut self)
        ensures
            agent_picker_opened(*old(self), *final(self)),
            old(self).harnesses is None ==> final(self).status@
                == "This device is not hosting, so it has no agents to declare"@ && final(self).session_picker
                == old(self).session_picker,
            old(self).harnesses is Some && old(self).setup.harness_choices@.len() == 0 ==> final(self).status@
                == "No harness CLIs found on this device"@ && final(self).session_picker == old(self).session_picker,
            old(self).harnesses is Some && old(self).setup.harness_choices@.len() > 0 ==> (final(self).session_picker matches Some(
                p,
            ) && p.purpose == PickerPurpose::DeclareAgent && p.step == PickerStep::Harness && p.index == 0
                && p.choices@.len() == old(self).setup.harness_choices@.len() && p.cwd@ == old(self).setup.harness_workspace@)
                && final(self).status@ == "New agent · pick a harness · Enter workspace · Esc cancel"@,
            final(self).tabs == old(self).tabs,
            *final(self) == (App { session_picker: final(self).session_picker, status: final(self).status, ..*old(self) }),
            old(self).harnesses is Some && old(self).setup.harness_choices@.len() > 0 ==> (final(self).session_picker matches Some(
                p,
            ) && (forall|j: int|
                0 <= j < p.choices@.len() ==> #[trigger] p.choices@[j].wire@ == old(self).setup.harness_choices@[j].wire@
                    && p.choices@[j].name@ == old(self).setup.harness_choices@[j].name@) && p.workspace_query@.len() == 0
                && p.workspace_choices@.len() == 0 && p.workspace_index == 0 && !p.workspace_picked && p.query_dir is None),
    {
        if self.harnesses.is_none() {
            self.status = owned("This device is not hosting, so it has no agents to declare");
            return;
        }
        if self.setup.harness_choices.len() == 0 {
            self.status = owned("No harness CLIs found on this device");
            return;
        }
        let choices = crate::harness::copy_choices(&self.setup.harness_choices);
        self.session_picker = Some(
            HarnessPicker {
                purpose: PickerPurpose::DeclareAgent,
                choices,
                index: 0,
                step: PickerStep::Harness,
                cwd: self.setup.harness_workspace.clone(),
                workspace_query: Vec::new(),
                workspace_choices: Vec::new(),
                workspace_index: 0,
                workspace_picked: false,
                query_dir: None,
            },
        );
        self.status = owned("New agent · pick a harness · Enter workspace · Esc cancel");
    }
}

} // verus!
