//! Embedded harness sessions: who holds the keyboard, taking and handing
//! back control, the hand-back question asked on release, and the
//! two-step "start a session" picker.
use vstd::prelude::*;

use crate::app::{owned, App, Cmd, Control, HandbackPolicy, HandbackPrompt};
use crate::composer::{flattened, spliced, Draft};
use crate::keymap::{KeyCode, KeyEvent};
use crate::rail::SessionRow;
use crate::pointer::text_of;
use crate::text::{push_all, string_of, trim, trim_of};

verus! {

/// A harness CLI the picker offers.
pub struct HarnessChoice {
    /// The provider's wire name.
    pub wire: String,
    /// The name shown to the operator.
    pub name: String,
}

/// Which step of the picker is on screen.
#[derive(Clone, Copy, Debug, PartialEq, Eq, Structural)]
pub enum PickerStep {
    Harness,
    Workspace,
}

/// A workspace the picker offers.
pub struct WorkspaceChoice {
    pub path: String,
    pub source: String,
    pub label: Option<String>,
}

/// What the picker is choosing for.
#[derive(Clone, Copy, Debug, PartialEq, Eq, Structural)]
pub enum PickerPurpose {
    /// Start a session of the operator's own.
    StartSession,
    /// Declare a new agent: a harness in a workspace.
    DeclareAgent,
}

/// The "start a session" picker: a harness, then a directory.
pub struct HarnessPicker {
    pub purpose: PickerPurpose,
    pub choices: Vec<HarnessChoice>,
    pub index: usize,
    pub step: PickerStep,
    pub cwd: String,
    pub workspace_query: Vec<char>,
    pub workspace_choices: Vec<WorkspaceChoice>,
    pub workspace_index: usize,
    /// Whether the operator arrowed onto a completion rather than typing.
    pub workspace_picked: bool,
    /// The query resolved to a directory that exists, when it does; kept
    /// current by whoever refreshes the completions.
    pub query_dir: Option<String>,
}

/// The session with id `id` among `rows`, if any.
pub open spec fn row_of(rows: Seq<SessionRow>, id: Seq<char>) -> Option<SessionRow> {
    if exists|i: int| 0 <= i < rows.len() && rows[i].id@ == id {
        Some(
            rows[choose|i: int|
                0 <= i < rows.len() && rows[i].id@ == id && forall|j: int|
                    0 <= j < i ==> rows[j].id@ != id],
        )
    } else {
        None
    }
}

/// The session with id `id`, if it is listed.
pub fn find_row(rows: &Vec<SessionRow>, id: &String) -> (r: Option<usize>)
    ensures
        match r {
            Some(i) => i < rows@.len() && row_of(rows@, id@) == Some(rows@[i as int]),
            None => row_of(rows@, id@) is None,
        },
{
    let mut i: usize = 0;
    while i < rows.len()
        invariant
            i <= rows@.len(),
            forall|j: int| 0 <= j < i ==> rows@[j].id@ != id@,
        decreases rows.len() - i,
    {
        if rows[i].id == *id {
            proof {
                let c = choose|c: int|
                    0 <= c < rows@.len() && rows@[c].id@ == id@ && forall|j: int|
                        0 <= j < c ==> rows@[j].id@ != id@;
                assert(0 <= i < rows@.len() && rows@[i as int].id@ == id@ && forall|j: int|
                    0 <= j < i ==> rows@[j].id@ != id@);
                if c > i {
                    assert(rows@[i as int].id@ != id@);
                }
            }
            return Some(i);
        }
        i = i + 1;
    }
    None
}

impl App {
    /// The listed session with id `id`, if this device hosts one.
    pub open spec fn session_spec(&self, id: Seq<char>) -> Option<SessionRow> {
        match self.harnesses {
            Some(h) => row_of(h@, id),
            None => None,
        }
    }

    /// Who holds session `id`, if this device lists it.
    pub fn control_of(&self, id: &String) -> (r: Option<Control>)
        ensures
            r == (match self.session_spec(id@) {
                Some(row) => Some(row.control),
                None => None,
            }),
    {
        match &self.harnesses {
            Some(h) => match find_row(h, id) {
                Some(i) => Some(h[i].control),
                None => None,
            },
            None => None,
        }
    }

    /// The hand-back note as typed, trimmed; `None` when blank.
    pub fn handback_note(&self) -> (r: Option<String>)
        ensures
            self.handback_prompt matches Some(p) ==> text_of(r) == note_text(p),
            match self.handback_prompt {
                Some(p) => if trim(p.note.text@).len() > 0 {
                    r matches Some(n) && n@ == trim(p.note.text@)
                } else {
                    r is None
                },
                None => r is None,
            },
    {
        match &self.handback_prompt {
            Some(p) => {
                let t = trim_of(&p.note.text);
                if t.len() > 0 {
                    Some(string_of(t.as_slice()))
                } else {
                    None
                }
            },
            None => None,
        }
    }

    /// Hand the keyboard back from the attached harness to the chrome.
    pub fn release_harness(&mut self)
        ensures
            *final(self) == (App { attached: None, ..*old(self) }),
    {
        self.attached = None;
    }

    /// Give session `id` back to the orchestrator with an optional note.
    /// The brief itself (transcript tail, workspace, provider) is built by
    /// the event loop from what the command names.
    pub fn hand_back_session(&mut self, id: &String, note: Option<String>)
        ensures
            handed_back(*old(self), *final(self), id@, text_of(note)),
            final(self).status@ == (if old(self).harnesses is None {
                old(self).status@
            } else if old(self).session_spec(id@) is None {
                "That harness is gone"@
            } else {
                "Handed back · sending the orchestrator your brief"@
            }),
            old(self).session_spec(id@) is None ==> final(self).pending == old(self).pending
                && final(self).harness_took_control == old(self).harness_took_control,
            old(self).session_spec(id@) is Some ==> {
                &&& final(self).pending@.len() == old(self).pending@.len() + 1
                &&& final(self).pending@.drop_last() == old(self).pending@
                &&& final(self).pending@.last() matches Cmd::HandOffHarness { session, note: n }
                    && session@ == id@ && n == note
                &&& !final(self).harness_took_control
            },
            *final(self) == (App {
                pending: final(self).pending,
                harness_took_control: final(self).harness_took_control,
                status: final(self).status,
                ..*old(self)
            }),
    {
        let hosting = self.harnesses.is_some();
        let found = self.has_session(id);
        if found {
            let ghost before = self.pending@;
            self.pending.push(Cmd::HandOffHarness { session: id.clone(), note });
            assert(self.pending@.drop_last() =~= before);
            self.harness_took_control = false;
            self.status = owned("Handed back · sending the orchestrator your brief");
        } else if hosting {
            self.status = owned("That harness is gone");
        }
    }

    /// Whether this device lists session `id`.
    pub fn has_session(&self, id: &String) -> (r: bool)
        ensures
            r == self.session_spec(id@) is Some,
    {
        match &self.harnesses {
            Some(h) => find_row(h, id).is_some(),
            None => false,
        }
    }

    /// Settle the hand-back policy before the keyboard leaves session `id`.
    /// Returns whether the release may go ahead now; `false` means the
    /// hand-back question was raised and answers for it.
    pub fn begin_harness_release(&mut self, id: &String) -> (r: bool)
        ensures
            release_begun(*old(self), id@, *final(self), r),
            final(self).tabs == old(self).tabs,
            final(self).pointer == old(self).pointer,
            !(old(self).session_spec(id@) matches Some(row) && row.control == Control::User) ==> r
                && *final(self) == *old(self),
            old(self).session_spec(id@) matches Some(row) && row.control == Control::User ==> match old(self).setup.handback_policy {
                HandbackPolicy::Always => r && handed_back(*old(self), *final(self), id@, None),
                HandbackPolicy::Never => r && final(self).status@
                    == "Released · you still hold this harness (/handoff to give it back)"@
                    && *final(self) == (App { status: final(self).status, ..*old(self) }),
                HandbackPolicy::Ask => !r && (final(self).handback_prompt matches Some(p) && p.session@
                    == id@ && p.took_control == old(self).harness_took_control
                    && p.note.text@.len() == 0 && p.note.cursor == 0 && !p.editing_note)
                    && *final(self) == (App { handback_prompt: final(self).handback_prompt, ..*old(self) }),
            },
    {
        let held = match self.control_of(id) {
            Some(Control::User) => true,
            _ => false,
        };
        if !held {
            return true;
        }
        match self.setup.handback_policy {
            HandbackPolicy::Always => {
                self.hand_back_session(id, None);
                true
            },
            HandbackPolicy::Never => {
                self.status = owned("Released · you still hold this harness (/handoff to give it back)");
                true
            },
            HandbackPolicy::Ask => {
                self.handback_prompt = Some(
                    HandbackPrompt {
                        session: id.clone(),
                        took_control: self.harness_took_control,
                        note: Draft::new(),
                        editing_note: false,
                    },
                );
                false
            },
        }
    }

    /// Edit the hand-back note with one key.
    pub fn edit_handback_note(&mut self, code: KeyCode)
        requires
            old(self).handback_prompt matches Some(p) ==> p.note.wf() && p.note.text@.len() < usize::MAX,
        ensures
            old(self).handback_prompt matches Some(p) ==> (final(self).handback_prompt matches Some(q) && note_edited(p, code, q)),
            final(self).handback_prompt is Some == old(self).handback_prompt is Some,
            final(self).handback_prompt matches Some(p) ==> p.note.wf(),
            *final(self) == (App { handback_prompt: final(self).handback_prompt, ..*old(self) }),
            old(self).handback_prompt matches Some(p) ==> (final(self).handback_prompt matches Some(q)
                && q.session == p.session && q.took_control == p.took_control && q.editing_note
                == p.editing_note && match code {
                KeyCode::Char(c) => q.note.text@ == spliced(p.note.text@, p.note.cursor as int, seq![c])
                    && q.note.cursor == p.note.cursor + 1,
                KeyCode::Backspace => (p.note.cursor > 0 ==> q.note.text@ == p.note.text@.remove(
                    p.note.cursor - 1,
                ) && q.note.cursor == p.note.cursor - 1) && (p.note.cursor == 0 ==> q.note
                    == p.note),
                KeyCode::Left => q.note.text == p.note.text && q.note.cursor == (if p.note.cursor > 0 {
                    p.note.cursor - 1
                } else {
                    0
                }),
                KeyCode::Right => q.note.text == p.note.text && q.note.cursor == (if p.note.cursor
                    < p.note.text@.len() {
                    p.note.cursor + 1
                } else {
                    p.note.text@.len() as int
                }),
                _ => q.note == p.note,
            }),
    {
        match &mut self.handback_prompt {
            Some(p) => match code {
                KeyCode::Char(c) => p.note.insert_char(c),
                KeyCode::Backspace => p.note.delete_before(),
                KeyCode::Left => p.note.left(),
                KeyCode::Right => p.note.right(),
                _ => {},
            },
            None => {},
        }
    }

    /// Take a pasted payload into the hand-back note, once `E` has made the
    /// note a text input; flattened to one line.
    pub fn paste_into_handback_note(&mut self, text: &Vec<char>)
        requires
            old(self).handback_prompt matches Some(p) ==> p.note.wf() && p.note.text@.len() + text@.len()
                <= usize::MAX,
        ensures
            *final(self) == (App { handback_prompt: final(self).handback_prompt, ..*old(self) }),
            match old(self).handback_prompt {
                Some(p) => if p.editing_note {
                    final(self).handback_prompt matches Some(q) && q.note.text@ == spliced(
                        p.note.text@,
                        p.note.cursor as int,
                        flattened(text@),
                    ) && q.session == p.session && q.editing_note
                } else {
                    final(self).handback_prompt == old(self).handback_prompt
                },
                None => final(self).handback_prompt is None,
            },
    {
        match &mut self.handback_prompt {
            Some(p) => {
                if p.editing_note {
                    let flat = crate::composer::flatten_paste(text);
                    p.note.insert(&flat);
                }
            },
            None => {},
        }
    }

    /// Hand the session of the open hand-back prompt back with its note,
    /// closing the prompt and releasing the keyboard.
    fn confirm_handback(&mut self)
        requires
            old(self).handback_prompt is Some,
        ensures
            handback_confirmed(*old(self), old(self).handback_prompt->0, *final(self)),
            final(self).handback_prompt is None,
            final(self).attached is None,
    {
        let session = match &self.handback_prompt {
            Some(p) => p.session.clone(),
            None => {
                return;
            },
        };
        let note = self.handback_note();
        self.handback_prompt = None;
        self.hand_back_session(&session, note);
        self.release_harness();
    }

    /// Answer the hand-back question with one key.
    #[verifier::rlimit(60)]
    #[verifier::spinoff_prover]
    pub fn handle_handback_key(&mut self, code: KeyCode)
        requires
            old(self).handback_prompt matches Some(p) ==> p.note.wf() && p.note.text@.len() < usize::MAX,
        ensures
            handback_answered(*old(self), code, *final(self)),
            final(self).tabs == old(self).tabs,
            match old(self).handback_prompt {
                None => *final(self) == *old(self),
                Some(p) => if !p.editing_note {
                    match code {
                        KeyCode::Char('e') | KeyCode::Char('E') => final(self).handback_prompt matches Some(q)
                            && q.editing_note && q.session == p.session && q.note == p.note,
                        KeyCode::Char('y') | KeyCode::Char('Y') | KeyCode::Enter => final(self).handback_prompt
                            is None && final(self).attached is None,
                        KeyCode::Char('n') | KeyCode::Char('N') => final(self).handback_prompt is None
                            && final(self).attached is None && final(self).status@
                            == "Released · you still hold this harness (/handoff to give it back)"@
                            && final(self).pending == old(self).pending,
                        KeyCode::Esc => final(self).handback_prompt is None && final(self).attached == old(self).attached
                            && final(self).status@ == "Still typing into the harness"@,
                        _ => *final(self) == *old(self),
                    }
                } else {
                    match code {
                        KeyCode::Enter => final(self).handback_prompt is None && final(self).attached is None,
                        KeyCode::Esc => final(self).handback_prompt matches Some(q) && !q.editing_note
                            && q.note == p.note,
                        _ => final(self).handback_prompt matches Some(q) && q.editing_note,
                    }
                },
            },
    {
        let editing = match &self.handback_prompt {
            Some(p) => p.editing_note,
            None => {
                return;
            },
        };
        if editing {
            match code {
                KeyCode::Enter => {
                    self.confirm_handback();
                },
                KeyCode::Esc => {
                    match &mut self.handback_prompt {
                        Some(p) => {
                            p.editing_note = false;
                        },
                        None => {},
                    }
                },
                _ => self.edit_handback_note(code),
            }
            return;
        }
        match code {
            KeyCode::Char('e') | KeyCode::Char('E') => {
                match &mut self.handback_prompt {
                    Some(p) => {
                        p.editing_note = true;
                    },
                    None => {},
                }
            },
            KeyCode::Char('y') | KeyCode::Char('Y') | KeyCode::Enter => {
                self.confirm_handback();
            },
            KeyCode::Char('n') | KeyCode::Char('N') => {
                self.handback_prompt = None;
                self.release_harness();
                self.status = owned("Released · you still hold this harness (/handoff to give it back)");
            },
            KeyCode::Esc => {
                self.handback_prompt = None;
                self.status = owned("Still typing into the harness");
            },
            _ => {},
        }
    }
}

/// The outcome of asking to type into session `id`.
pub open spec fn attach_outcome(row: Option<SessionRow>) -> Seq<char> {
    match row {
        Some(r) => if !r.running {
            "That session has exited — its last screen is all that is left"@
        } else if r.control == Control::Orchestrator {
            "Task sessions are view-only while they are running"@
        } else {
            "Typing into the session · you have control · Ctrl-] to release"@
        },
        None => "That session has exited — its last screen is all that is left"@,
    }
}

/// Whether asking to type into session `row` attaches the keyboard.
pub open spec fn attaches(row: Option<SessionRow>) -> bool {
    row matches Some(r) && r.running && r.control != Control::Orchestrator
}

impl App {
    /// Whether session `id` is listed and running, and who holds it.
    fn session_state(&self, id: &String) -> (r: Option<(bool, Control)>)
        ensures
            match self.session_spec(id@) {
                Some(row) => r == Some((row.running, row.control)),
                None => r is None,
            },
    {
        match &self.harnesses {
            Some(h) => match find_row(h, id) {
                Some(i) => Some((h[i].running, h[i].control)),
                None => None,
            },
            None => None,
        }
    }

    /// Give the keyboard to session `id`, unless it has exited or the
    /// orchestrator is driving it.
    pub fn attach_to_session(&mut self, id: &String)
        ensures
            final(self).status@ == attach_outcome(old(self).session_spec(id@)),
            final(self).attached == (if attaches(old(self).session_spec(id@)) {
                Some(*id)
            } else {
                old(self).attached
            }),
            *final(self) == (App { attached: final(self).attached, status: final(self).status, ..*old(self) }),
    {
        let state = self.session_state(id);
        let (ok, msg) = match state {
            Some((true, Control::User)) => (true, "Typing into the session · you have control · Ctrl-] to release"),
            Some((true, Control::Orchestrator)) => (false, "Task sessions are view-only while they are running"),
            _ => (false, "That session has exited — its last screen is all that is left"),
        };
        if ok {
            self.attached = Some(id.clone());
        }
        self.status = owned(msg);
    }

    /// Type into the session the pane shows.
    pub fn attach_to_pane_session(&mut self)
        ensures
            pane_attached(*old(self), *final(self)),
            final(self).pane_view == crate::app::PaneView::Harness,
            match old(self).pane_session {
                None => final(self).status@ == "No session on this row — select a running one to type into"@
                    && final(self).attached == old(self).attached,
                Some(id) => final(self).status@ == attach_outcome(old(self).session_spec(id@))
                    && final(self).attached == (if attaches(old(self).session_spec(id@)) {
                    Some(id)
                } else {
                    old(self).attached
                }),
            },
            *final(self) == (App {
                pane_view: crate::app::PaneView::Harness,
                attached: final(self).attached,
                status: final(self).status,
                ..*old(self)
            }),
    {
        self.pane_view = crate::app::PaneView::Harness;
        let session = match &self.pane_session {
            Some(s) => Some(s.clone()),
            None => None,
        };
        match session {
            Some(s) => self.attach_to_session(&s),
            None => {
                self.status = owned("No session on this row — select a running one to type into");
            },
        }
    }

    /// Route a key to the attached harness, or take the keyboard for the
    /// pane's harness. Returns whether the key was consumed.
    pub fn handle_harness_key(&mut self, key: KeyEvent) -> (r: bool)
        ensures
            final(self).tabs == old(self).tabs,
            match old(self).attached {
                Some(s) => r && if key.focus_chord_spec() {
                    &&& final(self).attached is None
                    &&& *final(self) == (App {
                        attached: None,
                        agents_focus: crate::app::AgentsFocus::Rail,
                        status: final(self).status,
                        ..*old(self)
                    })
                    &&& final(self).agents_focus == crate::app::AgentsFocus::Rail
                    &&& final(self).status@ == "Released the session · Ctrl-] to type again"@
                } else {
                    &&& final(self).pending@ == old(self).pending@.push(Cmd::KeyToHarness { session: s, key })
                    &&& *final(self) == (App { pending: final(self).pending, ..*old(self) })
                },
                None => if old(self).visible_overlays_spec().len() > 0 {
                    !r && *final(self) == *old(self)
                } else {
                    let enter = key.code == KeyCode::Enter && key.bare() && old(self).pane_view
                        == crate::app::PaneView::Harness && old(self).pane_session is Some;
                    &&& r == (enter || key.focus_chord_spec())
                    &&& !r ==> *final(self) == *old(self)
                    &&& r ==> final(self).pane_view == crate::app::PaneView::Harness
                    &&& r ==> pane_attached(*old(self), *final(self))
                },
            },
    {
        let attached = match &self.attached {
            Some(s) => Some(s.clone()),
            None => None,
        };
        match attached {
            Some(s) => {
                if key.is_focus_chord() {
                    self.attached = None;
                    self.agents_focus = crate::app::AgentsFocus::Rail;
                    self.status = owned("Released the session · Ctrl-] to type again");
                } else {
                    self.pending.push(Cmd::KeyToHarness { session: s, key });
                }
                return true;
            },
            None => {},
        }
        if self.overlay_owns_keys() {
            return false;
        }
        let enter_on_harness = key.code == KeyCode::Enter && !key.ctrl && !key.shift && !key.alt
            && self.pane_view == crate::app::PaneView::Harness && self.pane_session.is_some()
            && self.agents_rail_focused();
        if enter_on_harness || key.is_focus_chord() {
            self.attach_to_pane_session();
            return true;
        }
        false
    }
}

/// The ids of the running sessions the operator holds, in listing order.
pub open spec fn held(rows: Seq<SessionRow>) -> Seq<Seq<char>>
    decreases rows.len(),
{
    if rows.len() == 0 {
        Seq::empty()
    } else {
        let rest = held(rows.drop_last());
        if rows.last().control == Control::User && rows.last().running {
            rest.push(rows.last().id@)
        } else {
            rest
        }
    }
}

/// The ids of the running sessions the operator holds, in listing order.
fn held_ids(rows: &Vec<SessionRow>) -> (r: Vec<String>)
    ensures
        r@.map_values(|s: String| s@) == held(rows@),
{
    let mut out: Vec<String> = Vec::new();
    let mut i: usize = 0;
    while i < rows.len()
        invariant
            i <= rows@.len(),
            out@.map_values(|s: String| s@) == held(rows@.take(i as int)),
        decreases rows.len() - i,
    {
        assert(rows@.take(i + 1).drop_last() =~= rows@.take(i as int));
        assert(rows@.take(i + 1).last() == rows@[i as int]);
        if rows[i].control == Control::User && rows[i].running {
            out.push(rows[i].id.clone());
        }
        i = i + 1;
        assert(out@.map_values(|s: String| s@) =~= held(rows@.take(i as int)));
    }
    assert(rows@.take(rows@.len() as int) =~= rows@);
    out
}

/// Queue taking session `id`, and holding its workspace when known.
fn push_take(pending: &mut Vec<Cmd>, id: String, cwd: Option<String>)
    ensures
        final(pending)@.len() >= old(pending)@.len() + 1,
        final(pending)@[old(pending)@.len() as int] == (Cmd::TakeControl { session: id }),
        final(pending)@.take(old(pending)@.len() as int) == old(pending)@,
{
    let ghost start = pending@;
    pending.push(Cmd::TakeControl { session: id });
    match cwd {
        Some(w) => pending.push(Cmd::HoldHarness { workspace: w }),
        None => {},
    }
    assert(pending@.take(start.len() as int) =~= start);
}

/// The hand-back note as typed, trimmed, when it is not blank.
pub open spec fn note_text(p: HandbackPrompt) -> Option<Seq<char>> {
    if trim(p.note.text@).len() > 0 {
        Some(trim(p.note.text@))
    } else {
        None
    }
}

/// What one key does to the hand-back note being edited (`q` after `p`):
/// a character is typed at the caret, Backspace deletes before it, the side
/// arrows move it, and any other key leaves the note alone.
pub open spec fn note_edited(p: HandbackPrompt, code: KeyCode, q: HandbackPrompt) -> bool {
    &&& q.session == p.session && q.took_control == p.took_control && q.editing_note == p.editing_note
    &&& match code {
        KeyCode::Char(c) => q.note.text@ == spliced(p.note.text@, p.note.cursor as int, seq![c]) && q.note.cursor
            == p.note.cursor + 1,
        KeyCode::Backspace => (p.note.cursor > 0 ==> q.note.text@ == p.note.text@.remove(p.note.cursor - 1)
            && q.note.cursor == p.note.cursor - 1) && (p.note.cursor == 0 ==> q.note == p.note),
        KeyCode::Left => q.note.text == p.note.text && q.note.cursor == (if p.note.cursor > 0 {
            p.note.cursor - 1
        } else {
            0
        }),
        KeyCode::Right => q.note.text == p.note.text && q.note.cursor == (if p.note.cursor < p.note.text@.len() {
            p.note.cursor + 1
        } else {
            p.note.text@.len() as int
        }),
        _ => q.note == p.note,
    }
}

/// Handing back from the prompt `p`: the prompt closes, the session is
/// handed back with the note as typed, and the keyboard is released.
pub open spec fn handback_confirmed(before: App, p: HandbackPrompt, after: App) -> bool {
    &&& after.attached is None
    &&& handed_back(
        App { handback_prompt: None, ..before },
        App { attached: before.attached, ..after },
        p.session@,
        note_text(p),
    )
}

/// What one key does to the hand-back question. Asked: `e` edits a note,
/// `y` or Enter hands the session back with its note, `n` releases the
/// keyboard keeping the harness, Esc keeps typing into it, and any other key
/// does nothing. While the note is edited: Enter hands back, Esc stops
/// editing, and every other key edits the note, nothing else changing.
pub open spec fn handback_answered(before: App, code: KeyCode, after: App) -> bool {
    match before.handback_prompt {
        None => after == before,
        Some(p) => if !p.editing_note {
            match code {
                KeyCode::Char('e') | KeyCode::Char('E') => after == (App {
                    handback_prompt: Some(HandbackPrompt { editing_note: true, ..p }),
                    ..before
                }),
                KeyCode::Char('y') | KeyCode::Char('Y') | KeyCode::Enter => handback_confirmed(before, p, after),
                KeyCode::Char('n') | KeyCode::Char('N') => after == (App {
                    handback_prompt: None,
                    attached: None,
                    status: after.status,
                    ..before
                }) && after.status@ == "Released · you still hold this harness (/handoff to give it back)"@,
                KeyCode::Esc => after == (App { handback_prompt: None, status: after.status, ..before })
                    && after.status@ == "Still typing into the harness"@,
                _ => after == before,
            }
        } else {
            match code {
                KeyCode::Enter => handback_confirmed(before, p, after),
                KeyCode::Esc => after == (App {
                    handback_prompt: Some(HandbackPrompt { editing_note: false, ..p }),
                    ..before
                }),
                _ => after == (App { handback_prompt: after.handback_prompt, ..before }) && (after.handback_prompt matches Some(
                    q,
                ) && note_edited(p, code, q)),
            }
        },
    }
}

/// What handing session `id` back does: with the session listed, a
/// hand-off carrying `note` is queued and the operator no longer holds it;
/// otherwise nothing but the status changes, and that only when hosting.
pub open spec fn handed_back(before: App, after: App, id: Seq<char>, note: Option<Seq<char>>) -> bool {
    &&& after.status@ == (if before.harnesses is None {
        before.status@
    } else if before.session_spec(id) is None {
        "That harness is gone"@
    } else {
        "Handed back · sending the orchestrator your brief"@
    })
    &&& before.session_spec(id) is None ==> after.pending == before.pending && after.harness_took_control
        == before.harness_took_control
    &&& before.session_spec(id) is Some ==> {
        &&& after.pending@.len() == before.pending@.len() + 1
        &&& after.pending@.drop_last() == before.pending@
        &&& after.pending@.last() matches Cmd::HandOffHarness { session, note: n } && session@ == id && text_of(n)
            == note
        &&& !after.harness_took_control
    }
    &&& after == (App {
        pending: after.pending,
        harness_took_control: after.harness_took_control,
        status: after.status,
        ..before
    })
}

/// What taking session `id` does: a session the operator already holds is
/// only reported; otherwise a take-over is queued first and said.
pub open spec fn taken(before: App, after: App, id: String) -> bool {
    &&& if before.session_spec(id@) matches Some(r) && r.control == Control::User {
        after.status@ == "You already have this harness"@ && after.pending == before.pending
    } else {
        &&& after.status@ == "You have this harness · the orchestrator will not dispatch into it"@
        &&& after.pending@.len() >= before.pending@.len() + 1
        &&& after.pending@[before.pending@.len() as int] == (Cmd::TakeControl { session: id })
    }
    &&& after == (App { status: after.status, pending: after.pending, ..before })
}

/// A result as plain text.
pub open spec fn result_text(r: Result<String, String>) -> Result<Seq<char>, Seq<char>> {
    match r {
        Ok(s) => Ok(s@),
        Err(m) => Err(m@),
    }
}

impl App {
    /// What [`handoff_target`](Self::handoff_target) answers, as plain text.
    pub open spec fn handoff_target_spec(&self) -> Result<Seq<char>, Seq<char>> {
        match self.harnesses {
            None => Err("This device is not hosting, so it has no harnesses"@),
            Some(h) => match (self.attached, self.pane_session) {
                (Some(a), _) => Ok(a@),
                (None, Some(p)) => Ok(p@),
                (None, None) => {
                    let n = held(h@).len();
                    if n == 0 {
                        Err("You are not holding any harness"@)
                    } else if n == 1 {
                        Ok(held(h@)[0])
                    } else {
                        Err("You hold "@ + crate::text::decimal(n) + " harnesses — select one in Agents and press Ctrl-G"@)
                    }
                },
            },
        }
    }
}

impl App {
    /// The harness the pane shows, or why there is none to act on.
    pub fn selected_harness(&self) -> (r: Result<String, &'static str>)
        ensures
            match (self.harnesses, self.pane_session) {
                (None, _) => r matches Err(m) && m@ == "This device is not hosting, so it has no harnesses"@,
                (Some(_), None) => r matches Err(m) && m@
                    == "No harness on this row — select one to hand it over"@,
                (Some(_), Some(s)) => r == Ok::<String, &'static str>(s),
            },
    {
        if self.harnesses.is_none() {
            return Err("This device is not hosting, so it has no harnesses");
        }
        match &self.pane_session {
            Some(s) => Ok(s.clone()),
            None => Err("No harness on this row — select one to hand it over"),
        }
    }

    /// The harness a hand-back means: the attached one, else the pane's,
    /// else the only running one the operator holds; or why there is none.
    pub fn handoff_target(&self) -> (r: Result<String, String>)
        ensures
            result_text(r) == self.handoff_target_spec(),
            match self.harnesses {
                None => r matches Err(m) && m@ == "This device is not hosting, so it has no harnesses"@,
                Some(h) => match (self.attached, self.pane_session) {
                    (Some(a), _) => r == Ok::<String, String>(a),
                    (None, Some(p)) => r == Ok::<String, String>(p),
                    (None, None) => {
                        let n = held(h@).len();
                        &&& n == 0 ==> (r matches Err(m) && m@ == "You are not holding any harness"@)
                        &&& n == 1 ==> (r matches Ok(id) && id@ == held(h@)[0])
                        &&& n > 1 ==> (r matches Err(m) && m@ == "You hold "@ + crate::text::decimal(n)
                            + " harnesses — select one in Agents and press Ctrl-G"@)
                    },
                },
            },
    {
        let ids = match &self.harnesses {
            Some(h) => held_ids(h),
            None => {
                return Err(owned("This device is not hosting, so it has no harnesses"));
            },
        };
        match &self.attached {
            Some(a) => {
                return Ok(a.clone());
            },
            None => {},
        }
        match &self.pane_session {
            Some(p) => {
                return Ok(p.clone());
            },
            None => {},
        }
        proof {
            let h = self.harnesses->0;
            assert(ids@.map_values(|s: String| s@).len() == ids@.len());
            if ids@.len() == 1 {
                assert(ids@[0]@ == ids@.map_values(|s: String| s@)[0]);
            }
        }
        if ids.len() == 0 {
            Err(owned("You are not holding any harness"))
        } else if ids.len() == 1 {
            Ok(ids[0].clone())
        } else {
            Err(crate::text::with_count(
                "You hold ",
                ids.len(),
                " harnesses — select one in Agents and press Ctrl-G",
            ))
        }
    }

    /// Whether the operator holds session `id`, and its workspace.
    fn held_and_cwd(&self, id: &String) -> (r: (bool, Option<String>))
        ensures
            match self.session_spec(id@) {
                Some(row) => r.0 == (row.control == Control::User) && r.1 == Some(row.cwd),
                None => !r.0 && r.1 is None,
            },
    {
        match &self.harnesses {
            Some(h) => match find_row(h, id) {
                Some(i) => (h[i].control == Control::User, Some(h[i].cwd.clone())),
                None => (false, None),
            },
            None => (false, None),
        }
    }

    /// Take session `id` from the orchestrator: the operator holds it and
    /// the runtime is told not to dispatch into its workspace.
    fn take_session(&mut self, id: String)
        ensures
            taken(*old(self), *final(self), id),
            ({
                let row = old(self).session_spec(id@);
                if row matches Some(r) && r.control == Control::User {
                    final(self).status@ == "You already have this harness"@ && final(self).pending
                        == old(self).pending
                } else {
                    &&& final(self).status@
                        == "You have this harness · the orchestrator will not dispatch into it"@
                    &&& final(self).pending@.len() >= old(self).pending@.len() + 1
                    &&& final(self).pending@[old(self).pending@.len() as int] == (Cmd::TakeControl { session: id })
                }
            }),
            *final(self) == (App { status: final(self).status, pending: final(self).pending, ..*old(self) }),
    {
        let (held, cwd) = self.held_and_cwd(&id);
        if held {
            self.status = owned("You already have this harness");
        } else {
            push_take(&mut self.pending, id, cwd);
            self.status = owned("You have this harness · the orchestrator will not dispatch into it");
        }
    }

    /// Take the pane's harness from the orchestrator.
    pub fn take_harness_control(&mut self)
        ensures
            control_taken(*old(self), *final(self)),
            *final(self) == (App { status: final(self).status, pending: final(self).pending, ..*old(self) }),
            match old(self).selected_harness_spec() {
                Err(m) => final(self).status@ == m@ && final(self).pending == old(self).pending,
                Ok(id) => if (old(self).session_spec(id@) matches Some(r) && r.control == Control::User) {
                    final(self).status@ == "You already have this harness"@
                } else {
                    final(self).pending@[old(self).pending@.len() as int] == (Cmd::TakeControl { session: id })
                },
            },
    {
        match self.selected_harness() {
            Ok(id) => self.take_session(id),
            Err(m) => {
                self.status = owned(m);
            },
        }
    }

    /// What [`selected_harness`](Self::selected_harness) answers.
    pub open spec fn selected_harness_spec(&self) -> Result<String, &'static str> {
        match (self.harnesses, self.pane_session) {
            (None, _) => Err("This device is not hosting, so it has no harnesses"),
            (Some(_), None) => Err("No harness on this row — select one to hand it over"),
            (Some(_), Some(s)) => Ok(s),
        }
    }

    /// Hand the held harness back to the orchestrator with an optional note.
    pub fn hand_harness_back(&mut self, note: Option<String>)
        ensures
            harness_handed_back(*old(self), note, *final(self)),
            match old(self).handoff_target_spec() {
                Err(m) => final(self).status@ == m && *final(self) == (App { status: final(self).status, ..*old(self) }),
                Ok(id) => if old(self).session_spec(id) matches Some(row) && row.control == Control::Orchestrator {
                    final(self).status@ == "The orchestrator already has this harness"@ && *final(self) == (App {
                        status: final(self).status,
                        ..*old(self)
                    })
                } else {
                    handed_back(*old(self), *final(self), id, text_of(note))
                },
            },
            *final(self) == (App {
                status: final(self).status,
                pending: final(self).pending,
                harness_took_control: final(self).harness_took_control,
                ..*old(self)
            }),
    {
        match self.handoff_target() {
            Err(m) => {
                self.status = m;
            },
            Ok(session) => {
                match self.control_of(&session) {
                    Some(Control::Orchestrator) => {
                        self.status = owned("The orchestrator already has this harness");
                    },
                    _ => self.hand_back_session(&session, note),
                }
            },
        }
    }

    /// Grab or give the pane's harness: one chord for both directions.
    pub fn toggle_harness_control(&mut self)
        ensures
            harness_toggled(*old(self), *final(self)),
            match old(self).selected_harness_spec() {
                Err(m) => final(self).status@ == m@ && *final(self) == (App { status: final(self).status, ..*old(self) }),
                Ok(id) => match old(self).session_spec(id@) {
                    Some(row) => if row.control == Control::Orchestrator {
                        taken(*old(self), *final(self), id)
                    } else {
                        handed_back(*old(self), *final(self), id@, None::<Seq<char>>)
                    },
                    None => final(self).status@ == "That harness is gone"@ && *final(self) == (App {
                        status: final(self).status,
                        ..*old(self)
                    }),
                },
            },
            final(self).tabs == old(self).tabs,
            final(self).harnesses == old(self).harnesses,
    {
        match self.selected_harness() {
            Err(m) => {
                self.status = owned(m);
            },
            Ok(session) => {
                let c = self.control_of(&session);
                if c == Some(Control::Orchestrator) {
                    self.take_session(session);
                } else if c == Some(Control::User) {
                    self.hand_back_session(&session, None);
                } else {
                    self.status = owned("That harness is gone");
                }
            },
        }
    }
}

/// What a key did to the picker.
pub enum PickerOutcome {
    /// Nothing else to do.
    Nothing,
    /// The picker was cancelled.
    Cancel,
    /// The workspace step opened.
    OpenedWorkspace,
    /// Back to the harness step.
    Back,
    /// The query changed; its completions need recomputing.
    Refresh,
    /// Start harness `choices[index]` in `workspace`.
    Start(usize, String),
    /// Enter with no usable directory.
    NoWorkspace,
}

/// The last index of a list of `len`, or 0.
pub open spec fn last_index(len: int) -> int {
    if len > 0 {
        len - 1
    } else {
        0
    }
}

impl HarnessPicker {
    /// Where Enter would start: a completion the operator arrowed onto, a
    /// typed query that already names a directory, or the highlighted
    /// completion.
    pub open spec fn selected_workspace_spec(&self) -> Option<Seq<char>> {
        if !self.workspace_picked && crate::text::trim(self.workspace_query@).len() > 0
            && self.query_dir is Some {
            Some(self.query_dir->0@)
        } else if self.workspace_index < self.workspace_choices@.len() {
            Some(self.workspace_choices@[self.workspace_index as int].path@)
        } else {
            match self.query_dir {
                Some(d) => Some(d@),
                None => None,
            }
        }
    }

    /// Where Enter would start.
    pub fn selected_workspace(&self) -> (r: Option<String>)
        ensures
            match r {
                Some(w) => self.selected_workspace_spec() == Some(w@),
                None => self.selected_workspace_spec() is None,
            },
    {
        let blank = crate::text::trim_of(&self.workspace_query).len() == 0;
        if !self.workspace_picked && !blank {
            match &self.query_dir {
                Some(d) => {
                    return Some(d.clone());
                },
                None => {},
            }
        }
        if self.workspace_index < self.workspace_choices.len() {
            return Some(self.workspace_choices[self.workspace_index].path.clone());
        }
        match &self.query_dir {
            Some(d) => Some(d.clone()),
            None => None,
        }
    }

    /// Step into the workspace step, with the harness's default directory
    /// as the query when `edit_default`.
    pub fn open_workspace(&mut self, edit_default: bool)
        ensures
            final(self).step == PickerStep::Workspace,
            final(self).workspace_query@ == (if edit_default {
                old(self).cwd@
            } else {
                Seq::<char>::empty()
            }),
            final(self).workspace_index == 0,
            !final(self).workspace_picked,
            final(self).choices == old(self).choices,
            final(self).index == old(self).index,
            final(self).cwd == old(self).cwd,
    {
        self.step = PickerStep::Workspace;
        self.workspace_query = if edit_default {
            crate::text::chars_of_string(&self.cwd)
        } else {
            Vec::new()
        };
        self.workspace_index = 0;
        self.workspace_picked = false;
    }

    /// Make the highlighted completion the query.
    pub fn complete(&mut self) -> (changed: bool)
        ensures
            changed == (old(self).workspace_index < old(self).workspace_choices@.len()),
            changed ==> final(self).workspace_query@ == old(self).workspace_choices@[old(
                self,
            ).workspace_index as int].path@ && final(self).workspace_index == 0 && !final(self).workspace_picked,
            !changed ==> *final(self) == *old(self),
            final(self).step == old(self).step,
            final(self).choices == old(self).choices,
            final(self).index == old(self).index,
    {
        if self.workspace_index < self.workspace_choices.len() {
            let path = crate::text::chars_of_string(&self.workspace_choices[self.workspace_index].path);
            self.workspace_query = path;
            self.workspace_index = 0;
            self.workspace_picked = false;
            true
        } else {
            false
        }
    }

    /// Take freshly ranked completions, keeping the cursor inside them.
    pub fn set_choices(&mut self, choices: Vec<WorkspaceChoice>, query_dir: Option<String>)
        ensures
            final(self).workspace_choices@ == choices@,
            final(self).query_dir == query_dir,
            final(self).workspace_index == crate::rail::min(
                old(self).workspace_index as int,
                last_index(choices@.len() as int),
            ),
            final(self).workspace_query == old(self).workspace_query,
            final(self).step == old(self).step,
            final(self).choices == old(self).choices,
            final(self).index == old(self).index,
            final(self).workspace_picked == old(self).workspace_picked,
    {
        let last = if choices.len() > 0 {
            choices.len() - 1
        } else {
            0
        };
        if self.workspace_index > last {
            self.workspace_index = last;
        }
        self.workspace_choices = choices;
        self.query_dir = query_dir;
    }

    /// Handle a key on the harness step.
    pub fn key_harness_step(&mut self, key: KeyEvent) -> (r: PickerOutcome)
        ensures
            match key.code {
                KeyCode::Esc => r is Cancel && *final(self) == *old(self),
                KeyCode::Up => r is Nothing && *final(self) == (HarnessPicker {
                    index: (if old(self).index > 0 {
                        old(self).index - 1
                    } else {
                        0
                    }) as usize,
                    ..*old(self)
                }),
                KeyCode::Down => r is Nothing && *final(self) == (HarnessPicker {
                    index: crate::rail::min(
                        old(self).index + 1,
                        last_index(old(self).choices@.len() as int),
                    ) as usize,
                    ..*old(self)
                }),
                KeyCode::Char('e') => if key.text_input_spec() {
                    r is OpenedWorkspace && final(self).step == PickerStep::Workspace
                        && final(self).workspace_query@ == old(self).cwd@
                } else {
                    r is Nothing && *final(self) == *old(self)
                },
                KeyCode::Enter => r is OpenedWorkspace && final(self).step == PickerStep::Workspace
                    && final(self).workspace_query@.len() == 0,
                _ => r is Nothing && *final(self) == *old(self),
            },
    {
        match key.code {
            KeyCode::Esc => PickerOutcome::Cancel,
            KeyCode::Up => {
                self.index = self.index.saturating_sub(1);
                PickerOutcome::Nothing
            },
            KeyCode::Down => {
                let last = if self.choices.len() > 0 {
                    self.choices.len() - 1
                } else {
                    0
                };
                let next = self.index.saturating_add(1);
                self.index = if next < last {
                    next
                } else {
                    last
                };
                PickerOutcome::Nothing
            },
            KeyCode::Char('e') => {
                if key.is_text_input() {
                    self.open_workspace(true);
                    PickerOutcome::OpenedWorkspace
                } else {
                    PickerOutcome::Nothing
                }
            },
            KeyCode::Enter => {
                self.open_workspace(false);
                PickerOutcome::OpenedWorkspace
            },
            _ => PickerOutcome::Nothing,
        }
    }

    /// Handle a key on the workspace step.
    pub fn key_workspace_step(&mut self, key: KeyEvent) -> (r: PickerOutcome)
        requires
            old(self).workspace_query@.len() < usize::MAX,
        ensures
            match key.code {
                KeyCode::Esc | KeyCode::BackTab => r is Back && *final(self) == (HarnessPicker {
                    step: PickerStep::Harness,
                    ..*old(self)
                }),
                KeyCode::Up => r is Nothing && *final(self) == (HarnessPicker {
                    workspace_index: (if old(self).workspace_index > 0 {
                        old(self).workspace_index - 1
                    } else {
                        0
                    }) as usize,
                    workspace_picked: old(self).workspace_choices@.len() > 0,
                    ..*old(self)
                }),
                KeyCode::Down => r is Nothing && *final(self) == (HarnessPicker {
                    workspace_index: crate::rail::min(
                        old(self).workspace_index + 1,
                        last_index(old(self).workspace_choices@.len() as int),
                    ) as usize,
                    workspace_picked: old(self).workspace_choices@.len() > 0,
                    ..*old(self)
                }),
                KeyCode::Tab => (if old(self).workspace_index < old(self).workspace_choices@.len() {
                    r is Refresh
                } else {
                    r is Nothing
                }) && final(self).step == old(self).step,
                KeyCode::Backspace => r is Refresh && final(self).workspace_query@ == (if old(
                    self,
                ).workspace_query@.len() > 0 {
                    old(self).workspace_query@.drop_last()
                } else {
                    old(self).workspace_query@
                }) && final(self).workspace_index == 0 && !final(self).workspace_picked,
                KeyCode::Char(c) => if key.text_input_spec() {
                    r is Refresh && final(self).workspace_query@ == old(self).workspace_query@.push(c)
                        && final(self).workspace_index == 0 && !final(self).workspace_picked
                } else {
                    r is Nothing && *final(self) == *old(self)
                },
                KeyCode::Enter => match old(self).selected_workspace_spec() {
                    None => r is NoWorkspace && *final(self) == *old(self),
                    Some(w) => r matches PickerOutcome::Start(i, ws) && i == old(self).index && ws@ == w
                        && *final(self) == *old(self),
                },
                _ => r is Nothing && *final(self) == *old(self),
            },
    {
        match key.code {
            KeyCode::Esc | KeyCode::BackTab => {
                self.step = PickerStep::Harness;
                PickerOutcome::Back
            },
            KeyCode::Up => {
                self.workspace_index = self.workspace_index.saturating_sub(1);
                self.workspace_picked = self.workspace_choices.len() > 0;
                PickerOutcome::Nothing
            },
            KeyCode::Down => {
                let last = if self.workspace_choices.len() > 0 {
                    self.workspace_choices.len() - 1
                } else {
                    0
                };
                let next = self.workspace_index.saturating_add(1);
                self.workspace_index = if next < last {
                    next
                } else {
                    last
                };
                self.workspace_picked = self.workspace_choices.len() > 0;
                PickerOutcome::Nothing
            },
            KeyCode::Tab => {
                if self.complete() {
                    PickerOutcome::Refresh
                } else {
                    PickerOutcome::Nothing
                }
            },
            KeyCode::Backspace => {
                self.workspace_query.pop();
                self.workspace_index = 0;
                self.workspace_picked = false;
                PickerOutcome::Refresh
            },
            KeyCode::Char(c) => {
                if key.is_text_input() {
                    self.workspace_query.push(c);
                    self.workspace_index = 0;
                    self.workspace_picked = false;
                    PickerOutcome::Refresh
                } else {
                    PickerOutcome::Nothing
                }
            },
            KeyCode::Enter => match self.selected_workspace() {
                Some(w) => PickerOutcome::Start(self.index, w),
                None => PickerOutcome::NoWorkspace,
            },
            _ => PickerOutcome::Nothing,
        }
    }
}

impl App {
    /// Queue a recomputation of the picker's completions for its query.
    pub(crate) fn request_refresh(&mut self)
        ensures
            match old(self).session_picker {
                Some(p) => final(self).pending@.drop_last() == old(self).pending@
                    && final(self).pending@.len() == old(self).pending@.len() + 1
                    && (final(self).pending@.last() matches Cmd::RefreshWorkspaces { query }
                    && query@ == p.workspace_query@),
                None => final(self).pending == old(self).pending,
            },
            *final(self) == (App { pending: final(self).pending, ..*old(self) }),
    {
        let query = match &self.session_picker {
            Some(p) => Some(p.workspace_query.clone()),
            None => None,
        };
        match query {
            Some(q) => {
                self.pending.push(Cmd::RefreshWorkspaces { query: q });
            },
            None => {},
        }
    }

    /// Start harness `index` of the picker in `workspace`, closing it; or
    /// say that no harness is chosen.
    fn start_from_picker(&mut self, index: usize, workspace: String)
        ensures
            ({
                let ok = old(self).session_picker matches Some(p) && index < p.choices@.len();
                &&& ok ==> final(self).session_picker is None && final(self).pending@.len() == old(self).pending@.len() + 1 && final(self).status == old(self).status
                &&& !ok ==> final(self).status@ == "Choose a harness first"@ && final(self).pending
                    == old(self).pending && final(self).session_picker == old(self).session_picker
            }),
            final(self).tabs == old(self).tabs,
            final(self).harnesses == old(self).harnesses,
    {
        let wire = match &self.session_picker {
            Some(p) => if index < p.choices.len() {
                Some(p.choices[index].wire.clone())
            } else {
                None
            },
            None => None,
        };
        match wire {
            Some(w) => {
                self.session_picker = None;
                self.pending.push(Cmd::SpawnHarness { wire: w, workspace });
            },
            None => {
                self.status = owned("Choose a harness first");
            },
        }
    }

    /// Handle a key while the "start a session" picker is open.
    pub fn handle_harness_picker_key(&mut self, key: KeyEvent)
        requires
            old(self).session_picker matches Some(p) ==> p.workspace_query@.len() < usize::MAX,
        ensures
            picker_key_outcome(*old(self), key, *final(self)),
            old(self).session_picker is None ==> *final(self) == *old(self),
            old(self).session_picker matches Some(p) && p.step == PickerStep::Harness && key.code
                == KeyCode::Esc ==> final(self).session_picker is None && final(self).status@ == "Cancelled"@,
            final(self).tabs == old(self).tabs,
            final(self).harnesses == old(self).harnesses,
            old(self).session_picker is Some && (key.code == KeyCode::Up || key.code == KeyCode::Down)
                ==> *final(self) == (App {
                session_picker: Some(picker_arrowed(old(self).session_picker->0, key.code == KeyCode::Up)),
                ..*old(self)
            }),
    {
        let outcome = match &mut self.session_picker {
            Some(p) => if p.step == PickerStep::Workspace {
                p.key_workspace_step(key)
            } else {
                p.key_harness_step(key)
            },
            None => PickerOutcome::Nothing,
        };
        match outcome {
            PickerOutcome::Nothing => {},
            PickerOutcome::Cancel => {
                self.session_picker = None;
                self.status = owned("Cancelled");
            },
            PickerOutcome::OpenedWorkspace => {
                self.status = owned("Workspace · type to filter · Tab complete · Enter start · Esc back");
                self.request_refresh();
            },
            PickerOutcome::Back => {
                self.status = owned("Pick a harness · Enter workspace · Esc cancel");
            },
            PickerOutcome::Refresh => self.request_refresh(),
            PickerOutcome::Start(i, w) => self.start_from_picker(i, w),
            PickerOutcome::NoWorkspace => {
                self.status = owned("Choose an existing directory");
            },
        }
    }

    /// Take a pasted payload into the picker's path box, flattened to one
    /// line; on the harness step, which has no field, it is dropped.
    pub fn paste_into_harness_workspace(&mut self, text: &Vec<char>)
        requires
            old(self).session_picker matches Some(p) ==> p.workspace_query@.len() + text@.len() <= usize::MAX,
        ensures
            match old(self).session_picker {
                Some(p) => if p.step == PickerStep::Workspace {
                    &&& final(self).session_picker matches Some(q) && q == (HarnessPicker {
                        workspace_query: q.workspace_query,
                        workspace_index: 0,
                        workspace_picked: false,
                        ..p
                    }) && q.workspace_query@ == p.workspace_query@ + crate::composer::flattened(text@)
                    &&& final(self).pending@.drop_last() == old(self).pending@
                    &&& final(self).pending@.len() == old(self).pending@.len() + 1
                    &&& (final(self).pending@.last() matches Cmd::RefreshWorkspaces { query } && query@
                        == p.workspace_query@ + crate::composer::flattened(text@))
                    &&& *final(self) == (App {
                        session_picker: final(self).session_picker,
                        pending: final(self).pending,
                        ..*old(self)
                    })
                } else {
                    *final(self) == *old(self)
                },
                None => *final(self) == *old(self),
            },
    {
        let flat = crate::composer::flatten_paste(text);
        match &mut self.session_picker {
            Some(p) => {
                match p.step {
                    PickerStep::Harness => {
                        return;
                    },
                    PickerStep::Workspace => {},
                }
                push_all(&mut p.workspace_query, &flat);
                p.workspace_index = 0;
                p.workspace_picked = false;
            },
            None => {
                return;
            },
        }
        self.request_refresh();
    }

    /// Take the completions and resolved query the event loop computed for
    /// the picker's current query.
    pub fn set_workspace_choices(&mut self, choices: Vec<WorkspaceChoice>, query_dir: Option<String>)
        ensures
            match old(self).session_picker {
                Some(p) => final(self).session_picker matches Some(q) && q.workspace_choices@ == choices@
                    && q.query_dir == query_dir && q.workspace_index == crate::rail::min(
                    p.workspace_index as int,
                    last_index(choices@.len() as int),
                ) && q.workspace_query == p.workspace_query && q.step == p.step,
                None => final(self).session_picker is None,
            },
            *final(self) == (App { session_picker: final(self).session_picker, ..*old(self) }),
    {
        match &mut self.session_picker {
            Some(p) => p.set_choices(choices, query_dir),
            None => {},
        }
    }

    /// Open the picker: a harness, then a directory. `provider` names a
    /// harness by its wire name to skip the first step, `path` the
    /// directory.
    pub fn start_harness_command(&mut self, provider: Option<String>, path: Option<String>)
        ensures
            old(self).harnesses is None ==> final(self).status@
                == "This device is not hosting, so it has no harnesses to start"@ && *final(self) == (App {
                status: final(self).status,
                ..*old(self)
            }),
            old(self).harnesses is Some && provider is None && path is None ==> picker_opened(*old(self), *final(self)),
            final(self).tabs == old(self).tabs,
            harness_command_started(*old(self), provider, path, *final(self)),
    {
        if self.harnesses.is_none() {
            self.status = owned("This device is not hosting, so it has no harnesses to start");
            return;
        }
        let known = match &provider {
            Some(p) => find_choice(&self.setup.harness_choices, p),
            None => None,
        };
        match known {
            Some(i) => {
                let wire = self.setup.harness_choices[i].wire.clone();
                let cwd = match path {
                    Some(p) => p,
                    None => String::new(),
                };
                self.pending.push(Cmd::SpawnHarness { wire, workspace: cwd });
                assert(self.pending@.drop_last() =~= old(self).pending@);
                assert(old(self).setup.harness_choices@[i as int].wire@ == provider->0@);
            },
            None => {
                if self.setup.harness_choices.len() == 0 {
                    self.status = owned("No harness CLIs found on this device");
                    return;
                }
                let choices = copy_choices(&self.setup.harness_choices);
                let cwd = match path {
                    Some(p) => p,
                    None => self.setup.harness_workspace.clone(),
                };
                self.session_picker = Some(
                    HarnessPicker {
                        purpose: PickerPurpose::StartSession,
                        choices,
                        index: 0,
                        step: PickerStep::Harness,
                        cwd,
                        workspace_query: Vec::new(),
                        workspace_choices: Vec::new(),
                        workspace_index: 0,
                        workspace_picked: false,
                        query_dir: None,
                    },
                );
            },
        }
    }

    /// Open the picker from its first step.
    pub fn open_session_picker(&mut self)
        ensures
            session_picker_opened(*old(self), *final(self)),
            old(self).harnesses is None ==> final(self).status@
                == "This device is not hosting, so it has no harnesses to start"@ && *final(self) == (App {
                status: final(self).status,
                ..*old(self)
            }),
            old(self).harnesses is Some ==> picker_opened(*old(self), *final(self)),
            final(self).tabs == old(self).tabs,
            harness_command_started(*old(self), None, None, *final(self)),
    {
        self.start_harness_command(None, None);
    }
}

/// What opening the session picker on a hosting device does: with no
/// harness CLI found it only says so; otherwise the picker opens on its first
/// step over every harness choice, in the remembered workspace.
pub open spec fn picker_opened(before: App, after: App) -> bool {
    if before.setup.harness_choices@.len() == 0 {
        after.status@ == "No harness CLIs found on this device"@ && after == (App {
            status: after.status,
            ..before
        })
    } else {
        &&& (after.session_picker matches Some(p) && p.purpose == PickerPurpose::StartSession && p.step
            == PickerStep::Harness && p.index == 0 && p.choices@.len() == before.setup.harness_choices@.len()
            && p.cwd@ == before.setup.harness_workspace@)
        &&& after == (App { session_picker: after.session_picker, ..before })
    }
}

/// The first harness choice whose wire name is `wire`.
fn find_choice(choices: &Vec<HarnessChoice>, wire: &String) -> (r: Option<usize>)
    ensures
        match r {
            Some(i) => i < choices@.len() && choices@[i as int].wire@ == wire@,
            None => forall|j: int| 0 <= j < choices@.len() ==> choices@[j].wire@ != wire@,
        },
{
    let mut i: usize = 0;
    while i < choices.len()
        invariant
            i <= choices@.len(),
            forall|j: int| 0 <= j < i ==> choices@[j].wire@ != wire@,
        decreases choices.len() - i,
    {
        if choices[i].wire == *wire {
            return Some(i);
        }
        i = i + 1;
    }
    None
}

/// A copy of the harness choices.
pub(crate) fn copy_choices(choices: &Vec<HarnessChoice>) -> (r: Vec<HarnessChoice>)
    ensures
        r@.len() == choices@.len(),
        forall|j: int| 0 <= j < r@.len() ==> r@[j].wire@ == choices@[j].wire@ && r@[j].name@ == choices@[j].name@,
{
    let mut out: Vec<HarnessChoice> = Vec::new();
    let mut i: usize = 0;
    while i < choices.len()
        invariant
            i <= choices@.len(),
            out@.len() == i,
            forall|j: int| 0 <= j < i ==> out@[j].wire@ == choices@[j].wire@ && out@[j].name@ == choices@[j].name@,
        decreases choices.len() - i,
    {
        out.push(HarnessChoice { wire: choices[i].wire.clone(), name: choices[i].name.clone() });
        i = i + 1;
    }
    out
}

/// What a key does to the open session picker, as `App::handle_harness_picker_key` states it.
pub open spec fn picker_key_outcome(before: App, key: KeyEvent, after: App) -> bool {
    &&& (before.session_picker is None ==> after == before)
    &&& (before.session_picker matches Some(p) && p.step == PickerStep::Harness && key.code
                == KeyCode::Esc ==> after.session_picker is None && after.status@ == "Cancelled"@)
    &&& (after.tabs == before.tabs)
    &&& (after.harnesses == before.harnesses)
}

/// What opening the session picker does.
pub open spec fn session_picker_opened(before: App, after: App) -> bool {
    &&& (before.harnesses is None ==> after.status@
                == "This device is not hosting, so it has no harnesses to start"@ && after == (App {
                status: after.status,
                ..before
            }))
    &&& (before.harnesses is Some ==> picker_opened(before, after))
    &&& (after.tabs == before.tabs)
}

/// What grabbing or giving back the pane's harness does.
pub open spec fn harness_toggled(before: App, after: App) -> bool {
    &&& (match before.selected_harness_spec() {
                Err(m) => after.status@ == m@ && after == (App { status: after.status, ..before }),
                Ok(id) => match before.session_spec(id@) {
                    Some(row) => if row.control == Control::Orchestrator {
                        taken(before, after, id)
                    } else {
                        handed_back(before, after, id@, None::<Seq<char>>)
                    },
                    None => after.status@ == "That harness is gone"@ && after == (App {
                        status: after.status,
                        ..before
                    }),
                },
            })
    &&& (after.tabs == before.tabs)
    &&& (after.harnesses == before.harnesses)
}

/// The pane shows the harness, and the keyboard is attached to the pane's session when it is running and held by the operator; the status line says which.
pub open spec fn pane_attached(before: App, after: App) -> bool {
    &&& (after.pane_view == crate::app::PaneView::Harness)
    &&& (match before.pane_session {
                None => after.status@ == "No session on this row — select a running one to type into"@
                    && after.attached == before.attached,
                Some(id) => after.status@ == attach_outcome(before.session_spec(id@))
                    && after.attached == (if attaches(before.session_spec(id@)) {
                    Some(id)
                } else {
                    before.attached
                }),
            })
    &&& (after == (App {
                pane_view: crate::app::PaneView::Harness,
                attached: after.attached,
                status: after.status,
                ..before
            }))
}

/// What asking to start a harness (`/harness [provider] [path]`) does: on a
/// device that does not host, the status line says so; a known provider is
/// spawned at once in `path` (empty for its default); else, with no harness
/// CLI found the status line says so, and otherwise the picker opens on its
/// first step in `path`, or in the default workspace.
pub open spec fn harness_command_started(before: App, provider: Option<String>, path: Option<String>, after: App) -> bool {
    let choices = before.setup.harness_choices@;
    if before.harnesses is None {
        after.status@ == "This device is not hosting, so it has no harnesses to start"@ && after == (App {
            status: after.status,
            ..before
        })
    } else if provider matches Some(p) && exists|j: int| 0 <= j < choices.len() && #[trigger] choices[j].wire@ == p@ {
        &&& after.pending@.len() == before.pending@.len() + 1
        &&& after.pending@.drop_last() == before.pending@
        &&& (after.pending@.last() matches Cmd::SpawnHarness { wire, workspace } && wire@ == provider->0@
            && workspace@ == (match path {
            Some(q) => q@,
            None => Seq::<char>::empty(),
        }))
        &&& after == (App { pending: after.pending, ..before })
    } else if choices.len() == 0 {
        after.status@ == "No harness CLIs found on this device"@ && after == (App { status: after.status, ..before })
    } else {
        &&& (after.session_picker matches Some(p) && p.purpose == PickerPurpose::StartSession && p.step
            == PickerStep::Harness && p.index == 0 && p.choices@.len() == choices.len() && (forall|j: int|
            0 <= j < choices.len() ==> #[trigger] p.choices@[j].wire@ == choices[j].wire@ && p.choices@[j].name@
                == choices[j].name@) && p.cwd@ == (match path {
            Some(q) => q@,
            None => before.setup.harness_workspace@,
        }) && p.workspace_query@.len() == 0 && p.workspace_choices@.len() == 0 && p.workspace_index == 0
            && !p.workspace_picked && p.query_dir is None)
        &&& after == (App { session_picker: after.session_picker, ..before })
    }
}

/// Taking the selected harness asks for it, or the status line says why not.
pub open spec fn control_taken(before: App, after: App) -> bool {
    &&& (after == (App { status: after.status, pending: after.pending, ..before }))
    &&& (match before.selected_harness_spec() {
                Err(m) => after.status@ == m@ && after.pending == before.pending,
                Ok(id) => if (before.session_spec(id@) matches Some(r) && r.control == Control::User) {
                    after.status@ == "You already have this harness"@
                } else {
                    after.pending@[before.pending@.len() as int] == (Cmd::TakeControl { session: id })
                },
            })
}

/// Handing the selected harness back to the orchestrator, with `note`, or the status line says why not.
pub open spec fn harness_handed_back(before: App, note: Option<String>, after: App) -> bool {
    &&& (match before.handoff_target_spec() {
                Err(m) => after.status@ == m && after == (App { status: after.status, ..before }),
                Ok(id) => if before.session_spec(id) matches Some(row) && row.control == Control::Orchestrator {
                    after.status@ == "The orchestrator already has this harness"@ && after == (App {
                        status: after.status,
                        ..before
                    })
                } else {
                    handed_back(before, after, id, text_of(note))
                },
            })
    &&& (after == (App {
                status: after.status,
                pending: after.pending,
                harness_took_control: after.harness_took_control,
                ..before
            }))
}

/// What letting go of session `id` does before the keyboard is released: a session the operator holds is handed back, kept, or asked about as the hand-back policy says; `r` is whether the release may go ahead now.
pub open spec fn release_begun(before: App, id: Seq<char>, after: App, r: bool) -> bool {
    &&& (after.tabs == before.tabs)
    &&& (after.pointer == before.pointer)
    &&& (!(before.session_spec(id) matches Some(row) && row.control == Control::User) ==> r
                && after == before)
    &&& (before.session_spec(id) matches Some(row) && row.control == Control::User ==> match before.setup.handback_policy {
                HandbackPolicy::Always => r && handed_back(before, after, id, None),
                HandbackPolicy::Never => r && after.status@
                    == "Released · you still hold this harness (/handoff to give it back)"@
                    && after == (App { status: after.status, ..before }),
                HandbackPolicy::Ask => !r && (after.handback_prompt matches Some(p) && p.session@
                    == id && p.took_control == before.harness_took_control
                    && p.note.text@.len() == 0 && p.note.cursor == 0 && !p.editing_note)
                    && after == (App { handback_prompt: after.handback_prompt, ..before }),
            })
}

/// The picker after one arrow (`up` or down): on the harness step the
/// highlighted harness moves by one row, on the workspace step the
/// highlighted workspace does, marking it as picked when there is one;
/// neither moves past the ends of its list.
pub open spec fn picker_arrowed(p: HarnessPicker, up: bool) -> HarnessPicker {
    if p.step == PickerStep::Workspace {
        HarnessPicker {
            workspace_index: (if up {
                if p.workspace_index > 0 { p.workspace_index - 1 } else { 0 }
            } else {
                crate::rail::min(p.workspace_index + 1, last_index(p.workspace_choices@.len() as int))
            }) as usize,
            workspace_picked: p.workspace_choices@.len() > 0,
            ..p
        }
    } else {
        HarnessPicker {
            index: (if up {
                if p.index > 0 { p.index - 1 } else { 0 }
            } else {
                crate::rail::min(p.index + 1, last_index(p.choices@.len() as int))
            }) as usize,
            ..p
        }
    }
}

} // verus!
