//! The keyboard: one dispatcher that routes a key by what owns the
//! keyboard — an armed confirmation, the hand-back question, an attached
//! harness, an overlay — then global chords, then the tab's bindings.
use vstd::prelude::*;

use crate::app::{owned, AgentsFocus, App, Cmd, PaneView, Prompt, ResumePicker, Tab};
use crate::changes::{moved, next_hunk_spec, previous_hunk_spec, GitChangesState};
use crate::composer::spliced;
use crate::keymap::{Event, KeyCode, KeyEvent};
use crate::rail::{AgentRow, RailRow};
use crate::nav::{paged, rail_moved, target_view};
use crate::pointer::retargeted;
use crate::agents::agent_picker_opened;
use crate::app::mouse_toggled;
use crate::commands::{thread_started, task_cancel_outcome, task_answer_outcome};
use crate::harness::{session_picker_opened, harness_toggled};
use crate::decisions::decisions_opened;
use crate::text::{push_str, string_of};
use crate::workflows::{workflows_binds, workflows_outcome, WorkflowsKey};

verus! {

/// The last index of a list of `len`, or 0.
pub open spec fn last_of(len: nat) -> int {
    if len > 0 {
        len - 1
    } else {
        0
    }
}

/// The review after moving the file selection by `delta`: the new file is
/// reviewed from its top.
pub open spec fn file_selected(c: GitChangesState, delta: int) -> GitChangesState {
    GitChangesState {
        selected: moved(c.selected as int, delta, last_of(c.files@.len())) as usize,
        scroll: 0,
        cursor: 0,
        ..c
    }
}

/// The review after moving the line cursor by `delta`.
pub open spec fn cursor_moved(c: GitChangesState, delta: int) -> GitChangesState {
    GitChangesState { cursor: moved(c.cursor as int, delta, last_of(c.patch@.len())) as usize, ..c }
}

/// Whether a key is one of the Changes review's.
pub open spec fn changes_key_taken(code: KeyCode) -> bool {
    match code {
        KeyCode::Up | KeyCode::Down | KeyCode::Char('k') | KeyCode::Char('j') | KeyCode::Char('[')
        | KeyCode::Char(']') | KeyCode::PageUp | KeyCode::PageDown | KeyCode::Char('r') => true,
        _ => false,
    }
}

/// What a Changes key does: the arrows move the file selection and ask for
/// the new patch, `j`/`k` and the page keys move the line cursor, `[`/`]`
/// jump between hunks (or say there is none that way), `r` asks for a
/// reload, and any other key changes nothing.
pub open spec fn changes_keyed(before: App, code: KeyCode, after: App) -> bool {
    let c = before.changes;
    match code {
        KeyCode::Up | KeyCode::Down => after.pending@ == before.pending@.push(Cmd::RefreshChanges) && after == (App {
            changes: file_selected(c, if code == KeyCode::Up { -1 } else { 1 }),
            pending: after.pending,
            ..before
        }),
        KeyCode::Char('k') => after == (App { changes: cursor_moved(c, -1), ..before }),
        KeyCode::Char('j') => after == (App { changes: cursor_moved(c, 1), ..before }),
        KeyCode::PageUp => after == (App { changes: cursor_moved(c, -10), ..before }),
        KeyCode::PageDown => after == (App { changes: cursor_moved(c, 10), ..before }),
        KeyCode::Char('[') | KeyCode::Char(']') => {
            let target = if code == KeyCode::Char(']') {
                next_hunk_spec(c.hunks@, c.cursor as int)
            } else {
                previous_hunk_spec(c.hunks@, c.cursor as int)
            };
            match target {
                Some(l) => after == (App { changes: GitChangesState { cursor: l as usize, ..c }, ..before }),
                None => after == (App { status: after.status, ..before }) && after.status@ == (if code
                    == KeyCode::Char(']') {
                    "Already at the last hunk"@
                } else {
                    "Already at the first hunk"@
                }),
            }
        },
        KeyCode::Char('r') => after.pending@ == before.pending@.push(Cmd::RefreshChanges) && after == (App {
            pending: after.pending,
            ..before
        }),
        _ => after == before,
    }
}

/// Whether the diff beside an open session pane takes a key: `d` or Esc
/// returns to the harness, any other plain character and the review's own
/// keys drive the review.
pub open spec fn pane_detail_takes(before: App, key: KeyEvent) -> bool {
    before.pane_view != PaneView::Harness && before.pane_session is Some && !key.ctrl && !key.alt && (
    key.code is Char || key.code == KeyCode::Esc || changes_key_taken(key.code))
}

/// What the diff beside an open session pane does with a key it takes.
pub open spec fn pane_detail_keyed(before: App, key: KeyEvent, after: App) -> bool {
    if pane_detail_takes(before, key) {
        if key.code == KeyCode::Char('d') || key.code == KeyCode::Esc {
            after == (App { pane_view: PaneView::Harness, ..before })
        } else {
            changes_keyed(before, key.code, after)
        }
    } else {
        after == before
    }
}

/// `K` on the rail: the kill of the selected running task is armed, or the
/// status says to select one.
pub open spec fn kill_armed_from_rail(before: App, after: App) -> bool {
    match before.kill_target_spec() {
        None => after.status@ == "Select a running session first"@ && after == (App { status: after.status, ..before }),
        Some(t) => {
            &&& after.kill_armed matches Some(k) && target_view(Some(k)) == Some(t)
            &&& after.status@ == "Kill the session for "@ + t.1 + "? y confirms · any other key cancels"@
            &&& after == (App { kill_armed: after.kill_armed, status: after.status, ..before })
        },
    }
}

/// An arrow on the rail: the scroll resets, the cursor steps, and the live
/// screen follows the new selection (`c` being what that asks for).
pub open spec fn rail_stepped(before: App, up: bool, after: App, c: Option<Cmd>) -> bool {
    let mid = rail_moved(App { agent_scroll: 0, ..before }, up);
    &&& retargeted(mid.watching, after, c)
    &&& after == (App { watching: after.watching, ..mid })
}

/// Enter on the rail: the new-agent picker on its row, paging on an
/// overflow row, the composer anywhere else.
pub open spec fn rail_entered(before: App, after: App) -> bool {
    if before.cursor_row() == Some(RailRow::NewHarness) {
        agent_picker_opened(before, after)
    } else if before.cursor_row() matches Some(RailRow::Agent(AgentRow::More { .. })) {
        paged(before, after)
    } else {
        after == (App { agents_focus: AgentsFocus::Composer, ..before })
    }
}

/// A plain character on the rail starts typing it in the composer.
pub open spec fn rail_typed(before: App, c: char, after: App) -> bool {
    &&& after.draft.text@ == spliced(before.draft.text@, before.draft.cursor as int, seq![c])
    &&& after.draft.cursor == before.draft.cursor + 1
    &&& after == (App { draft: after.draft, agents_focus: AgentsFocus::Composer, command_index: 0, ..before })
}

/// What the Sessions rail does with a key: with a session pane open, `d`
/// shows its diff and `k` asks before closing it; `K` arms the kill of the
/// selected running task (or says to select one); the arrows move the cursor
/// and point the live screen at the new selection; Enter opens the new-agent
/// picker on its row, pages an overflow row, and otherwise moves to the
/// composer, as Esc does; a plain character starts typing in the composer;
/// Backspace moves there when no pane is open but leaves the key unhandled.
pub open spec fn rail_keyed(before: App, key: KeyEvent, after: App, r: AgentsKey) -> bool {
    let plain = !key.ctrl && !key.alt;
    let has_pane = before.pane_session is Some;
    let code = key.code;
    if plain && has_pane && code == KeyCode::Char('d') {
        r matches AgentsKey::Handled(None) && after == (App { pane_view: PaneView::Diff, ..before })
    } else if plain && has_pane && code == KeyCode::Char('k') {
        &&& r matches AgentsKey::Handled(None)
        &&& after.harness_close_armed == before.pane_session
        &&& after.status@ == "Close this harness? y closes it · any other key keeps it"@
        &&& after == (App { harness_close_armed: after.harness_close_armed, status: after.status, ..before })
    } else {
        match code {
            KeyCode::Char('K') => r matches AgentsKey::Handled(None) && kill_armed_from_rail(before, after),
            KeyCode::Up | KeyCode::Down => r matches AgentsKey::Handled(c) && rail_stepped(
                before,
                code == KeyCode::Up,
                after,
                c,
            ),
            KeyCode::Enter => r matches AgentsKey::Handled(None) && rail_entered(before, after),
            KeyCode::Esc => r matches AgentsKey::Handled(None) && after == (App {
                agents_focus: AgentsFocus::Composer,
                ..before
            }),
            KeyCode::Char(c) => if plain {
                r matches AgentsKey::Handled(None) && rail_typed(before, c, after)
            } else {
                r is Unhandled && after == before
            },
            KeyCode::Backspace => r is Unhandled && after == (if has_pane {
                before
            } else {
                App { agents_focus: AgentsFocus::Composer, ..before }
            }),
            _ => r is Unhandled && after == before,
        }
    }
}

/// What an edit key did to the inline prompt.
#[derive(Clone, Copy, Debug, PartialEq, Eq, Structural)]
pub enum PromptAction {
    Cancel,
    Submit,
    Editing,
}

/// What the rail did with a key.
pub enum AgentsKey {
    Handled(Option<Cmd>),
    Unhandled,
}

impl Prompt {
    /// Apply one key to the prompt's field.
    pub fn edit(&mut self, key: KeyEvent) -> (r: PromptAction)
        requires
            old(self).draft.wf(),
            old(self).draft.text@.len() < usize::MAX,
        ensures
            final(self).draft.wf(),
            final(self).kind == old(self).kind,
            final(self).title == old(self).title,
            match key.code {
                KeyCode::Esc => r == PromptAction::Cancel && final(self).draft == old(self).draft,
                KeyCode::Enter => r == PromptAction::Submit && final(self).draft == old(self).draft,
                KeyCode::Backspace | KeyCode::Delete => r == PromptAction::Editing && (old(self).draft.cursor
                    > 0 ==> final(self).draft.text@ == old(self).draft.text@.remove(
                    old(self).draft.cursor - 1,
                )) && (old(self).draft.cursor == 0 ==> final(self).draft == old(self).draft),
                KeyCode::Char(c) => r == PromptAction::Editing && if !key.ctrl && !key.alt {
                    final(self).draft.text@ == spliced(
                        old(self).draft.text@,
                        old(self).draft.cursor as int,
                        seq![c],
                    ) && final(self).draft.cursor == old(self).draft.cursor + 1
                } else {
                    final(self).draft == old(self).draft
                },
                KeyCode::Left | KeyCode::Right => r == PromptAction::Editing && final(self).draft.text
                    == old(self).draft.text,
                _ => r == PromptAction::Editing && final(self).draft == old(self).draft,
            },
    {
        match key.code {
            KeyCode::Esc => PromptAction::Cancel,
            KeyCode::Enter => PromptAction::Submit,
            KeyCode::Backspace | KeyCode::Delete => {
                self.draft.delete_before();
                PromptAction::Editing
            },
            KeyCode::Left => {
                self.draft.left();
                PromptAction::Editing
            },
            KeyCode::Right => {
                self.draft.right();
                PromptAction::Editing
            },
            KeyCode::Char(c) => {
                if !key.ctrl && !key.alt {
                    self.draft.insert_char(c);
                }
                PromptAction::Editing
            },
            _ => PromptAction::Editing,
        }
    }
}

impl ResumePicker {
    /// Move the highlight one chat, without wrapping.
    pub fn step(&mut self, up: bool)
        ensures
            final(self).chats == old(self).chats,
            final(self).index == crate::settings::stepped_index(old(self).index, old(self).chats@.len() as usize, up),
    {
        self.index = crate::settings::step_index(self.index, self.chats.len(), up);
    }
}

/// The next tab index, wrapping.
pub open spec fn next_tab(index: usize, n: nat) -> int {
    if n == 0 {
        index as int
    } else {
        (index + 1) % (n as int)
    }
}

/// The previous tab index, wrapping.
pub open spec fn prev_tab(index: usize, n: nat) -> int {
    if n == 0 {
        index as int
    } else {
        (index + n - 1) % (n as int)
    }
}

impl App {
    /// Step to the next or previous tab, wrapping, and ask for its data.
    pub fn cycle_tab(&mut self, forward: bool) -> (r: Option<Cmd>)
        ensures
            tab_cycled(*old(self), forward, *final(self), r),
            final(self).tab_index == (if forward {
                next_tab(old(self).tab_index, old(self).tabs@.len())
            } else {
                prev_tab(old(self).tab_index, old(self).tabs@.len())
            }),
            final(self).selected == 0,
            r == crate::settings::entry_cmd(final(self).tab_spec(), final(self).settings_page_spec()),
            *final(self) == (App { tab_index: final(self).tab_index, selected: 0, ..*old(self) }),
    {
        let n = self.tabs.len();
        if n > 0 {
            let i = self.tab_index % n;
            self.tab_index = if forward {
                if i + 1 == n {
                    0
                } else {
                    i + 1
                }
            } else if i == 0 {
                n - 1
            } else {
                i - 1
            };
            proof {
                let t = old(self).tab_index as int;
                let m = n as int;
                if forward {
                    vstd::arithmetic::div_mod::lemma_add_mod_noop_right(1, t, m);
                    if i + 1 == n {
                        vstd::arithmetic::div_mod::lemma_mod_self_0(m);
                    } else {
                        vstd::arithmetic::div_mod::lemma_small_mod((i + 1) as nat, n as nat);
                    }
                } else {
                    vstd::arithmetic::div_mod::lemma_add_mod_noop_right(m - 1, t, m);
                    if i == 0 {
                        vstd::arithmetic::div_mod::lemma_small_mod((n - 1) as nat, n as nat);
                    } else {
                        vstd::arithmetic::div_mod::lemma_mod_add_multiples_vanish(i - 1, m);
                        vstd::arithmetic::div_mod::lemma_small_mod((i - 1) as nat, n as nat);
                    }
                }
            }
        }
        self.selected = 0;
        self.tab_enter_cmd()
    }

    /// Handle a key while the decision overlay is open.
    pub fn handle_decision_key(&mut self, code: KeyCode)
        ensures
            decision_key_outcome(*old(self), code, *final(self)),
            code == KeyCode::Esc ==> !final(self).decisions.open && final(self).status@
                == "Decision queue closed"@,
            final(self).tabs == old(self).tabs,
            final(self).decisions.items == old(self).decisions.items,
    {
        let n = self.decisions.count();
        if n == 0 {
            self.decisions.index = 0;
        } else if self.decisions.index >= n - 1 {
            self.decisions.index = n - 1;
        }
        match code {
            KeyCode::Esc => {
                self.decisions.open = false;
                self.status = owned("Decision queue closed");
            },
            KeyCode::Up => {
                self.decisions.index = self.decisions.index.saturating_sub(1);
            },
            KeyCode::Down => {
                self.decisions.index = crate::settings::step_index(self.decisions.index, n, false);
            },
            KeyCode::Char('d') => self.dismiss_selected_decision(),
            KeyCode::Enter => self.answer_or_dismiss_selected_decision(),
            _ => {},
        }
    }

    /// Handle a key while the resume picker is open.
    pub fn resume_picker_key(&mut self, key: KeyEvent) -> (r: Option<Cmd>)
        requires
            old(self).resume_picker is Some,
        ensures
            resume_outcome(*old(self), key, *final(self), r),
            key.code == KeyCode::Char('c') && key.ctrl ==> final(self).should_quit && r is None,
            key.code == KeyCode::Esc ==> final(self).resume_picker is None && r is None,
            key.code == KeyCode::Enter ==> final(self).resume_picker is None && match old(self).resume_picker {
                Some(p) => if p.index < p.chats@.len() {
                    r == Some(Cmd::Resume(p.chats@[p.index as int]))
                } else {
                    r is None
                },
                None => true,
            },
            final(self).tabs == old(self).tabs,
    {
        match key.code {
            KeyCode::Char('c') if key.ctrl => {
                self.should_quit = true;
                None
            },
            KeyCode::Esc => {
                self.resume_picker = None;
                None
            },
            KeyCode::Up => {
                match &mut self.resume_picker {
                    Some(p) => p.step(true),
                    None => {},
                }
                None
            },
            KeyCode::Down => {
                match &mut self.resume_picker {
                    Some(p) => p.step(false),
                    None => {},
                }
                None
            },
            KeyCode::Enter => {
                let picked = match &self.resume_picker {
                    Some(p) => if p.index < p.chats.len() {
                        Some(p.chats[p.index].clone())
                    } else {
                        None
                    },
                    None => None,
                };
                self.resume_picker = None;
                match picked {
                    Some(id) => Some(Cmd::Resume(id)),
                    None => None,
                }
            },
            _ => None,
        }
    }

    /// Handle a key while the inline prompt is open.
    pub fn prompt_key(&mut self, key: KeyEvent) -> (r: Option<Cmd>)
        requires
            old(self).prompt matches Some(p) && p.draft.wf() && p.draft.text@.len() < usize::MAX,
        ensures
            prompt_outcome(*old(self), key, *final(self), r),
            key.ctrl && key.code == KeyCode::Char('c') ==> final(self).should_quit && r is None
                && final(self).prompt == old(self).prompt,
            !(key.ctrl && key.code == KeyCode::Char('c')) && key.code == KeyCode::Esc ==> final(self).prompt
                is None && final(self).status@ == "Cancelled"@ && r is None,
            final(self).tabs == old(self).tabs,
    {
        if key.ctrl && key.code == KeyCode::Char('c') {
            self.should_quit = true;
            return None;
        }
        let action = match &mut self.prompt {
            Some(p) => p.edit(key),
            None => PromptAction::Editing,
        };
        match action {
            PromptAction::Cancel => {
                self.prompt = None;
                self.status = owned("Cancelled");
                None
            },
            PromptAction::Submit => self.submit_prompt(),
            PromptAction::Editing => None,
        }
    }

    /// Arm the kill confirmation for a running task.
    pub fn arm_kill(&mut self, target: (String, String))
        ensures
            final(self).kill_armed == Some(target),
            final(self).status@ == "Kill the session for "@ + target.1@ + "? y confirms · any other key cancels"@,
            *final(self) == (App { kill_armed: final(self).kill_armed, status: final(self).status, ..*old(self) }),
    {
        let mut t: Vec<char> = Vec::new();
        push_str(&mut t, "Kill the session for ");
        push_str(&mut t, target.1.as_str());
        push_str(&mut t, "? y confirms · any other key cancels");
        self.status = string_of(t.as_slice());
        self.kill_armed = Some(target);
    }

    /// Ask before closing the harness the pane shows.
    pub fn close_pane_session_prompt(&mut self)
        ensures
            old(self).pane_session is None ==> final(self).status == old(self).status,
            final(self).harness_close_armed == old(self).pane_session,
            old(self).pane_session is Some ==> final(self).status@
                == "Close this harness? y closes it · any other key keeps it"@,
            *final(self) == (App {
                harness_close_armed: final(self).harness_close_armed,
                status: final(self).status,
                ..*old(self)
            }),
    {
        match &self.pane_session {
            Some(s) => {
                let id = s.clone();
                self.harness_close_armed = Some(id);
                self.status = owned("Close this harness? y closes it · any other key keeps it");
            },
            None => {
                self.harness_close_armed = None;
            },
        }
    }

    /// Handle a key while the Sessions rail holds the keyboard.
    pub fn on_agents_rail_key(&mut self, key: KeyEvent) -> (r: AgentsKey)
        requires
            old(self).draft.wf(),
            old(self).draft.text@.len() < usize::MAX,
        ensures
            agents_rail_outcome(*old(self), key, *final(self), r),
            old(self).agents_focus == AgentsFocus::Rail || old(self).pane_session is Some ==> if pane_detail_takes(
                *old(self),
                key,
            ) {
                r matches AgentsKey::Handled(None) && pane_detail_keyed(*old(self), key, *final(self))
            } else {
                rail_keyed(*old(self), key, *final(self), r)
            },
            final(self).tabs == old(self).tabs,
            !(old(self).agents_focus == AgentsFocus::Rail || old(self).pane_session is Some) ==> r is Unhandled
                && *final(self) == *old(self),
    {
        if !self.agents_rail_focused() {
            return AgentsKey::Unhandled;
        }
        if self.pane_detail_key(key) {
            return AgentsKey::Handled(None);
        }
        self.rail_key(key)
    }

    /// Keys for the diff beside an open session pane. Returns whether the key
    /// was taken.
    pub fn pane_detail_key(&mut self, key: KeyEvent) -> (r: bool)
        ensures
            r == pane_detail_takes(*old(self), key),
            pane_detail_keyed(*old(self), key, *final(self)),
            final(self).tabs == old(self).tabs,
            final(self).draft == old(self).draft,
    {
        let ctrl = key.ctrl;
        let alt = key.alt;
        if self.pane_view != PaneView::Harness && self.pane_session.is_some() {
            if !ctrl && !alt {
                match key.code {
                    KeyCode::Char('d') | KeyCode::Esc => {
                        self.pane_view = PaneView::Harness;
                        return true;
                    },
                    KeyCode::Char(_) => {
                        self.on_changes_key(key.code);
                        return true;
                    },
                    code => {
                        if self.on_changes_key(code) {
                            return true;
                        }
                    },
                }
            }
        }
        false
    }

    /// `K` on the rail: arm the kill of the selected running task.
    fn rail_kill_key(&mut self)
        ensures
            kill_armed_from_rail(*old(self), *final(self)),
    {
        match self.kill_target() {
            Some(target) => self.arm_kill(target),
            None => {
                self.status = owned("Select a running session first");
            },
        }
    }

    /// An arrow on the rail: step the cursor and follow it with the live screen.
    fn rail_step_key(&mut self, up: bool) -> (c: Option<Cmd>)
        ensures
            rail_stepped(*old(self), up, *final(self), c),
    {
        self.agent_scroll = 0;
        self.move_rail_index(up);
        self.retarget_watch()
    }

    /// Enter on the rail.
    fn rail_enter_key(&mut self)
        ensures
            rail_entered(*old(self), *final(self)),
    {
        if self.on_new_agent_row() {
            self.open_new_agent_picker();
        } else if !self.page_subtasks() {
            self.agents_focus = AgentsFocus::Composer;
        }
    }

    /// A plain character on the rail: type it in the composer.
    fn rail_type_key(&mut self, c: char)
        requires
            old(self).draft.wf(),
            old(self).draft.text@.len() < usize::MAX,
        ensures
            rail_typed(*old(self), c, *final(self)),
    {
        self.agents_focus = AgentsFocus::Composer;
        self.draft.insert_char(c);
        self.command_index = 0;
    }

    /// Keys for the Sessions rail itself.
    #[verifier::rlimit(80)]
    #[verifier::spinoff_prover]
    pub fn rail_key(&mut self, key: KeyEvent) -> (r: AgentsKey)
        requires
            old(self).draft.wf(),
            old(self).draft.text@.len() < usize::MAX,
        ensures
            rail_keyed(*old(self), key, *final(self), r),
            final(self).tabs == old(self).tabs,
    {
        let plain = !key.ctrl && !key.alt;
        let has_pane = self.pane_session.is_some();
        let code = key.code;
        if plain && has_pane && code == KeyCode::Char('d') {
            self.pane_view = PaneView::Diff;
            return AgentsKey::Handled(None);
        }
        if plain && has_pane && code == KeyCode::Char('k') {
            self.close_pane_session_prompt();
            return AgentsKey::Handled(None);
        }
        match code {
            KeyCode::Char('K') => {
                self.rail_kill_key();
                AgentsKey::Handled(None)
            },
            KeyCode::Up | KeyCode::Down => AgentsKey::Handled(self.rail_step_key(code == KeyCode::Up)),
            KeyCode::Enter => {
                self.rail_enter_key();
                AgentsKey::Handled(None)
            },
            KeyCode::Esc => {
                self.agents_focus = AgentsFocus::Composer;
                AgentsKey::Handled(None)
            },
            KeyCode::Char(c) => {
                if plain {
                    self.rail_type_key(c);
                    AgentsKey::Handled(None)
                } else {
                    AgentsKey::Unhandled
                }
            },
            KeyCode::Backspace => {
                if !has_pane {
                    self.agents_focus = AgentsFocus::Composer;
                }
                AgentsKey::Unhandled
            },
            _ => AgentsKey::Unhandled,
        }
    }

    /// The Changes review's keys. Returns whether the key was one of them.
    #[verifier::rlimit(60)]
    #[verifier::spinoff_prover]
    pub fn on_changes_key(&mut self, code: KeyCode) -> (r: bool)
        ensures
            r == changes_key_taken(code),
            changes_keyed(*old(self), code, *final(self)),
            final(self).tabs == old(self).tabs,
            final(self).draft == old(self).draft,
            match code {
                KeyCode::Char('j') => final(self).changes.cursor == crate::changes::moved(
                    old(self).changes.cursor as int,
                    1,
                    if old(self).changes.patch@.len() > 0 {
                        old(self).changes.patch@.len() - 1
                    } else {
                        0
                    },
                ),
                KeyCode::Char('k') => final(self).changes.cursor == crate::changes::moved(
                    old(self).changes.cursor as int,
                    -1,
                    if old(self).changes.patch@.len() > 0 {
                        old(self).changes.patch@.len() - 1
                    } else {
                        0
                    },
                ),
                KeyCode::Char(']') => (crate::changes::next_hunk_spec(
                    old(self).changes.hunks@,
                    old(self).changes.cursor as int,
                ) is None) ==> final(self).status@ == "Already at the last hunk"@,
                KeyCode::Char('[') => (crate::changes::previous_hunk_spec(
                    old(self).changes.hunks@,
                    old(self).changes.cursor as int,
                ) is None) ==> final(self).status@ == "Already at the first hunk"@,
                _ => true,
            },
            r == (match code {
                KeyCode::Up | KeyCode::Down | KeyCode::Char('k') | KeyCode::Char('j') | KeyCode::Char(
                    '[',
                ) | KeyCode::Char(']') | KeyCode::PageUp | KeyCode::PageDown | KeyCode::Char('r') => true,
                _ => false,
            }),
    {
        match code {
            KeyCode::Up => {
                self.changes.select_file(-1);
                self.pending.push(Cmd::RefreshChanges);
            },
            KeyCode::Down => {
                self.changes.select_file(1);
                self.pending.push(Cmd::RefreshChanges);
            },
            KeyCode::Char('k') => self.changes.move_cursor(-1),
            KeyCode::Char('j') => self.changes.move_cursor(1),
            KeyCode::Char('[') => {
                if !self.changes.jump_hunk(false) {
                    self.status = owned("Already at the first hunk");
                }
            },
            KeyCode::Char(']') => {
                if !self.changes.jump_hunk(true) {
                    self.status = owned("Already at the last hunk");
                }
            },
            KeyCode::PageUp => self.changes.move_cursor(-10),
            KeyCode::PageDown => self.changes.move_cursor(10),
            KeyCode::Char('r') => self.pending.push(Cmd::RefreshChanges),
            _ => {
                return false;
            },
        }
        true
    }

    /// A key while a session kill is armed: `y` confirms it, anything
    /// else cancels it.
    fn kill_key(&mut self, key: KeyEvent) -> (r: Option<Cmd>)
        requires
            old(self).kill_armed is Some,
        ensures
            ({
                let t = old(self).kill_armed->0;
                let yes = key.code == KeyCode::Char('y') && key.bare();
                &&& *final(self) == (App { kill_armed: None, status: final(self).status, ..*old(self) })
                &&& yes ==> r == Some(Cmd::KillTask { worker: t.0, task_id: t.1 }) && final(self).status@
                    == "Killing the session for "@ + t.1@ + "…"@
                &&& !yes ==> r is None && final(self).status@ == "Session kill cancelled"@
            }),
    {
        match self.kill_armed.take() {
            Some((worker, task_id)) => {
                if key.code == KeyCode::Char('y') && !key.ctrl && !key.shift && !key.alt {
                    let mut t: Vec<char> = Vec::new();
                    push_str(&mut t, "Killing the session for ");
                    push_str(&mut t, task_id.as_str());
                    push_str(&mut t, "…");
                    self.status = string_of(t.as_slice());
                    return Some(Cmd::KillTask { worker, task_id });
                }
                self.status = owned("Session kill cancelled");
                None
            },
            None => None,
        }
    }

    /// A key while closing a harness is armed: `y` queues the close,
    /// anything else cancels it.
    fn close_key(&mut self, key: KeyEvent)
        requires
            old(self).harness_close_armed is Some,
        ensures
            ({
                let s = old(self).harness_close_armed->0;
                if key.code == KeyCode::Char('y') && key.bare() {
                    final(self).pending@ == old(self).pending@.push(Cmd::CloseSession(s)) && *final(self) == (App {
                        harness_close_armed: None,
                        pending: final(self).pending,
                        ..*old(self)
                    })
                } else {
                    *final(self) == (App { harness_close_armed: None, status: final(self).status, ..*old(self) })
                        && final(self).status@ == "Harness close cancelled"@
                }
            }),
    {
        match self.harness_close_armed.take() {
            Some(session) => {
                if key.code == KeyCode::Char('y') && !key.ctrl && !key.shift && !key.alt {
                    self.pending.push(Cmd::CloseSession(session));
                } else {
                    self.status = owned("Harness close cancelled");
                }
            },
            None => {},
        }
    }

    /// Handle a key press: whatever owns the keyboard first, then global
    /// chords, then the tab's bindings.
    #[verifier::rlimit(80)]
    #[verifier::spinoff_prover]
    pub fn on_key(&mut self, key: KeyEvent) -> (r: Option<Cmd>)
        requires
            old(self).draft.wf(),
            old(self).draft.text@.len() < usize::MAX,
            old(self).prompt matches Some(p) ==> p.draft.wf() && p.draft.text@.len() < usize::MAX,
            old(self).handback_prompt matches Some(p) ==> p.note.wf() && p.note.text@.len() < usize::MAX,
            old(self).session_picker matches Some(p) ==> p.workspace_query@.len() < usize::MAX,
            old(self).history_index >= -1,
            old(self).history_index < old(self).history@.len(),
            old(self).history@.len() < i64::MAX,
        ensures
            key_routed(*old(self), key, *final(self), r),
            key_outcome(*old(self), key, *final(self), r),
            final(self).tabs == old(self).tabs,
            match old(self).kill_armed {
                Some((worker, task_id)) => final(self).kill_armed is None && if key.code == KeyCode::Char('y')
                    && key.bare() {
                    r == Some(Cmd::KillTask { worker, task_id })
                } else {
                    r is None && final(self).status@ == "Session kill cancelled"@
                },
                None => true,
            },
            old(self).kill_armed is None ==> match old(self).harness_close_armed {
                Some(s) => {
                    &&& r is None
                    &&& final(self).harness_close_armed is None
                    &&& key.code == KeyCode::Char('y') && key.bare() ==> final(self).pending@
                        == old(self).pending@.push(Cmd::CloseSession(s))
                    &&& !(key.code == KeyCode::Char('y') && key.bare()) ==> final(self).status@
                        == "Harness close cancelled"@
                },
                None => true,
            },
            old(self).kill_armed is None && old(self).harness_close_armed is None && old(self).handback_prompt
                is Some ==> r is None,
            old(self).kill_armed is None && old(self).harness_close_armed is None && old(self).handback_prompt
                is None && old(self).attached is Some ==> r is None,
    {
        if self.kill_armed.is_some() {
            return self.kill_key(key);
        }
        if self.harness_close_armed.is_some() {
            self.close_key(key);
            return None;
        }
        if self.handback_prompt.is_some() {
            self.handle_handback_key(key.code);
            return None;
        }
        if self.handle_harness_key(key) {
            return None;
        }
        self.route_key(key)
    }

    /// Route a key that no confirmation, hand-back prompt or attached
    /// harness took: an open prompt or picker first, then the tab.
    pub fn route_key(&mut self, key: KeyEvent) -> (r: Option<Cmd>)
        requires
            old(self).draft.wf(),
            old(self).draft.text@.len() < usize::MAX,
            old(self).prompt matches Some(p) ==> p.draft.wf() && p.draft.text@.len() < usize::MAX,
            old(self).session_picker matches Some(p) ==> p.workspace_query@.len() < usize::MAX,
            old(self).history_index >= -1,
            old(self).history_index < old(self).history@.len(),
            old(self).history@.len() < i64::MAX,
        ensures
            route_outcome(*old(self), key, *final(self), r),
            final(self).tabs == old(self).tabs,
    {
        if self.prompt.is_some() {
            return self.prompt_key(key);
        }
        if self.session_picker.is_some() {
            if key.ctrl && key.code == KeyCode::Char('c') {
                self.should_quit = true;
            } else {
                self.handle_harness_picker_key(key);
            }
            return None;
        }
        if self.resume_picker.is_some() {
            return self.resume_picker_key(key);
        }
        if self.decisions.open {
            if key.ctrl && key.code == KeyCode::Char('c') {
                self.should_quit = true;
            } else {
                self.handle_decision_key(key.code);
            }
            return None;
        }
        self.tab_key(key)
    }

    /// Global chords and the current tab's bindings.
    #[verifier::rlimit(80)]
    #[verifier::spinoff_prover]
    pub fn tab_key(&mut self, key: KeyEvent) -> (r: Option<Cmd>)
        requires
            old(self).draft.wf(),
            old(self).draft.text@.len() < usize::MAX,
            old(self).prompt matches Some(p) ==> p.draft.wf() && p.draft.text@.len() < usize::MAX,
            old(self).session_picker matches Some(p) ==> p.workspace_query@.len() < usize::MAX,
            old(self).history_index >= -1,
            old(self).history_index < old(self).history@.len(),
            old(self).history@.len() < i64::MAX,
        ensures
            tab_outcome(*old(self), key, *final(self), r),
            final(self).tabs == old(self).tabs,
    {
        let tab = self.tab();
        let chord = key.ctrl && (key.code == KeyCode::Char('c') || key.code == KeyCode::Char('o') || key.code
            == KeyCode::Char('y') || key.code == KeyCode::Char('x') || key.code == KeyCode::Char('n') || key.code
            == KeyCode::Char('t') || key.code == KeyCode::Char('g'));
        if chord {
            return self.chord_key(key);
        }
        if key.ctrl && (key.code == KeyCode::Up || key.code == KeyCode::Down) && tab == Some(Tab::Sessions) {
            return self.switch_thread(key.code == KeyCode::Up);
        }
        if tab == Some(Tab::Feedback) {
            match self.feedback_key(key.code) {
                crate::settings::SettingsKey::Handled(cmd) => {
                    return cmd;
                },
                crate::settings::SettingsKey::Unhandled => {},
            }
        }
        if tab == Some(Tab::Settings) {
            match self.on_settings_key(key.code) {
                crate::settings::SettingsKey::Handled(cmd) => {
                    return cmd;
                },
                crate::settings::SettingsKey::Unhandled => {},
            }
        }
        if tab == Some(Tab::Hosts) {
            match self.on_routing_key(key.code) {
                crate::settings::SettingsKey::Handled(cmd) => {
                    return cmd;
                },
                crate::settings::SettingsKey::Unhandled => {},
            }
        }
        if tab == Some(Tab::Workflows) && self.wf.draft.cursor <= self.wf.draft.text.len() && self.wf.draft.text.len()
            < usize::MAX {
            match self.on_workflows_key(key.code, key.shift, key.alt) {
                WorkflowsKey::Handled(cmd) => {
                    return cmd;
                },
                WorkflowsKey::Unhandled => {},
            }
        }
        if tab == Some(Tab::Changes) {
            if !key.ctrl && !key.alt && self.on_changes_key(key.code) {
                return None;
            }
        }
        if tab == Some(Tab::Sessions) {
            match self.sessions_key(key) {
                Some(cmd) => {
                    return cmd;
                },
                None => {},
            }
        }
        self.common_key(key)
    }

    /// The Sessions tab's bindings: the rail (or the diff beside an open
    /// pane), then the composer, then the Alt chords on the rail; `None`
    /// when none of them takes the key.
    fn sessions_key(&mut self, key: KeyEvent) -> (r: Option<Option<Cmd>>)
        ensures
            sessions_keyed(*old(self), key, *final(self), r),
            final(self).tabs == old(self).tabs,
    {
        if self.draft.cursor <= self.draft.text.len() && self.draft.text.len() < usize::MAX {
            match self.on_agents_rail_key(key) {
                AgentsKey::Handled(cmd) => {
                    return Some(cmd);
                },
                AgentsKey::Unhandled => {},
            }
        }
        if self.agents_focus == AgentsFocus::Composer && self.pane_session.is_none() && self.draft.cursor
            <= self.draft.text.len() && self.draft.text.len() < usize::MAX {
            match self.composer_key(key) {
                Some(cmd) => {
                    return Some(cmd);
                },
                None => {},
            }
        }
        self.alt_rail_key(key)
    }

    /// The Alt chords on the Sessions rail: the arrows move the cursor and
    /// retarget the watched task, `X` cancels and `A` answers the selected
    /// task.
    #[verifier::rlimit(50)]
    #[verifier::spinoff_prover]
    fn alt_rail_key(&mut self, key: KeyEvent) -> (r: Option<Option<Cmd>>)
        ensures
            alt_rail_keyed(*old(self), key, *final(self), r),
            final(self).tabs == old(self).tabs,
    {
        if key.alt && (key.code == KeyCode::Up || key.code == KeyCode::Down) {
            self.agent_scroll = 0;
            self.move_rail_index(key.code == KeyCode::Up);
            return Some(self.retarget_watch());
        }
        if key.alt && (key.code == KeyCode::Char('X') || key.code == KeyCode::Char('x')) {
            return Some(self.cancel_selected_task());
        }
        if key.alt && (key.code == KeyCode::Char('A') || key.code == KeyCode::Char('a')) {
            self.answer_selected_task();
            return Some(None);
        }
        None
    }

    /// A global `Ctrl` chord.
    fn chord_key(&mut self, key: KeyEvent) -> (r: Option<Cmd>)
        requires
            is_chord(key),
        ensures
            chord_outcome(*old(self), key, *final(self), r),
            final(self).tabs == old(self).tabs,
    {
        match key.code {
            KeyCode::Char('c') => {
                self.should_quit = true;
                None
            },
            KeyCode::Char('o') => {
                self.toggle_mouse();
                None
            },
            KeyCode::Char('y') => Some(Cmd::CopyChat(crate::commands::CopyScope::All)),
            KeyCode::Char('x') => {
                self.status = owned("Abort requested");
                Some(Cmd::Abort)
            },
            KeyCode::Char('n') => Some(self.new_thread()),
            KeyCode::Char('t') => {
                self.open_session_picker();
                None
            },
            _ => {
                self.toggle_harness_control();
                None
            },
        }
    }

    /// Make the previous (`up`) or next open thread the active one, if there is one.
    fn switch_thread(&mut self, up: bool) -> (r: Option<Cmd>)
        ensures
            thread_switched(*old(self), up, *final(self), r),
    {
        let idx = self.active_thread;
        let n = self.threads.len();
        if up && idx > 0 && idx - 1 < n {
            self.agent_scroll = 0;
            Some(Cmd::SwitchThread { id: self.threads[idx - 1].clone() })
        } else if !up && n > 0 && idx < n - 1 {
            self.agent_scroll = 0;
            Some(Cmd::SwitchThread { id: self.threads[idx + 1].clone() })
        } else {
            None
        }
    }

    /// The common tab bindings.
    fn common_key(&mut self, key: KeyEvent) -> (r: Option<Cmd>)
        ensures
            common_outcome(*old(self), key, *final(self), r),
            final(self).tabs == old(self).tabs,
    {
        let tab = self.tab();
        match key.code {
            KeyCode::Char('E') if tab == Some(Tab::Overview) => {
                self.open_decisions();
                None
            },
            KeyCode::Tab => self.cycle_tab(true),
            KeyCode::BackTab => self.cycle_tab(false),
            KeyCode::Up => {
                self.selected = self.selected.saturating_sub(1);
                None
            },
            KeyCode::Down => {
                self.selected = self.selected.saturating_add(1);
                None
            },
            _ => None,
        }
    }
}

impl App {
    /// Insert a pasted payload into whatever text field has the caret, in
    /// the keyboard's order of precedence: an armed kill is cancelled by it;
    /// the hand-back note takes it; the attached harness is sent it; an open
    /// prompt takes it on one line; the picker's path box takes it; any other
    /// overlay, and any tab but Sessions, drops it; the Sessions composer
    /// takes it with line endings normalised, when one is drawn.
    pub fn on_paste(&mut self, text: &Vec<char>)
        requires
            old(self).draft.wf(),
            old(self).draft.text@.len() + text@.len() <= usize::MAX,
            old(self).prompt matches Some(p) ==> p.draft.wf() && p.draft.text@.len() + text@.len() <= usize::MAX,
            old(self).handback_prompt matches Some(p) ==> p.note.wf() && p.note.text@.len() + text@.len()
                <= usize::MAX,
            old(self).session_picker matches Some(p) ==> p.workspace_query@.len() + text@.len() <= usize::MAX,
        ensures
            paste_outcome(*old(self), *text, *final(self)),
            final(self).tabs == old(self).tabs,
            old(self).kill_armed is Some ==> final(self).kill_armed is None && final(self).status@
                == "Session kill cancelled"@ && *final(self) == (App {
                kill_armed: None,
                status: final(self).status,
                ..*old(self)
            }),
            old(self).kill_armed is None && old(self).handback_prompt is None ==> match old(self).attached {
                Some(s) => final(self).pending@.len() == old(self).pending@.len() + 1
                    && final(self).pending@.drop_last() == old(self).pending@ && (final(self).pending@.last() matches Cmd::PasteIntoHarness {
                    session,
                    text: t,
                } && session@ == s@ && t@ == text@) && *final(self) == (App { pending: final(self).pending, ..*old(self) }),
                None => true,
            },
            old(self).kill_armed is None && old(self).handback_prompt is None && old(self).attached is None ==> match old(self).prompt {
                Some(p) => final(self).prompt matches Some(q) && q.draft.text@ == spliced(
                    p.draft.text@,
                    p.draft.cursor as int,
                    crate::composer::flattened(text@),
                ) && q.kind == p.kind && *final(self) == (App { prompt: final(self).prompt, ..*old(self) }),
                None => true,
            },
            old(self).kill_armed is None && old(self).handback_prompt is None && old(self).attached is None
                && old(self).prompt is None && old(self).session_picker is None && old(self).visible_overlays_spec().len() == 0
                && old(self).tab_spec() == Some(Tab::Sessions) ==> if old(self).pane_session is None {
                &&& final(self).draft.text@ == spliced(
                    old(self).draft.text@,
                    old(self).draft.cursor as int,
                    crate::composer::normalized(text@),
                )
                &&& final(self).draft.wf()
                &&& final(self).agents_focus == AgentsFocus::Composer
                &&& final(self).command_index == 0
            } else {
                final(self).status@ == "Select a non-running session row to paste an instruction"@
                    && *final(self) == (App { status: final(self).status, ..*old(self) })
            },
            old(self).kill_armed is None && old(self).handback_prompt is None && old(self).attached is None
                && old(self).prompt is None && old(self).session_picker is None && old(self).tab_spec() != Some(
                Tab::Sessions,
            ) ==> *final(self) == *old(self),
            overlay_swallows_paste(*old(self)) ==> final(self).draft == old(self).draft,
    {
        if self.kill_armed.is_some() {
            self.kill_armed = None;
            self.set_status("Session kill cancelled");
            return;
        }
        if self.handback_prompt.is_some() {
            self.paste_into_handback_note(text);
            return;
        }
        match &self.attached {
            Some(s) => {
                let session = s.clone();
                let t = text.clone();
                self.pending.push(Cmd::PasteIntoHarness { session, text: t });
                assert(self.pending@.drop_last() =~= old(self).pending@);
                return;
            },
            None => {},
        }
        if self.prompt.is_some() {
            let flat = crate::composer::flatten_paste(text);
            match &mut self.prompt {
                Some(p) => p.draft.insert(&flat),
                None => {},
            }
            return;
        }
        if self.session_picker.is_some() {
            self.paste_into_harness_workspace(text);
            return;
        }
        if self.overlay_owns_keys() {
            return;
        }
        if self.tab() != Some(Tab::Sessions) {
            return;
        }
        if !self.agents_composer_shown() {
            self.set_status("Select a non-running session row to paste an instruction");
            return;
        }
        self.focus_agents_composer();
        let normal = crate::composer::normalize_paste(text);
        self.draft.insert(&normal);
        self.command_index = 0;
    }
}

impl App {
    /// Route a terminal event to the key, mouse, or paste handler and return
    /// any command the event loop must run. `takes_mouse` says whether the
    /// attached harness asked for mouse reports.
    pub fn on_event(&mut self, ev: Event, takes_mouse: bool) -> (r: Option<Cmd>)
        requires
            old(self).draft.wf(),
            old(self).draft.text@.len() < usize::MAX,
            old(self).prompt matches Some(p) ==> p.draft.wf() && p.draft.text@.len() < usize::MAX,
            old(self).handback_prompt matches Some(p) ==> p.note.wf() && p.note.text@.len() < usize::MAX,
            old(self).session_picker matches Some(p) ==> p.workspace_query@.len() < usize::MAX,
            old(self).history_index >= -1,
            old(self).history_index < old(self).history@.len(),
            old(self).history@.len() < i64::MAX,
            ev matches Event::Paste(t) ==> {
                &&& old(self).draft.text@.len() + t@.len() <= usize::MAX
                &&& old(self).prompt matches Some(p) ==> p.draft.text@.len() + t@.len() <= usize::MAX
                &&& old(self).handback_prompt matches Some(p) ==> p.note.text@.len() + t@.len() <= usize::MAX
                &&& old(self).session_picker matches Some(p) ==> p.workspace_query@.len() + t@.len() <= usize::MAX
            },
        ensures
            match ev {
                Event::Key(k) => key_outcome(*old(self), k, *final(self), r),
                Event::Mouse(m) => crate::pointer::mouse_outcome(*old(self), m, takes_mouse, *final(self), r),
                Event::Paste(t) => r is None && paste_outcome(*old(self), t, *final(self)),
                _ => r is None && *final(self) == *old(self),
            },
            final(self).tabs == old(self).tabs,
            ev matches Event::Paste(_) ==> r is None,
            (ev is KeyRelease || ev is Other) ==> r is None && *final(self) == *old(self),
    {
        match ev {
            Event::Key(k) => self.on_key(k),
            Event::Mouse(m) => self.on_mouse(m, takes_mouse),
            Event::Paste(text) => {
                self.on_paste(&text);
                None
            },
            _ => None,
        }
    }
}

impl App {
    /// The Sessions composer's keys while it holds the keyboard: text goes in
    /// at the caret, Backspace and Delete remove the character before it, the
    /// side arrows move it, and Enter submits the line (Shift or Alt with it
    /// breaks the line instead). `None` leaves the key to the tab.
    pub fn composer_key(&mut self, key: KeyEvent) -> (r: Option<Option<Cmd>>)
        requires
            old(self).draft.wf(),
            old(self).draft.text@.len() < usize::MAX,
        ensures
            final(self).tabs == old(self).tabs,
            composer_keyed(*old(self), key, *final(self), r),
    {
        match key.code {
            KeyCode::Char(c) => {
                if key.ctrl || key.alt {
                    return None;
                }
                self.draft.insert_char(c);
                self.command_index = 0;
                Some(None)
            },
            KeyCode::Backspace | KeyCode::Delete => {
                self.draft.delete_before();
                Some(None)
            },
            KeyCode::Left => {
                self.draft.left();
                Some(None)
            },
            KeyCode::Right => {
                self.draft.right();
                Some(None)
            },
            KeyCode::Enter => {
                if key.shift || key.alt {
                    self.draft.insert_char('\n');
                    return Some(None);
                }
                let value = crate::lists::copy_chars(&self.draft.text);
                let r = self.execute(&value);
                assert(value@ == old(self).draft.text@);
                Some(r)
            },
            _ => None,
        }
    }
}

/// What a key press does, as `App::on_key` states it.
pub open spec fn key_outcome(before: App, key: KeyEvent, after: App, r: Option<Cmd>) -> bool {
    &&& (after.tabs == before.tabs)
    &&& (match before.kill_armed {
                Some((worker, task_id)) => after.kill_armed is None && if key.code == KeyCode::Char('y')
                    && key.bare() {
                    r == Some(Cmd::KillTask { worker, task_id })
                } else {
                    r is None && after.status@ == "Session kill cancelled"@
                },
                None => true,
            })
    &&& (before.kill_armed is None ==> match before.harness_close_armed {
                Some(s) => {
                    &&& r is None
                    &&& after.harness_close_armed is None
                    &&& key.code == KeyCode::Char('y') && key.bare() ==> after.pending@
                        == before.pending@.push(Cmd::CloseSession(s))
                    &&& !(key.code == KeyCode::Char('y') && key.bare()) ==> after.status@
                        == "Harness close cancelled"@
                },
                None => true,
            })
    &&& (before.kill_armed is None && before.harness_close_armed is None && before.handback_prompt
                is Some ==> r is None)
    &&& (before.kill_armed is None && before.harness_close_armed is None && before.handback_prompt
                is None && before.attached is Some ==> r is None)
}

/// What a paste does, as `App::on_paste` states it.
pub open spec fn paste_outcome(before: App, text: Vec<char>, after: App) -> bool {
    &&& (after.tabs == before.tabs)
    &&& (before.kill_armed is Some ==> after.kill_armed is None && after.status@
                == "Session kill cancelled"@ && after == (App {
                kill_armed: None,
                status: after.status,
                ..before
            }))
    &&& (before.kill_armed is None && before.handback_prompt is None ==> match before.attached {
                Some(s) => after.pending@.len() == before.pending@.len() + 1
                    && after.pending@.drop_last() == before.pending@ && (after.pending@.last() matches Cmd::PasteIntoHarness {
                    session,
                    text: t,
                } && session@ == s@ && t@ == text@) && after == (App { pending: after.pending, ..before }),
                None => true,
            })
    &&& (before.kill_armed is None && before.handback_prompt is None && before.attached is None ==> match before.prompt {
                Some(p) => after.prompt matches Some(q) && q.draft.text@ == spliced(
                    p.draft.text@,
                    p.draft.cursor as int,
                    crate::composer::flattened(text@),
                ) && q.kind == p.kind && after == (App { prompt: after.prompt, ..before }),
                None => true,
            })
    &&& (before.kill_armed is None && before.handback_prompt is None && before.attached is None
                && before.prompt is None && before.session_picker is None && before.visible_overlays_spec().len() == 0
                && before.tab_spec() == Some(Tab::Sessions) ==> if before.pane_session is None {
                &&& after.draft.text@ == spliced(
                    before.draft.text@,
                    before.draft.cursor as int,
                    crate::composer::normalized(text@),
                )
                &&& after.draft.wf()
                &&& after.agents_focus == AgentsFocus::Composer
                &&& after.command_index == 0
            } else {
                after.status@ == "Select a non-running session row to paste an instruction"@
                    && after == (App { status: after.status, ..before })
            })
    &&& (before.kill_armed is None && before.handback_prompt is None && before.attached is None
                && before.prompt is None && before.session_picker is None && before.tab_spec() != Some(
                Tab::Sessions,
            ) ==> after == before)
    &&& (overlay_swallows_paste(before) ==> after.draft == before.draft)
}

/// Whether something stands in front of the composer and takes a paste: an
/// armed kill, an attached harness, or any overlay on screen.
pub open spec fn overlay_swallows_paste(app: App) -> bool {
    app.kill_armed is Some || app.attached is Some || app.visible_overlays_spec().len() > 0
}

/// What a key does to the open inline prompt, as `App::prompt_key` states it.
pub open spec fn prompt_outcome(before: App, key: KeyEvent, after: App, r: Option<Cmd>) -> bool {
    &&& (key.ctrl && key.code == KeyCode::Char('c') ==> after.should_quit && r is None
                && after.prompt == before.prompt)
    &&& (!(key.ctrl && key.code == KeyCode::Char('c')) && key.code == KeyCode::Esc ==> after.prompt
                is None && after.status@ == "Cancelled"@ && r is None)
    &&& (after.tabs == before.tabs)
}

/// What a key does to the open resume picker, as `App::resume_picker_key` states it.
pub open spec fn resume_outcome(before: App, key: KeyEvent, after: App, r: Option<Cmd>) -> bool {
    &&& (key.code == KeyCode::Char('c') && key.ctrl ==> after.should_quit && r is None)
    &&& (key.code == KeyCode::Esc ==> after.resume_picker is None && r is None)
    &&& (key.code == KeyCode::Enter ==> after.resume_picker is None && match before.resume_picker {
                Some(p) => if p.index < p.chats@.len() {
                    r == Some(Cmd::Resume(p.chats@[p.index as int]))
                } else {
                    r is None
                },
                None => true,
            })
    &&& (after.tabs == before.tabs)
}

/// What a key does to the open decision queue, as `App::handle_decision_key` states it.
pub open spec fn decision_key_outcome(before: App, code: KeyCode, after: App) -> bool {
    &&& (code == KeyCode::Esc ==> !after.decisions.open && after.status@
                == "Decision queue closed"@)
    &&& (after.tabs == before.tabs)
    &&& (after.decisions.items == before.decisions.items)
}

/// What stepping to the next or previous tab does.
pub open spec fn tab_cycled(before: App, forward: bool, after: App, r: Option<Cmd>) -> bool {
    &&& (after.tab_index == (if forward {
                next_tab(before.tab_index, before.tabs@.len())
            } else {
                prev_tab(before.tab_index, before.tabs@.len())
            }))
    &&& (after.selected == 0)
    &&& (r == crate::settings::entry_cmd(after.tab_spec(), after.settings_page_spec()))
    &&& (after == (App { tab_index: after.tab_index, selected: 0, ..before }))
}

/// Whether a key is one of the global `Ctrl` chords.
pub open spec fn is_chord(key: KeyEvent) -> bool {
    key.ctrl && (key.code == KeyCode::Char('c') || key.code == KeyCode::Char('o') || key.code == KeyCode::Char('y')
        || key.code == KeyCode::Char('x') || key.code == KeyCode::Char('n') || key.code == KeyCode::Char('t')
        || key.code == KeyCode::Char('g'))
}

/// Whether a tab has bindings of its own beyond the common ones.
pub open spec fn tab_has_keys(tab: Option<Tab>) -> bool {
    tab == Some(Tab::Feedback) || tab == Some(Tab::Settings) || tab == Some(Tab::Hosts) || tab == Some(Tab::Changes)
        || tab == Some(Tab::Sessions)
}

/// What the global chords and the common tab bindings do: `Ctrl-C` quits,
/// `Ctrl-O` toggles mouse capture, `Ctrl-Y` copies the chat, `Ctrl-X` asks
/// to abort, `Ctrl-N` starts a new thread, `Ctrl-T` opens the session
/// picker, `Ctrl-G` grabs or gives back the pane's harness; `Ctrl-↑` and
/// `Ctrl-↓` on Sessions walk the open threads. The Sessions, Workflows,
/// Feedback, Settings and Changes tabs, and the page of the Hosts tab for a
/// key its menu leaves to it, take the keys they bind first. Otherwise, on a tab with no
/// bindings of its own, `E` on Overview opens the decision queue, Tab and
/// BackTab step through the tabs, the arrows move the selection, and any
/// other key does nothing.
pub open spec fn tab_outcome(before: App, key: KeyEvent, after: App, r: Option<Cmd>) -> bool {
    &&& after.tabs == before.tabs
    &&& is_chord(key) ==> chord_outcome(before, key, after, r)
    &&& !is_chord(key) && !tab_has_keys(before.tab_spec()) && !on_workflows(before) ==> common_outcome(before, key, after, r)
    &&& !is_chord(key) && on_workflows(before) ==> workflows_taken(before, key, after, r)
    &&& !is_chord(key) && before.tab_spec() == Some(Tab::Feedback) ==> feedback_taken(before, key, after, r)
    &&& !is_chord(key) && before.tab_spec() == Some(Tab::Settings) ==> exists|
        k: crate::settings::SettingsKey,
        mid: App,
    |
        #[trigger] crate::settings::settings_keyed(before, key.code, mid, k) && match k {
            crate::settings::SettingsKey::Handled(c) => r == c && after == mid,
            crate::settings::SettingsKey::Unhandled => common_outcome(mid, key, after, r),
        }
    &&& !is_chord(key) && !is_thread_chord(before, key) && before.tab_spec() == Some(Tab::Sessions) ==> exists|
        s: Option<Option<Cmd>>,
        mid: App,
    |
        #[trigger] sessions_keyed(before, key, mid, s) && match s {
            Some(c) => r == c && after == mid,
            None => common_outcome(mid, key, after, r),
        }
    &&& !is_chord(key) && before.tab_spec() == Some(Tab::Hosts) && crate::hosts::nav_passes(
        before.menus.routing_focused,
        key.code,
    ) ==> routing_taken(before, key, after, r)
    &&& !is_chord(key) && before.tab_spec() == Some(Tab::Hosts) && !crate::hosts::nav_passes(
        before.menus.routing_focused,
        key.code,
    ) ==> crate::hosts::routing_nav_keyed(before, key.code, after, crate::settings::SettingsKey::Handled(r))
    &&& !is_chord(key) && before.tab_spec() == Some(Tab::Changes) ==> if !key.ctrl && !key.alt && changes_key_taken(
        key.code,
    ) {
        r is None && changes_keyed(before, key.code, after)
    } else {
        common_outcome(before, key, after, r)
    }
    &&& !is_chord(key) && is_thread_chord(before, key) ==> thread_switched(before, key.code == KeyCode::Up, after, r)
}

/// Whether `key` is `Ctrl-↑` or `Ctrl-↓` on the Sessions tab, which walk the open threads.
pub open spec fn is_thread_chord(app: App, key: KeyEvent) -> bool {
    key.ctrl && (key.code == KeyCode::Up || key.code == KeyCode::Down) && app.tab_spec() == Some(Tab::Sessions)
}

/// The previous (`up`) or next open thread was asked to become the active
/// one, with the conversation scrolled back to its end; at either end of the
/// list nothing happens.
pub open spec fn thread_switched(before: App, up: bool, after: App, r: Option<Cmd>) -> bool {
    let next: int = if up { before.active_thread - 1 } else { before.active_thread + 1 };
    if 0 <= next < before.threads@.len() {
        (r matches Some(Cmd::SwitchThread { id }) && id@ == before.threads@[next]@) && after == (App {
            agent_scroll: 0,
            ..before
        })
    } else {
        r is None && after == before
    }
}

/// A key on the Feedback tab: what the board does with it, or, for a key the
/// board does not bind, what the common bindings do.
pub open spec fn feedback_taken(before: App, key: KeyEvent, after: App, r: Option<Cmd>) -> bool {
    if crate::settings::feedback_binds(key.code) {
        crate::settings::feedback_keyed(before, key.code, after, crate::settings::SettingsKey::Handled(r))
    } else {
        common_outcome(before, key, after, r)
    }
}

/// A key the Hosts tab's menu leaves to its page: what the page does with
/// it, or, for a key the page does not take, what the common bindings do.
pub open spec fn routing_taken(before: App, key: KeyEvent, after: App, r: Option<Cmd>) -> bool {
    exists|k: crate::settings::SettingsKey, mid: App|
        #[trigger] crate::hosts::routing_page_keyed(before, key.code, mid, k) && match k {
            crate::settings::SettingsKey::Handled(c) => r == c && after == mid,
            crate::settings::SettingsKey::Unhandled => common_outcome(mid, key, after, r),
        }
}

/// Whether the Workflows tab is shown, its copilot draft within bounds.
pub open spec fn on_workflows(app: App) -> bool {
    app.tab_spec() == Some(Tab::Workflows) && app.wf.draft.cursor <= app.wf.draft.text@.len()
        && app.wf.draft.text@.len() < usize::MAX
}

/// A key on the Workflows tab: what its focused pane does with it, or, for a
/// key the pane does not bind, what the common bindings do.
pub open spec fn workflows_taken(before: App, key: KeyEvent, after: App, r: Option<Cmd>) -> bool {
    if workflows_binds(before.wf, key.code, key.alt) {
        workflows_outcome(before, key.code, key.shift, key.alt, after, WorkflowsKey::Handled(r))
    } else {
        common_outcome(before, key, after, r)
    }
}

/// What a global chord does.
pub open spec fn chord_outcome(before: App, key: KeyEvent, after: App, r: Option<Cmd>) -> bool {
    let code = key.code;
    &&& code == KeyCode::Char('c') ==> r is None && after == (App { should_quit: true, ..before })
    &&& code == KeyCode::Char('o') ==> r is None && mouse_toggled(before, after)
    &&& code == KeyCode::Char('y') ==> r == Some(Cmd::CopyChat(crate::commands::CopyScope::All)) && after == before
    &&& code == KeyCode::Char('x') ==> r == Some(Cmd::Abort) && after.status@ == "Abort requested"@ && after == (
    App { status: after.status, ..before })
    &&& code == KeyCode::Char('n') ==> (r matches Some(c) && thread_started(before, after, c))
    &&& code == KeyCode::Char('t') ==> r is None && session_picker_opened(before, after)
    &&& code == KeyCode::Char('g') ==> r is None && harness_toggled(before, after)
}

/// What the common tab bindings do.
pub open spec fn common_outcome(before: App, key: KeyEvent, after: App, r: Option<Cmd>) -> bool {
    let code = key.code;
    if code == KeyCode::Char('E') && before.tab_spec() == Some(Tab::Overview) {
        r is None && decisions_opened(before, after)
    } else if code == KeyCode::Tab {
        tab_cycled(before, true, after, r)
    } else if code == KeyCode::BackTab {
        tab_cycled(before, false, after, r)
    } else if code == KeyCode::Up {
        r is None && after == (App {
            selected: if before.selected > 0 { (before.selected - 1) as usize } else { 0 },
            ..before
        })
    } else if code == KeyCode::Down {
        r is None && after == (App {
            selected: if before.selected < usize::MAX { (before.selected + 1) as usize } else { usize::MAX },
            ..before
        })
    } else {
        r is None && after == before
    }
}

/// Where a key goes when no confirmation, hand-back prompt or attached
/// harness took it: the open prompt takes it; else the session picker
/// (`Ctrl-C` quits); else the resume picker; else the decision queue
/// (`Ctrl-C` quits); else the tab.
pub open spec fn route_outcome(before: App, key: KeyEvent, after: App, r: Option<Cmd>) -> bool {
    let quit = key.ctrl && key.code == KeyCode::Char('c');
    if before.prompt is Some {
        prompt_outcome(before, key, after, r)
    } else if before.session_picker is Some {
        r is None && if quit {
            after == (App { should_quit: true, ..before })
        } else {
            crate::harness::picker_key_outcome(before, key, after)
        }
    } else if before.resume_picker is Some {
        resume_outcome(before, key, after, r)
    } else if before.decisions.open {
        r is None && if quit {
            after == (App { should_quit: true, ..before })
        } else {
            decision_key_outcome(before, key.code, after)
        }
    } else {
        tab_outcome(before, key, after, r)
    }
}

/// What a key press does, in the keyboard's order of precedence: an armed
/// kill is confirmed by `y` and cancelled by any other key, nothing else
/// changing; an armed close likewise; the hand-back question answers the
/// key; an attached harness is sent it (`Ctrl-]` releases it); Enter or
/// `Ctrl-]` over a session pane with no overlay attaches the keyboard; and
/// any other key goes on to [`route_outcome`].
pub open spec fn key_routed(before: App, key: KeyEvent, after: App, r: Option<Cmd>) -> bool {
    let yes = key.code == KeyCode::Char('y') && key.bare();
    match before.kill_armed {
        Some(t) => after == (App { kill_armed: None, status: after.status, ..before }) && (yes ==> after.status@
            == "Killing the session for "@ + t.1@ + "…"@) && (!yes ==> after.status@ == "Session kill cancelled"@),
        None => match before.harness_close_armed {
            Some(s) => r is None && if yes {
                after.pending@ == before.pending@.push(Cmd::CloseSession(s)) && after == (App {
                    harness_close_armed: None,
                    pending: after.pending,
                    ..before
                })
            } else {
                after == (App { harness_close_armed: None, status: after.status, ..before }) && after.status@
                    == "Harness close cancelled"@
            },
            None => if before.handback_prompt is Some {
                r is None && crate::harness::handback_answered(before, key.code, after)
            } else {
                match before.attached {
                    Some(s) => r is None && if key.focus_chord_spec() {
                        after == (App {
                            attached: None,
                            agents_focus: AgentsFocus::Rail,
                            status: after.status,
                            ..before
                        }) && after.status@ == "Released the session · Ctrl-] to type again"@
                    } else {
                        after.pending@ == before.pending@.push(Cmd::KeyToHarness { session: s, key }) && after == (
                        App { pending: after.pending, ..before })
                    },
                    None => {
                        let enter = key.code == KeyCode::Enter && key.bare() && before.pane_view == PaneView::Harness
                            && before.pane_session is Some;
                        if before.visible_overlays_spec().len() == 0 && (enter || key.focus_chord_spec()) {
                            r is None && crate::harness::pane_attached(before, after)
                        } else {
                            route_outcome(before, key, after, r)
                        }
                    },
                }
            },
        },
    }
}

/// What the Sessions rail does with a key, as `App::on_agents_rail_key` states it.
pub open spec fn agents_rail_outcome(before: App, key: KeyEvent, after: App, r: AgentsKey) -> bool {
    &&& (before.agents_focus == AgentsFocus::Rail || before.pane_session is Some ==> if pane_detail_takes(
                before,
                key,
            ) {
                r matches AgentsKey::Handled(None) && pane_detail_keyed(before, key, after)
            } else {
                rail_keyed(before, key, after, r)
            })
    &&& (after.tabs == before.tabs)
    &&& (!(before.agents_focus == AgentsFocus::Rail || before.pane_session is Some) ==> r is Unhandled
                && after == before)
}

/// What a key does in the Sessions composer: a character typed without
/// Ctrl or Alt goes in at the caret; Backspace and Delete remove the
/// character before it; Left and Right move it; Shift- or Alt-Enter breaks
/// the line and Enter submits the draft as `App::execute` states; any other
/// key is not the composer's.
pub open spec fn composer_keyed(before: App, key: KeyEvent, after: App, r: Option<Option<Cmd>>) -> bool {
    let d = before.draft;
    match key.code {
        KeyCode::Char(c) => if !key.ctrl && !key.alt {
            &&& r == Some(None::<Cmd>)
            &&& after.draft.text@ == spliced(d.text@, d.cursor as int, seq![c]) && after.draft.cursor == d.cursor + 1
            &&& after == (App { draft: after.draft, command_index: 0, ..before })
        } else {
            r is None && after == before
        },
        KeyCode::Backspace | KeyCode::Delete => {
            &&& r == Some(None::<Cmd>)
            &&& if d.cursor > 0 {
                after.draft.text@ == d.text@.remove(d.cursor - 1) && after.draft.cursor == d.cursor - 1
            } else {
                after.draft == d
            }
            &&& after == (App { draft: after.draft, ..before })
        },
        KeyCode::Left => {
            &&& r == Some(None::<Cmd>)
            &&& after.draft.text == d.text && after.draft.cursor == (if d.cursor > 0 { d.cursor - 1 } else { 0 })
            &&& after == (App { draft: after.draft, ..before })
        },
        KeyCode::Right => {
            &&& r == Some(None::<Cmd>)
            &&& after.draft.text == d.text && after.draft.cursor == (if d.cursor < d.text@.len() {
                d.cursor + 1
            } else {
                d.text@.len() as int
            })
            &&& after == (App { draft: after.draft, ..before })
        },
        KeyCode::Enter => if key.shift || key.alt {
            &&& r == Some(None::<Cmd>)
            &&& after.draft.text@ == spliced(d.text@, d.cursor as int, seq!['\n']) && after.draft.cursor == d.cursor + 1
            &&& after == (App { draft: after.draft, ..before })
        } else {
            r matches Some(c) && crate::commands::executed(before, d.text, after, c)
        },
        _ => r is None && after == before,
    }
}

/// Whether the Sessions composer's caret and length are within bounds.
pub open spec fn draft_ok(a: App) -> bool {
    a.draft.cursor <= a.draft.text@.len() && a.draft.text@.len() < usize::MAX
}

/// What the Sessions tab does with a key: the rail (or the diff beside an
/// open pane) first, then the composer when it is focused and shown, then
/// the Alt chords on the rail; `None` when none of them takes it.
pub open spec fn sessions_keyed(before: App, key: KeyEvent, after: App, r: Option<Option<Cmd>>) -> bool {
    if draft_ok(before) {
        exists|k: AgentsKey, mid: App|
            #[trigger] agents_rail_outcome(before, key, mid, k) && match k {
                AgentsKey::Handled(c) => r == Some(c) && after == mid,
                AgentsKey::Unhandled => after_rail(mid, key, after, r),
            }
    } else {
        after_rail(before, key, after, r)
    }
}

/// What a key the rail left does: the composer takes it when focused and
/// shown, else the Alt chords on the rail.
pub open spec fn after_rail(mid: App, key: KeyEvent, after: App, r: Option<Option<Cmd>>) -> bool {
    if mid.agents_focus == AgentsFocus::Composer && mid.pane_session is None && draft_ok(mid) {
        exists|c: Option<Option<Cmd>>, mid2: App|
            #[trigger] composer_keyed(mid, key, mid2, c) && match c {
                Some(x) => r == Some(x) && after == mid2,
                None => alt_rail_keyed(mid2, key, after, r),
            }
    } else {
        alt_rail_keyed(mid, key, after, r)
    }
}

/// What the Alt chords on the Sessions rail do: the arrows move the rail
/// cursor (back to the end of the conversation) and retarget the watched
/// task, `X` cancels and `A` answers the selected task; no other key is
/// theirs.
pub open spec fn alt_rail_keyed(before: App, key: KeyEvent, after: App, r: Option<Option<Cmd>>) -> bool {
    let code = key.code;
    if key.alt && (code == KeyCode::Up || code == KeyCode::Down) {
        let m = rail_moved(App { agent_scroll: 0, ..before }, code == KeyCode::Up);
        &&& r matches Some(c)
        &&& target_view(after.watching) == m.watch_target_spec()
        &&& after == (App { watching: after.watching, ..m })
        &&& target_view(m.watching) == m.watch_target_spec() ==> r == Some(None::<Cmd>) && after.watching == m.watching
        &&& target_view(m.watching) != m.watch_target_spec() ==> (r matches Some(Some(Cmd::WatchTask { stop, start }))
            && target_view(stop) == target_view(m.watching) && target_view(start) == m.watch_target_spec())
    } else if key.alt && (code == KeyCode::Char('X') || code == KeyCode::Char('x')) {
        r matches Some(c) && task_cancel_outcome(before, after, c)
    } else if key.alt && (code == KeyCode::Char('A') || code == KeyCode::Char('a')) {
        r == Some(None::<Cmd>) && task_answer_outcome(before, after)
    } else {
        r is None && after == before
    }
}

/// On the Changes review the arrows walk the file list: Up selects the
/// previous file and Down the next, neither moving past the ends of the
/// list, and the new file is reviewed from its top with its patch asked for
/// again.
pub proof fn law_changes_arrows_walk_the_files(before: App, code: KeyCode, after: App)
    requires
        changes_keyed(before, code, after),
        code == KeyCode::Up || code == KeyCode::Down,
        before.changes.files@.len() <= usize::MAX,
    ensures
        ({
            let s = before.changes.selected as int;
            let n = before.changes.files@.len() as int;
            let last = if n > 0 { n - 1 } else { 0 };
            &&& code == KeyCode::Up ==> after.changes.selected == (if s <= 0 {
                0
            } else if s - 1 < last {
                s - 1
            } else {
                last
            })
            &&& code == KeyCode::Down ==> after.changes.selected == (if s + 1 < last { s + 1 } else { last })
            &&& code == KeyCode::Up && 0 < s < n ==> after.changes.selected == s - 1
            &&& code == KeyCode::Down && s + 1 < n ==> after.changes.selected == s + 1
            &&& code == KeyCode::Up && s < n ==> after.changes.selected <= s
            &&& code == KeyCode::Down && s < n ==> after.changes.selected >= s
            &&& after.changes.files == before.changes.files
            &&& after.changes.cursor == 0 && after.changes.scroll == 0
            &&& after.pending@ == before.pending@.push(Cmd::RefreshChanges)
        }),
{
}

/// On the Changes review `k` and PageUp move the line cursor up the patch
/// (by one line and by ten) and `j` and PageDown down it, stopping at the
/// first and last lines; the file selection stays.
pub proof fn law_changes_cursor_follows_the_keys(before: App, code: KeyCode, after: App)
    requires
        changes_keyed(before, code, after),
        code == KeyCode::Char('k') || code == KeyCode::Char('j') || code == KeyCode::PageUp || code == KeyCode::PageDown,
        before.changes.patch@.len() <= usize::MAX,
    ensures
        ({
            let c = before.changes.cursor as int;
            let n = before.changes.patch@.len() as int;
            let last = if n > 0 { n - 1 } else { 0 };
            let step: int = if code == KeyCode::Char('k') {
                -1
            } else if code == KeyCode::Char('j') {
                1
            } else if code == KeyCode::PageUp {
                -10
            } else {
                10
            };
            let target = if c + step < 0 { 0 } else { c + step };
            &&& after.changes.cursor == (if target < last { target } else { last })
            &&& c < n && step < 0 ==> after.changes.cursor <= c
            &&& c < n && step > 0 ==> after.changes.cursor >= c
            &&& after.changes.selected == before.changes.selected
            &&& after == (App { changes: after.changes, ..before })
        }),
{
}

} // verus!
