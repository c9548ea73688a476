//! Turning resolved input into work: the composer line and its slash
//! commands, prompt history, the inline prompt's submission, and task
//! steering.
use vstd::prelude::*;

use crate::app::{owned, App, Cmd, Prompt, PromptKind, SettingsPage, Tab};
use crate::composer::Draft;
use crate::rail::{AgentRow, RailRow, TaskState};
use crate::text::{push_all, push_str, string_of, trim, trim_of};

verus! {

/// How much of the chat a copy takes.
#[derive(Clone, Copy, Debug, PartialEq, Eq, Structural)]
pub enum CopyScope {
    Last,
    All,
}

/// A composer line that starts with `/`.
pub enum SlashCommand {
    Quit,
    NewSession,
    Resume,
    NewHarness { provider: Option<String>, path: Option<String> },
    TakeControl,
    HandOff { note: Option<String> },
    Abort,
    ClearView,
    Help,
    Config,
    Settings,
    Usage,
    Feedback,
    ToggleMouse,
    Copy(CopyScope),
    /// A known command used wrongly, with the usage line to show.
    BadUsage(String),
    Unknown(String),
}

/// The first word of `s` (up to a space) and what follows it, trimmed.
pub open spec fn split_word(s: Seq<char>) -> (Seq<char>, Seq<char>) {
    let k = crate::git::next_char(s, 0, ' ');
    (s.take(k), if k < s.len() {
        trim(s.skip(k + 1))
    } else {
        Seq::empty()
    })
}

/// Split off the first word.
fn split_first_word(s: &Vec<char>) -> (r: (Vec<char>, Vec<char>))
    ensures
        r.0@ == split_word(s@).0,
        r.1@ == split_word(s@).1,
{
    let mut k: usize = 0;
    while k < s.len() && s[k] != ' '
        invariant
            k <= s@.len(),
            crate::git::next_char(s@, 0, ' ') == crate::git::next_char(s@, k as int, ' '),
        decreases s.len() - k,
    {
        k = k + 1;
    }
    let mut head: Vec<char> = Vec::new();
    let mut i: usize = 0;
    while i < k
        invariant
            i <= k <= s@.len(),
            head@ == s@.take(i as int),
        decreases k - i,
    {
        head.push(s[i]);
        i = i + 1;
        assert(head@ =~= s@.take(i as int));
    }
    let mut rest: Vec<char> = Vec::new();
    if k < s.len() {
        let mut j = k + 1;
        while j < s.len()
            invariant
                k + 1 <= j <= s@.len(),
                rest@ == s@.subrange(k + 1, j as int),
            decreases s.len() - j,
        {
            rest.push(s[j]);
            j = j + 1;
            assert(rest@ =~= s@.subrange(k + 1, j as int));
        }
        assert(rest@ =~= s@.skip(k + 1));
    }
    let rest = if k < s.len() {
        trim_of(&rest)
    } else {
        rest
    };
    (head, rest)
}

/// Whether `a` spells the literal `b`.
fn is_word(a: &Vec<char>, b: &str) -> (r: bool)
    ensures
        r == (a@ == b@),
{
    let w = crate::text::chars_of(b);
    crate::text::same(a, &w)
}

/// A non-empty text as an owned string, `None` when empty.
fn nonempty(s: &Vec<char>) -> (r: Option<String>)
    ensures
        match r {
            Some(t) => s@.len() > 0 && t@ == s@,
            None => s@.len() == 0,
        },
{
    if s.len() == 0 {
        None
    } else {
        Some(string_of(s.as_slice()))
    }
}

/// A text as given when it is not empty.
pub open spec fn nonempty_spec(s: Seq<char>) -> Option<Seq<char>> {
    if s.len() == 0 {
        None
    } else {
        Some(s)
    }
}

/// An optional string as plain text.
pub open spec fn opt_chars(s: Option<String>) -> Option<Seq<char>> {
    match s {
        Some(t) => Some(t@),
        None => None,
    }
}

/// Whether `c` is what the slash line `line` asks for: its first word names
/// the command, and the rest of the line its arguments.
pub open spec fn slash_matches(line: Seq<char>, c: SlashCommand) -> bool {
    let (w, rest) = split_word(line.skip(1));
    if w == "quit"@ || w == "exit"@ {
        c is Quit
    } else if w == "new"@ {
        c is NewSession
    } else if w == "resume"@ {
        c is Resume
    } else if w == "harness"@ {
        c matches SlashCommand::NewHarness { provider, path } && opt_chars(provider) == nonempty_spec(
            split_word(rest).0,
        ) && opt_chars(path) == nonempty_spec(split_word(rest).1)
    } else if w == "take"@ {
        c is TakeControl
    } else if w == "handoff"@ {
        c matches SlashCommand::HandOff { note } && opt_chars(note) == nonempty_spec(rest)
    } else if w == "abort"@ {
        c is Abort
    } else if w == "clear"@ {
        c is ClearView
    } else if w == "help"@ {
        c is Help
    } else if w == "config"@ {
        c is Config
    } else if w == "settings"@ {
        c is Settings
    } else if w == "usage"@ {
        c is Usage
    } else if w == "feedback"@ {
        c is Feedback
    } else if w == "mouse"@ {
        c is ToggleMouse
    } else if w == "copy"@ {
        c matches SlashCommand::Copy(scope) && (scope is Last <==> rest == "last"@)
    } else {
        c matches SlashCommand::Unknown(t) && t@ == line
    }
}

/// What running a parsed slash command does, nothing else changing beyond
/// what each names: `/quit` quits; `/new` starts a new thread; `/resume` asks
/// for the saved chats; `/harness` starts a harness as `harness_command_started`
/// states; `/take` takes the selected harness and `/handoff` hands it back;
/// `/abort` asks to abort; `/clear` resets the view; `/help`, `/usage`,
/// `/config` and `/settings` open their Settings page (the last two with the
/// page focused), `/usage` asking for its data; `/feedback` opens the
/// Feedback tab and reloads the board; `/mouse` toggles mouse capture;
/// `/copy` copies the chat; a usage error or an unknown command is reported
/// in the status line.
pub open spec fn slash_dispatched(before: App, command: SlashCommand, after: App, r: Option<Cmd>) -> bool {
    &&& after.tabs == before.tabs
    &&& after.history == before.history && after.history_index == before.history_index
    &&& before.draft.text@.len() == 0 ==> after.draft.text@.len() == 0
    &&& match command {
        SlashCommand::Quit => r is None && after == (App { should_quit: true, ..before }),
        SlashCommand::NewSession => r matches Some(c) && thread_started(before, after, c),
        SlashCommand::Resume => r == Some(Cmd::ListChats) && after == before,
        SlashCommand::NewHarness { provider, path } => r is None && crate::harness::harness_command_started(
            before,
            provider,
            path,
            after,
        ),
        SlashCommand::TakeControl => r is None && crate::harness::control_taken(before, after),
        SlashCommand::HandOff { note } => r is None && crate::harness::harness_handed_back(before, note, after),
        SlashCommand::Abort => r == Some(Cmd::Abort) && after.status@ == "Abort requested"@ && after == (App {
            status: after.status,
            ..before
        }),
        SlashCommand::ClearView => r is None && after.status@ == "View reset (runtime history is retained)"@
            && after == (App { selected: 0, status: after.status, ..before }),
        SlashCommand::Help => r is None && exists|c: Option<Cmd>| #[trigger] page_opened(before, SettingsPage::Help, after, c),
        SlashCommand::Config => r is None && exists|c: Option<Cmd>|
            #[trigger] page_entered(before, SettingsPage::Config, after, c),
        SlashCommand::Settings => r is None && exists|c: Option<Cmd>|
            #[trigger] page_entered(before, SettingsPage::Appearance, after, c),
        SlashCommand::Usage => page_opened(before, SettingsPage::Usage, after, r),
        SlashCommand::Feedback => {
            let t = match before.tab_pos_spec(Tab::Feedback) {
                Some(i) => i as usize,
                None => before.tab_index,
            };
            &&& after.status@ == "Feedback · loading the board…"@
            &&& crate::feedback::feedback_reloaded(App { tab_index: t, status: after.status, ..before }, after, r)
        },
        SlashCommand::ToggleMouse => r is None && crate::app::mouse_toggled(before, after),
        SlashCommand::Copy(scope) => r == Some(Cmd::CopyChat(scope)) && after == before,
        SlashCommand::BadUsage(usage) => r is None && after.status@ == usage@ && after == (App {
            status: after.status,
            ..before
        }),
        SlashCommand::Unknown(input) => r is None && after.status@ == "Unknown command: "@ + input@ && after == (App {
            status: after.status,
            ..before
        }),
    }
}

/// Settings page `page` is shown from the menu, when the tab has one; `r`
/// is what the page asks for on arrival.
pub open spec fn page_opened(before: App, page: SettingsPage, after: App, r: Option<Cmd>) -> bool {
    let pages = before.menus.settings_pages@;
    if exists|i: int| crate::settings::first_page_at(pages, page, i) {
        exists|i: usize|
            #[trigger] crate::settings::first_page_at(pages, page, i as int) && crate::settings::subpage_set(
                before,
                i,
                after,
                r,
            )
    } else {
        r is None && after == before
    }
}

/// Settings page `page` is shown with the page itself focused, when the tab
/// has one.
pub open spec fn page_entered(before: App, page: SettingsPage, after: App, r: Option<Cmd>) -> bool {
    let pages = before.menus.settings_pages@;
    if exists|i: int| crate::settings::first_page_at(pages, page, i) {
        exists|i: usize|
            #[trigger] crate::settings::first_page_at(pages, page, i as int) && crate::settings::subpage_entered(
                before,
                i,
                after,
                r,
            )
    } else {
        r is None && after == before
    }
}

/// The state after a submitted line `line` is recorded: it ends the
/// history, the history cursor is reset and the draft is empty.
pub open spec fn line_recorded(before: App, line: Seq<char>, after: App) -> bool {
    &&& after.history@.len() == before.history@.len() + 1
    &&& after.history@.drop_last() == before.history@
    &&& after.history@.last()@ == line
    &&& after.draft.text@.len() == 0
    &&& after == (App { history: after.history, history_index: -1i64, draft: after.draft, ..before })
}

/// Parse a trimmed composer line as a slash command; `None` when it is
/// ordinary text.
pub fn parse_slash(line: &Vec<char>) -> (r: Option<SlashCommand>)
    ensures
        (line@.len() == 0 || line@[0] != '/') <==> r is None,
        r matches Some(c) ==> slash_matches(line@, c),
{
    if line.len() == 0 || line[0] != '/' {
        return None;
    }
    let mut body: Vec<char> = Vec::new();
    let mut i: usize = 1;
    while i < line.len()
        invariant
            1 <= i <= line@.len(),
            body@ == line@.subrange(1, i as int),
        decreases line.len() - i,
    {
        body.push(line[i]);
        i = i + 1;
        assert(body@ =~= line@.subrange(1, i as int));
    }
    assert(body@ =~= line@.skip(1));
    let (word, rest) = split_first_word(&body);
    let cmd = if is_word(&word, "quit") || is_word(&word, "exit") {
        SlashCommand::Quit
    } else if is_word(&word, "new") {
        SlashCommand::NewSession
    } else if is_word(&word, "resume") {
        SlashCommand::Resume
    } else if is_word(&word, "harness") {
        let (provider, path) = split_first_word(&rest);
        SlashCommand::NewHarness { provider: nonempty(&provider), path: nonempty(&path) }
    } else if is_word(&word, "take") {
        SlashCommand::TakeControl
    } else if is_word(&word, "handoff") {
        SlashCommand::HandOff { note: nonempty(&rest) }
    } else if is_word(&word, "abort") {
        SlashCommand::Abort
    } else if is_word(&word, "clear") {
        SlashCommand::ClearView
    } else if is_word(&word, "help") {
        SlashCommand::Help
    } else if is_word(&word, "config") {
        SlashCommand::Config
    } else if is_word(&word, "settings") {
        SlashCommand::Settings
    } else if is_word(&word, "usage") {
        SlashCommand::Usage
    } else if is_word(&word, "feedback") {
        SlashCommand::Feedback
    } else if is_word(&word, "mouse") {
        SlashCommand::ToggleMouse
    } else if is_word(&word, "copy") {
        if is_word(&rest, "last") {
            SlashCommand::Copy(CopyScope::Last)
        } else {
            SlashCommand::Copy(CopyScope::All)
        }
    } else {
        SlashCommand::Unknown(string_of(line.as_slice()))
    };
    Some(cmd)
}

/// The history entry `next` steps back from the newest.
pub open spec fn recalled(history: Seq<String>, next: int) -> Seq<char> {
    if 0 <= next < history.len() {
        history[history.len() - 1 - next]@
    } else {
        Seq::empty()
    }
}

impl App {
    /// Put `text` in the composer with the caret at its end.
    fn set_draft(&mut self, text: Vec<char>)
        ensures
            final(self).draft.text@ == text@,
            final(self).draft.cursor == text@.len(),
            *final(self) == (App { draft: final(self).draft, ..*old(self) }),
    {
        self.draft = Draft::with_text(text);
    }

    /// Recall an older prompt from history into the composer.
    pub fn recall_older(&mut self)
        requires
            old(self).history_index >= -1,
            old(self).history_index < old(self).history@.len(),
            old(self).history@.len() < i64::MAX,
        ensures
            ({
                let next = crate::rail::min(old(self).history@.len() - 1, old(self).history_index + 1);
                if next >= 0 {
                    &&& final(self).history_index == next
                    &&& final(self).draft.text@ == recalled(old(self).history@, next)
                    &&& final(self).draft.cursor == final(self).draft.text@.len()
                    &&& *final(self) == (App {
                        history_index: final(self).history_index,
                        draft: final(self).draft,
                        ..*old(self)
                    })
                } else {
                    *final(self) == *old(self)
                }
            }),
    {
        let n = self.history.len() as i64;
        let up = self.history_index + 1;
        let next = if n - 1 < up {
            n - 1
        } else {
            up
        };
        if next >= 0 {
            self.history_index = next;
            let k = self.history.len() - 1 - (next as usize);
            let text = crate::text::chars_of_string(&self.history[k]);
            self.draft = Draft::with_text(text);
        }
    }

    /// Recall a newer prompt from history, or clear back to an empty draft.
    pub fn recall_newer(&mut self)
        requires
            old(self).history_index >= -1,
            old(self).history_index < old(self).history@.len(),
        ensures
            old(self).history_index >= 0 ==> {
                let next = old(self).history_index - 1;
                &&& final(self).history_index == next
                &&& final(self).draft.text@ == recalled(old(self).history@, next)
                &&& final(self).draft.cursor == final(self).draft.text@.len()
                &&& *final(self) == (App {
                    history_index: final(self).history_index,
                    draft: final(self).draft,
                    ..*old(self)
                })
            },
            old(self).history_index < 0 ==> *final(self) == *old(self),
    {
        if self.history_index >= 0 {
            let next = self.history_index - 1;
            self.history_index = next;
            let text = if next >= 0 {
                let k = self.history.len() - 1 - (next as usize);
                crate::text::chars_of_string(&self.history[k])
            } else {
                Vec::new()
            };
            self.draft = Draft::with_text(text);
        }
    }

    /// Open a new thread: the draft empties, the rail cursor returns to the
    /// top and the Sessions tab shows; the runtime opens the thread.
    pub fn new_thread(&mut self) -> (r: Cmd)
        ensures
            thread_started(*old(self), *final(self), r),
            r == Cmd::NewThread,
            final(self).draft.text@.len() == 0,
            final(self).agent_scroll == 0,
            final(self).agent_index == 0,
            final(self).tab_index == (match old(self).tab_pos_spec(Tab::Sessions) {
                Some(i) => i as usize,
                None => old(self).tab_index,
            }),
            *final(self) == (App {
                draft: final(self).draft,
                agent_scroll: 0,
                agent_index: 0,
                tab_index: final(self).tab_index,
                ..*old(self)
            }),
    {
        self.draft = Draft::new();
        self.agent_scroll = 0;
        self.agent_index = 0;
        match self.tab_pos(Tab::Sessions) {
            Some(i) => {
                self.tab_index = i;
            },
            None => {},
        }
        Cmd::NewThread
    }

    /// Say which thread the runtime opened.
    pub fn thread_opened(&mut self, name: &String)
        ensures
            final(self).status@ == "Opened "@ + name@ + " · ^↑↓ switches threads"@,
            *final(self) == (App { status: final(self).status, ..*old(self) }),
    {
        let mut t: Vec<char> = Vec::new();
        push_str(&mut t, "Opened ");
        push_str(&mut t, name.as_str());
        push_str(&mut t, " · ^↑↓ switches threads");
        self.status = string_of(t.as_slice());
    }

    /// Show Settings page `page` from the menu, or with the page focused
    /// when `enter`; returns what the page asks for on arrival.
    fn open_settings_page(&mut self, page: SettingsPage, enter: bool) -> (r: Option<Cmd>)
        ensures
            final(self).tabs == old(self).tabs,
            final(self).history == old(self).history && final(self).history_index == old(self).history_index,
            final(self).draft == old(self).draft,
            if enter {
                page_entered(*old(self), page, *final(self), r)
            } else {
                page_opened(*old(self), page, *final(self), r)
            },
    {
        match self.settings_pos(page) {
            Some(i) => {
                if enter {
                    let r = self.enter_settings_subpage(i);
                    proof {
                        let mid = choose|mid: App| #[trigger] crate::settings::subpage_set(*old(self), i, mid, r) && *self == (App {
                            menus: crate::app::Menus { settings_focused: true, ..mid.menus },
                            ..mid
                        });
                        assert(crate::settings::first_page_at(old(self).menus.settings_pages@, page, i as int));
                    }
                    r
                } else {
                    let r = self.set_settings_subpage(i);
                    assert(crate::settings::first_page_at(old(self).menus.settings_pages@, page, i as int));
                    r
                }
            },
            None => {
                assert(!exists|i: int| crate::settings::first_page_at(old(self).menus.settings_pages@, page, i));
                None
            },
        }
    }

    /// Perform a parsed slash command.
    #[verifier::rlimit(80)]
    #[verifier::spinoff_prover]
    pub fn dispatch_slash(&mut self, command: SlashCommand) -> (r: Option<Cmd>)
        ensures
            final(self).tabs == old(self).tabs,
            slash_dispatched(*old(self), command, *final(self), r),
    {
        match command {
            SlashCommand::Quit => {
                self.should_quit = true;
                None
            },
            SlashCommand::NewSession => Some(self.new_thread()),
            SlashCommand::Resume => Some(Cmd::ListChats),
            SlashCommand::NewHarness { provider, path } => {
                self.start_harness_command(provider, path);
                None
            },
            SlashCommand::TakeControl => {
                self.take_harness_control();
                None
            },
            SlashCommand::HandOff { note } => {
                self.hand_harness_back(note);
                None
            },
            SlashCommand::Abort => {
                self.status = owned("Abort requested");
                Some(Cmd::Abort)
            },
            SlashCommand::ClearView => {
                self.selected = 0;
                self.status = owned("View reset (runtime history is retained)");
                None
            },
            SlashCommand::Help => {
                self.open_settings_page(SettingsPage::Help, false);
                None
            },
            SlashCommand::Config => {
                self.open_settings_page(SettingsPage::Config, true);
                None
            },
            SlashCommand::Settings => {
                self.open_settings_page(SettingsPage::Appearance, true);
                None
            },
            SlashCommand::Usage => self.open_settings_page(SettingsPage::Usage, false),
            SlashCommand::Feedback => {
                match self.tab_pos(Tab::Feedback) {
                    Some(i) => {
                        self.tab_index = i;
                    },
                    None => {},
                }
                self.status = owned("Feedback · loading the board…");
                self.reload_feedback()
            },
            SlashCommand::ToggleMouse => {
                self.toggle_mouse();
                None
            },
            SlashCommand::Copy(scope) => Some(Cmd::CopyChat(scope)),
            SlashCommand::BadUsage(usage) => {
                self.status = usage;
                None
            },
            SlashCommand::Unknown(input) => {
                let mut t: Vec<char> = Vec::new();
                push_str(&mut t, "Unknown command: ");
                push_str(&mut t, input.as_str());
                self.status = string_of(t.as_slice());
                None
            },
        }
    }

    /// Handle a submitted composer line: a slash command, or a turn for the
    /// orchestrator. Either way it lands in history and the draft empties.
    pub fn execute(&mut self, value: &Vec<char>) -> (r: Option<Cmd>)
        ensures
            executed(*old(self), *value, *final(self), r),
            final(self).tabs == old(self).tabs,
            trim(value@).len() == 0 ==> r is None && *final(self) == *old(self),
            trim(value@).len() > 0 && trim(value@)[0] == '/' ==> exists|mid: App, c: SlashCommand|
                #![trigger slash_matches(trim(value@), c), line_recorded(*old(self), trim(value@), mid)]
                line_recorded(*old(self), trim(value@), mid) && slash_matches(trim(value@), c)
                    && slash_dispatched(mid, c, *final(self), r),
            trim(value@).len() > 0 && trim(value@)[0] != '/' ==> {
                &&& final(self).history@ == old(self).history@.push(final(self).history@.last())
                &&& final(self).history@.last()@ == trim(value@)
                &&& final(self).draft.text@.len() == 0
                &&& final(self).history_index == -1
                &&& final(self).status@ == "Cycle running…"@
                &&& r matches Some(Cmd::Submit(s)) && s@ == trim(value@)
                &&& *final(self) == (App {
                    history: final(self).history,
                    history_index: -1i64,
                    draft: final(self).draft,
                    status: final(self).status,
                    ..*old(self)
                })
            },
    {
        let clean = trim_of(value);
        if clean.len() == 0 {
            return None;
        }
        self.history.push(string_of(clean.as_slice()));
        self.history_index = -1;
        self.draft = Draft::new();
        assert(self.history@.drop_last() =~= old(self).history@);
        let ghost mid = *self;
        match parse_slash(&clean) {
            Some(command) => {
                let r = self.dispatch_slash(command);
                assert(line_recorded(*old(self), trim(value@), mid) && slash_matches(trim(value@), command));
                r
            },
            None => {
                self.status = owned("Cycle running…");
                Some(Cmd::Submit(string_of(clean.as_slice())))
            },
        }
    }

    /// Request cancellation of the selected running task, or say why not.
    pub fn cancel_selected_task(&mut self) -> (r: Option<Cmd>)
        ensures
            task_cancel_outcome(*old(self), *final(self), r),
            *final(self) == (App { status: final(self).status, ..*old(self) }),
            match old(self).cursor_row() {
                Some(RailRow::Agent(AgentRow::Sub { lane_index, task_index })) => {
                    let t = old(self).lanes@[lane_index as int].tasks@[task_index as int];
                    match t.cycle_id {
                        None => r is None && final(self).status@ == "Selected task has no cycle to cancel"@,
                        Some(c) => if !crate::text::is_prefix("mcp:"@, c@) && !old(self).setup.steering_reaches_backend {
                            r is None && final(self).status@ == "Cancelling a task is not wired to this runtime yet"@
                        } else {
                            r matches Some(Cmd::CancelTask { cycle, task }) && cycle@ == c@ && task@ == t.task_id@
                                && final(self).status@ == "Cancel requested · "@ + t.task_id@
                        },
                    }
                },
                _ => r is None && final(self).status@ == "Select a running task (↑↓) to cancel with X"@,
            },
    {
        let (cycle, task) = match self.selected_agent_task() {
            Some(t) => (
                match &t.cycle_id {
                    Some(c) => Some(c.clone()),
                    None => None,
                },
                t.task_id.clone(),
            ),
            None => {
                self.status = owned("Select a running task (↑↓) to cancel with X");
                return None;
            },
        };
        match cycle {
            None => {
                self.status = owned("Selected task has no cycle to cancel");
                None
            },
            Some(c) => {
                let cs = crate::text::chars_of_string(&c);
                let mcp = crate::text::starts_with(&cs, &crate::text::chars_of("mcp:"));
                if !mcp && !self.setup.steering_reaches_backend {
                    self.status = owned("Cancelling a task is not wired to this runtime yet");
                    return None;
                }
                let mut t: Vec<char> = Vec::new();
                push_str(&mut t, "Cancel requested · ");
                push_str(&mut t, task.as_str());
                self.status = string_of(t.as_slice());
                Some(Cmd::CancelTask { cycle: c, task })
            },
        }
    }

    /// Open the answer prompt for the selected task's pending question.
    pub fn answer_selected_task(&mut self)
        ensures
            task_answer_outcome(*old(self), *final(self)),
            final(self).tabs == old(self).tabs,
            match old(self).cursor_row() {
                Some(RailRow::Agent(AgentRow::Sub { lane_index, task_index })) => {
                    let t = old(self).lanes@[lane_index as int].tasks@[task_index as int];
                    match (t.question_id, t.cycle_id) {
                        (Some(q), Some(c)) => (final(self).prompt matches Some(p) && p.kind matches PromptKind::AnswerQuestion {
                            cycle_id,
                            question_id,
                        } && cycle_id@ == c@ && question_id@ == q@) && final(self).status@
                            == "Type an answer · Enter send · Esc cancel"@,
                        _ => final(self).status@ == "Selected task has no pending question"@
                            && final(self).prompt == old(self).prompt,
                    }
                },
                _ => final(self).status@ == "Select a task (↑↓) with a pending question to answer"@
                    && final(self).prompt == old(self).prompt,
            },
    {
        let target = match self.selected_agent_task() {
            Some(t) => match (&t.question_id, &t.cycle_id) {
                (Some(q), Some(c)) => Some((q.clone(), c.clone(), match &t.attention {
                    Some(a) => Some(a.clone()),
                    None => None,
                })),
                _ => None,
            },
            None => {
                self.status = owned("Select a task (↑↓) with a pending question to answer");
                return;
            },
        };
        match target {
            Some((q, c, attention)) => {
                let title = match attention {
                    Some(a) => {
                        let mut t: Vec<char> = Vec::new();
                        push_str(&mut t, "Answer — ");
                        push_str(&mut t, a.as_str());
                        string_of(t.as_slice())
                    },
                    None => owned("Answer the pending question"),
                };
                self.prompt = Some(
                    Prompt {
                        kind: PromptKind::AnswerQuestion { cycle_id: c, question_id: q },
                        title,
                        draft: Draft::new(),
                    },
                );
                self.status = owned("Type an answer · Enter send · Esc cancel");
            },
            None => {
                self.status = owned("Selected task has no pending question");
            },
        }
    }

    /// Submit the open inline prompt: close it and act on its trimmed text.
#[verifier::rlimit(80)]
    #[verifier::spinoff_prover]
    pub fn submit_prompt(&mut self) -> (r: Option<Cmd>)
        ensures
            prompt_submitted(*old(self), *final(self), r),
            old(self).prompt is None ==> r is None && *final(self) == *old(self),
            final(self).tabs == old(self).tabs,
            old(self).prompt matches Some(p) ==> {
                let text = trim(p.draft.text@);
                match p.kind {
                    PromptKind::FeedbackComment { id } => if text.len() == 0 {
                        r is None && final(self).status@ == "Comment cancelled (empty)"@
                    } else {
                        (r matches Some(Cmd::CommentFeedback { id: i, body }) && i == id && body@ == text)
                            && final(self).status@ == "Posting comment…"@
                    },
                    PromptKind::FeedbackBody { kind, title } => if text.len() == 0 {
                        r is None && final(self).status@ == "New feedback cancelled (empty description)"@
                    } else {
                        (r matches Some(Cmd::SubmitFeedback { kind: k, title: t, body }) && k == kind
                            && t == title && body@ == text) && final(self).status@ == "Submitting feedback…"@
                    },
                    PromptKind::RejectProposal { workflow, proposal_id } => if text.len() == 0 {
                        r is None && final(self).status@ == "Proposal rejection cancelled (empty)"@
                    } else {
                        (r matches Some(Cmd::RejectProposal { workflow: w, proposal_id: pid, reason })
                            && w == workflow && pid == proposal_id && reason@ == text)
                            && final(self).status@ == "Declining the proposed change…"@
                    },
                    PromptKind::AnswerQuestion { cycle_id, question_id } => if text.len() == 0 {
                        r is None && final(self).status@ == "Answer cancelled (empty)"@
                    } else if !old(self).setup.steering_reaches_backend {
                        r is None && final(self).status@ == "Answering a question is not wired to this runtime yet"@
                    } else {
                        (r matches Some(Cmd::AnswerQuestion { cycle_id: c, question_id: q, answer })
                            && c == cycle_id && q == question_id && answer@ == text)
                            && final(self).status@ == "Answer sent"@
                    },
                    PromptKind::HostEditLabel(id) => (r matches Some(Cmd::UpdateHostLabel { id: i, label })
                        && i == id && label@ == text) && final(self).status@ == "Updating label…"@,
                    _ => true,
                }
            },
    {
        let p = match self.prompt.take() {
            Some(p) => p,
            None => {
                return None;
            },
        };
        let text_chars = trim_of(&p.draft.text);
        let saving = match &p.kind {
            PromptKind::CustomHarnessAdd | PromptKind::CustomHarnessEdit(_) | PromptKind::HookAdd
            | PromptKind::HookEdit(_) | PromptKind::LaneClaim { .. } => true,
            _ => false,
        };
        if saving {
            self.submit_saving(p.kind, &text_chars)
        } else {
            self.submit_asking(p.kind, &text_chars)
        }
    }

    /// Submit a prompt that saves one of the operator's lists.
    fn submit_saving(&mut self, kind: PromptKind, text_chars: &Vec<char>) -> (r: Option<Cmd>)
        requires
            saves_list(kind),
        ensures
            kind_submitted(*old(self), kind, text_chars@, *final(self), r),
    {
        match kind {
            PromptKind::CustomHarnessAdd => {
                self.save_custom_harness_line(None, text_chars);
                None
            },
            PromptKind::CustomHarnessEdit(id) => {
                self.save_custom_harness_line(Some(&id), text_chars);
                None
            },
            PromptKind::HookAdd => {
                self.save_hook_line(None, text_chars);
                None
            },
            PromptKind::HookEdit(i) => {
                self.save_hook_line(Some(i), text_chars);
                None
            },
            PromptKind::LaneClaim { lane_key } => {
                self.submit_lane_claim(&lane_key, text_chars);
                None
            },
            _ => None,
        }
    }

    /// Submit a prompt that asks for something or answers something.
    #[verifier::rlimit(80)]
    #[verifier::spinoff_prover]
    fn submit_asking(&mut self, kind: PromptKind, text_chars: &Vec<char>) -> (r: Option<Cmd>)
        requires
            !saves_list(kind),
        ensures
            kind_submitted(*old(self), kind, text_chars@, *final(self), r),
    {
        let text = string_of(text_chars.as_slice());
        let empty = text_chars.len() == 0;
        match kind {
            PromptKind::ChangesBaseline => {
                self.pending.push(Cmd::ChooseBaseline(text));
                assert(self.pending@.drop_last() =~= old(self).pending@);
                None
            },
            PromptKind::ChangesComment { path, anchor } => {
                self.pending.push(Cmd::CommentChange { path, anchor, body: text });
                assert(self.pending@.drop_last() =~= old(self).pending@);
                None
            },
            PromptKind::HostAdd => {
                if empty {
                    self.status = owned("Add cancelled (empty)");
                    None
                } else {
                    self.status = owned("Adding worker…");
                    Some(Cmd::AddHost(text))
                }
            },
            PromptKind::WorkspaceAdd => Some(Cmd::AddWorkspace(text)),
            PromptKind::RejectProposal { workflow, proposal_id } => {
                if empty {
                    self.status = owned("Proposal rejection cancelled (empty)");
                    return None;
                }
                self.status = owned("Declining the proposed change…");
                Some(Cmd::RejectProposal { workflow, proposal_id, reason: text })
            },
            PromptKind::HostEditLabel(id) => {
                self.status = owned("Updating label…");
                Some(Cmd::UpdateHostLabel { id, label: text })
            },
            PromptKind::AnswerQuestion { cycle_id, question_id } => {
                if empty {
                    self.status = owned("Answer cancelled (empty)");
                    return None;
                }
                if !self.setup.steering_reaches_backend {
                    self.status = owned("Answering a question is not wired to this runtime yet");
                    return None;
                }
                self.status = owned("Answer sent");
                Some(Cmd::AnswerQuestion { cycle_id, question_id, answer: text })
            },
            PromptKind::DecisionAnswer { decision_id, cycle_id, question_id } => {
                if empty {
                    self.status = owned("Answer cancelled (empty)");
                    return None;
                }
                if !self.setup.steering_reaches_backend {
                    self.status = owned("Answering a question is not wired to this runtime yet");
                    return None;
                }
                self.decisions.dismissed.push(decision_id);
                self.status = owned("Decision answered");
                Some(Cmd::AnswerQuestion { cycle_id, question_id, answer: text })
            },
            PromptKind::FeedbackComment { id } => {
                if empty {
                    self.status = owned("Comment cancelled (empty)");
                    return None;
                }
                self.status = owned("Posting comment…");
                Some(Cmd::CommentFeedback { id, body: text })
            },
            PromptKind::FeedbackTitle { kind } => {
                if empty {
                    self.status = owned("New feedback cancelled (empty title)");
                    return None;
                }
                self.open_feedback_body(kind, text);
                None
            },
            PromptKind::FeedbackBody { kind, title } => {
                if empty {
                    self.status = owned("New feedback cancelled (empty description)");
                    return None;
                }
                self.status = owned("Submitting feedback…");
                Some(Cmd::SubmitFeedback { kind, title, body: text })
            },
            PromptKind::AgentName { harness, workspace } => Some(
                Cmd::DeclareAgent { harness, workspace, name: text },
            ),
            PromptKind::SessionName { agent_id, managed } => Some(
                Cmd::StartAgentSession { agent_id, name: text, managed },
            ),
            _ => None,
        }
    }
}

/// What starting a new thread does.
pub open spec fn thread_started(before: App, after: App, r: Cmd) -> bool {
    &&& (r == Cmd::NewThread)
    &&& (after.draft.text@.len() == 0)
    &&& (after.agent_scroll == 0)
    &&& (after.agent_index == 0)
    &&& (after.tab_index == (match before.tab_pos_spec(Tab::Sessions) {
                Some(i) => i as usize,
                None => before.tab_index,
            }))
    &&& (after == (App {
                draft: after.draft,
                agent_scroll: 0,
                agent_index: 0,
                tab_index: after.tab_index,
                ..before
            }))
}

/// What asking to cancel the selected task does.
pub open spec fn task_cancel_outcome(before: App, after: App, r: Option<Cmd>) -> bool {
    &&& (after == (App { status: after.status, ..before }))
    &&& (match before.cursor_row() {
                Some(RailRow::Agent(AgentRow::Sub { lane_index, task_index })) => {
                    let t = before.lanes@[lane_index as int].tasks@[task_index as int];
                    match t.cycle_id {
                        None => r is None && after.status@ == "Selected task has no cycle to cancel"@,
                        Some(c) => if !crate::text::is_prefix("mcp:"@, c@) && !before.setup.steering_reaches_backend {
                            r is None && after.status@ == "Cancelling a task is not wired to this runtime yet"@
                        } else {
                            r matches Some(Cmd::CancelTask { cycle, task }) && cycle@ == c@ && task@ == t.task_id@
                                && after.status@ == "Cancel requested · "@ + t.task_id@
                        },
                    }
                },
                _ => r is None && after.status@ == "Select a running task (↑↓) to cancel with X"@,
            })
}

/// What asking to answer the selected task does.
pub open spec fn task_answer_outcome(before: App, after: App) -> bool {
    &&& (after.tabs == before.tabs)
    &&& (match before.cursor_row() {
                Some(RailRow::Agent(AgentRow::Sub { lane_index, task_index })) => {
                    let t = before.lanes@[lane_index as int].tasks@[task_index as int];
                    match (t.question_id, t.cycle_id) {
                        (Some(q), Some(c)) => (after.prompt matches Some(p) && p.kind matches PromptKind::AnswerQuestion {
                            cycle_id,
                            question_id,
                        } && cycle_id@ == c@ && question_id@ == q@) && after.status@
                            == "Type an answer · Enter send · Esc cancel"@,
                        _ => after.status@ == "Selected task has no pending question"@
                            && after.prompt == before.prompt,
                    }
                },
                _ => after.status@ == "Select a task (↑↓) with a pending question to answer"@
                    && after.prompt == before.prompt,
            })
}

/// A command queued last, after what was pending before.
pub open spec fn queued_last(before: App, after: App) -> bool {
    after.pending@.len() == before.pending@.len() + 1 && after.pending@.drop_last() == before.pending@
}

/// What submitting the open inline prompt does. The prompt closes, and its
/// text, trimmed, goes where its kind says (see [`kind_submitted`]).
pub open spec fn prompt_submitted(before: App, after: App, r: Option<Cmd>) -> bool {
    match before.prompt {
        None => r is None && after == before,
        Some(p) => kind_submitted(App { prompt: None, ..before }, p.kind, trim(p.draft.text@), after, r),
    }
}

/// What submitting a prompt of `kind` with trimmed `text` does, the prompt
/// already closed (`before`): a baseline revision or a review comment is
/// queued; a host, workspace, agent or session is asked for; a preset, hook
/// or lane claim is saved; a proposal is declined, a question or decision
/// answered, a host relabelled, a feedback comment or item posted (blank
/// text cancels those that need text); a feedback title opens the
/// description step.
pub open spec fn kind_submitted(before: App, kind: PromptKind, text: Seq<char>, after: App, r: Option<Cmd>) -> bool {
    let quiet = after == (App { status: after.status, ..before });
    let wired = before.setup.steering_reaches_backend;
    match kind {
        PromptKind::ChangesBaseline => r is None && queued_last(before, after) && (after.pending@.last() matches Cmd::ChooseBaseline(
            t,
        ) && t@ == text) && after == (App { pending: after.pending, ..before }),
        PromptKind::ChangesComment { path, anchor } => r is None && queued_last(before, after) && (
        after.pending@.last() matches Cmd::CommentChange { path: q, anchor: a, body } && q == path && a == anchor
            && body@ == text) && after == (App { pending: after.pending, ..before }),
        PromptKind::HostAdd => quiet && if text.len() == 0 {
            r is None && after.status@ == "Add cancelled (empty)"@
        } else {
            (r matches Some(Cmd::AddHost(t)) && t@ == text) && after.status@ == "Adding worker…"@
        },
        PromptKind::WorkspaceAdd => (r matches Some(Cmd::AddWorkspace(t)) && t@ == text) && after == before,
        PromptKind::CustomHarnessAdd => r is None && crate::lists::preset_line_saved(before, None, text, after),
        PromptKind::CustomHarnessEdit(id) => r is None && crate::lists::preset_line_saved(
            before,
            Some(id@),
            text,
            after,
        ),
        PromptKind::HookAdd => r is None && crate::lists::hook_line_saved(before, None, text, after),
        PromptKind::HookEdit(i) => r is None && crate::lists::hook_line_saved(before, Some(i), text, after),
        PromptKind::LaneClaim { lane_key } => r is None && crate::lists::claim_submitted(
            before,
            lane_key@,
            text,
            after,
        ),
        PromptKind::RejectProposal { workflow, proposal_id } => quiet && if text.len() == 0 {
            r is None && after.status@ == "Proposal rejection cancelled (empty)"@
        } else {
            (r matches Some(Cmd::RejectProposal { workflow: w, proposal_id: pid, reason }) && w == workflow
                && pid == proposal_id && reason@ == text) && after.status@ == "Declining the proposed change…"@
        },
        PromptKind::HostEditLabel(id) => quiet && (r matches Some(Cmd::UpdateHostLabel { id: i, label }) && i
            == id && label@ == text) && after.status@ == "Updating label…"@,
        PromptKind::AnswerQuestion { cycle_id, question_id } => quiet && if text.len() == 0 {
            r is None && after.status@ == "Answer cancelled (empty)"@
        } else if !wired {
            r is None && after.status@ == "Answering a question is not wired to this runtime yet"@
        } else {
            (r matches Some(Cmd::AnswerQuestion { cycle_id: c, question_id: q, answer }) && c == cycle_id && q
                == question_id && answer@ == text) && after.status@ == "Answer sent"@
        },
        PromptKind::DecisionAnswer { decision_id, cycle_id, question_id } => if text.len() == 0 {
            r is None && quiet && after.status@ == "Answer cancelled (empty)"@
        } else if !wired {
            r is None && quiet && after.status@ == "Answering a question is not wired to this runtime yet"@
        } else {
            &&& r matches Some(Cmd::AnswerQuestion { cycle_id: c, question_id: q, answer }) && c == cycle_id
                && q == question_id && answer@ == text
            &&& after.decisions.dismissed@ == before.decisions.dismissed@.push(decision_id)
            &&& after.decisions == (crate::decisions::DecisionQueue {
                dismissed: after.decisions.dismissed,
                ..before.decisions
            })
            &&& after.status@ == "Decision answered"@
            &&& after == (App { decisions: after.decisions, status: after.status, ..before })
        },
        PromptKind::FeedbackComment { id } => quiet && if text.len() == 0 {
            r is None && after.status@ == "Comment cancelled (empty)"@
        } else {
            (r matches Some(Cmd::CommentFeedback { id: i, body }) && i == id && body@ == text) && after.status@
                == "Posting comment…"@
        },
        PromptKind::FeedbackTitle { kind } => if text.len() == 0 {
            r is None && quiet && after.status@ == "New feedback cancelled (empty title)"@
        } else {
            r is None && crate::feedback::feedback_body_opened(before, kind, text, after)
        },
        PromptKind::FeedbackBody { kind, title } => quiet && if text.len() == 0 {
            r is None && after.status@ == "New feedback cancelled (empty description)"@
        } else {
            (r matches Some(Cmd::SubmitFeedback { kind: k, title: t, body }) && k == kind && t == title
                && body@ == text) && after.status@ == "Submitting feedback…"@
        },
        PromptKind::AgentName { harness, workspace } => (r matches Some(Cmd::DeclareAgent { harness: h, workspace: w, name })
            && h == harness && w == workspace && name@ == text) && after == before,
        PromptKind::SessionName { agent_id, managed } => (r matches Some(Cmd::StartAgentSession { agent_id: a, name, managed: m })
            && a == agent_id && m == managed && name@ == text) && after == before,
    }
}

/// Whether a prompt kind saves one of the operator's lists.
pub open spec fn saves_list(kind: PromptKind) -> bool {
    kind is CustomHarnessAdd || kind is CustomHarnessEdit || kind is HookAdd || kind is HookEdit || kind is LaneClaim
}

/// What submitting the composer line `value` does, as `App::execute` states it.
pub open spec fn executed(before: App, value: Vec<char>, after: App, r: Option<Cmd>) -> bool {
    &&& (after.tabs == before.tabs)
    &&& (trim(value@).len() == 0 ==> r is None && after == before)
    &&& (trim(value@).len() > 0 && trim(value@)[0] == '/' ==> exists|mid: App, c: SlashCommand|
                #![trigger slash_matches(trim(value@), c), line_recorded(before, trim(value@), mid)]
                line_recorded(before, trim(value@), mid) && slash_matches(trim(value@), c)
                    && slash_dispatched(mid, c, after, r))
    &&& (trim(value@).len() > 0 ==> {
                &&& after.history@.len() == before.history@.len() + 1
                &&& after.history@.drop_last() == before.history@
                &&& after.history@.last()@ == trim(value@)
                &&& after.history_index == -1
                &&& after.draft.text@.len() == 0
            })
    &&& (trim(value@).len() > 0 && trim(value@)[0] != '/' ==> {
                &&& after.history@ == before.history@.push(after.history@.last())
                &&& after.history@.last()@ == trim(value@)
                &&& after.draft.text@.len() == 0
                &&& after.history_index == -1
                &&& after.status@ == "Cycle running…"@
                &&& r matches Some(Cmd::Submit(s)) && s@ == trim(value@)
                &&& after == (App {
                    history: after.history,
                    history_index: -1i64,
                    draft: after.draft,
                    status: after.status,
                    ..before
                })
            })
}

} // verus!
