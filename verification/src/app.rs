//! The application state the terminal draws and the operator drives.
//!
//! [`App`] holds, as plain values, everything the key, pointer and paste
//! handlers read and write. What the runtime and the filesystem know (lanes,
//! workers, harness sessions, decisions, the feedback board) is handed in by
//! the event loop; what the handlers want done outside is handed back as a
//! [`Cmd`].
use vstd::prelude::*;

use crate::agents::AgentDeclaration;
use crate::changes::{CommentAnchor, GitChangesState};
use crate::commands::CopyScope;
use crate::composer::Draft;
use crate::harness::{HarnessChoice, HarnessPicker};
use crate::keymap::{KeyEvent, MouseButton, Motion};
use crate::pointer::Pointer;
use crate::hosts::HostsState;
use crate::workflows::WorkflowsState;
use crate::lists::{CustomHarness, HookSpec};
use crate::decisions::DecisionQueue;
use crate::feedback::{FeedbackQuery, FeedbackState, FeedbackType};
use crate::rail::{AgentLane, SessionRow, WorkerInfo};

verus! {

/// A top-level tab.
#[derive(Clone, Copy, Debug, PartialEq, Eq, Structural)]
pub enum Tab {
    Overview,
    Sessions,
    Chat,
    Changes,
    Hosts,
    TokenMaxxxing,
    Workflows,
    Feedback,
    Settings,
}

/// A page of the Settings tab.
#[derive(Clone, Copy, Debug, PartialEq, Eq, Structural)]
pub enum SettingsPage {
    Usage,
    Appearance,
    StatusLine,
    Config,
    Feedback,
    Trace,
    Context,
    Account,
    Help,
}

/// A page of the Hosts tab.
#[derive(Clone, Copy, Debug, PartialEq, Eq, Structural)]
pub enum RoutingPage {
    Hosts,
    Workspaces,
    Templates,
    AddHost,
    Harnesses,
    Strategies,
}

/// Something drawn in front of the content pane.
#[derive(Clone, Copy, Debug, PartialEq, Eq, Structural)]
pub enum Overlay {
    Decisions,
    TemplatePopup,
    HarnessPicker,
    /// The question that confirms closing a harness session.
    SessionKill,
    HandbackPrompt,
    /// The question that confirms deleting a workflow.
    WorkflowDelete,
    InlinePrompt,
    ResumePicker,
}

/// What the session pane shows.
#[derive(Clone, Copy, Debug, PartialEq, Eq, Structural)]
pub enum PaneView {
    Harness,
    Diff,
}

/// Which half of the Sessions tab the keyboard drives.
#[derive(Clone, Copy, Debug, PartialEq, Eq, Structural)]
pub enum AgentsFocus {
    Rail,
    Composer,
}

/// What releasing the keyboard from a held harness does.
#[derive(Clone, Copy, Debug, PartialEq, Eq, Structural)]
pub enum HandbackPolicy {
    Always,
    Never,
    Ask,
}

/// Who may type into a harness session.
#[derive(Clone, Copy, Debug, PartialEq, Eq, Structural)]
pub enum Control {
    User,
    Orchestrator,
}

/// The "hand this harness back?" question asked on release.
pub struct HandbackPrompt {
    pub session: String,
    pub took_control: bool,
    pub note: Draft,
    pub editing_note: bool,
}

/// The resume picker's list of saved chats.
pub struct ResumePicker {
    pub chats: Vec<String>,
    pub index: usize,
}

/// What an inline prompt is asking for.
pub enum PromptKind {
    ChangesBaseline,
    ChangesComment { path: Vec<u8>, anchor: CommentAnchor },
    HostAdd,
    WorkspaceAdd,
    FeedbackComment { id: String },
    FeedbackTitle { kind: FeedbackType },
    FeedbackBody { kind: FeedbackType, title: String },
    AnswerQuestion { cycle_id: String, question_id: String },
    DecisionAnswer { decision_id: String, cycle_id: String, question_id: String },
    RejectProposal { workflow: String, proposal_id: String },
    HostEditLabel(String),
    LaneClaim { lane_key: String },
    CustomHarnessAdd,
    CustomHarnessEdit(String),
    HookAdd,
    HookEdit(usize),
    AgentName { harness: String, workspace: String },
    SessionName { agent_id: String, managed: bool },
}

/// An inline prompt: what it asks, its title, and what has been typed.
pub struct Prompt {
    pub kind: PromptKind,
    pub title: String,
    pub draft: Draft,
}

/// A change to a roster entry, by the entry's id.
pub enum WorkerOp {
    Select { id: String },
    Remove { id: String },
    RefreshDetails { id: String },
    SetRoles { id: String, roles: Vec<String> },
    /// Apply, and remember, an automatic default-host strategy.
    ApplyStrategy { strategy: String },
    /// Apply, and remember, a subscription routing strategy.
    ApplySubscriptionStrategy { strategy: String },
}

/// Work the event loop must do on the handlers' behalf.
pub enum Cmd {
    Logout,
    IngestMemory { backfill: bool },
    WatchTask { stop: Option<(String, String)>, start: Option<(String, String)> },
    LoadFeedback(FeedbackQuery),
    LoadFeedbackDetail(String),
    VoteFeedback { id: String, value: i8 },
    CommentFeedback { id: String, body: String },
    SubmitFeedback { kind: FeedbackType, title: String, body: String },
    RejectProposal { workflow: String, proposal_id: String, reason: String },
    AnswerQuestion { cycle_id: String, question_id: String, answer: String },
    UpdateHostLabel { id: String, label: String },
    ChooseBaseline(String),
    Submit(String),
    HandOffHarness { session: String, note: Option<String> },
    HoldHarness { workspace: String },
    TakeControl { session: String },
    KeyToHarness { session: String, key: KeyEvent },
    RefreshWorkspaces { query: Vec<char> },
    SpawnHarness { wire: String, workspace: String },
    PasteIntoHarness { session: String, text: Vec<char> },
    KillTask { worker: String, task_id: String },
    CloseSession(String),
    PersistCustomHarnesses,
    PersistHooks,
    NewThread,
    Resume(String),
    OpenSessionPicker,
    LoadUsage,
    InspectContext,
    RefreshChanges,
    ListChats,
    Abort,
    CopyChat(CopyScope),
    CancelTask { cycle: String, task: String },
    CommentChange { path: Vec<u8>, anchor: CommentAnchor, body: String },
    AddHost(String),
    AddWorkspace(String),
    DeclareAgent { harness: String, workspace: String, name: String },
    StartAgentSession { agent_id: String, name: String, managed: bool },
    PersistRecentWorkspaces,
    WorkerOp(WorkerOp),
    RefreshFleet,
    MouseToHarness { session: String, col: u16, row: u16, button: MouseButton, motion: Motion },
    ScrollHarness { session: String, col: u16, row: u16, up: bool, rows: usize },
    /// Put `text` on the operator's clipboard and say that `what` was copied.
    CopyLine { what: String, text: String },
    RunWorkflow { id: String },
    DryRunWorkflow { id: String },
    UndoWorkflow { id: String },
    ReloadWorkflows,
    /// Install the built-in agent templates where the operator can edit them.
    InstallTemplates,
    /// Read the custom harnesses from the configuration again.
    ReloadCustomHarnesses,
    /// Send the copilot an instruction about a workflow, or about a new one.
    CopilotTurn { workflow: Option<String>, instruction: String },
    /// Make the thread with this id the active one.
    SwitchThread { id: String },
}

/// The whole interactive state of the terminal.
/// The pages of the Settings and Hosts tabs and where their cursors are.
pub struct Menus {
    pub settings_pages: Vec<SettingsPage>,
    pub settings_index: usize,
    pub settings_focused: bool,
    pub appearance_index: usize,
    pub context_index: usize,
    pub help_scroll: usize,
    pub routing_pages: Vec<RoutingPage>,
    pub routing_index: usize,
    pub routing_focused: bool,
}

/// What the event loop hands in about this device and its configuration.
pub struct Setup {
    pub harness_choices: Vec<HarnessChoice>,
    pub harness_workspace: String,
    pub agent_declarations: Vec<AgentDeclaration>,
    pub local_host_id: String,
    pub workers: Vec<WorkerInfo>,
    pub handback_policy: HandbackPolicy,
    pub steering_reaches_backend: bool,
    pub appearance_rows: usize,
    pub contexts: Vec<String>,
    /// Workspaces a harness was started in, newest first.
    pub recent_workspaces: Vec<String>,
    /// The automatic default-host strategies offered, by wire name.
    pub routing_strategies: Vec<String>,
    /// The subscription routing strategies offered, by wire name.
    pub subscription_strategies: Vec<String>,
    /// The line to run on a machine to join it as a worker.
    pub remote_join_command: String,
}

/// The lists the operator edits: custom harness presets, hooks, lane claims.
pub struct Lists {
    pub custom_harnesses: Vec<CustomHarness>,
    pub custom_harness_index: usize,
    pub hooks: Vec<HookSpec>,
    pub hook_index: usize,
    pub lane_claims: Vec<(String, Vec<String>)>,
}

pub struct App {
    pub menus: Menus,
    pub setup: Setup,
    pub lists: Lists,
    pub tabs: Vec<Tab>,
    pub tab_index: usize,
    pub status: String,
    pub should_quit: bool,
    pub relogin_requested: bool,
    pub logout_armed: bool,
    pub memory_ingesting: bool,
    pub mouse_capture: bool,
    pub template_modal: bool,
    pub prompt: Option<Prompt>,
    pub resume_picker: Option<ResumePicker>,
    pub session_picker: Option<HarnessPicker>,
    pub handback_prompt: Option<HandbackPrompt>,
    pub decisions: DecisionQueue,
    pub feedback: FeedbackState,
    pub changes: GitChangesState,
    pub kill_armed: Option<(String, String)>,
    pub harness_close_armed: Option<String>,
    /// A workflow deletion waiting for confirmation: the workflow's id and name.
    pub workflow_delete_armed: Option<(String, String)>,
    pub history: Vec<String>,
    pub history_index: i64,
    pub draft: Draft,
    pub command_index: usize,
    pub selected: usize,
    pub lanes: Vec<AgentLane>,
    pub harnesses: Option<Vec<SessionRow>>,
    pub subtask_pages: Vec<(String, usize)>,
    pub agent_index: usize,
    pub agent_scroll: usize,
    /// The open conversation threads, by id, as the runtime lists them.
    pub threads: Vec<String>,
    /// The position of the active thread among them.
    pub active_thread: usize,
    pub watching: Option<(String, String)>,
    pub pane_session: Option<String>,
    pub attached: Option<String>,
    pub agents_focus: AgentsFocus,
    pub pane_view: PaneView,
    pub harness_took_control: bool,
    pub pending: Vec<Cmd>,
    pub pointer: Pointer,
    pub hosts: HostsState,
    pub wf: WorkflowsState,
}

/// `text` as an owned string.
pub fn owned(text: &str) -> (r: String)
    ensures
        r@ == text@,
{
    text.to_owned()
}

/// Every tab, in the order the tab bar draws them.
pub fn all_tabs() -> (r: Vec<Tab>)
    ensures
        r@ == seq![
            Tab::Overview,
            Tab::Sessions,
            Tab::Chat,
            Tab::Changes,
            Tab::Hosts,
            Tab::TokenMaxxxing,
            Tab::Workflows,
            Tab::Feedback,
            Tab::Settings,
        ],
{
    vec![
        Tab::Overview,
        Tab::Sessions,
        Tab::Chat,
        Tab::Changes,
        Tab::Hosts,
        Tab::TokenMaxxxing,
        Tab::Workflows,
        Tab::Feedback,
        Tab::Settings,
    ]
}

/// Every Settings page, in menu order.
pub fn all_settings_pages() -> (r: Vec<SettingsPage>)
    ensures
        r@.len() == 9,
{
    vec![
        SettingsPage::Usage,
        SettingsPage::Appearance,
        SettingsPage::StatusLine,
        SettingsPage::Config,
        SettingsPage::Feedback,
        SettingsPage::Trace,
        SettingsPage::Context,
        SettingsPage::Account,
        SettingsPage::Help,
    ]
}

/// Every Hosts-tab page, in menu order.
pub fn all_routing_pages() -> (r: Vec<RoutingPage>)
    ensures
        r@.len() == 6,
{
    vec![
        RoutingPage::Hosts,
        RoutingPage::Workspaces,
        RoutingPage::Templates,
        RoutingPage::AddHost,
        RoutingPage::Harnesses,
        RoutingPage::Strategies,
    ]
}

impl App {
    /// A fresh terminal for this device: on the first tab, nothing selected,
    /// no overlay open, and an empty draft; `harnesses` is the device's session
    /// list when it hosts any.
    pub fn new(setup: Setup, harnesses: Option<Vec<SessionRow>>) -> (r: App)
        ensures
            r.tab_index == 0,
            r.tabs@.len() == 9,
            r.setup == setup,
            r.harnesses == harnesses,
            r.draft.text@.len() == 0 && r.draft.cursor == 0,
            r.prompt is None && r.resume_picker is None && r.session_picker is None && r.handback_prompt is None,
            r.kill_armed is None && r.harness_close_armed is None && r.workflow_delete_armed is None && r.attached is None,
            r.pane_session is None && r.watching is None,
            r.history@.len() == 0 && r.history_index == -1,
            r.lanes@.len() == 0 && r.subtask_pages@.len() == 0,
            r.agent_index == 0 && r.pending@.len() == 0,
            r.wf.focus == crate::workflows::WorkflowFocus::Sidebar && r.wf.workflows@.len() == 0 && r.wf.selected is None,
    {
        App {
            menus: Menus {
                settings_pages: all_settings_pages(),
                settings_index: 0,
                settings_focused: false,
                appearance_index: 0,
                context_index: 0,
                help_scroll: 0,
                routing_pages: all_routing_pages(),
                routing_index: 0,
                routing_focused: false,
            },
            setup,
            lists: Lists {
                custom_harnesses: Vec::new(),
                custom_harness_index: 0,
                hooks: Vec::new(),
                hook_index: 0,
                lane_claims: Vec::new(),
            },
            tabs: all_tabs(),
            tab_index: 0,
            status: String::new(),
            should_quit: false,
            relogin_requested: false,
            logout_armed: false,
            memory_ingesting: false,
            mouse_capture: true,
            template_modal: false,
            prompt: None,
            resume_picker: None,
            session_picker: None,
            handback_prompt: None,
            decisions: DecisionQueue::new(),
            feedback: FeedbackState::new(),
            changes: GitChangesState::new(),
            kill_armed: None,
            harness_close_armed: None,
            workflow_delete_armed: None,
            history: Vec::new(),
            history_index: -1,
            draft: Draft::new(),
            command_index: 0,
            selected: 0,
            lanes: Vec::new(),
            harnesses,
            subtask_pages: Vec::new(),
            agent_index: 0,
            agent_scroll: 0,
            threads: Vec::new(),
            active_thread: 0,
            watching: None,
            pane_session: None,
            attached: None,
            agents_focus: AgentsFocus::Composer,
            pane_view: PaneView::Harness,
            harness_took_control: false,
            pending: Vec::new(),
            pointer: Pointer::new(),
            hosts: HostsState::new(),
            wf: WorkflowsState::new(),
        }
    }
}

impl App {
    /// Replace the status line.
    pub fn set_status(&mut self, text: &str)
        ensures
            final(self).status@ == text@,
            *final(self) == (App { status: final(self).status, ..*old(self) }),
    {
        self.status = owned(text);
    }

    /// The tab currently shown, `None` only for an empty tab list.
    pub open spec fn tab_spec(&self) -> Option<Tab> {
        if self.tab_index < self.tabs@.len() {
            Some(self.tabs@[self.tab_index as int])
        } else {
            None
        }
    }

    /// The tab currently shown.
    pub fn tab(&self) -> (r: Option<Tab>)
        ensures
            r == self.tab_spec(),
    {
        if self.tab_index < self.tabs.len() {
            Some(self.tabs[self.tab_index])
        } else {
            None
        }
    }

    /// The Settings page currently selected.
    pub open spec fn settings_page_spec(&self) -> Option<SettingsPage> {
        if self.menus.settings_index < self.menus.settings_pages@.len() {
            Some(self.menus.settings_pages@[self.menus.settings_index as int])
        } else {
            None
        }
    }

    /// The Settings page currently selected.
    pub fn settings_page(&self) -> (r: Option<SettingsPage>)
        ensures
            r == self.settings_page_spec(),
    {
        if self.menus.settings_index < self.menus.settings_pages.len() {
            Some(self.menus.settings_pages[self.menus.settings_index])
        } else {
            None
        }
    }

    /// The Hosts page currently selected.
    pub open spec fn routing_page_spec(&self) -> Option<RoutingPage> {
        if self.menus.routing_index < self.menus.routing_pages@.len() {
            Some(self.menus.routing_pages@[self.menus.routing_index as int])
        } else {
            None
        }
    }

    /// The Hosts page currently selected.
    pub fn routing_page(&self) -> (r: Option<RoutingPage>)
        ensures
            r == self.routing_page_spec(),
    {
        if self.menus.routing_index < self.menus.routing_pages.len() {
            Some(self.menus.routing_pages[self.menus.routing_index])
        } else {
            None
        }
    }

    // --- account ---------------------------------------------------------

    /// Handle Enter on the Account page: arm the logout on the first press,
    /// perform it on the second.
    pub fn confirm_logout(&mut self) -> (r: (String, Option<Cmd>))
        ensures
            !old(self).logout_armed ==> {
                &&& r.0@ == "Account · press Enter again to log out, or move away to cancel"@
                &&& r.1 is None
                &&& *final(self) == (App { logout_armed: true, ..*old(self) })
            },
            old(self).logout_armed ==> {
                &&& r.0@ == "Account · logging out…"@
                &&& r.1 matches Some(Cmd::Logout)
                &&& *final(self) == (App { logout_armed: false, ..*old(self) })
            },
    {
        if !self.logout_armed {
            self.logout_armed = true;
            return (
                owned("Account · press Enter again to log out, or move away to cancel"),
                None,
            );
        }
        self.logout_armed = false;
        (owned("Account · logging out…"), Some(Cmd::Logout))
    }

    /// Record that the session was cleared, and quit back to the login screen.
    pub fn logged_out(&mut self)
        ensures
            *final(self) == (App { relogin_requested: true, should_quit: true, ..*old(self) }),
    {
        self.relogin_requested = true;
        self.should_quit = true;
    }

    /// Whether the app quit in order to re-authenticate.
    pub fn relogin_requested(&self) -> (r: bool)
        ensures
            r == self.relogin_requested,
    {
        self.relogin_requested
    }

    /// Disarm a pending logout.
    pub fn disarm_logout(&mut self)
        ensures
            *final(self) == (App { logout_armed: false, ..*old(self) }),
    {
        self.logout_armed = false;
    }

    /// Whether a logout is currently armed.
    pub fn logout_armed(&self) -> (r: bool)
        ensures
            r == self.logout_armed,
    {
        self.logout_armed
    }

    // --- memory ----------------------------------------------------------

    /// Start a persona-memory ingest, refusing while one is in flight.
    pub fn start_memory_ingest(&mut self, backfill: bool) -> (r: Option<Cmd>)
        ensures
            old(self).memory_ingesting ==> {
                &&& r is None
                &&& final(self).status@ == "Memory · an ingest is already running"@
                &&& *final(self) == (App { status: final(self).status, ..*old(self) })
            },
            !old(self).memory_ingesting ==> {
                &&& r matches Some(Cmd::IngestMemory { backfill: b }) && b == backfill
                &&& final(self).status@ == (if backfill {
                    "Memory · backfilling (walks everything; this can take a while)…"@
                } else {
                    "Memory · ingesting new activity…"@
                })
                &&& *final(self) == (App {
                    memory_ingesting: true,
                    status: final(self).status,
                    ..*old(self)
                })
            },
    {
        if self.memory_ingesting {
            self.set_status("Memory · an ingest is already running");
            return None;
        }
        self.memory_ingesting = true;
        if backfill {
            self.set_status("Memory · backfilling (walks everything; this can take a while)…");
        } else {
            self.set_status("Memory · ingesting new activity…");
        }
        Some(Cmd::IngestMemory { backfill })
    }

    // --- overlays --------------------------------------------------------

    /// Whether the agent-template popup is actually on screen.
    pub open spec fn template_popup_open_spec(&self) -> bool {
        self.template_modal && self.tab_spec() == Some(Tab::Hosts) && self.routing_page_spec()
            == Some(RoutingPage::Templates)
    }

    /// Whether the agent-template popup is actually on screen: the flag alone
    /// outlives the page whose keys can dismiss it.
    pub fn template_popup_open(&self) -> (r: bool)
        ensures
            r == self.template_popup_open_spec(),
    {
        self.template_modal && self.tab() == Some(Tab::Hosts) && self.routing_page() == Some(
            RoutingPage::Templates,
        )
    }

    /// Every overlay currently on screen, back to front.
    pub open spec fn visible_overlays_spec(&self) -> Seq<Overlay> {
        let all = seq![
            (Overlay::Decisions, self.decisions.open),
            (Overlay::TemplatePopup, self.template_popup_open_spec()),
            (Overlay::HarnessPicker, self.session_picker is Some),
            (Overlay::SessionKill, self.harness_close_armed is Some),
            (Overlay::HandbackPrompt, self.handback_prompt is Some),
            (Overlay::WorkflowDelete, self.workflow_delete_armed is Some),
            (Overlay::InlinePrompt, self.prompt is Some),
            (Overlay::ResumePicker, self.resume_picker is Some && self.prompt is None),
        ];
        all.filter(|p: (Overlay, bool)| p.1).map_values(|p: (Overlay, bool)| p.0)
    }

    /// Every overlay currently on screen, in the order the render stacks them.
    pub fn visible_overlays(&self) -> (r: Vec<Overlay>)
        ensures
            r@ == self.visible_overlays_spec(),
    {
        let mut out: Vec<Overlay> = Vec::new();
        if self.decisions.open {
            out.push(Overlay::Decisions);
        }
        if self.template_popup_open() {
            out.push(Overlay::TemplatePopup);
        }
        if self.session_picker.is_some() {
            out.push(Overlay::HarnessPicker);
        }
        if self.harness_close_armed.is_some() {
            out.push(Overlay::SessionKill);
        }
        if self.handback_prompt.is_some() {
            out.push(Overlay::HandbackPrompt);
        }
        if self.workflow_delete_armed.is_some() {
            out.push(Overlay::WorkflowDelete);
        }
        if self.prompt.is_some() {
            out.push(Overlay::InlinePrompt);
        }
        if self.resume_picker.is_some() && self.prompt.is_none() {
            out.push(Overlay::ResumePicker);
        }
        proof {
            reveal_with_fuel(Seq::<_>::filter, 9);
            let all = seq![
                (Overlay::Decisions, self.decisions.open),
                (Overlay::TemplatePopup, self.template_popup_open_spec()),
                (Overlay::HarnessPicker, self.session_picker is Some),
                (Overlay::SessionKill, self.harness_close_armed is Some),
                (Overlay::HandbackPrompt, self.handback_prompt is Some),
                (Overlay::WorkflowDelete, self.workflow_delete_armed is Some),
                (Overlay::InlinePrompt, self.prompt is Some),
                (Overlay::ResumePicker, self.resume_picker is Some && self.prompt is None),
            ];
            assert(all.filter(|p: (Overlay, bool)| p.1).map_values(|p: (Overlay, bool)| p.0)
                =~= out@);
        }
        out
    }

    /// Whether anything is drawn in front of the content pane.
    pub fn overlay_owns_keys(&self) -> (r: bool)
        ensures
            r == (self.visible_overlays_spec().len() > 0),
    {
        self.visible_overlays().len() > 0
    }

    // --- focus -----------------------------------------------------------

    /// Whether a composer is drawn for the row under the cursor: whenever
    /// that row is not a live harness.
    pub fn agents_composer_shown(&self) -> (r: bool)
        ensures
            r == (self.pane_session is None),
    {
        self.pane_session.is_none()
    }

    /// Whether the Sessions rail holds the keyboard: when focused on it, and
    /// whenever no composer is drawn.
    pub fn agents_rail_focused(&self) -> (r: bool)
        ensures
            r == (self.agents_focus == AgentsFocus::Rail || self.pane_session is Some),
    {
        self.agents_focus == AgentsFocus::Rail || !self.agents_composer_shown()
    }

    /// Whether the Sessions rail holds the keyboard; it is the only thing on
    /// that tab that can.
    pub fn sessions_rail_focused(&self) -> (r: bool)
        ensures
            r,
    {
        true
    }

    /// Move the keyboard to the rail.
    pub fn focus_agents_rail(&mut self)
        ensures
            *final(self) == (App { agents_focus: AgentsFocus::Rail, ..*old(self) }),
    {
        self.agents_focus = AgentsFocus::Rail;
    }

    /// Move the keyboard back to the composer.
    pub fn focus_agents_composer(&mut self)
        ensures
            *final(self) == (App { agents_focus: AgentsFocus::Composer, ..*old(self) }),
    {
        self.agents_focus = AgentsFocus::Composer;
    }

    /// Toggle mouse capture and say which mode is now on.
    pub fn toggle_mouse(&mut self)
        ensures
            mouse_toggled(*old(self), *final(self)),
            final(self).mouse_capture == !old(self).mouse_capture,
            final(self).status@ == (if final(self).mouse_capture {
                "Mouse captured — click tabs/pages/lanes, wheel scrolls, drag to select and copy"@
            } else {
                "Mouse released — native click-drag selection & copy restored"@
            }),
            *final(self) == (App {
                mouse_capture: final(self).mouse_capture,
                status: final(self).status,
                ..*old(self)
            }),
    {
        self.mouse_capture = !self.mouse_capture;
        if self.mouse_capture {
            self.set_status(
                "Mouse captured — click tabs/pages/lanes, wheel scrolls, drag to select and copy",
            );
        } else {
            self.set_status("Mouse released — native click-drag selection & copy restored");
        }
    }
}

/// What toggling mouse capture does.
pub open spec fn mouse_toggled(before: App, after: App) -> bool {
    &&& (after.mouse_capture == !before.mouse_capture)
    &&& (after.status@ == (if after.mouse_capture {
                "Mouse captured — click tabs/pages/lanes, wheel scrolls, drag to select and copy"@
            } else {
                "Mouse released — native click-drag selection & copy restored"@
            }))
    &&& (after == (App {
                mouse_capture: after.mouse_capture,
                status: after.status,
                ..before
            }))
}

} // verus!
