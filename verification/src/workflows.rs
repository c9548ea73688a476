//! The Workflows tab: the catalogue sidebar, the graph canvas with its node
//! inspector, and the copilot composer, each taking the keys it binds.
use vstd::prelude::*;

use crate::app::{App, Cmd};
use crate::composer::{spliced, Draft};
use crate::keymap::KeyCode;
use crate::text::{push_all, push_str, string_of};

verus! {

/// Which pane of the Workflows tab has the keyboard.
#[derive(Clone, Copy, Debug, PartialEq, Eq, Structural)]
pub enum WorkflowFocus {
    Sidebar,
    Canvas,
    Copilot,
}

/// A step the graph cursor can take.
#[derive(Clone, Copy, Debug, PartialEq, Eq, Structural)]
pub enum Move {
    Back,
    Forward,
    LaneUp,
    LaneDown,
}

/// Where each step leads from one node of the laid-out graph, if anywhere.
#[derive(Clone, Copy, Debug, PartialEq, Eq, Structural)]
pub struct NodeMoves {
    pub back: Option<usize>,
    pub forward: Option<usize>,
    pub lane_up: Option<usize>,
    pub lane_down: Option<usize>,
}

/// One workflow of the catalogue, as far as the keys need it.
pub struct WorkflowEntry {
    pub id: String,
    pub name: String,
    pub enabled: bool,
    /// How many inputs a run asks for before it starts.
    pub inputs: usize,
}

/// The state of the Workflows tab.
pub struct WorkflowsState {
    pub focus: WorkflowFocus,
    pub inspector_open: bool,
    /// The node under the graph cursor.
    pub node_index: usize,
    pub preview_scroll: usize,
    /// Whether the sidebar's cursor is on the row that starts a new workflow.
    pub creating: bool,
    pub workflows: Vec<WorkflowEntry>,
    /// The workflow the sidebar has selected, by position.
    pub selected: Option<usize>,
    /// The selected workflow's layout: where each step leads from each node.
    pub moves: Vec<NodeMoves>,
    /// A run waiting for its inputs to be asked: the workflow and whether it is a simulation.
    pub awaiting_inputs: Option<(String, bool)>,
    /// What the operator is typing to the copilot.
    pub draft: Draft,
    /// How far the copilot transcript is scrolled back from its end.
    pub copilot_scroll: usize,
    /// How many rows one page of the copilot transcript holds, as the last
    /// render measured it.
    pub copilot_page: usize,
    /// The instruction of the last copilot turn that failed, which `r` retries.
    pub last_failed: Option<String>,
}

/// Whether the Workflows tab consumed a key, and any command it produced.
pub enum WorkflowsKey {
    Handled(Option<Cmd>),
    Unhandled,
}

impl WorkflowsState {
    /// The list pane focused, nothing loaded and nothing selected.
    pub fn new() -> (r: WorkflowsState)
        ensures
            r.focus == WorkflowFocus::Sidebar,
            !r.inspector_open,
            r.node_index == 0,
            r.preview_scroll == 0,
            !r.creating,
            r.workflows@.len() == 0,
            r.selected is None,
            r.moves@.len() == 0,
            r.awaiting_inputs is None,
            r.draft.text@.len() == 0 && r.draft.cursor == 0,
            r.copilot_scroll == 0,
            r.last_failed is None,
    {
        WorkflowsState {
            focus: WorkflowFocus::Sidebar,
            inspector_open: false,
            node_index: 0,
            preview_scroll: 0,
            creating: false,
            workflows: Vec::new(),
            selected: None,
            moves: Vec::new(),
            awaiting_inputs: None,
            draft: Draft::new(),
            copilot_scroll: 0,
            copilot_page: 10,
            last_failed: None,
        }
    }
}

/// Where `m` leads from `node`, given each node's steps; nowhere from a node
/// the layout does not know.
pub open spec fn move_target(moves: Seq<NodeMoves>, node: usize, m: Move) -> Option<usize> {
    if node < moves.len() {
        let n = moves[node as int];
        match m {
            Move::Back => n.back,
            Move::Forward => n.forward,
            Move::LaneUp => n.lane_up,
            Move::LaneDown => n.lane_down,
        }
    } else {
        None
    }
}

/// The workflow the sidebar has selected, if it is in the catalogue.
pub open spec fn selected_entry(wf: WorkflowsState) -> Option<WorkflowEntry> {
    match wf.selected {
        Some(i) => if i < wf.workflows@.len() {
            Some(wf.workflows@[i as int])
        } else {
            None
        },
        None => None,
    }
}

/// The graph cursor took step `m` where the layout allows it, and nothing else changed.
pub open spec fn cursor_moved(before: App, m: Move, after: App) -> bool {
    after == (App {
        wf: WorkflowsState {
            node_index: match move_target(before.wf.moves@, before.wf.node_index, m) {
                Some(t) => t,
                None => before.wf.node_index,
            },
            ..before.wf
        },
        ..before
    })
}

/// Only the status line changed, to `text`.
pub open spec fn status_only(before: App, text: Seq<char>, after: App) -> bool {
    after.status@ == text && after == (App { status: after.status, ..before })
}

/// What running (`dry` false) or simulating (`dry` true) the selected workflow
/// does: refused on the new-workflow row; nothing without a selection; a run
/// of a disabled workflow is refused; a workflow that declares inputs waits
/// for them; anything else is dispatched with a status line naming it.
pub open spec fn run_outcome(before: App, dry: bool, after: App, r: Option<Cmd>) -> bool {
    if before.wf.creating {
        r is None && status_only(
            before,
            if dry {
                "Nothing to simulate yet — describe the workflow first"@
            } else {
                "Nothing to run yet — describe the workflow first"@
            },
            after,
        )
    } else {
        match selected_entry(before.wf) {
            None => r is None && after == before,
            Some(w) => if !dry && !w.enabled {
                r is None && status_only(before, w.name@ + " is disabled"@, after)
            } else if w.inputs > 0 {
                r is None && (after.wf.awaiting_inputs matches Some(p) && p.0@ == w.id@ && p.1 == dry) && after == (
                App { wf: WorkflowsState { awaiting_inputs: after.wf.awaiting_inputs, ..before.wf }, ..before })
            } else if dry {
                (r matches Some(Cmd::DryRunWorkflow { id }) && id@ == w.id@) && status_only(
                    before,
                    "Simulating "@ + w.name@ + "…"@,
                    after,
                )
            } else {
                (r matches Some(Cmd::RunWorkflow { id }) && id@ == w.id@) && status_only(
                    before,
                    "Running "@ + w.name@ + "…"@,
                    after,
                )
            },
        }
    }
}

/// What undoing the selected workflow's last edit does: refused on the
/// new-workflow row, nothing without a selection, else the undo is dispatched.
pub open spec fn undo_outcome(before: App, after: App, r: Option<Cmd>) -> bool {
    if before.wf.creating {
        r is None && status_only(before, "Nothing to undo — this workflow has not been created yet"@, after)
    } else {
        match selected_entry(before.wf) {
            None => r is None && after == before,
            Some(w) => (r matches Some(Cmd::UndoWorkflow { id }) && id@ == w.id@) && after == before,
        }
    }
}

/// The keys the graph canvas binds.
pub open spec fn canvas_binds(code: KeyCode) -> bool {
    ||| code == KeyCode::Esc || code == KeyCode::Left || code == KeyCode::Char('h') || code == KeyCode::Right
    ||| code == KeyCode::Char('l') || code == KeyCode::Up || code == KeyCode::Char('k') || code == KeyCode::Down
    ||| code == KeyCode::Char('j') || code == KeyCode::Char('i') || code == KeyCode::Char('c')
    ||| code == KeyCode::Char('r') || code == KeyCode::Char('d') || code == KeyCode::Char('x')
    ||| code == KeyCode::Char('u') || code == KeyCode::PageUp || code == KeyCode::PageDown
}

/// What a key does on the graph canvas. Esc closes an open inspector, else
/// steps back to the list; Left (`h`) off a node with nowhere to go back to
/// steps back to the list, else the cursor steps back; Right (`l`), Up (`k`)
/// and Down (`j`) step the cursor forward and across lanes where the layout
/// allows; `i` toggles the inspector; `c` opens the copilot; `r` re-reads the
/// catalogue; `d` simulates, `x` runs and `u` undoes the selected workflow;
/// PageUp and PageDown scroll the preview by six rows. Any other key is not
/// the canvas's.
pub open spec fn canvas_outcome(before: App, code: KeyCode, after: App, r: WorkflowsKey) -> bool {
    let wf = before.wf;
    if code == KeyCode::Esc {
        r == WorkflowsKey::Handled(None) && if wf.inspector_open {
            status_only(
                App { wf: WorkflowsState { inspector_open: false, ..wf }, ..before },
                "Graph · Esc to go back to the list"@,
                after,
            )
        } else {
            status_only(
                App { wf: WorkflowsState { focus: WorkflowFocus::Sidebar, ..wf }, ..before },
                "Workflows · list"@,
                after,
            )
        }
    } else if code == KeyCode::Left || code == KeyCode::Char('h') {
        r == WorkflowsKey::Handled(None) && if move_target(wf.moves@, wf.node_index, Move::Back) is None {
            after == (App { wf: WorkflowsState { focus: WorkflowFocus::Sidebar, ..wf }, ..before })
        } else {
            cursor_moved(before, Move::Back, after)
        }
    } else if code == KeyCode::Right || code == KeyCode::Char('l') {
        r == WorkflowsKey::Handled(None) && cursor_moved(before, Move::Forward, after)
    } else if code == KeyCode::Up || code == KeyCode::Char('k') {
        r == WorkflowsKey::Handled(None) && cursor_moved(before, Move::LaneUp, after)
    } else if code == KeyCode::Down || code == KeyCode::Char('j') {
        r == WorkflowsKey::Handled(None) && cursor_moved(before, Move::LaneDown, after)
    } else if code == KeyCode::Char('i') {
        r == WorkflowsKey::Handled(None) && after == (App {
            wf: WorkflowsState { inspector_open: !wf.inspector_open, ..wf },
            ..before
        })
    } else if code == KeyCode::Char('c') {
        r == WorkflowsKey::Handled(None) && after == (App {
            wf: WorkflowsState { focus: WorkflowFocus::Copilot, ..wf },
            ..before
        })
    } else if code == KeyCode::Char('r') {
        r == WorkflowsKey::Handled(Some(Cmd::ReloadWorkflows)) && status_only(
            before,
            "Reloading workflows…"@,
            after,
        )
    } else if code == KeyCode::Char('d') {
        r matches WorkflowsKey::Handled(c) && run_outcome(before, true, after, c)
    } else if code == KeyCode::Char('x') {
        r matches WorkflowsKey::Handled(c) && run_outcome(before, false, after, c)
    } else if code == KeyCode::Char('u') {
        r matches WorkflowsKey::Handled(c) && undo_outcome(before, after, c)
    } else if code == KeyCode::PageUp {
        r == WorkflowsKey::Handled(None) && after == (App {
            wf: WorkflowsState {
                preview_scroll: if wf.preview_scroll >= 6 { (wf.preview_scroll - 6) as usize } else { 0 },
                ..wf
            },
            ..before
        })
    } else if code == KeyCode::PageDown {
        r == WorkflowsKey::Handled(None) && after == (App {
            wf: WorkflowsState {
                preview_scroll: if wf.preview_scroll <= usize::MAX - 6 {
                    (wf.preview_scroll + 6) as usize
                } else {
                    usize::MAX
                },
                ..wf
            },
            ..before
        })
    } else {
        r == WorkflowsKey::Unhandled && after == before
    }
}

/// A key the focused pane of the Workflows tab binds is always handled by
/// it, and any other key is left to the common bindings untouched.
pub proof fn law_workflows_handles_what_it_binds(
    before: App,
    code: KeyCode,
    shift: bool,
    alt: bool,
    after: App,
    r: WorkflowsKey,
)
    requires
        workflows_outcome(before, code, shift, alt, after, r),
    ensures
        workflows_binds(before.wf, code, alt) <==> r is Handled,
        r is Unhandled ==> after == before,
{
}

/// Where the sidebar's cursor is: on a workflow of the catalogue, or on the
/// new-workflow row below the last one.
pub open spec fn sidebar_position(wf: WorkflowsState) -> int {
    let n = wf.workflows@.len() as int;
    if wf.creating {
        n
    } else {
        match wf.selected {
            Some(i) => if i < n {
                i as int
            } else {
                n
            },
            None => 0,
        }
    }
}

/// The sidebar's cursor was put on row `p`: a workflow selects it, the row
/// below the catalogue is the new-workflow row.
pub open spec fn at_position(before: App, p: int, after: App) -> bool {
    let n = before.wf.workflows@.len() as int;
    after == (App {
        wf: WorkflowsState {
            creating: p == n,
            selected: if p < n {
                Some(p as usize)
            } else {
                before.wf.selected
            },
            ..before.wf
        },
        ..before
    })
}

/// The position a digit key names, `1` being the first.
pub open spec fn digit_index(code: KeyCode) -> Option<int> {
    match code {
        KeyCode::Char(d) => if '1' <= d && d <= '9' {
            Some(d as int - '1' as int)
        } else {
            None
        },
        _ => None,
    }
}

/// The keys the sidebar binds: every character, and the arrows and Enter.
pub open spec fn sidebar_binds(code: KeyCode) -> bool {
    code is Char || code == KeyCode::Up || code == KeyCode::Down || code == KeyCode::Enter || code == KeyCode::Right
}

/// What a key does in the catalogue sidebar. A digit opens the workflow at
/// that position on the canvas, when there is one; Up (`k`) and Down (`j`)
/// walk the catalogue and the new-workflow row below it; Enter, Right and
/// `l` step into the canvas, or into the copilot on the new-workflow row;
/// `c` opens the copilot; `r` re-reads the catalogue; `d` simulates, `x` runs
/// and `u` undoes the selected workflow; any other character is swallowed.
/// Other keys are not the sidebar's.
pub open spec fn sidebar_outcome(before: App, code: KeyCode, after: App, r: WorkflowsKey) -> bool {
    let wf = before.wf;
    let n = wf.workflows@.len() as int;
    let p = sidebar_position(wf);
    if digit_index(code) is Some {
        let index = digit_index(code)->0;
        r == WorkflowsKey::Handled(None) && if index < n {
            after == (App {
                wf: WorkflowsState { selected: Some(index as usize), creating: false, focus: WorkflowFocus::Canvas, ..wf },
                ..before
            })
        } else {
            after == before
        }
    } else if code == KeyCode::Up || code == KeyCode::Char('k') {
        r == WorkflowsKey::Handled(None) && at_position(before, if p > 0 { p - 1 } else { 0 }, after)
    } else if code == KeyCode::Down || code == KeyCode::Char('j') {
        r == WorkflowsKey::Handled(None) && at_position(before, if p < n { p + 1 } else { n }, after)
    } else if code == KeyCode::Enter || code == KeyCode::Right || code == KeyCode::Char('l') {
        r == WorkflowsKey::Handled(None) && if wf.creating {
            status_only(
                App { wf: WorkflowsState { focus: WorkflowFocus::Copilot, ..wf }, ..before },
                "Describe the workflow you want · Esc to go back"@,
                after,
            )
        } else {
            status_only(
                App { wf: WorkflowsState { focus: WorkflowFocus::Canvas, ..wf }, ..before },
                "Graph · Esc to go back to the list"@,
                after,
            )
        }
    } else if code == KeyCode::Char('c') {
        r == WorkflowsKey::Handled(None) && after == (App {
            wf: WorkflowsState { focus: WorkflowFocus::Copilot, ..wf },
            ..before
        })
    } else if code == KeyCode::Char('r') || code == KeyCode::Char('d') || code == KeyCode::Char('x') || code
        == KeyCode::Char('u') {
        canvas_outcome(before, code, after, r)
    } else if code is Char {
        r == WorkflowsKey::Handled(None) && after == before
    } else {
        r == WorkflowsKey::Unhandled && after == before
    }
}

/// The workflow a copilot turn is about: none on the new-workflow row, else
/// the selected one.
pub open spec fn copilot_target(wf: WorkflowsState) -> Option<Seq<char>> {
    if wf.creating {
        None
    } else {
        match selected_entry(wf) {
            Some(w) => Some(w.id@),
            None => None,
        }
    }
}

/// An optional string as plain text.
pub open spec fn opt_text(s: Option<String>) -> Option<Seq<char>> {
    match s {
        Some(t) => Some(t@),
        None => None,
    }
}

/// The copilot's draft became `d`, nothing else changing.
pub open spec fn draft_now(before: App, d: Draft, after: App) -> bool {
    after == (App { wf: WorkflowsState { draft: d, ..before.wf }, ..before })
}

/// The keys the copilot binds: every character typed without Alt, `r`
/// with nothing typed, and Enter, the deletions, Left, Right, the page keys
/// and Esc.
pub open spec fn copilot_binds(wf: WorkflowsState, code: KeyCode, alt: bool) -> bool {
    ||| code == KeyCode::Enter || code == KeyCode::Backspace || code == KeyCode::Delete || code == KeyCode::Left
    ||| code == KeyCode::Right || code == KeyCode::PageUp || code == KeyCode::PageDown || code == KeyCode::Esc
    ||| (code is Char && !alt)
    ||| (code == KeyCode::Char('r') && wf.draft.text@.len() == 0)
}

/// What a key does in the copilot composer. Shift- or Alt-Enter breaks the
/// line; Enter sends the draft as a turn about the selected workflow (or a
/// new one) and empties it, and does nothing to an empty draft; Backspace
/// and Delete remove the character before the caret; Left and Right move the
/// caret; PageUp and PageDown scroll the transcript by a page; Esc clears a
/// draft, else steps back to the canvas (to the list on the new-workflow
/// row); `r` with nothing typed retries the last failed turn, or says there is
/// none; any other character typed without Alt goes in at the caret.
pub open spec fn copilot_outcome(before: App, code: KeyCode, shift: bool, alt: bool, after: App, r: WorkflowsKey) -> bool {
    let wf = before.wf;
    let d = wf.draft;
    if code == KeyCode::Enter && (shift || alt) {
        r == WorkflowsKey::Handled(None) && after.wf.draft.text@ == spliced(d.text@, d.cursor as int, seq!['\n'])
            && after.wf.draft.cursor == d.cursor + 1 && after == (App {
            wf: WorkflowsState { draft: after.wf.draft, ..wf },
            ..before
        })
    } else if code == KeyCode::Enter {
        if d.text@.len() == 0 {
            r == WorkflowsKey::Handled(None) && after == before
        } else {
            &&& r matches WorkflowsKey::Handled(Some(Cmd::CopilotTurn { workflow, instruction }))
            &&& opt_text(workflow) == copilot_target(wf) && instruction@ == d.text@
            &&& after.wf.draft.text@.len() == 0 && after.wf.draft.cursor == 0
            &&& draft_now(before, after.wf.draft, after)
        }
    } else if code == KeyCode::Backspace || code == KeyCode::Delete {
        r == WorkflowsKey::Handled(None) && if d.cursor > 0 {
            after.wf.draft.text@ == d.text@.remove(d.cursor - 1) && after.wf.draft.cursor == d.cursor - 1
                && draft_now(before, after.wf.draft, after)
        } else {
            after == before
        }
    } else if code == KeyCode::Left {
        r == WorkflowsKey::Handled(None) && after.wf.draft.text == d.text && after.wf.draft.cursor == (if d.cursor > 0 {
            d.cursor - 1
        } else {
            0
        }) && draft_now(before, after.wf.draft, after)
    } else if code == KeyCode::Right {
        r == WorkflowsKey::Handled(None) && after.wf.draft.text == d.text && after.wf.draft.cursor == (if d.cursor
            < d.text@.len() {
            d.cursor + 1
        } else {
            d.text@.len() as int
        }) && draft_now(before, after.wf.draft, after)
    } else if code == KeyCode::PageUp {
        r == WorkflowsKey::Handled(None) && after == (App {
            wf: WorkflowsState {
                copilot_scroll: if wf.copilot_scroll + wf.copilot_page <= usize::MAX {
                    (wf.copilot_scroll + wf.copilot_page) as usize
                } else {
                    usize::MAX
                },
                ..wf
            },
            ..before
        })
    } else if code == KeyCode::PageDown {
        r == WorkflowsKey::Handled(None) && after == (App {
            wf: WorkflowsState {
                copilot_scroll: if wf.copilot_scroll >= wf.copilot_page {
                    (wf.copilot_scroll - wf.copilot_page) as usize
                } else {
                    0
                },
                ..wf
            },
            ..before
        })
    } else if code == KeyCode::Esc {
        r == WorkflowsKey::Handled(None) && if d.text@.len() > 0 {
            after.wf.draft.text@.len() == 0 && after.wf.draft.cursor == 0 && draft_now(before, after.wf.draft, after)
        } else {
            after == (App {
                wf: WorkflowsState {
                    focus: if wf.creating {
                        WorkflowFocus::Sidebar
                    } else {
                        WorkflowFocus::Canvas
                    },
                    ..wf
                },
                ..before
            })
        }
    } else if code == KeyCode::Char('r') && d.text@.len() == 0 {
        match wf.last_failed {
            Some(t) => {
                &&& r matches WorkflowsKey::Handled(Some(Cmd::CopilotTurn { workflow, instruction }))
                &&& opt_text(workflow) == copilot_target(wf) && instruction@ == t@
                &&& after == (App { wf: WorkflowsState { last_failed: None, ..wf }, ..before })
            },
            None => r == WorkflowsKey::Handled(None) && status_only(before, "Nothing to retry"@, after),
        }
    } else if code is Char && !alt {
        r == WorkflowsKey::Handled(None) && after.wf.draft.text@ == spliced(d.text@, d.cursor as int, seq![code->Char_0])
            && after.wf.draft.cursor == d.cursor + 1 && draft_now(before, after.wf.draft, after)
    } else {
        r == WorkflowsKey::Unhandled && after == before
    }
}

/// What a key does on the Workflows tab: the focused pane's bindings.
pub open spec fn workflows_outcome(before: App, code: KeyCode, shift: bool, alt: bool, after: App, r: WorkflowsKey) -> bool {
    match before.wf.focus {
        WorkflowFocus::Sidebar => sidebar_outcome(before, code, after, r),
        WorkflowFocus::Canvas => canvas_outcome(before, code, after, r),
        WorkflowFocus::Copilot => copilot_outcome(before, code, shift, alt, after, r),
    }
}

/// The keys the focused pane of the Workflows tab binds.
pub open spec fn workflows_binds(wf: WorkflowsState, code: KeyCode, alt: bool) -> bool {
    match wf.focus {
        WorkflowFocus::Sidebar => sidebar_binds(code),
        WorkflowFocus::Canvas => canvas_binds(code),
        WorkflowFocus::Copilot => copilot_binds(wf, code, alt),
    }
}

/// `a`, then `b`, then `c`, as one line of text.
fn joined(a: &str, b: &String, c: &str) -> (r: String)
    ensures
        r@ == a@ + b@ + c@,
{
    let mut t: Vec<char> = Vec::new();
    push_str(&mut t, a);
    let bs = crate::text::chars_of_string(b);
    push_all(&mut t, &bs);
    push_str(&mut t, c);
    string_of(t.as_slice())
}

/// `b`, then `c`, as one line of text.
fn suffixed(b: &String, c: &str) -> (r: String)
    ensures
        r@ == b@ + c@,
{
    let mut t = crate::text::chars_of_string(b);
    push_str(&mut t, c);
    string_of(t.as_slice())
}

impl App {
    /// Where step `m` leads from the node under the cursor, if anywhere.
    fn move_target_of(&self, m: Move) -> (r: Option<usize>)
        ensures
            r == move_target(self.wf.moves@, self.wf.node_index, m),
    {
        let node = self.wf.node_index;
        if node < self.wf.moves.len() {
            let n = self.wf.moves[node];
            match m {
                Move::Back => n.back,
                Move::Forward => n.forward,
                Move::LaneUp => n.lane_up,
                Move::LaneDown => n.lane_down,
            }
        } else {
            None
        }
    }

    /// Step the graph cursor by `m` where the layout allows it.
    fn move_graph_cursor(&mut self, m: Move)
        ensures
            cursor_moved(*old(self), m, *final(self)),
    {
        match self.move_target_of(m) {
            Some(t) => {
                self.wf.node_index = t;
            },
            None => {},
        }
    }

    /// The position of the selected workflow, if it is in the catalogue.
    fn selected_workflow(&self) -> (r: Option<usize>)
        ensures
            match selected_entry(self.wf) {
                Some(w) => r matches Some(i) && i < self.wf.workflows@.len() && self.wf.workflows@[i as int] == w,
                None => r is None,
            },
    {
        match self.wf.selected {
            Some(i) => if i < self.wf.workflows.len() {
                Some(i)
            } else {
                None
            },
            None => None,
        }
    }

    /// Run (`dry` false) or simulate (`dry` true) the selected workflow.
    #[verifier::rlimit(40)]
    #[verifier::spinoff_prover]
    fn run_selected_workflow(&mut self, dry: bool) -> (r: Option<Cmd>)
        ensures
            run_outcome(*old(self), dry, *final(self), r),
    {
        if self.wf.creating {
            if dry {
                self.set_status("Nothing to simulate yet — describe the workflow first");
            } else {
                self.set_status("Nothing to run yet — describe the workflow first");
            }
            return None;
        }
        let i = match self.selected_workflow() {
            Some(i) => i,
            None => {
                return None;
            },
        };
        let enabled = self.wf.workflows[i].enabled;
        let id = self.wf.workflows[i].id.clone();
        if !dry && !enabled {
            self.status = suffixed(&self.wf.workflows[i].name, " is disabled");
            return None;
        }
        if self.wf.workflows[i].inputs > 0 {
            self.wf.awaiting_inputs = Some((id, dry));
            return None;
        }
        if dry {
            self.status = joined("Simulating ", &self.wf.workflows[i].name, "…");
            Some(Cmd::DryRunWorkflow { id })
        } else {
            self.status = joined("Running ", &self.wf.workflows[i].name, "…");
            Some(Cmd::RunWorkflow { id })
        }
    }

    /// Take back the last edit to the selected workflow.
    fn undo_selected_workflow(&mut self) -> (r: Option<Cmd>)
        ensures
            undo_outcome(*old(self), *final(self), r),
    {
        if self.wf.creating {
            self.set_status("Nothing to undo — this workflow has not been created yet");
            return None;
        }
        match self.selected_workflow() {
            Some(i) => Some(Cmd::UndoWorkflow { id: self.wf.workflows[i].id.clone() }),
            None => None,
        }
    }

    /// Handle a key for the graph canvas.
    pub fn workflow_canvas_key(&mut self, code: KeyCode) -> (r: WorkflowsKey)
        ensures
            canvas_outcome(*old(self), code, *final(self), r),
    {
        if code == KeyCode::Esc {
            if self.wf.inspector_open {
                self.wf.inspector_open = false;
                self.set_status("Graph · Esc to go back to the list");
            } else {
                self.wf.focus = WorkflowFocus::Sidebar;
                self.set_status("Workflows · list");
            }
            WorkflowsKey::Handled(None)
        } else if code == KeyCode::Left || code == KeyCode::Char('h') {
            if self.move_target_of(Move::Back).is_none() {
                self.wf.focus = WorkflowFocus::Sidebar;
            } else {
                self.move_graph_cursor(Move::Back);
            }
            WorkflowsKey::Handled(None)
        } else if code == KeyCode::Right || code == KeyCode::Char('l') {
            self.move_graph_cursor(Move::Forward);
            WorkflowsKey::Handled(None)
        } else if code == KeyCode::Up || code == KeyCode::Char('k') {
            self.move_graph_cursor(Move::LaneUp);
            WorkflowsKey::Handled(None)
        } else if code == KeyCode::Down || code == KeyCode::Char('j') {
            self.move_graph_cursor(Move::LaneDown);
            WorkflowsKey::Handled(None)
        } else if code == KeyCode::Char('i') {
            self.wf.inspector_open = !self.wf.inspector_open;
            WorkflowsKey::Handled(None)
        } else if code == KeyCode::Char('c') {
            self.wf.focus = WorkflowFocus::Copilot;
            WorkflowsKey::Handled(None)
        } else if code == KeyCode::Char('r') {
            self.set_status("Reloading workflows…");
            WorkflowsKey::Handled(Some(Cmd::ReloadWorkflows))
        } else if code == KeyCode::Char('d') {
            WorkflowsKey::Handled(self.run_selected_workflow(true))
        } else if code == KeyCode::Char('x') {
            WorkflowsKey::Handled(self.run_selected_workflow(false))
        } else if code == KeyCode::Char('u') {
            WorkflowsKey::Handled(self.undo_selected_workflow())
        } else if code == KeyCode::PageUp {
            self.wf.preview_scroll = self.wf.preview_scroll.saturating_sub(6);
            WorkflowsKey::Handled(None)
        } else if code == KeyCode::PageDown {
            self.wf.preview_scroll = self.wf.preview_scroll.saturating_add(6);
            WorkflowsKey::Handled(None)
        } else {
            WorkflowsKey::Unhandled
        }
    }
}

impl App {
    /// Put the sidebar's cursor on row `p` of the catalogue and the
    /// new-workflow row below it.
    fn sidebar_to(&mut self, p: usize)
        requires
            p <= old(self).wf.workflows@.len(),
        ensures
            at_position(*old(self), p as int, *final(self)),
    {
        let n = self.wf.workflows.len();
        self.wf.creating = p == n;
        if p < n {
            self.wf.selected = Some(p);
        }
    }

    /// Where the sidebar's cursor is.
    fn sidebar_position_of(&self) -> (r: usize)
        ensures
            r as int == sidebar_position(self.wf),
    {
        let n = self.wf.workflows.len();
        if self.wf.creating {
            n
        } else {
            match self.wf.selected {
                Some(i) => if i < n {
                    i
                } else {
                    n
                },
                None => 0,
            }
        }
    }

    /// Handle a key for the catalogue sidebar.
    #[verifier::rlimit(40)]
    #[verifier::spinoff_prover]
    pub fn workflow_sidebar_key(&mut self, code: KeyCode) -> (r: WorkflowsKey)
        ensures
            sidebar_outcome(*old(self), code, *final(self), r),
    {
        let n = self.wf.workflows.len();
        match code {
            KeyCode::Char(d) => {
                if '1' <= d && d <= '9' {
                    let index = (d as u32 - '1' as u32) as usize;
                    if index < n {
                        self.wf.selected = Some(index);
                        self.wf.creating = false;
                        self.wf.focus = WorkflowFocus::Canvas;
                    }
                    return WorkflowsKey::Handled(None);
                }
            },
            _ => {},
        }
        if code == KeyCode::Up || code == KeyCode::Char('k') {
            let p = self.sidebar_position_of();
            self.sidebar_to(if p > 0 { p - 1 } else { 0 });
            WorkflowsKey::Handled(None)
        } else if code == KeyCode::Down || code == KeyCode::Char('j') {
            let p = self.sidebar_position_of();
            self.sidebar_to(if p < n { p + 1 } else { n });
            WorkflowsKey::Handled(None)
        } else if code == KeyCode::Enter || code == KeyCode::Right || code == KeyCode::Char('l') {
            if self.wf.creating {
                self.wf.focus = WorkflowFocus::Copilot;
                self.set_status("Describe the workflow you want · Esc to go back");
            } else {
                self.wf.focus = WorkflowFocus::Canvas;
                self.set_status("Graph · Esc to go back to the list");
            }
            WorkflowsKey::Handled(None)
        } else if code == KeyCode::Char('c') {
            self.wf.focus = WorkflowFocus::Copilot;
            WorkflowsKey::Handled(None)
        } else if code == KeyCode::Char('r') || code == KeyCode::Char('d') || code == KeyCode::Char('x') || code
            == KeyCode::Char('u') {
            self.workflow_canvas_key(code)
        } else {
            match code {
                KeyCode::Char(_) => WorkflowsKey::Handled(None),
                _ => WorkflowsKey::Unhandled,
            }
        }
    }

    /// The workflow a copilot turn is about.
    fn copilot_target_of(&self) -> (r: Option<String>)
        ensures
            opt_text(r) == copilot_target(self.wf),
    {
        if self.wf.creating {
            None
        } else {
            match self.selected_workflow() {
                Some(i) => Some(self.wf.workflows[i].id.clone()),
                None => None,
            }
        }
    }

    /// Send the draft as a copilot turn, emptying it; nothing for an empty draft.
    fn submit_copilot(&mut self) -> (r: Option<Cmd>)
        ensures
            if old(self).wf.draft.text@.len() == 0 {
                r is None && *final(self) == *old(self)
            } else {
                &&& r matches Some(Cmd::CopilotTurn { workflow, instruction })
                &&& opt_text(workflow) == copilot_target(old(self).wf) && instruction@ == old(self).wf.draft.text@
                &&& final(self).wf.draft.text@.len() == 0 && final(self).wf.draft.cursor == 0
                &&& draft_now(*old(self), final(self).wf.draft, *final(self))
            },
    {
        if self.wf.draft.is_empty() {
            return None;
        }
        let workflow = self.copilot_target_of();
        let instruction = crate::text::string_of(self.wf.draft.text.as_slice());
        self.wf.draft = Draft::new();
        Some(Cmd::CopilotTurn { workflow, instruction })
    }

    /// Send the last failed copilot turn again, or say there is none.
    fn retry_copilot(&mut self) -> (r: Option<Cmd>)
        ensures
            match old(self).wf.last_failed {
                Some(t) => {
                    &&& r matches Some(Cmd::CopilotTurn { workflow, instruction })
                    &&& opt_text(workflow) == copilot_target(old(self).wf) && instruction@ == t@
                    &&& *final(self) == (App { wf: WorkflowsState { last_failed: None, ..old(self).wf }, ..*old(self) })
                },
                None => r is None && status_only(*old(self), "Nothing to retry"@, *final(self)),
            },
    {
        let workflow = self.copilot_target_of();
        match self.wf.last_failed.take() {
            Some(instruction) => Some(Cmd::CopilotTurn { workflow, instruction }),
            None => {
                self.set_status("Nothing to retry");
                None
            },
        }
    }

    /// Handle a key for the copilot composer.
    #[verifier::rlimit(100)]
    #[verifier::spinoff_prover]
    pub fn workflow_copilot_key(&mut self, code: KeyCode, shift: bool, alt: bool) -> (r: WorkflowsKey)
        requires
            old(self).wf.draft.wf(),
            old(self).wf.draft.text@.len() < usize::MAX,
        ensures
            copilot_outcome(*old(self), code, shift, alt, *final(self), r),
            final(self).wf.draft.wf(),
    {
        if code == KeyCode::Enter && (shift || alt) {
            self.wf.draft.insert_char('\n');
            WorkflowsKey::Handled(None)
        } else if code == KeyCode::Enter {
            WorkflowsKey::Handled(self.submit_copilot())
        } else if code == KeyCode::Backspace || code == KeyCode::Delete {
            self.wf.draft.delete_before();
            WorkflowsKey::Handled(None)
        } else if code == KeyCode::Left {
            self.wf.draft.left();
            WorkflowsKey::Handled(None)
        } else if code == KeyCode::Right {
            self.wf.draft.right();
            WorkflowsKey::Handled(None)
        } else if code == KeyCode::PageUp {
            self.wf.copilot_scroll = self.wf.copilot_scroll.saturating_add(self.wf.copilot_page);
            WorkflowsKey::Handled(None)
        } else if code == KeyCode::PageDown {
            self.wf.copilot_scroll = self.wf.copilot_scroll.saturating_sub(self.wf.copilot_page);
            WorkflowsKey::Handled(None)
        } else if code == KeyCode::Esc {
            if !self.wf.draft.is_empty() {
                self.wf.draft = Draft::new();
            } else if self.wf.creating {
                self.wf.focus = WorkflowFocus::Sidebar;
            } else {
                self.wf.focus = WorkflowFocus::Canvas;
            }
            WorkflowsKey::Handled(None)
        } else if code == KeyCode::Char('r') && self.wf.draft.is_empty() {
            WorkflowsKey::Handled(self.retry_copilot())
        } else {
            match code {
                KeyCode::Char(c) => if !alt {
                    self.wf.draft.insert_char(c);
                    WorkflowsKey::Handled(None)
                } else {
                    WorkflowsKey::Unhandled
                },
                _ => WorkflowsKey::Unhandled,
            }
        }
    }

    /// Handle a key for the Workflows tab: the focused pane takes it.
    pub fn on_workflows_key(&mut self, code: KeyCode, shift: bool, alt: bool) -> (r: WorkflowsKey)
        requires
            old(self).wf.draft.wf(),
            old(self).wf.draft.text@.len() < usize::MAX,
        ensures
            workflows_outcome(*old(self), code, shift, alt, *final(self), r),
    {
        match self.wf.focus {
            WorkflowFocus::Sidebar => self.workflow_sidebar_key(code),
            WorkflowFocus::Canvas => self.workflow_canvas_key(code),
            WorkflowFocus::Copilot => self.workflow_copilot_key(code, shift, alt),
        }
    }
}

} // verus!
