//! The Workflows tab's graph canvas.

use medulla_tui::app::{App, Cmd, HandbackPolicy, Setup, Tab};
use medulla_tui::keymap::{KeyCode, KeyEvent};
use medulla_tui::workflows::{NodeMoves, WorkflowEntry, WorkflowFocus, WorkflowsKey};

fn app() -> App {
    let setup = Setup {
        harness_choices: Vec::new(),
        harness_workspace: String::new(),
        agent_declarations: Vec::new(),
        local_host_id: String::new(),
        workers: Vec::new(),
        handback_policy: HandbackPolicy::Ask,
        steering_reaches_backend: false,
        appearance_rows: 0,
        contexts: Vec::new(),
        recent_workspaces: Vec::new(),
        routing_strategies: Vec::new(),
        subscription_strategies: Vec::new(),
        remote_join_command: String::new(),
    };
    App::new(setup, Some(Vec::new()))
}

fn entry(id: &str, enabled: bool, inputs: usize) -> WorkflowEntry {
    WorkflowEntry { id: id.to_string(), name: format!("{id} workflow"), enabled, inputs }
}

fn step(back: Option<usize>, forward: Option<usize>, up: Option<usize>, down: Option<usize>) -> NodeMoves {
    NodeMoves { back, forward, lane_up: up, lane_down: down }
}

/// start → check → (yes | no) → join, with the canvas focused on `start`.
fn diamond(entry: WorkflowEntry) -> App {
    let mut app = app();
    app.wf.workflows = vec![entry];
    app.wf.selected = Some(0);
    app.wf.moves = vec![
        step(None, Some(1), None, None),
        step(Some(0), Some(2), None, None),
        step(Some(1), Some(4), None, Some(3)),
        step(Some(1), Some(4), Some(2), None),
        step(Some(2), None, None, None),
    ];
    app.wf.focus = WorkflowFocus::Canvas;
    app
}

fn key(app: &mut App, code: KeyCode) -> WorkflowsKey {
    app.workflow_canvas_key(code)
}

#[test]
fn esc_on_the_canvas_always_steps_back_to_the_list() {
    let mut app = diamond(entry("sweep", true, 0));
    key(&mut app, KeyCode::Right);

    key(&mut app, KeyCode::Esc);

    assert_eq!(app.wf.focus, WorkflowFocus::Sidebar);
    assert_eq!(app.status, "Workflows · list");
}

#[test]
fn esc_closes_an_open_inspector_before_leaving_the_graph() {
    let mut app = diamond(entry("sweep", true, 0));
    key(&mut app, KeyCode::Char('i'));

    key(&mut app, KeyCode::Esc);

    assert!(!app.wf.inspector_open);
    assert_eq!(app.wf.focus, WorkflowFocus::Canvas);
    assert_eq!(app.status, "Graph · Esc to go back to the list");
}

#[test]
fn left_off_the_first_node_steps_back_to_the_list() {
    let mut app = diamond(entry("sweep", true, 0));

    key(&mut app, KeyCode::Left);

    assert_eq!(app.wf.focus, WorkflowFocus::Sidebar);
    assert_eq!(app.wf.node_index, 0);
}

#[test]
fn left_with_room_moves_the_cursor_back_instead_of_leaving_the_canvas() {
    let mut app = diamond(entry("sweep", true, 0));
    key(&mut app, KeyCode::Right);

    key(&mut app, KeyCode::Left);

    assert_eq!(app.wf.focus, WorkflowFocus::Canvas);
    assert_eq!(app.wf.node_index, 0);
}

#[test]
fn right_and_h_and_k_and_j_move_the_graph_cursor() {
    let mut app = diamond(entry("sweep", true, 0));

    key(&mut app, KeyCode::Right);
    assert_eq!(app.wf.node_index, 1);
    key(&mut app, KeyCode::Char('l'));
    assert_eq!(app.wf.node_index, 2);
    key(&mut app, KeyCode::Char('h'));
    assert_eq!(app.wf.node_index, 1);
    key(&mut app, KeyCode::Char('l'));
    key(&mut app, KeyCode::Char('j'));
    assert_eq!(app.wf.node_index, 3);
    key(&mut app, KeyCode::Char('k'));
    assert_eq!(app.wf.node_index, 2);
    // Nowhere further up: the cursor stays.
    key(&mut app, KeyCode::Up);
    assert_eq!(app.wf.node_index, 2);
}

#[test]
fn i_toggles_the_inspector() {
    let mut app = diamond(entry("sweep", true, 0));
    assert!(!app.wf.inspector_open);
    key(&mut app, KeyCode::Char('i'));
    assert!(app.wf.inspector_open);
    key(&mut app, KeyCode::Char('i'));
    assert!(!app.wf.inspector_open);
}

#[test]
fn c_opens_the_copilot_from_the_canvas() {
    let mut app = diamond(entry("sweep", true, 0));
    key(&mut app, KeyCode::Char('c'));
    assert_eq!(app.wf.focus, WorkflowFocus::Copilot);
}

#[test]
fn r_reloads_the_store_from_the_canvas() {
    let mut app = diamond(entry("sweep", true, 0));
    let pressed = key(&mut app, KeyCode::Char('r'));
    assert!(matches!(pressed, WorkflowsKey::Handled(Some(Cmd::ReloadWorkflows))));
    assert!(app.status.contains("workflow"), "{}", app.status);
}

#[test]
fn d_simulates_and_x_runs_from_the_canvas() {
    let mut app = diamond(entry("sweep", true, 0));

    let dry = key(&mut app, KeyCode::Char('d'));
    assert!(matches!(dry, WorkflowsKey::Handled(Some(Cmd::DryRunWorkflow { ref id })) if id == "sweep"));
    assert_eq!(app.status, "Simulating sweep workflow…");

    let run = key(&mut app, KeyCode::Char('x'));
    assert!(matches!(run, WorkflowsKey::Handled(Some(Cmd::RunWorkflow { ref id })) if id == "sweep"));
    assert_eq!(app.status, "Running sweep workflow…");
}

#[test]
fn x_refuses_a_disabled_workflow_but_d_still_simulates_it() {
    let mut app = diamond(entry("paused", false, 0));

    let dry = key(&mut app, KeyCode::Char('d'));
    assert!(matches!(dry, WorkflowsKey::Handled(Some(Cmd::DryRunWorkflow { ref id })) if id == "paused"));

    let run = key(&mut app, KeyCode::Char('x'));
    assert!(matches!(run, WorkflowsKey::Handled(None)));
    assert_eq!(app.status, "paused workflow is disabled");
}

#[test]
fn a_workflow_with_inputs_waits_for_them_instead_of_starting() {
    let mut app = diamond(entry("asks", true, 2));
    let run = key(&mut app, KeyCode::Char('x'));
    assert!(matches!(run, WorkflowsKey::Handled(None)));
    assert_eq!(app.wf.awaiting_inputs, Some(("asks".to_string(), false)));
}

#[test]
fn u_undoes_the_selected_workflow_from_the_canvas() {
    let mut app = diamond(entry("sweep", true, 0));
    let undo = key(&mut app, KeyCode::Char('u'));
    assert!(matches!(undo, WorkflowsKey::Handled(Some(Cmd::UndoWorkflow { ref id })) if id == "sweep"));
}

#[test]
fn nothing_runs_or_undoes_on_the_new_workflow_row() {
    let mut app = diamond(entry("sweep", true, 0));
    app.wf.creating = true;
    assert!(matches!(key(&mut app, KeyCode::Char('u')), WorkflowsKey::Handled(None)));
    assert_eq!(app.status, "Nothing to undo — this workflow has not been created yet");
    assert!(matches!(key(&mut app, KeyCode::Char('x')), WorkflowsKey::Handled(None)));
    assert_eq!(app.status, "Nothing to run yet — describe the workflow first");
    assert!(matches!(key(&mut app, KeyCode::Char('d')), WorkflowsKey::Handled(None)));
    assert_eq!(app.status, "Nothing to simulate yet — describe the workflow first");
}

#[test]
fn page_keys_scroll_the_preview_and_stop_at_zero() {
    let mut app = diamond(entry("sweep", true, 0));
    key(&mut app, KeyCode::PageDown);
    key(&mut app, KeyCode::PageDown);
    assert_eq!(app.wf.preview_scroll, 12);
    key(&mut app, KeyCode::PageUp);
    assert_eq!(app.wf.preview_scroll, 6);
    key(&mut app, KeyCode::PageUp);
    key(&mut app, KeyCode::PageUp);
    assert_eq!(app.wf.preview_scroll, 0);
}

#[test]
fn a_key_the_canvas_does_not_bind_is_unhandled() {
    let mut app = diamond(entry("sweep", true, 0));
    let result = key(&mut app, KeyCode::Tab);
    assert!(matches!(result, WorkflowsKey::Unhandled));
}

#[test]
fn the_workflows_tab_hands_its_canvas_the_keys() {
    let mut app = diamond(entry("sweep", true, 0));
    app.tab_index = app.tabs.iter().position(|t| *t == Tab::Workflows).unwrap();
    let r = app.on_key(KeyEvent::plain(KeyCode::Char('x')));
    assert!(matches!(r, Some(Cmd::RunWorkflow { ref id }) if id == "sweep"));
    // A key the canvas leaves alone still walks the tabs.
    let before = app.tab_index;
    app.on_key(KeyEvent::plain(KeyCode::Tab));
    assert_eq!(app.tab_index, before + 1);
}

fn catalogue(entries: Vec<WorkflowEntry>) -> App {
    let mut app = app();
    app.wf.workflows = entries;
    app.wf.selected = Some(0);
    app
}

fn press(app: &mut App, code: KeyCode) -> WorkflowsKey {
    app.on_workflows_key(code, false, false)
}

#[test]
fn a_digit_jumps_to_the_workflow_at_that_position_and_opens_the_canvas() {
    let mut app = catalogue(vec![entry("a-first", true, 0), entry("b-second", true, 0)]);
    press(&mut app, KeyCode::Char('2'));
    assert_eq!(app.wf.selected, Some(1));
    assert_eq!(app.wf.focus, WorkflowFocus::Canvas);
}

#[test]
fn a_digit_past_the_end_of_the_catalogue_does_nothing() {
    let mut app = catalogue(vec![entry("only", true, 0)]);
    let result = press(&mut app, KeyCode::Char('9'));
    assert!(matches!(result, WorkflowsKey::Handled(None)));
    assert_eq!(app.wf.selected, Some(0));
    assert_eq!(app.wf.focus, WorkflowFocus::Sidebar);
}

#[test]
fn enter_right_and_l_all_step_into_the_canvas_from_the_sidebar() {
    for code in [KeyCode::Enter, KeyCode::Right, KeyCode::Char('l')] {
        let mut app = catalogue(vec![entry("sweep", true, 0)]);
        press(&mut app, code);
        assert_eq!(app.wf.focus, WorkflowFocus::Canvas, "{code:?}");
        assert!(app.status.contains("Graph"), "{}", app.status);
    }
}

#[test]
fn c_opens_the_copilot_from_the_sidebar() {
    let mut app = catalogue(vec![entry("sweep", true, 0)]);
    press(&mut app, KeyCode::Char('c'));
    assert_eq!(app.wf.focus, WorkflowFocus::Copilot);
}

#[test]
fn d_simulates_and_x_runs_the_selected_workflow_from_the_sidebar() {
    let mut app = catalogue(vec![entry("sweep", true, 0)]);
    let dry = press(&mut app, KeyCode::Char('d'));
    assert!(matches!(dry, WorkflowsKey::Handled(Some(Cmd::DryRunWorkflow { ref id })) if id == "sweep"));
    assert!(app.status.contains("Simulating"), "{}", app.status);
    let run = press(&mut app, KeyCode::Char('x'));
    assert!(matches!(run, WorkflowsKey::Handled(Some(Cmd::RunWorkflow { ref id })) if id == "sweep"));
    assert!(app.status.contains("Running"), "{}", app.status);
}

#[test]
fn u_undoes_the_selected_workflow_from_either_pane() {
    let mut app = catalogue(vec![entry("sweep", true, 0)]);
    let from_sidebar = press(&mut app, KeyCode::Char('u'));
    assert!(matches!(from_sidebar, WorkflowsKey::Handled(Some(Cmd::UndoWorkflow { ref id })) if id == "sweep"));
    press(&mut app, KeyCode::Enter);
    assert_eq!(app.wf.focus, WorkflowFocus::Canvas);
    let from_canvas = press(&mut app, KeyCode::Char('u'));
    assert!(matches!(from_canvas, WorkflowsKey::Handled(Some(Cmd::UndoWorkflow { ref id })) if id == "sweep"));
}

#[test]
fn u_on_the_new_row_says_there_is_nothing_to_undo_yet() {
    let mut app = catalogue(vec![entry("sweep", true, 0)]);
    press(&mut app, KeyCode::Down);
    assert!(app.wf.creating);
    let pressed = press(&mut app, KeyCode::Char('u'));
    assert!(matches!(pressed, WorkflowsKey::Handled(None)));
    assert!(app.status.contains("not been created"), "{}", app.status);
    // Up leaves the new row for the workflow above it.
    press(&mut app, KeyCode::Up);
    assert!(!app.wf.creating);
    assert_eq!(app.wf.selected, Some(0));
}

#[test]
fn x_refuses_a_disabled_workflow_from_the_sidebar_but_d_still_simulates_it() {
    let mut app = catalogue(vec![entry("paused", false, 0)]);
    let dry = press(&mut app, KeyCode::Char('d'));
    assert!(matches!(dry, WorkflowsKey::Handled(Some(Cmd::DryRunWorkflow { ref id })) if id == "paused"));
    let run = press(&mut app, KeyCode::Char('x'));
    assert!(matches!(run, WorkflowsKey::Handled(None)));
    assert!(app.status.contains("disabled"), "{}", app.status);
}

#[test]
fn a_stray_letter_is_swallowed_rather_than_falling_through_to_a_global_binding() {
    let mut app = catalogue(vec![entry("sweep", true, 0)]);
    let result = press(&mut app, KeyCode::Char('z'));
    assert!(matches!(result, WorkflowsKey::Handled(None)));
    assert_eq!(app.wf.focus, WorkflowFocus::Sidebar);
}

#[test]
fn a_non_character_key_the_sidebar_does_not_bind_is_unhandled() {
    let mut app = catalogue(vec![entry("sweep", true, 0)]);
    let result = press(&mut app, KeyCode::Tab);
    assert!(matches!(result, WorkflowsKey::Unhandled));
}

fn app_in_copilot(text: &str) -> App {
    let mut app = catalogue(vec![entry("sweep", true, 0)]);
    press(&mut app, KeyCode::Char('c'));
    for ch in text.chars() {
        app.on_workflows_key(KeyCode::Char(ch), false, false);
    }
    app
}

fn draft(app: &App) -> String {
    app.wf.draft.text.iter().collect()
}

#[test]
fn typed_characters_land_in_the_draft_in_order() {
    let app = app_in_copilot("hi");
    assert_eq!(draft(&app), "hi");
}

#[test]
fn shift_or_alt_enter_inserts_a_newline_instead_of_submitting() {
    let mut app = app_in_copilot("go");
    let shift = app.on_workflows_key(KeyCode::Enter, true, false);
    assert!(matches!(shift, WorkflowsKey::Handled(None)));
    assert_eq!(draft(&app), "go\n");
    let alt = app.on_workflows_key(KeyCode::Enter, false, true);
    assert!(matches!(alt, WorkflowsKey::Handled(None)));
    assert_eq!(draft(&app), "go\n\n");
}

#[test]
fn plain_enter_submits_the_draft_as_a_copilot_turn() {
    let mut app = app_in_copilot("add a slack step");
    let result = press(&mut app, KeyCode::Enter);
    assert!(matches!(
        result,
        WorkflowsKey::Handled(Some(Cmd::CopilotTurn { workflow: Some(ref workflow), ref instruction }))
            if workflow == "sweep" && instruction == "add a slack step"
    ));
    assert!(app.wf.draft.text.is_empty());
}

#[test]
fn backspace_and_delete_remove_the_character_before_the_cursor() {
    let mut app = app_in_copilot("hit");
    press(&mut app, KeyCode::Backspace);
    assert_eq!(draft(&app), "hi");
    press(&mut app, KeyCode::Delete);
    assert_eq!(draft(&app), "h");
}

#[test]
fn left_and_right_move_the_cursor_without_editing_the_draft() {
    let mut app = app_in_copilot("ab");
    assert_eq!(app.wf.draft.cursor, 2);
    press(&mut app, KeyCode::Left);
    assert_eq!(app.wf.draft.cursor, 1);
    press(&mut app, KeyCode::Char('x'));
    assert_eq!(draft(&app), "axb");
    for _ in 0..4 {
        press(&mut app, KeyCode::Right);
    }
    assert_eq!(app.wf.draft.cursor, 3);
}

#[test]
fn page_up_and_page_down_scroll_the_transcript_and_stop_at_zero() {
    let mut app = app_in_copilot("");
    let page = app.wf.copilot_page;
    assert!(page > 0);
    press(&mut app, KeyCode::PageUp);
    assert_eq!(app.wf.copilot_scroll, page);
    press(&mut app, KeyCode::PageDown);
    press(&mut app, KeyCode::PageDown);
    assert_eq!(app.wf.copilot_scroll, 0);
}

#[test]
fn esc_clears_a_draft_before_it_leaves_the_composer() {
    let mut app = app_in_copilot("half-typed");
    press(&mut app, KeyCode::Esc);
    assert!(app.wf.draft.text.is_empty());
    assert_eq!(app.wf.focus, WorkflowFocus::Copilot);
    press(&mut app, KeyCode::Esc);
    assert_eq!(app.wf.focus, WorkflowFocus::Canvas);
}

#[test]
fn alt_held_characters_are_not_typed_into_the_draft() {
    let mut app = app_in_copilot("");
    let result = app.on_workflows_key(KeyCode::Char('x'), false, true);
    assert!(matches!(result, WorkflowsKey::Unhandled));
    assert!(app.wf.draft.text.is_empty());
}

#[test]
fn r_in_the_copilot_retries_only_when_nothing_is_typed() {
    let mut app = app_in_copilot("");
    press(&mut app, KeyCode::Char('g'));
    press(&mut app, KeyCode::Char('r'));
    assert_eq!(draft(&app), "gr");
    for _ in 0..2 {
        press(&mut app, KeyCode::Backspace);
    }
    let pressed = press(&mut app, KeyCode::Char('r'));
    assert!(matches!(pressed, WorkflowsKey::Handled(None)));
    assert!(app.status.contains("Nothing to retry"), "{}", app.status);

    app.wf.last_failed = Some("try again".to_string());
    let pressed = press(&mut app, KeyCode::Char('r'));
    assert!(matches!(
        pressed,
        WorkflowsKey::Handled(Some(Cmd::CopilotTurn { ref instruction, .. })) if instruction == "try again"
    ));
    assert_eq!(app.wf.last_failed, None);
}
