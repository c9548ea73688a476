//! Pointer input: hit-testing, the wheel, drag selection, and modals.

use medulla_tui::app::{App, Cmd, HandbackPolicy, Setup, Tab};
use medulla_tui::keymap::{pointer_report, Event, Motion, MouseButton, MouseEvent, MouseKind};
use medulla_tui::pointer::{clamp_to, Grab, Rect};
use medulla_tui::rail::SessionRow;

fn setup() -> Setup {
    Setup {
        harness_choices: Vec::new(),
        harness_workspace: "/work".to_string(),
        agent_declarations: Vec::new(),
        local_host_id: "local".to_string(),
        workers: Vec::new(),
        handback_policy: HandbackPolicy::Ask,
        steering_reaches_backend: false,
        appearance_rows: 0,
        contexts: vec!["a".to_string(), "b".to_string(), "c".to_string()],
        recent_workspaces: Vec::new(),
        routing_strategies: vec!["least-loaded".to_string(), "round-robin".to_string()],
        subscription_strategies: vec!["spread".to_string()],
        remote_join_command: "medulla join".to_string(),
    }
}

fn app() -> App {
    let mut app = App::new(setup(), Some(Vec::new()));
    app.tab_index = app.tab_pos(Tab::Sessions).unwrap();
    app
}

fn at(kind: MouseKind, column: u16, row: u16) -> MouseEvent {
    MouseEvent { kind, column, row }
}

fn left_down(column: u16, row: u16) -> MouseEvent {
    at(MouseKind::Down(MouseButton::Left), column, row)
}

#[test]
fn a_rect_holds_its_cells_and_not_its_edge() {
    let r = Rect { x: 2, y: 3, width: 4, height: 2 };
    assert!(r.contains(2, 3));
    assert!(r.contains(5, 4));
    assert!(!r.contains(6, 4));
    assert!(!r.contains(5, 5));
    assert!(!r.contains(1, 3));
    let edge = Rect { x: u16::MAX - 1, y: 0, width: 10, height: 1 };
    assert_eq!(edge.right(), u16::MAX);
    assert!(!Rect { x: 0, y: 0, width: 0, height: 0 }.contains(0, 0));
}

#[test]
fn clamping_holds_a_cell_in_range() {
    assert_eq!(clamp_to(5, 2, 8), 5);
    assert_eq!(clamp_to(1, 2, 8), 2);
    assert_eq!(clamp_to(9, 2, 8), 8);
    assert_eq!(clamp_to(9, 4, 3), 4, "an empty range holds its start");
}

#[test]
fn only_button_events_are_reported() {
    assert_eq!(pointer_report(MouseKind::Down(MouseButton::Right)), Some((MouseButton::Right, Motion::Press)));
    assert_eq!(pointer_report(MouseKind::Up(MouseButton::Left)), Some((MouseButton::Left, Motion::Release)));
    assert_eq!(pointer_report(MouseKind::Drag(MouseButton::Middle)), Some((MouseButton::Middle, Motion::Drag)));
    assert_eq!(pointer_report(MouseKind::Moved), None);
    assert_eq!(pointer_report(MouseKind::ScrollUp), None);
}

#[test]
fn pointer_input_cancels_an_armed_harness_close() {
    let mut app = app();
    app.harness_close_armed = Some("s1".to_string());
    assert!(app.on_mouse(left_down(3, 3), false).is_none());
    assert_eq!(app.harness_close_armed, None);
    assert_eq!(app.status, "Harness close cancelled");
    assert_eq!(app.pointer.drag_anchor, None, "the cancelling click goes no further");
}

#[test]
fn cancelling_a_session_kill_with_the_mouse_does_not_click_through_the_modal() {
    let mut app = app();
    app.kill_armed = Some(("w".to_string(), "t".to_string()));
    app.pointer.tabs_row = 0;
    app.pointer.tabs = vec![(0, 5)];
    assert!(app.on_mouse(left_down(1, 0), false).is_none());
    assert_eq!(app.kill_armed, None);
    assert_eq!(app.status, "Session kill cancelled");
    assert_eq!(app.tab_index, 1, "the tab bar behind the question was not clicked");
}

#[test]
fn inline_prompt_swallows_clicks_that_would_reach_the_picker_behind_it() {
    let mut app = app();
    app.prompt = Some(medulla_tui::app::Prompt {
        kind: medulla_tui::app::PromptKind::HostAdd,
        title: "t".to_string(),
        draft: medulla_tui::composer::Draft::new(),
    });
    app.pointer.tabs_row = 0;
    app.pointer.tabs = vec![(0, 5)];
    assert!(app.on_mouse(left_down(1, 0), false).is_none());
    assert_eq!(app.tab_index, 1);
    assert_eq!(app.pointer.drag_anchor, None);
}

#[test]
fn handback_prompt_swallows_clicks_behind_it() {
    let mut app = app();
    app.handback_prompt = Some(medulla_tui::app::HandbackPrompt {
        session: "s1".to_string(),
        took_control: false,
        note: medulla_tui::composer::Draft::new(),
        editing_note: false,
    });
    app.pointer.tabs_row = 0;
    app.pointer.tabs = vec![(0, 5)];
    assert!(app.on_mouse(left_down(1, 0), false).is_none());
    assert_eq!(app.tab_index, 1);
    assert!(app.handback_prompt.is_some());
}

#[test]
fn a_press_arms_a_drag_that_selects_within_its_pane() {
    let mut app = app();
    app.pointer.panes = vec![Rect { x: 0, y: 0, width: 10, height: 10 }, Rect { x: 10, y: 0, width: 20, height: 10 }];
    app.on_mouse(left_down(5, 5), false);
    assert_eq!(app.pointer.drag_anchor, Some((5, 5)));
    app.on_mouse(at(MouseKind::Drag(MouseButton::Left), 20, 2), false);
    assert_eq!(app.pointer.selection, Some((5, 2, 9, 5)), "the block stays in the anchor's pane");
    app.on_mouse(at(MouseKind::Up(MouseButton::Left), 20, 2), false);
    assert_eq!(app.pointer.drag_anchor, None);
    assert!(app.pointer.copy_selection);
}

#[test]
fn the_wheel_over_the_terminal_goes_to_its_harness() {
    let mut app = app();
    app.pointer.session = Some((Rect { x: 10, y: 5, width: 20, height: 10 }, "s1".to_string()));
    app.on_mouse(at(MouseKind::ScrollUp, 12, 7), false);
    assert!(matches!(
        app.pending.last(),
        Some(Cmd::ScrollHarness { session, col: 2, row: 2, up: true, rows: 3 }) if session == "s1"
    ));
}

#[test]
fn the_wheel_elsewhere_scrolls_the_conversation() {
    let mut app = app();
    app.on_mouse(at(MouseKind::ScrollUp, 50, 20), false);
    assert_eq!(app.agent_scroll, 3);
    app.on_mouse(at(MouseKind::ScrollDown, 50, 20), false);
    app.on_mouse(at(MouseKind::ScrollDown, 50, 20), false);
    assert_eq!(app.agent_scroll, 0);
}

#[test]
fn an_attached_harness_that_asked_for_reports_takes_the_pointer() {
    let mut app = app();
    app.harnesses = Some(vec![SessionRow {
        id: "s1".to_string(),
        user_spawned: true,
        started_at: 1,
        control: medulla_tui::app::Control::User,
        running: true,
        cwd: "/w".to_string(),
    }]);
    app.attached = Some("s1".to_string());
    app.pointer.session = Some((Rect { x: 10, y: 5, width: 20, height: 10 }, "s1".to_string()));
    app.on_mouse(left_down(11, 6), true);
    assert!(matches!(
        app.pending.last(),
        Some(Cmd::MouseToHarness { session, col: 1, row: 1, button: MouseButton::Left, motion: Motion::Press })
            if session == "s1"
    ));
    assert!(app.pointer.grab.is_some());
    // The release lands in the harness even off its pane, clamped to the edge.
    app.on_mouse(at(MouseKind::Up(MouseButton::Left), 50, 1), true);
    assert!(matches!(
        app.pending.last(),
        Some(Cmd::MouseToHarness { col: 19, row: 0, motion: Motion::Release, .. })
    ));
    assert!(app.pointer.grab.is_none());
}

#[test]
fn a_grab_keeps_its_gesture_but_not_other_buttons() {
    let mut app = app();
    app.pointer.grab = Some(Grab {
        session: "s1".to_string(),
        button: MouseButton::Left,
        rect: Rect { x: 0, y: 0, width: 5, height: 5 },
    });
    assert!(!app.deliver_pointer_grab(at(MouseKind::Down(MouseButton::Left), 1, 1)), "a press starts a gesture");
    assert!(!app.deliver_pointer_grab(at(MouseKind::Drag(MouseButton::Right), 1, 1)));
    assert!(app.deliver_pointer_grab(at(MouseKind::Drag(MouseButton::Left), 9, 9)));
    assert!(matches!(app.pending.last(), Some(Cmd::MouseToHarness { col: 4, row: 4, .. })));
}

#[test]
fn a_click_on_a_context_row_selects_it() {
    let mut app = app();
    app.tab_index = app.tab_pos(Tab::Settings).unwrap();
    app.menus.settings_index = app.settings_pos(medulla_tui::app::SettingsPage::Context).unwrap();
    app.pointer.tabs_row = 0;
    app.pointer.context = Some(Rect { x: 0, y: 4, width: 40, height: 10 });
    app.handle_click(3, 6);
    assert_eq!(app.menus.context_index, 2);
    app.handle_click(3, 9);
    assert_eq!(app.menus.context_index, 2, "a line past the list selects nothing");
}

#[test]
fn a_click_on_a_subpage_selects_it_and_takes_focus() {
    let mut app = app();
    app.tab_index = app.tab_pos(Tab::Settings).unwrap();
    app.pointer.tabs_row = 0;
    app.pointer.nav_pages = vec![Rect { x: 0, y: 2, width: 10, height: 1 }, Rect { x: 0, y: 3, width: 10, height: 1 }];
    assert!(app.handle_click(1, 3).is_none());
    assert_eq!(app.menus.settings_index, 1);
    assert!(app.menus.settings_focused);
}

#[test]
fn a_paste_through_the_event_router_lands_in_the_composer() {
    let mut app = app();
    let r = app.on_event(Event::Paste("one\r\ntwo".chars().collect()), false);
    assert!(r.is_none());
    assert_eq!(app.draft.text.iter().collect::<String>(), "one\ntwo");
    assert!(app.on_event(Event::Other, false).is_none());
}

#[test]
fn pointer_input_cancels_workflow_delete_without_clicking_through() {
    let mut app = app();
    app.workflow_delete_armed = Some(("nightly".to_string(), "Nightly sweep".to_string()));
    app.pointer.tabs_row = 1;
    app.pointer.tabs = vec![(0, 4), (5, 10)];
    let original_tab = app.tab_index;
    let result = app.on_mouse(left_down(6, 1), false);
    assert!(result.is_none());
    assert!(app.workflow_delete_armed.is_none());
    assert_eq!(app.status, "Workflow deletion cancelled");
    assert_eq!(app.tab_index, original_tab, "the cancellation click is consumed");
}
