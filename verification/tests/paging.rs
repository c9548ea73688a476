//! Paging a lane's task sublanes behind its overflow row, from the keyboard
//! helper and from a click on the drawn row.

use medulla_tui::agents::AgentDeclaration;
use medulla_tui::app::{App, Cmd, HandbackPolicy, Setup};
use medulla_tui::harness::HarnessChoice;
use medulla_tui::pointer::Rect;
use medulla_tui::rail::{
    agent_rows, count_waiting, AgentLane, AgentRole, AgentRow, RailRow, TaskState, TaskStatus, SUBTASK_PAGE,
};

fn setup() -> Setup {
    Setup {
        harness_choices: vec![HarnessChoice { wire: "codex".to_string(), name: "Codex".to_string() }],
        harness_workspace: "/work".to_string(),
        agent_declarations: Vec::<AgentDeclaration>::new(),
        local_host_id: "local".to_string(),
        workers: Vec::new(),
        handback_policy: HandbackPolicy::Ask,
        steering_reaches_backend: false,
        appearance_rows: 0,
        contexts: Vec::new(),
        recent_workspaces: Vec::new(),
        routing_strategies: vec!["least-loaded".to_string(), "round-robin".to_string()],
        subscription_strategies: vec!["spread".to_string()],
        remote_join_command: "medulla join".to_string(),
    }
}

/// Append `tasks` started tasks for `agent`.
fn push_tasks(app: &mut App, agent: &str, tasks: usize) {
    let mut lane = AgentLane {
        key: agent.to_string(),
        label: agent.to_string(),
        role: AgentRole::Agent,
        agent_id: Some(agent.to_string()),
        tasks: Vec::new(),
    };
    for i in 0..tasks {
        lane.tasks.push(TaskState {
            task_id: format!("{agent}-t{i}"),
            cycle_id: None,
            status: TaskStatus::Running,
            question_id: None,
            attention: None,
        });
    }
    app.lanes.push(lane);
}

/// An app whose rail is only the tasks these tests are about.
fn app_with_tasks(agent: &str, tasks: usize) -> App {
    let mut app = App::new(setup(), None);
    push_tasks(&mut app, agent, tasks);
    app
}

/// How many task sublanes the rail is currently drawing.
fn shown_subtasks(app: &App) -> usize {
    agent_rows(&app.lanes, &app.subtask_pages)
        .iter()
        .filter(|row| matches!(row, AgentRow::Sub { .. }))
        .count()
}

fn overflow_index(app: &App) -> usize {
    app.rail_rows()
        .iter()
        .position(|row| matches!(row, RailRow::Agent(AgentRow::More { .. })))
        .expect("a lane with hidden sublanes has an overflow row")
}

/// Put the cursor on the overflow row, as arrowing onto it would.
fn select_overflow_row(app: &mut App) {
    app.agent_index = overflow_index(app);
}

/// Whether the cursor is on an overflow row right now.
fn on_overflow_row(app: &App) -> bool {
    matches!(
        app.rail_rows().get(app.agent_index),
        Some(RailRow::Agent(AgentRow::More { .. }))
    )
}

/// Lay the rail out the way a frame draws it: the Sessions tab, one line per
/// rail row.
fn draw(app: &mut App) {
    app.tab_index = app.tab_pos(medulla_tui::app::Tab::Sessions).unwrap();
    let owners: Vec<usize> = (0..app.rail_rows().len()).collect();
    app.pointer.tabs_row = 0;
    app.pointer.agents = Some((Rect { x: 0, y: 2, width: 30, height: 40 }, owners));
}

/// Click the overflow row where it was drawn, returning any command.
fn click_overflow_row(app: &mut App) -> Option<Cmd> {
    draw(app);
    let overflow = overflow_index(app);
    let (rect, owners) = app.pointer.agents.clone().expect("the rail was drawn");
    let line = owners
        .iter()
        .position(|owner| *owner == overflow)
        .expect("the overflow row is on screen");
    app.handle_click(rect.x, rect.y + line as u16)
}

#[test]
fn the_overflow_row_reveals_one_more_page_each_time() {
    let mut app = app_with_tasks("dev", 25);
    assert_eq!(shown_subtasks(&app), SUBTASK_PAGE);

    select_overflow_row(&mut app);
    assert!(app.page_subtasks());
    assert_eq!(shown_subtasks(&app), SUBTASK_PAGE * 2);

    assert!(on_overflow_row(&app));
    assert!(app.page_subtasks());
    assert_eq!(shown_subtasks(&app), 25);
}

#[test]
fn a_fully_revealed_lane_folds_back_to_one_page() {
    let mut app = app_with_tasks("dev", 25);
    select_overflow_row(&mut app);
    app.page_subtasks();
    app.page_subtasks();
    assert_eq!(shown_subtasks(&app), 25);

    assert!(on_overflow_row(&app));
    assert!(app.page_subtasks());
    assert_eq!(shown_subtasks(&app), SUBTASK_PAGE);
}

#[test]
fn paging_elsewhere_leaves_other_rows_alone() {
    let mut app = app_with_tasks("dev", 25);
    app.agent_index = 0;
    assert!(!app.page_subtasks());
    assert_eq!(shown_subtasks(&app), SUBTASK_PAGE);
    assert_eq!(app.agent_index, 0);
}

#[test]
fn clicking_the_overflow_row_pages_it_open() {
    let mut app = app_with_tasks("dev", 25);
    assert_eq!(shown_subtasks(&app), SUBTASK_PAGE);

    click_overflow_row(&mut app);

    assert_eq!(shown_subtasks(&app), SUBTASK_PAGE * 2);
    assert!(on_overflow_row(&app));
}

#[test]
fn clicking_the_overflow_row_stops_a_task_stream_it_left_behind() {
    let mut app = app_with_tasks("dev", 25);
    let watched = ("worker-1".to_string(), "dev-t3".to_string());
    app.watching = Some(watched.clone());

    let cmd = click_overflow_row(&mut app);

    assert!(
        matches!(&cmd, Some(Cmd::WatchTask { stop, start: None }) if stop.as_ref() == Some(&watched)),
        "expected the click to stop the previous watch"
    );
    assert_eq!(app.watching, None);
}

#[test]
fn an_expansion_follows_its_lane_when_the_rows_move() {
    let mut app = app_with_tasks("dev", 25);
    select_overflow_row(&mut app);
    app.page_subtasks();
    assert_eq!(shown_subtasks(&app), SUBTASK_PAGE * 2);
    push_tasks(&mut app, "ops", 3);
    assert_eq!(shown_subtasks(&app), SUBTASK_PAGE * 2 + 3);
}

#[test]
fn a_click_on_a_task_row_watches_that_task() {
    let mut app = app_with_tasks("dev", 3);
    draw(&mut app);
    let rows = app.rail_rows();
    let sub = rows
        .iter()
        .position(|row| matches!(row, RailRow::Agent(AgentRow::Sub { task_index: 1, .. })))
        .unwrap();
    let cmd = app.handle_click(0, 2 + sub as u16);
    assert_eq!(app.agent_index, sub);
    assert!(matches!(&cmd, Some(Cmd::WatchTask { stop: None, start: Some((_, task)) }) if task == "dev-t1"));
    assert_eq!(app.watching, Some(("dev".to_string(), "dev-t1".to_string())));
}

#[test]
fn a_click_on_the_tab_bar_switches_tabs() {
    let mut app = app_with_tasks("dev", 3);
    app.pointer.tabs_row = 0;
    app.pointer.tabs = vec![(0, 9), (11, 20), (22, 30)];
    app.selected = 4;
    app.handle_click(12, 0);
    assert_eq!(app.tab_index, 1);
    assert_eq!(app.selected, 0);
    // A click between tabs changes nothing.
    assert!(app.handle_click(10, 0).is_none());
    assert_eq!(app.tab_index, 1);
}

#[test]
fn the_cursor_finds_an_agent_lane_by_its_agent() {
    let mut app = App::new(setup(), None);
    push_tasks(&mut app, "api", 2);
    push_tasks(&mut app, "docs", 0);
    assert_eq!(app.selected_agent_id().as_deref(), Some("api"));
    app.select_agent_row(&"docs".to_string());
    let rows = app.rail_rows();
    assert!(matches!(rows[app.agent_index], RailRow::Agent(AgentRow::Lane { lane_index: 1 })));
    assert_eq!(app.selected_agent_id().as_deref(), Some("docs"));
    assert_eq!(app.selected_agent_lane(), Some(1));
    let before = app.agent_index;
    app.select_agent_row(&"nobody".to_string());
    assert_eq!(app.agent_index, before);
}

#[test]
fn waiting_sessions_count_unless_attached() {
    let waiting = vec!["a".to_string(), "b".to_string(), "c".to_string()];
    assert_eq!(count_waiting(&waiting, &None), 3);
    assert_eq!(count_waiting(&waiting, &Some("b".to_string())), 2);
    assert_eq!(count_waiting(&waiting, &Some("z".to_string())), 3);
    assert_eq!(count_waiting(&Vec::new(), &None), 0);
}
