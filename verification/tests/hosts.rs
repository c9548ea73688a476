//! The Hosts page: the flattened tree, the cursor over it, and its keys.

use medulla_tui::app::{App, Cmd, HandbackPolicy, PromptKind, RoutingPage, Setup, Tab, WorkerOp};
use medulla_tui::hosts::{flatten, toggle_role, HostAgentRow, HostKind, HostRow, HostsRow};
use medulla_tui::keymap::KeyCode;
use medulla_tui::rail::WorkerInfo;
use medulla_tui::settings::SettingsKey;

fn agent(id: &str, live: bool) -> HostAgentRow {
    HostAgentRow { agent_id: id.to_string(), live, editable: true, roles: vec!["review".to_string()] }
}

fn worker(id: &str, label: Option<&str>) -> WorkerInfo {
    WorkerInfo {
        id: id.to_string(),
        address: format!("{id}.local"),
        label: label.map(str::to_string),
        roles: vec!["review".to_string()],
    }
}

fn tree() -> Vec<HostRow> {
    vec![
        HostRow {
            id: "here".to_string(),
            label: "This machine".to_string(),
            kind: HostKind::Local,
            agents: vec![agent("api", true), agent("docs", false)],
            detail_worker: Some("probe".to_string()),
        },
        HostRow {
            id: "peer".to_string(),
            label: "Peer".to_string(),
            kind: HostKind::Remote,
            agents: vec![agent("far", true)],
            detail_worker: None,
        },
    ]
}

fn app() -> App {
    let setup = Setup {
        harness_choices: Vec::new(),
        harness_workspace: "/work".to_string(),
        agent_declarations: Vec::new(),
        local_host_id: "here".to_string(),
        workers: vec![worker("probe", None), worker("api", Some("API box")), worker("far", None)],
        handback_policy: HandbackPolicy::Ask,
        steering_reaches_backend: false,
        appearance_rows: 0,
        contexts: Vec::new(),
        recent_workspaces: Vec::new(),
        routing_strategies: vec!["least-loaded".to_string(), "round-robin".to_string()],
        subscription_strategies: vec!["spread".to_string()],
        remote_join_command: "medulla join".to_string(),
    };
    let mut app = App::new(setup, None);
    app.hosts.tree = tree();
    app.tab_index = app.tab_pos(Tab::Hosts).unwrap();
    app.menus.routing_focused = true;
    app
}

#[test]
fn the_tree_flattens_host_by_host() {
    let rows = flatten(&tree());
    assert_eq!(
        rows,
        vec![
            HostsRow { host: 0, agent: None },
            HostsRow { host: 0, agent: Some(0) },
            HostsRow { host: 0, agent: Some(1) },
            HostsRow { host: 1, agent: None },
            HostsRow { host: 1, agent: Some(0) },
        ]
    );
}

#[test]
fn the_cursor_walks_hosts_and_the_agents_under_them() {
    let mut app = app();
    assert_eq!(app.hosts_row_count(), 5);
    assert!(app.hosts_cursor_on_host());
    assert!(app.selected_host_agent().is_none());
    app.hosts.index = 1;
    assert!(!app.hosts_cursor_on_host());
    assert_eq!(app.selected_host_agent().unwrap().agent_id, "api");
    app.hosts.index = 99;
    assert_eq!(app.selected_host_agent().unwrap().agent_id, "far", "the cursor clamps to the last row");
}

#[test]
fn a_remote_agent_is_read_only() {
    let mut app = app();
    assert!(app.selected_host_is_local());
    app.hosts.index = 4;
    assert!(!app.selected_host_is_local());
}

#[test]
fn a_header_acts_on_the_entry_that_probed_it_and_an_agent_on_itself() {
    let mut app = app();
    assert_eq!(app.selected_host(), Some(0));
    app.hosts.index = 1;
    assert_eq!(app.selected_host(), Some(1));
    // A declared agent that is not running has no roster entry to act on.
    app.hosts.index = 2;
    assert_eq!(app.selected_host(), None);
    app.hosts.index = 3;
    assert_eq!(app.selected_host(), None);
}

#[test]
fn select_remove_and_refresh_name_the_entry() {
    let mut app = app();
    app.hosts.index = 1;
    match app.hosts_key(KeyCode::Enter) {
        SettingsKey::Handled(Some(Cmd::WorkerOp(WorkerOp::Select { id }))) => assert_eq!(id, "api"),
        _ => panic!("expected a select"),
    }
    assert_eq!(app.status, "Selecting API box");
    match app.hosts_key(KeyCode::Char('x')) {
        SettingsKey::Handled(Some(Cmd::WorkerOp(WorkerOp::Remove { id }))) => assert_eq!(id, "api"),
        _ => panic!("expected a removal"),
    }
    assert_eq!(app.status, "Removing API box");
    match app.hosts_key(KeyCode::Char('r')) {
        SettingsKey::Handled(Some(Cmd::WorkerOp(WorkerOp::RefreshDetails { id }))) => assert_eq!(id, "api"),
        _ => panic!("expected a refresh"),
    }
    assert_eq!(app.status, "Refreshing api details…");
    app.hosts.index = 0;
    app.hosts_key(KeyCode::Char('s'));
    assert_eq!(app.status, "Selecting probe.local");
}

#[test]
fn roles_need_templates_and_toggle_one_at_a_time() {
    let mut app = app();
    app.hosts.index = 1;
    assert!(matches!(app.hosts_key(KeyCode::Right), SettingsKey::Handled(None)));
    assert!(!app.host_roles_focused());
    assert_eq!(app.status, "No agent templates are declared — nothing to assign");

    app.hosts.templates = vec!["review".to_string(), "build".to_string()];
    app.hosts_key(KeyCode::Right);
    assert!(app.host_roles_focused());
    match app.hosts_key(KeyCode::Char(' ')) {
        SettingsKey::Handled(Some(Cmd::WorkerOp(WorkerOp::SetRoles { id, roles }))) => {
            assert_eq!(id, "api");
            assert!(roles.is_empty());
        }
        _ => panic!("expected a role change"),
    }
    assert_eq!(app.status, "api no longer offered for review");
    app.hosts_key(KeyCode::Down);
    match app.hosts_key(KeyCode::Enter) {
        SettingsKey::Handled(Some(Cmd::WorkerOp(WorkerOp::SetRoles { roles, .. }))) => {
            assert_eq!(roles, vec!["review".to_string(), "build".to_string()]);
        }
        _ => panic!("expected a role change"),
    }
    assert_eq!(app.status, "api now offered for build");
    app.hosts_key(KeyCode::Left);
    assert!(!app.host_roles_focused());
}

#[test]
fn toggling_removes_only_the_first_copy() {
    let roles = vec!["a".to_string(), "b".to_string(), "a".to_string()];
    let (next, added) = toggle_role(&roles, &"a".to_string());
    assert_eq!(next, vec!["b".to_string(), "a".to_string()]);
    assert!(!added);
}

#[test]
fn a_adds_a_host_from_the_list() {
    let mut app = app();
    app.hosts_key(KeyCode::Char('a'));
    assert!(matches!(app.prompt.as_ref().map(|p| &p.kind), Some(PromptKind::HostAdd)));
    assert_eq!(app.routing_page(), Some(RoutingPage::AddHost));
    assert_eq!(app.status, "Add host · Enter save · Esc cancel");
}

#[test]
fn e_edits_the_label_starting_from_the_current_one() {
    let mut app = app();
    app.hosts.index = 1;
    app.hosts_key(KeyCode::Char('e'));
    let prompt = app.prompt.as_ref().unwrap();
    assert!(matches!(&prompt.kind, PromptKind::HostEditLabel(id) if id == "api"));
    assert_eq!(prompt.title, "Edit label — api.local");
    assert_eq!(prompt.draft.text.iter().collect::<String>(), "API box");
}

#[test]
fn entering_a_fleet_page_asks_for_the_fleet() {
    let mut app = app();
    app.menus.routing_focused = false;
    app.menus.routing_index = 1;
    assert!(matches!(app.on_routing_key(KeyCode::Enter), SettingsKey::Handled(Some(Cmd::RefreshFleet))));
    assert_eq!(app.status, "Workspaces · Esc to go back to the menu");
    assert!(matches!(app.on_routing_key(KeyCode::Esc), SettingsKey::Handled(None)));
    assert_eq!(app.status, "Routing · menu");
}

#[test]
fn the_session_picker_is_reported_open_only_while_shown() {
    let mut app = app();
    assert!(!app.session_picker_open());
    app.harnesses = Some(Vec::new());
    app.setup.harness_choices =
        vec![medulla_tui::harness::HarnessChoice { wire: "codex".to_string(), name: "Codex".to_string() }];
    app.open_session_picker();
    assert!(app.session_picker_open());
}

fn on_page(page: RoutingPage) -> App {
    let mut app = app();
    app.menus.routing_index = app.menus.routing_pages.iter().position(|p| *p == page).unwrap();
    app
}

#[test]
fn strategies_move_within_the_focused_column_and_apply_on_enter() {
    let mut app = on_page(RoutingPage::Strategies);
    assert!(matches!(app.on_routing_key(KeyCode::Down), SettingsKey::Handled(None)));
    assert!(matches!(app.on_routing_key(KeyCode::Down), SettingsKey::Handled(None)));
    assert_eq!(app.hosts.routing_strategy_index, 1);
    match app.on_routing_key(KeyCode::Enter) {
        SettingsKey::Handled(Some(Cmd::WorkerOp(WorkerOp::ApplyStrategy { strategy }))) => {
            assert_eq!(strategy, "round-robin")
        }
        _ => panic!("Enter applies the highlighted strategy"),
    }
    assert!(matches!(app.on_routing_key(KeyCode::Char('l')), SettingsKey::Handled(None)));
    assert!(app.hosts.subscription_focused);
    app.on_routing_key(KeyCode::Char('j'));
    assert_eq!(app.hosts.subscription_strategy_index, 0);
    match app.on_routing_key(KeyCode::Enter) {
        SettingsKey::Handled(Some(Cmd::WorkerOp(WorkerOp::ApplySubscriptionStrategy { strategy }))) => {
            assert_eq!(strategy, "spread")
        }
        _ => panic!("Enter applies the highlighted subscription strategy"),
    }
    assert!(matches!(app.on_routing_key(KeyCode::Char('h')), SettingsKey::Handled(None)));
    assert!(!app.hosts.subscription_focused);
}

#[test]
fn the_add_host_page_prompts_and_copies_the_join_line() {
    let mut app = on_page(RoutingPage::AddHost);
    match app.on_routing_key(KeyCode::Char('c')) {
        SettingsKey::Handled(Some(Cmd::CopyLine { what, text })) => {
            assert_eq!(what, "the worker install line");
            assert_eq!(text, "medulla join");
        }
        _ => panic!("c copies the join line"),
    }
    assert!(matches!(app.on_routing_key(KeyCode::Char('j')), SettingsKey::Handled(None)));
    assert!(matches!(app.on_routing_key(KeyCode::Enter), SettingsKey::Handled(None)));
    assert!(matches!(app.prompt.as_ref().map(|p| &p.kind), Some(PromptKind::HostAdd)));
}
