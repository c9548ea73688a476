//! Declaring agents and opening sessions under them from the Sessions rail.

use medulla_tui::agents::AgentDeclaration;
use medulla_tui::app::{App, HandbackPolicy, PromptKind, Setup};
use medulla_tui::harness::{HarnessChoice, PickerPurpose};
use medulla_tui::rail::RailRow;

fn setup(declarations: Vec<AgentDeclaration>) -> Setup {
    Setup {
        harness_choices: vec![
            HarnessChoice { wire: "codex".to_string(), name: "Codex".to_string() },
            HarnessChoice { wire: "aider".to_string(), name: "Aider".to_string() },
        ],
        harness_workspace: "/work".to_string(),
        agent_declarations: declarations,
        local_host_id: "local".to_string(),
        workers: Vec::new(),
        handback_policy: HandbackPolicy::Ask,
        steering_reaches_backend: false,
        appearance_rows: 0,
        contexts: Vec::new(),
        recent_workspaces: Vec::new(),
        routing_strategies: vec!["least-loaded".to_string(), "round-robin".to_string()],
        subscription_strategies: vec!["spread".to_string()],
        remote_join_command: "medulla join".to_string(),
    }
}

/// A device that hosts harness sessions, with none running yet.
fn hosting_app() -> App {
    App::new(setup(Vec::new()), Some(Vec::new()))
}

fn declaration(id: &str, host: &str, harness: &str, workspace: &str) -> AgentDeclaration {
    AgentDeclaration {
        agent_id: id.to_string(),
        host_id: host.to_string(),
        harness: harness.to_string(),
        workspace: Some(workspace.to_string()),
        name: None,
    }
}

#[test]
fn the_new_agent_row_opens_the_picker_in_declare_mode() {
    let mut app = hosting_app();
    let index = app
        .rail_rows()
        .iter()
        .position(|row| row.is_new_harness())
        .expect("the create action is on the rail");
    app.agent_index = index;
    assert!(app.on_new_agent_row());

    app.open_new_agent_picker();
    let picker = app.session_picker.as_ref().expect("the picker opened");
    assert_eq!(picker.purpose, PickerPurpose::DeclareAgent);
}

#[test]
fn a_session_started_somewhere_undeclared_offers_an_agent_for_it() {
    let mut app = hosting_app();
    app.offer_agent_declaration(&"codex".to_string(), &"/work/loose".to_string());
    assert!(app.prompt.is_some(), "the offer is a name prompt");
    let kind = app.prompt.as_ref().map(|prompt| &prompt.kind);
    assert!(
        matches!(kind, Some(PromptKind::AgentName { harness, workspace })
            if harness == "codex" && workspace == "/work/loose"),
        "the offer carries the pair it would declare"
    );
}

#[test]
fn a_directory_that_is_already_declared_is_not_offered_again() {
    let mut app = App::new(setup(vec![declaration("api", "", "codex", "/work/api")]), Some(Vec::new()));
    app.offer_agent_declaration(&"codex".to_string(), &"/work/api/".to_string());
    assert!(app.prompt.is_none(), "nothing left to declare");
}

#[test]
fn a_new_session_under_an_agent_asks_for_a_name_first() {
    let mut app = App::new(setup(vec![declaration("shell", "", "codex", "/")]), Some(Vec::new()));
    app.open_new_session(&"shell".to_string());
    let kind = app.prompt.as_ref().map(|prompt| &prompt.kind);
    assert!(
        matches!(kind, Some(PromptKind::SessionName { agent_id, managed })
            if agent_id == "shell" && !managed),
        "a session a person spins up is theirs at birth"
    );
}

#[test]
fn opening_a_session_for_an_undeclared_agent_says_so() {
    let mut app = hosting_app();
    app.open_new_session(&"nobody".to_string());
    assert!(app.status.contains("nobody"), "{}", app.status);
    assert!(app.prompt.is_none());
}

#[test]
fn an_agent_declared_on_another_host_is_opened_there() {
    let mut app = App::new(setup(vec![declaration("far", "peer-host", "codex", "/srv")]), Some(Vec::new()));
    app.open_new_session(&"far".to_string());
    assert_eq!(app.status, "far is declared on peer-host — open its sessions on that machine");
    assert!(app.prompt.is_none());
}

#[test]
fn a_device_that_is_not_hosting_declares_nothing() {
    let mut app = App::new(setup(Vec::new()), None);
    app.open_new_agent_picker();
    assert!(app.session_picker.is_none());
    assert_eq!(app.status, "This device is not hosting, so it has no agents to declare");
    assert!(!app.rail_rows().iter().any(|row| matches!(row, RailRow::NewHarness)));
}
