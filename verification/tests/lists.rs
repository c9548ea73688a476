//! The operator's editable lists: presets, hooks, and lane claims.

use medulla_tui::app::{App, HandbackPolicy, PromptKind, Setup};
use medulla_tui::rail::{AgentLane, AgentRole};
use medulla_tui::harness::HarnessChoice;
use medulla_tui::lists::{parse_claim, parse_custom_harness, parse_hook, HookSpec};

fn line(s: &str) -> Vec<char> {
    s.chars().collect()
}

fn providers() -> Vec<HarnessChoice> {
    vec![
        HarnessChoice { wire: "codex".to_string(), name: "Codex".to_string() },
        HarnessChoice { wire: "aider".to_string(), name: "Aider".to_string() },
    ]
}

fn app() -> App {
    let setup = Setup {
        harness_choices: providers(),
        harness_workspace: String::new(),
        agent_declarations: Vec::new(),
        local_host_id: String::new(),
        workers: Vec::new(),
        handback_policy: HandbackPolicy::Ask,
        steering_reaches_backend: false,
        appearance_rows: 0,
        contexts: Vec::new(),
        recent_workspaces: Vec::new(),
        routing_strategies: vec!["least-loaded".to_string(), "round-robin".to_string()],
        subscription_strategies: vec!["spread".to_string()],
        remote_join_command: "medulla join".to_string(),
    };
    App::new(setup, None)
}

fn builtin_hook() -> HookSpec {
    HookSpec {
        event: "Stop".to_string(),
        matcher: String::new(),
        harnesses: String::new(),
        timeout: String::new(),
        command: "medulla notify".to_string(),
        label: Some("notify".to_string()),
        builtin: true,
    }
}

#[test]
fn a_preset_line_is_read_field_by_field() {
    let h = parse_custom_harness(&line(" fast | Fast codex | codex | big | small | host-1 "), &providers()).unwrap();
    assert_eq!(h.id, "fast");
    assert_eq!(h.name, "Fast codex");
    assert_eq!(h.harness, "codex");
    assert_eq!(h.model, "big");
    assert_eq!(h.fast_model, "small");
    assert_eq!(h.host_id, "host-1");
    assert!(!h.default);
}

#[test]
fn a_malformed_line_is_reported_and_changes_nothing() {
    assert_eq!(
        parse_custom_harness(&line("only | three | codex"), &providers()).err().unwrap(),
        "expected id | name | harness | model | fast-model | host-id"
    );
    assert_eq!(
        parse_custom_harness(&line(" | n | codex | m | f | h"), &providers()).err().unwrap(),
        "the id is required"
    );
    assert_eq!(
        parse_custom_harness(&line("x | n | nope | m | f | h"), &providers()).err().unwrap(),
        "the harness is not one this device knows"
    );
    let mut app = app();
    app.save_custom_harness_line(None, &line("broken"));
    assert!(app.lists.custom_harnesses.is_empty());
    assert_eq!(app.status, "Custom harness · expected id | name | harness | model | fast-model | host-id");
}

#[test]
fn duplicate_ids_are_rejected_without_overwriting_the_existing_preset() {
    let mut app = app();
    app.save_custom_harness_line(None, &line("fast | One | codex | m | f | h"));
    assert_eq!(app.lists.custom_harnesses.len(), 1);
    assert_eq!(app.status, "Custom harness saved");
    app.save_custom_harness_line(None, &line("fast | Two | aider | m | f | h"));
    assert_eq!(app.lists.custom_harnesses.len(), 1);
    assert_eq!(app.lists.custom_harnesses[0].name, "One");
}

#[test]
fn hook_lines_need_a_lifecycle_event_and_a_command() {
    let h = parse_hook(&line("Stop | a,b | codex | 30 | say done")).unwrap();
    assert_eq!(h.event, "Stop");
    assert_eq!(h.matcher, "a|b");
    assert!(!h.builtin);
    assert_eq!(parse_hook(&line("Later | a | b | c | d")).err().unwrap(), "'Later' is not a lifecycle event");
    assert_eq!(parse_hook(&line("Stop | a | b | c | ")).err().unwrap(), "a hook needs a command");
    assert_eq!(
        parse_hook(&line("Stop | a")).err().unwrap(),
        "expected Event | matcher | harnesses | timeout | command"
    );
}

#[test]
fn a_builtin_can_be_neither_edited_nor_deleted() {
    let mut app = app();
    app.lists.hooks = vec![builtin_hook()];
    app.lists.hook_index = 0;
    app.delete_selected_hook();
    assert_eq!(app.lists.hooks.len(), 1);
    assert_eq!(app.status, "Medulla's own hooks cannot be deleted — press b to turn them off");
    app.save_hook_line(Some(0), &line("Stop | x | y | 1 | other"));
    assert_eq!(app.lists.hooks.len(), 1);
    assert!(app.lists.hooks[0].builtin);
    assert_eq!(app.lists.hooks[0].command, "medulla notify");
}

#[test]
fn operator_hooks_come_and_go_around_the_builtins() {
    let mut app = app();
    app.lists.hooks = vec![builtin_hook()];
    app.save_hook_line(None, &line("Stop | x | y | 1 | mine"));
    assert_eq!(app.lists.hooks.len(), 2);
    app.lists.hook_index = 1;
    app.delete_selected_hook();
    assert_eq!(app.lists.hooks.len(), 1);
    assert!(app.lists.hooks[0].builtin);
    assert_eq!(app.status, "Removed the hook");
}

#[test]
fn claims_are_split_on_commas_and_trimmed() {
    assert_eq!(parse_claim(&line(" src/**, docs/*.md ,, ")), vec!["src/**".to_string(), "docs/*.md".to_string()]);
    assert!(parse_claim(&line("   ")).is_empty());
}

fn with_lane(key: &str, label: &str) -> App {
    let mut app = app();
    app.lanes.push(AgentLane {
        key: key.to_string(),
        label: label.to_string(),
        role: AgentRole::Agent,
        agent_id: Some(key.to_string()),
        tasks: Vec::new(),
    });
    app.agent_index = 0;
    app
}

#[test]
fn the_claim_editor_shows_the_saved_claim_and_saving_it_keeps_it() {
    let mut app = with_lane("api", "API");
    app.submit_lane_claim(&"api".to_string(), &line(" src/**, docs/*.md ,, "));
    app.open_lane_claim_prompt();
    let prompt = app.prompt.as_ref().expect("the claim editor opens");
    assert!(matches!(&prompt.kind, PromptKind::LaneClaim { lane_key } if lane_key == "api"));
    assert_eq!(prompt.title, "Claim paths for API — comma-separated globs");
    let shown: String = prompt.draft.text.iter().collect();
    assert_eq!(shown, "src/**, docs/*.md");
    assert_eq!(prompt.draft.cursor, shown.chars().count());
    assert_eq!(app.status, "Agents · Enter save claim · empty clears · Esc cancel");
    assert_eq!(parse_claim(&prompt.draft.text), vec!["src/**".to_string(), "docs/*.md".to_string()]);
}

#[test]
fn the_claim_editor_needs_a_lane() {
    let mut app = app();
    app.open_lane_claim_prompt();
    assert!(app.prompt.is_none());
    assert_eq!(app.status, "Select a lane before editing its path claim");
}
