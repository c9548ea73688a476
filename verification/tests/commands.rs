//! Slash commands and the composer history.

use medulla_tui::app::{App, Cmd, HandbackPolicy, Setup};
use medulla_tui::commands::{parse_slash, CopyScope, SlashCommand};

fn line(s: &str) -> Vec<char> {
    s.chars().collect()
}

fn app() -> App {
    let setup = Setup {
        harness_choices: Vec::new(),
        harness_workspace: String::new(),
        agent_declarations: Vec::new(),
        local_host_id: String::new(),
        workers: Vec::new(),
        handback_policy: HandbackPolicy::Ask,
        steering_reaches_backend: false,
        appearance_rows: 0,
        contexts: Vec::new(),
        recent_workspaces: Vec::new(),
        routing_strategies: vec!["least-loaded".to_string(), "round-robin".to_string()],
        subscription_strategies: vec!["spread".to_string()],
        remote_join_command: "medulla join".to_string(),
    };
    App::new(setup, None)
}

#[test]
fn plain_text_is_not_a_command() {
    assert!(parse_slash(&line("hello")).is_none());
    assert!(parse_slash(&line("")).is_none());
}

#[test]
fn commands_are_read_by_their_first_word() {
    assert!(matches!(parse_slash(&line("/quit")), Some(SlashCommand::Quit)));
    assert!(matches!(parse_slash(&line("/exit")), Some(SlashCommand::Quit)));
    assert!(matches!(parse_slash(&line("/new")), Some(SlashCommand::NewSession)));
    assert!(matches!(parse_slash(&line("/mouse")), Some(SlashCommand::ToggleMouse)));
    assert!(matches!(parse_slash(&line("/copy last")), Some(SlashCommand::Copy(CopyScope::Last))));
    assert!(matches!(parse_slash(&line("/copy")), Some(SlashCommand::Copy(CopyScope::All))));
}

#[test]
fn arguments_follow_the_command_word() {
    match parse_slash(&line("/harness codex /work/api")) {
        Some(SlashCommand::NewHarness { provider, path }) => {
            assert_eq!(provider.as_deref(), Some("codex"));
            assert_eq!(path.as_deref(), Some("/work/api"));
        }
        _ => panic!("expected a harness command"),
    }
    match parse_slash(&line("/handoff   keep going ")) {
        Some(SlashCommand::HandOff { note }) => assert_eq!(note.as_deref(), Some("keep going")),
        _ => panic!("expected a handoff"),
    }
    match parse_slash(&line("/handoff")) {
        Some(SlashCommand::HandOff { note }) => assert_eq!(note, None),
        _ => panic!("expected a handoff"),
    }
}

#[test]
fn an_unknown_command_keeps_the_whole_line() {
    match parse_slash(&line("/frobnicate now")) {
        Some(SlashCommand::Unknown(text)) => assert_eq!(text, "/frobnicate now"),
        _ => panic!("expected an unknown command"),
    }
}

#[test]
fn abort_and_unknown_commands_say_what_happened() {
    let mut app = app();
    assert!(matches!(app.execute(&line("/abort")), Some(Cmd::Abort)));
    assert_eq!(app.status, "Abort requested");
    app.execute(&line("/frobnicate"));
    assert_eq!(app.status, "Unknown command: /frobnicate");
}

#[test]
fn history_recalls_newest_first_and_comes_back_empty() {
    let mut app = app();
    app.history = vec!["first".to_string(), "second".to_string()];
    app.recall_older();
    assert_eq!(app.draft.text.iter().collect::<String>(), "second");
    app.recall_older();
    assert_eq!(app.draft.text.iter().collect::<String>(), "first");
    app.recall_newer();
    assert_eq!(app.draft.text.iter().collect::<String>(), "second");
    app.recall_newer();
    assert_eq!(app.draft.text.iter().collect::<String>(), "");
}

#[test]
fn a_slash_line_lands_in_history_and_empties_the_draft() {
    let mut app = app();
    app.draft.text = "/clear".chars().collect();
    app.draft.cursor = 6;
    app.history_index = 0;
    app.history = vec!["earlier".to_string()];
    assert!(app.execute(&line("  /clear  ")).is_none());
    assert_eq!(app.history, vec!["earlier".to_string(), "/clear".to_string()]);
    assert_eq!(app.history_index, -1);
    assert!(app.draft.text.is_empty());
    assert_eq!(app.status, "View reset (runtime history is retained)");
}

#[test]
fn a_usage_error_is_shown_as_given() {
    let mut app = app();
    let r = app.dispatch_slash(SlashCommand::BadUsage("Usage: /copy [last]".to_string()));
    assert!(r.is_none());
    assert_eq!(app.status, "Usage: /copy [last]");
}

#[test]
fn usage_and_feedback_open_their_pages_and_ask_for_their_data() {
    let mut app = app();
    let r = app.execute(&line("/usage"));
    assert!(matches!(r, Some(Cmd::LoadUsage)));
    assert_eq!(app.tab_index, app.tabs.iter().position(|t| *t == medulla_tui::app::Tab::Settings).unwrap());
    let r = app.execute(&line("/feedback"));
    assert!(matches!(r, Some(Cmd::LoadFeedback(_))));
    assert_eq!(app.tab_index, app.tabs.iter().position(|t| *t == medulla_tui::app::Tab::Feedback).unwrap());
    assert_eq!(app.status, "Feedback · loading the board…");
}

#[test]
fn quit_keeps_the_line_in_history() {
    let mut app = app();
    assert!(app.execute(&line("/quit")).is_none());
    assert!(app.should_quit);
    assert_eq!(app.history, vec!["/quit".to_string()]);
    assert_eq!(app.history_index, -1);
}
