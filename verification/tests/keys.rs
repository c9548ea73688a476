//! The keyboard: confirmations, tabs, prompts, and the composer.

use medulla_tui::app::{
    App, Cmd, HandbackPolicy, HandbackPrompt, Overlay, Prompt, PromptKind, ResumePicker, RoutingPage, Setup, Tab,
};
use medulla_tui::harness::HarnessChoice;
use medulla_tui::composer::{flatten_paste, normalize_paste, Draft};
use medulla_tui::keymap::{Event, KeyCode, KeyEvent};

fn app() -> App {
    let setup = Setup {
        harness_choices: Vec::new(),
        harness_workspace: String::new(),
        agent_declarations: Vec::new(),
        local_host_id: String::new(),
        workers: Vec::new(),
        handback_policy: HandbackPolicy::Ask,
        steering_reaches_backend: false,
        appearance_rows: 0,
        contexts: Vec::new(),
        recent_workspaces: Vec::new(),
        routing_strategies: vec!["least-loaded".to_string(), "round-robin".to_string()],
        subscription_strategies: vec!["spread".to_string()],
        remote_join_command: "medulla join".to_string(),
    };
    App::new(setup, Some(Vec::new()))
}

fn key(code: KeyCode) -> KeyEvent {
    KeyEvent::plain(code)
}

#[test]
fn tab_and_backtab_wrap_around_the_bar() {
    let mut app = app();
    app.on_key(key(KeyCode::BackTab));
    assert_eq!(app.tab_index, app.tabs.len() - 1);
    app.on_key(key(KeyCode::Tab));
    assert_eq!(app.tab_index, 0);
    app.on_key(key(KeyCode::Tab));
    assert_eq!(app.tab_index, 1);
}

#[test]
fn y_confirms_an_armed_kill_and_anything_else_cancels_it() {
    let mut app = app();
    app.kill_armed = Some(("w1".to_string(), "t1".to_string()));
    match app.on_key(key(KeyCode::Char('y'))) {
        Some(Cmd::KillTask { worker, task_id }) => {
            assert_eq!(worker, "w1");
            assert_eq!(task_id, "t1");
        }
        _ => panic!("expected the kill"),
    }
    assert_eq!(app.kill_armed, None);

    app.kill_armed = Some(("w1".to_string(), "t1".to_string()));
    assert!(app.on_key(key(KeyCode::Char('n'))).is_none());
    assert_eq!(app.kill_armed, None);
    assert_eq!(app.status, "Session kill cancelled");
}

#[test]
fn an_armed_close_takes_only_y() {
    let mut app = app();
    app.harness_close_armed = Some("s1".to_string());
    assert!(app.on_key(key(KeyCode::Char('y'))).is_none());
    assert!(matches!(app.pending.last(), Some(Cmd::CloseSession(s)) if s == "s1"));
    app.harness_close_armed = Some("s1".to_string());
    app.on_key(key(KeyCode::Esc));
    assert_eq!(app.status, "Harness close cancelled");
}

#[test]
fn ctrl_c_quits_and_ctrl_o_toggles_the_mouse() {
    let mut app = app();
    let capture = app.mouse_capture;
    app.on_key(KeyEvent { code: KeyCode::Char('o'), ctrl: true, shift: false, alt: false });
    assert_eq!(app.mouse_capture, !capture);
    app.on_key(KeyEvent { code: KeyCode::Char('c'), ctrl: true, shift: false, alt: false });
    assert!(app.should_quit);
}

#[test]
fn typing_on_the_sessions_tab_fills_the_composer() {
    let mut app = app();
    app.tab_index = app.tab_pos(Tab::Sessions).unwrap();
    for c in "hi".chars() {
        app.on_key(key(KeyCode::Char(c)));
    }
    assert_eq!(app.draft.text.iter().collect::<String>(), "hi");
}

#[test]
fn the_draft_edits_around_its_caret() {
    let mut d = Draft::new();
    d.insert_char('a');
    d.insert_char('c');
    d.left();
    d.insert_char('b');
    assert_eq!(d.text.iter().collect::<String>(), "abc");
    assert_eq!(d.cursor, 2);
    d.delete_before();
    assert_eq!(d.text.iter().collect::<String>(), "ac");
    d.right();
    d.right();
    assert_eq!(d.cursor, 2);
}

#[test]
fn pastes_normalise_line_endings_and_flatten_for_one_line_fields() {
    let text: Vec<char> = "a\r\nb\rc\n".chars().collect();
    assert_eq!(normalize_paste(&text).iter().collect::<String>(), "a\nb\nc\n");
    assert_eq!(flatten_paste(&text).iter().collect::<String>(), "a b c ");
}

#[test]
fn a_paste_cancels_an_armed_kill_instead_of_confirming_it() {
    let mut app = app();
    app.tab_index = app.tab_pos(Tab::Sessions).unwrap();
    app.kill_armed = Some(("w1".to_string(), "t1".to_string()));
    app.on_paste(&"y".chars().collect());
    assert_eq!(app.kill_armed, None);
    assert_eq!(app.status, "Session kill cancelled");
    assert!(app.draft.text.is_empty());
}

#[test]
fn an_attached_harness_is_sent_the_paste() {
    let mut app = app();
    app.attached = Some("s1".to_string());
    app.on_paste(&"ls\n".chars().collect());
    assert!(matches!(
        app.pending.last(),
        Some(Cmd::PasteIntoHarness { session, text }) if session == "s1" && text.iter().collect::<String>() == "ls\n"
    ));
}

fn ctrl(code: KeyCode) -> KeyEvent {
    KeyEvent { code, ctrl: true, shift: false, alt: false }
}

#[test]
fn ctrl_up_and_down_walk_the_open_threads_on_sessions() {
    let mut app = app();
    app.tab_index = app.tabs.iter().position(|t| *t == Tab::Sessions).unwrap();
    app.threads = vec!["t0".to_string(), "t1".to_string(), "t2".to_string()];
    app.active_thread = 1;
    app.agent_scroll = 4;
    assert!(matches!(app.on_key(ctrl(KeyCode::Down)), Some(Cmd::SwitchThread { ref id }) if id == "t2"));
    assert_eq!(app.agent_scroll, 0);
    assert!(matches!(app.on_key(ctrl(KeyCode::Up)), Some(Cmd::SwitchThread { ref id }) if id == "t0"));
    // At either end of the list nothing is asked.
    app.active_thread = 2;
    assert!(app.on_key(ctrl(KeyCode::Down)).is_none());
    app.active_thread = 0;
    assert!(app.on_key(ctrl(KeyCode::Up)).is_none());
}

#[test]
fn no_overlay_lets_a_paste_through_to_the_composer_behind_it() {
    for overlay in every_overlay() {
        let mut app = app();
        app.tab_index = app.tabs.iter().position(|t| *t == Tab::Sessions).unwrap();
        raise(&mut app, overlay);
        app.on_event(Event::Paste("stray text".chars().collect()), false);
        assert_eq!(app.draft.text.len(), 0, "{overlay:?} is in front of the composer");
    }
    // An armed kill is cancelled by the paste, which goes no further.
    let mut app = app();
    app.tab_index = app.tabs.iter().position(|t| *t == Tab::Sessions).unwrap();
    app.kill_armed = Some(("w".to_string(), "t".to_string()));
    app.on_paste(&"y".chars().collect());
    assert_eq!(app.draft.text.len(), 0);
    assert_eq!(app.kill_armed, None);
}

fn every_overlay() -> Vec<Overlay> {
    vec![
        Overlay::Decisions,
        Overlay::TemplatePopup,
        Overlay::HarnessPicker,
        Overlay::SessionKill,
        Overlay::HandbackPrompt,
        Overlay::WorkflowDelete,
        Overlay::InlinePrompt,
        Overlay::ResumePicker,
    ]
}

fn raise(app: &mut App, overlay: Overlay) {
    match overlay {
        Overlay::Decisions => app.decisions.open = true,
        Overlay::TemplatePopup => {
            app.tab_index = app.tabs.iter().position(|t| *t == Tab::Hosts).unwrap();
            app.menus.routing_index =
                app.menus.routing_pages.iter().position(|p| *p == RoutingPage::Templates).unwrap();
            app.template_modal = true;
        }
        Overlay::HarnessPicker => {
            app.setup.harness_choices = vec![HarnessChoice { wire: "codex".to_string(), name: "Codex".to_string() }];
            app.open_session_picker();
        }
        Overlay::SessionKill => app.harness_close_armed = Some("s".to_string()),
        Overlay::HandbackPrompt => {
            app.handback_prompt = Some(HandbackPrompt {
                session: "s".to_string(),
                took_control: false,
                note: Draft::new(),
                editing_note: false,
            })
        }
        Overlay::WorkflowDelete => {
            app.workflow_delete_armed = Some(("id".to_string(), "name".to_string()))
        }
        Overlay::InlinePrompt => {
            app.prompt = Some(Prompt { kind: PromptKind::HostAdd, title: "Add a host".to_string(), draft: Draft::new() })
        }
        Overlay::ResumePicker => app.resume_picker = Some(ResumePicker { chats: Vec::new(), index: 0 }),
    }
}

#[test]
fn every_overlay_is_reachable_and_owns_input_on_its_own() {
    for overlay in every_overlay() {
        let mut app = app();
        raise(&mut app, overlay);
        assert_eq!(app.visible_overlays(), vec![overlay], "{overlay:?} should be the one thing on screen");
        assert!(app.overlay_owns_keys(), "{overlay:?} is drawn over the content, so it owns input");
    }
}

#[test]
fn nothing_is_in_front_of_a_freshly_opened_screen() {
    let app = app();
    assert!(app.visible_overlays().is_empty());
    assert!(!app.overlay_owns_keys());
}

#[test]
fn overlays_are_listed_back_to_front_in_the_order_the_render_paints_them() {
    let mut app = app();
    raise(&mut app, Overlay::HarnessPicker);
    raise(&mut app, Overlay::HandbackPrompt);
    raise(&mut app, Overlay::Decisions);
    assert_eq!(
        app.visible_overlays(),
        vec![Overlay::Decisions, Overlay::HarnessPicker, Overlay::HandbackPrompt]
    );
}

#[test]
fn the_feedback_tab_takes_its_own_keys_and_leaves_tab_to_the_bar() {
    let mut app = app();
    app.tab_index = app.tabs.iter().position(|t| *t == Tab::Feedback).unwrap();
    let r = app.on_key(key(KeyCode::Char('r')));
    assert!(matches!(r, Some(Cmd::LoadFeedback(_))));
    assert_eq!(app.status, "Feedback · refreshing…");
    let before = app.tab_index;
    app.on_key(key(KeyCode::Tab));
    assert_eq!(app.tab_index, before + 1);
}

#[test]
fn the_hosts_tab_hands_its_page_the_keys_its_menu_leaves() {
    let mut app = app();
    app.tab_index = app.tabs.iter().position(|t| *t == Tab::Hosts).unwrap();
    app.menus.routing_index = app.menus.routing_pages.iter().position(|p| *p == RoutingPage::AddHost).unwrap();
    match app.on_key(key(KeyCode::Char('c'))) {
        Some(Cmd::CopyLine { what, text }) => {
            assert_eq!(what, "the worker install line");
            assert_eq!(text, "medulla join");
        }
        _ => panic!("expected the install line to be copied"),
    }
}

fn session(id: &str, control: medulla_tui::app::Control, running: bool) -> medulla_tui::rail::SessionRow {
    medulla_tui::rail::SessionRow {
        id: id.to_string(),
        user_spawned: true,
        started_at: 1,
        control,
        running,
        cwd: "/w".to_string(),
    }
}

#[test]
fn ctrl_bracket_attaches_the_keyboard_to_the_selected_session() {
    let mut app = app();
    app.tab_index = app.tabs.iter().position(|t| *t == Tab::Sessions).unwrap();
    app.harnesses = Some(vec![session("s1", medulla_tui::app::Control::User, true)]);
    app.pane_session = Some("s1".to_string());
    assert!(app.on_key(ctrl(KeyCode::Char(']'))).is_none());
    assert_eq!(app.attached, Some("s1".to_string()));
    assert_eq!(app.status, "Typing into the session · you have control · Ctrl-] to release");
    // Ctrl-] again gives the keyboard back.
    app.on_key(ctrl(KeyCode::Char(']')));
    assert_eq!(app.attached, None);
}

#[test]
fn a_task_session_stays_view_only() {
    let mut app = app();
    app.tab_index = app.tabs.iter().position(|t| *t == Tab::Sessions).unwrap();
    app.harnesses = Some(vec![session("s1", medulla_tui::app::Control::Orchestrator, true)]);
    app.pane_session = Some("s1".to_string());
    app.on_key(ctrl(KeyCode::Char(']')));
    assert_eq!(app.attached, None);
    assert_eq!(app.status, "Task sessions are view-only while they are running");
}

#[test]
fn the_sessions_composer_takes_typing_and_the_settings_tab_its_pages() {
    let mut app = app();
    app.tab_index = app.tabs.iter().position(|t| *t == Tab::Sessions).unwrap();
    app.on_key(key(KeyCode::Char('h')));
    app.on_key(key(KeyCode::Char('i')));
    assert_eq!(app.draft.text.iter().collect::<String>(), "hi");

    app.tab_index = app.tabs.iter().position(|t| *t == Tab::Settings).unwrap();
    let before = app.menus.settings_index;
    app.on_key(key(KeyCode::Down));
    assert_eq!(app.menus.settings_index, before + 1);
    app.on_key(key(KeyCode::Enter));
    assert!(app.menus.settings_focused);
    assert_eq!(app.status, "Settings · Esc to go back to the menu");
}

#[test]
fn the_template_popup_needs_the_page_that_can_dismiss_it() {
    let mut app = app();
    raise(&mut app, Overlay::TemplatePopup);
    assert_eq!(app.visible_overlays(), vec![Overlay::TemplatePopup]);
    app.tab_index = app.tabs.iter().position(|t| *t == Tab::Sessions).unwrap();
    assert!(app.visible_overlays().is_empty(), "the popup does not follow the operator off its own page");
    assert!(!app.overlay_owns_keys());
}

#[test]
fn the_inline_prompt_replaces_the_resume_picker_rather_than_stacking_on_it() {
    let mut app = app();
    raise(&mut app, Overlay::ResumePicker);
    raise(&mut app, Overlay::InlinePrompt);
    assert_eq!(app.visible_overlays(), vec![Overlay::InlinePrompt]);
}

#[test]
fn the_templates_page_opens_and_closes_its_popup() {
    let mut app = app();
    app.tab_index = app.tabs.iter().position(|t| *t == Tab::Hosts).unwrap();
    app.menus.routing_index = app.menus.routing_pages.iter().position(|p| *p == RoutingPage::Templates).unwrap();
    app.menus.routing_focused = true;
    app.hosts.template_rows = 3;
    app.on_key(key(KeyCode::Down));
    assert_eq!(app.hosts.template_index, 1);
    app.on_key(key(KeyCode::Enter));
    assert!(app.template_modal);
    app.on_key(key(KeyCode::PageDown));
    assert_eq!(app.hosts.template_scroll, 5);
    // Enter closes it again; Esc belongs to the menu, which steps back out.
    app.on_key(key(KeyCode::Enter));
    assert!(!app.template_modal);
    assert_eq!(app.hosts.template_scroll, 0);
    assert!(matches!(app.on_key(key(KeyCode::Char('r'))), Some(Cmd::RefreshFleet)));
    assert_eq!(app.status, "Refreshing fleet…");
}

#[test]
fn the_harnesses_page_edits_and_refreshes_its_presets() {
    let mut app = app();
    app.tab_index = app.tabs.iter().position(|t| *t == Tab::Hosts).unwrap();
    app.menus.routing_index = app.menus.routing_pages.iter().position(|p| *p == RoutingPage::Harnesses).unwrap();
    app.menus.routing_focused = true;
    app.on_key(key(KeyCode::Char('e')));
    assert_eq!(app.status, "Add a custom harness first");
    app.on_key(key(KeyCode::Char('a')));
    let prompt = app.prompt.take().expect("the editor opens");
    assert_eq!(
        prompt.draft.text.iter().collect::<String>(),
        "deepseek | DeepSeek | | deepseek/deepseek-chat | | this-device"
    );
    assert!(matches!(app.on_key(key(KeyCode::Char('r'))), Some(Cmd::RefreshFleet)));
    assert_eq!(app.status, "Harnesses refreshed");
    assert!(matches!(app.pending.last(), Some(Cmd::ReloadCustomHarnesses)));
}
