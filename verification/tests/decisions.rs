//! The decision queue: what is pending, dismissing, and answering.

use medulla_tui::app::{App, HandbackPolicy, Setup};
use medulla_tui::decisions::{DecisionAction, DecisionItem, DecisionQueue};

fn item(id: &str, answerable: bool) -> DecisionItem {
    DecisionItem {
        id: id.to_string(),
        question: format!("Question {id}?"),
        answer_target: if answerable { Some(("c1".to_string(), format!("q-{id}"))) } else { None },
    }
}

#[test]
fn a_dismissed_decision_never_comes_back() {
    let mut q = DecisionQueue::new();
    q.items = vec![item("a", false), item("b", false), item("c", false)];
    assert_eq!(q.count(), 3);
    q.index = 1;
    assert!(matches!(q.dismiss_selected(), DecisionAction::Dismissed(_)));
    assert_eq!(q.count(), 2);
    assert_eq!(q.dismissed, vec!["b".to_string()]);
    // The same items arriving again do not bring it back.
    q.items = vec![item("a", false), item("b", false), item("c", false)];
    assert_eq!(q.count(), 2);
}

#[test]
fn an_empty_queue_closes_instead_of_dismissing() {
    let mut q = DecisionQueue::new();
    q.open = true;
    assert!(matches!(q.dismiss_selected(), DecisionAction::Closed));
}

#[test]
fn the_pending_list_leaves_out_what_was_dismissed_in_order() {
    let setup = Setup {
        harness_choices: Vec::new(),
        harness_workspace: String::new(),
        agent_declarations: Vec::new(),
        local_host_id: String::new(),
        workers: Vec::new(),
        handback_policy: HandbackPolicy::Ask,
        steering_reaches_backend: false,
        appearance_rows: 0,
        contexts: Vec::new(),
        recent_workspaces: Vec::new(),
        routing_strategies: Vec::new(),
        subscription_strategies: Vec::new(),
        remote_join_command: String::new(),
    };
    let mut app = App::new(setup, None);
    app.decisions.items = vec![item("a", false), item("b", true), item("c", false)];
    app.decisions.dismissed = vec!["b".to_string()];
    let ids: Vec<String> = app.decisions().into_iter().map(|d| d.id).collect();
    assert_eq!(ids, vec!["a".to_string(), "c".to_string()]);
}
