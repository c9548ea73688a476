//! The feedback board: sorting, filtering, and voting.

use medulla_tui::app::{App, Cmd, HandbackPolicy, Setup};
use medulla_tui::feedback::{
    clip, filter_label, filter_next, sort_label, sort_next, FeedbackItem, FeedbackPage, FeedbackSort, FeedbackType,
};

fn app() -> App {
    let setup = Setup {
        harness_choices: Vec::new(),
        harness_workspace: String::new(),
        agent_declarations: Vec::new(),
        local_host_id: String::new(),
        workers: Vec::new(),
        handback_policy: HandbackPolicy::Ask,
        steering_reaches_backend: false,
        appearance_rows: 0,
        contexts: Vec::new(),
        recent_workspaces: Vec::new(),
        routing_strategies: vec!["least-loaded".to_string(), "round-robin".to_string()],
        subscription_strategies: vec!["spread".to_string()],
        remote_join_command: "medulla join".to_string(),
    };
    App::new(setup, None)
}

fn item(id: &str, my_vote: i8) -> FeedbackItem {
    FeedbackItem { id: id.to_string(), title: format!("Title {id}"), kind: FeedbackType::Bug, votes: 3, my_vote }
}

#[test]
fn the_sort_cycles_back_after_three_steps() {
    for s in [FeedbackSort::Hot, FeedbackSort::Top, FeedbackSort::New] {
        assert_eq!(sort_next(sort_next(sort_next(s))), s);
    }
    assert_eq!(sort_next(FeedbackSort::Hot), FeedbackSort::Top);
    assert_eq!(sort_label(FeedbackSort::New), "new");
}

#[test]
fn the_filter_cycles_back_after_three_steps() {
    for k in [None, Some(FeedbackType::Feature), Some(FeedbackType::Bug)] {
        assert_eq!(filter_next(filter_next(filter_next(k))), k);
    }
    assert_eq!(filter_label(None), "everything");
    assert_eq!(filter_label(Some(FeedbackType::Feature)), "feature requests");
}

#[test]
fn voting_twice_the_same_way_retracts() {
    let mut app = app();
    app.set_feedback_page(Some(FeedbackPage { items: vec![item("f1", 1)], total: 1 }));
    match app.vote_selected_feedback(1) {
        Some(Cmd::VoteFeedback { id, value }) => {
            assert_eq!(id, "f1");
            assert_eq!(value, 0);
        }
        _ => panic!("expected a vote"),
    }
    assert_eq!(app.status, "Feedback · retracting vote…");
    match app.vote_selected_feedback(-1) {
        Some(Cmd::VoteFeedback { value, .. }) => assert_eq!(value, -1),
        _ => panic!("expected a vote"),
    }
    assert_eq!(app.status, "Feedback · downvoting…");
}

#[test]
fn with_nothing_selected_there_is_nothing_to_vote_on() {
    let mut app = app();
    assert!(app.vote_selected_feedback(1).is_none());
}

#[test]
fn long_titles_are_clipped_with_an_ellipsis() {
    assert_eq!(clip(&"abcdef".to_string(), 4).iter().collect::<String>(), "abc…");
    assert_eq!(clip(&"abc".to_string(), 4).iter().collect::<String>(), "abc");
}

#[test]
fn cycling_the_sort_reloads_from_the_first_page() {
    let mut app = app();
    let before = app.feedback_sort();
    assert_eq!(before, "hot");
    assert!(matches!(app.cycle_feedback_sort(), Some(Cmd::LoadFeedback(_))));
    assert_eq!(app.feedback_sort(), "top");
}
