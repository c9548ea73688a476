//! Choosing which harness session the Changes review follows.

use medulla_tui::baseline::{choose_harness_baseline, BaselineCandidate};

fn row(id: &str, started_at: u64, commit: Option<&str>) -> BaselineCandidate {
    BaselineCandidate {
        id: id.to_string(),
        label: format!("{id} label"),
        started_at,
        commit: commit.map(|c| c.to_string()),
    }
}

#[test]
fn newest_eligible_harness_is_selected() {
    let rows = vec![row("older", 1, Some("aaa")), row("newer", 2, Some("bbb"))];
    let (k, commit) = choose_harness_baseline(&rows, None).expect("selection").expect("row");
    assert_eq!(rows[k].id, "newer");
    assert_eq!(commit, "bbb");
}

#[test]
fn a_session_outside_git_is_passed_over_for_an_older_one_inside() {
    let rows = vec![row("inside", 1, Some("aaa")), row("outside", 5, None)];
    let (k, _) = choose_harness_baseline(&rows, None).expect("selection").expect("row");
    assert_eq!(rows[k].id, "inside");
}

#[test]
fn a_selected_session_outside_git_is_refused_rather_than_replaced() {
    let rows = vec![row("inside", 1, Some("aaa")), row("outside", 5, None)];
    let preferred = "outside".to_string();
    let error = choose_harness_baseline(&rows, Some(&preferred)).unwrap_err();
    assert_eq!(error, "Selected harness outside label is not in a Git repository");
}

#[test]
fn a_selected_session_wins_over_a_newer_one() {
    let rows = vec![row("old", 1, Some("aaa")), row("new", 5, Some("bbb"))];
    let preferred = "old".to_string();
    let (k, commit) = choose_harness_baseline(&rows, Some(&preferred)).unwrap().unwrap();
    assert_eq!(rows[k].id, "old");
    assert_eq!(commit, "aaa");
    // A preferred id that is not listed falls back to the newest.
    let gone = "gone".to_string();
    let (k, _) = choose_harness_baseline(&rows, Some(&gone)).unwrap().unwrap();
    assert_eq!(rows[k].id, "new");
    // No session inside Git at all: nothing to follow.
    assert!(choose_harness_baseline(&vec![row("x", 1, None)], None).unwrap().is_none());
}
