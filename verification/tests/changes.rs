//! The Changes review: hunks, the review cursor, and the baseline.

use medulla_tui::changes::{hunks_of, BaselineSource, CommentAnchor, GitChangesState, ReviewComment};
use medulla_tui::git::{parse_name_status, ChangeOrigin, ChangedFile};

fn patch(lines: &[&str]) -> Vec<String> {
    lines.iter().map(|line| (*line).to_owned()).collect()
}

#[test]
fn name_status_keeps_simple_paths_and_rename_destinations() {
    let files = parse_name_status(&b"M\0src/main.rs\0R100\0old.rs\0new.rs\0".to_vec());
    assert_eq!(files[0].status, 'M');
    assert_eq!(files[0].path, b"src/main.rs".to_vec());
    assert_eq!(files[1].status, 'R');
    assert_eq!(files[1].path, b"new.rs".to_vec());
}

#[test]
fn hunk_navigation_and_anchors_follow_the_review_cursor() {
    let mut state = GitChangesState::new();
    state.files = vec![ChangedFile {
        status: 'M',
        path: b"src/lib.rs".to_vec(),
        origins: vec![ChangeOrigin::Unstaged],
    }];
    state.patch = patch(&[
        "diff --git a/src/lib.rs b/src/lib.rs",
        "--- a/src/lib.rs",
        "+++ b/src/lib.rs",
        "@@ -1,2 +1,3 @@",
        " one",
        "+two",
        "@@ -9,2 +10,3 @@",
        " nine",
        "+ten",
    ]);
    state.hunks = hunks_of(&state.patch);

    assert_eq!(state.cursor_anchor(), CommentAnchor::Line(0));
    assert!(state.jump_hunk(true));
    assert_eq!(state.cursor, 3);
    assert_eq!(state.cursor_anchor(), CommentAnchor::Hunk(0));
    assert!(state.jump_hunk(true));
    assert_eq!(state.cursor_anchor(), CommentAnchor::Hunk(1));
    assert!(!state.jump_hunk(true), "navigation stops at the last hunk");

    state.move_cursor(1);
    assert_eq!(state.cursor_anchor(), CommentAnchor::Line(7));
    assert_eq!(state.hunk_at_cursor(), Some(1));
    state.move_cursor(100);
    assert_eq!(state.cursor, 8, "the cursor clamps to the patch");
    state.move_cursor(-100);
    assert_eq!(state.cursor, 0);
    assert!(!state.jump_hunk(false));
}

#[test]
fn an_empty_patch_can_still_take_a_file_comment() {
    let state = GitChangesState::new();
    assert_eq!(state.cursor_anchor(), CommentAnchor::File);
    assert!(state.hunk_at_cursor().is_none());
    assert_eq!(state.selected_path(), None);
}

#[test]
fn manual_baseline_rejects_unknown_revisions_without_changing_selection() {
    let head = "0123456789abcdef0123456789abcdef01234567".to_string();
    let mut state = GitChangesState::new();
    state.root = Some(b"/repo".to_vec());
    state.baseline = Some(head.clone());

    let error = state
        .choose_baseline(Err("Unknown commit definitely-not-a-commit".to_string()), BaselineSource::Manual)
        .expect_err("invalid revision");

    assert!(error.contains("Unknown commit"));
    assert_eq!(state.baseline.as_deref(), Some(head.as_str()));
    assert_eq!(state.baseline_source, BaselineSource::AppLaunch);
}

#[test]
fn a_resolved_baseline_is_taken_and_the_position_resets() {
    let mut state = GitChangesState::new();
    state.root = Some(b"/repo".to_vec());
    state.cursor = 5;
    assert!(state.choose_baseline(Ok("abc".to_string()), BaselineSource::Commit).is_ok());
    assert_eq!(state.baseline.as_deref(), Some("abc"));
    assert_eq!(state.baseline_source, BaselineSource::Commit);
    assert_eq!(state.cursor, 0);
}

#[test]
fn without_a_repository_no_baseline_can_be_chosen() {
    let mut state = GitChangesState::new();
    let error = state.choose_baseline(Ok("abc".to_string()), BaselineSource::Manual).unwrap_err();
    assert_eq!(error, "No Git repository selected");
    assert_eq!(state.baseline, None);
}

#[test]
fn hunks_start_at_each_header_and_run_to_the_next() {
    let hunks = hunks_of(&patch(&["diff", "@@ -1 +1 @@", "+a", "@@ -5 +5 @@", "-b", "+c"]));
    assert_eq!(hunks.len(), 2);
    assert_eq!((hunks[0].header, hunks[0].end), (1, 3));
    assert_eq!((hunks[1].header, hunks[1].end), (3, 6));
}

fn file(path: &str) -> ChangedFile {
    ChangedFile { status: 'M', path: path.as_bytes().to_vec(), origins: Vec::new() }
}

#[test]
fn captured_review_starts_at_the_discovered_commit() {
    let state = GitChangesState::captured(Ok((b"/repo".to_vec(), "abc123".to_string())));
    assert_eq!(state.root, Some(b"/repo".to_vec()));
    assert_eq!(state.baseline.as_deref(), Some("abc123"));
    assert!(state.error.is_none());
    let outside = GitChangesState::captured(Err("Not a Git repository · nothing to review here".to_string()));
    assert!(outside.root.is_none());
    assert_eq!(outside.error.as_deref(), Some("Not a Git repository · nothing to review here"));
}

#[test]
fn reloading_keeps_the_selection_on_a_file() {
    let mut state = GitChangesState::new();
    state.selected = 5;
    state.error = Some("stale".to_string());
    state.apply_load(Ok((vec!["abc fix".to_string()], Vec::new(), vec![file("a"), file("b")])));
    assert_eq!(state.selected, 1);
    assert!(state.error.is_none());
    assert_eq!(state.commits, vec!["abc fix".to_string()]);
    state.apply_load(Err("fatal: bad revision".to_string()));
    assert_eq!(state.files.len(), 2);
    assert_eq!(state.error.as_deref(), Some("fatal: bad revision"));
    state.apply_load(Ok((Vec::new(), Vec::new(), Vec::new())));
    assert_eq!(state.selected, 0);
}

fn lines(text: &[&str]) -> Vec<String> {
    text.iter().map(|l| l.to_string()).collect()
}

#[test]
fn line_comments_become_outdated_when_out_of_bounds() {
    let mut state = GitChangesState::new();
    state.files = vec![file("file.txt")];
    state.apply_patch(lines(&["@@ -1,3 +1,3 @@", "-one", "+uno", " two", " three"]));
    let comment = |anchor| ReviewComment {
        path: b"file.txt".to_vec(),
        anchor,
        body: "end comment".to_string(),
        outdated: false,
    };
    state.comments = vec![comment(CommentAnchor::Line(4)), comment(CommentAnchor::File), comment(CommentAnchor::Hunk(0))];
    // The same patch again marks nothing.
    state.apply_patch(lines(&["@@ -1,3 +1,3 @@", "-one", "+uno", " two", " three"]));
    assert!(state.comments.iter().all(|c| !c.outdated));
    // A shorter patch leaves the line comment behind; it is kept, marked outdated.
    state.apply_patch(lines(&["@@ -1 +1 @@", "+x"]));
    assert_eq!(state.comments.len(), 3);
    assert!(state.comments[0].outdated, "Comment should be marked outdated");
    assert_eq!(state.comments[0].body, "end comment", "Comment text is preserved");
    assert!(!state.comments[1].outdated);
    assert!(!state.comments[2].outdated);
}
