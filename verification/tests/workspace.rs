//! Ranking the picker's workspaces and remembering where harnesses started.

use medulla_tui::workspace::{
    known_workspaces, rank_workspace_choices, registered_workspaces, remember_workspace, workspace_candidates,
    save_favorite, workspace_choices, folder_completions, Candidate, FolderEntry, KnownWorkspace,
};
use medulla_tui::harness::WorkspaceChoice;

fn known(path: &str, source: &str, label: Option<&str>) -> KnownWorkspace {
    KnownWorkspace { path: path.to_string(), source: source.to_string(), label: label.map(str::to_string) }
}

fn candidate(path: &str, score: Option<usize>) -> Candidate {
    Candidate {
        choice: WorkspaceChoice { path: path.to_string(), source: "recent".to_string(), label: None },
        score,
    }
}

fn paths(choices: &[WorkspaceChoice]) -> Vec<String> {
    choices.iter().map(|c| c.path.clone()).collect()
}

#[test]
fn ranking_orders_by_score_then_by_position() {
    let cs = vec![
        candidate("/b", Some(3)),
        candidate("/a", Some(1)),
        candidate("/c", Some(3)),
        candidate("/skip", None),
        candidate("/d", Some(0)),
    ];
    assert_eq!(paths(&rank_workspace_choices(&cs)), vec!["/d", "/a", "/b", "/c"]);
}

#[test]
fn ranking_keeps_one_row_per_directory_under_its_best_score() {
    let cs = vec![
        candidate("/same", Some(5)),
        candidate("/other", Some(2)),
        candidate("/same", Some(1)),
    ];
    let ranked = rank_workspace_choices(&cs);
    assert_eq!(paths(&ranked), vec!["/same", "/other"]);
}

#[test]
fn ranking_lists_at_most_ten() {
    let cs: Vec<Candidate> = (0..15).map(|i| candidate(&format!("/w{i:02}"), Some(i))).collect();
    let ranked = rank_workspace_choices(&cs);
    assert_eq!(ranked.len(), 10);
    assert_eq!(ranked[0].path, "/w00");
    assert_eq!(ranked[9].path, "/w09");
}

#[test]
fn candidates_score_directories_and_push_folders_behind() {
    let k = vec![known("/work/api", "recent", None), known("/work/gone", "recent", None)];
    let folders = vec![(2usize, "/work/apis".to_string())];
    let cs = workspace_candidates(&k, &vec![true, false], &folders, "api");
    assert_eq!(cs.len(), 3);
    assert_eq!(cs[0].score, Some(0));
    assert_eq!(cs[1].score, None);
    assert_eq!(cs[2].choice.source, "folder");
    assert_eq!(cs[2].score, Some(7));
    // A blank query offers no folder completions.
    let blank = workspace_candidates(&k, &vec![true, false], &folders, "  ");
    assert_eq!(blank.len(), 2);
}

#[test]
fn a_favorite_that_names_the_folder_wins_its_row() {
    let k = vec![known("/work/medulla", "favorite", Some("primary medulla"))];
    let folders = vec![(0usize, "/work/medulla".to_string())];
    let choices = workspace_choices(&k, &vec![true], &folders, "medulla");
    assert_eq!(choices.len(), 1);
    assert_eq!(choices[0].source, "favorite");
    assert_eq!(choices[0].label.as_deref(), Some("primary medulla"));
}

#[test]
fn remembering_puts_the_workspace_first_once() {
    let recent = vec!["/a".to_string(), "/b".to_string(), "/c".to_string()];
    assert_eq!(remember_workspace(&recent, &"/b".to_string()), vec!["/b", "/a", "/c"]);
    assert_eq!(remember_workspace(&recent, &"/d".to_string()), vec!["/d", "/a", "/b", "/c"]);
}

#[test]
fn remembering_keeps_at_most_twelve() {
    let recent: Vec<String> = (0..12).map(|i| format!("/w{i}")).collect();
    let next = remember_workspace(&recent, &"/new".to_string());
    assert_eq!(next.len(), 12);
    assert_eq!(next[0], "/new");
    assert_eq!(next[11], "/w10");
}

#[test]
fn registered_workspaces_skip_blank_host_entries() {
    let hosts = vec![
        ("  ".to_string(), vec!["/p1".to_string()]),
        ("/peer".to_string(), Vec::new()),
    ];
    let r = registered_workspaces(&"/host".to_string(), &vec!["/h1".to_string()], &hosts);
    assert_eq!(r, vec!["/host", "/h1", "/p1", "/peer"]);
    let r = registered_workspaces(&"".to_string(), &Vec::new(), &Vec::new());
    assert!(r.is_empty());
}

#[test]
fn known_workspaces_come_in_ranking_order() {
    let k = known_workspaces(
        &vec![("Main".to_string(), "/fav".to_string())],
        &vec!["/recent".to_string()],
        &"/default".to_string(),
        &vec!["/registered".to_string()],
    );
    let seen: Vec<(String, String, Option<String>)> =
        k.iter().map(|w| (w.path.clone(), w.source.clone(), w.label.clone())).collect();
    assert_eq!(
        seen,
        vec![
            ("/fav".to_string(), "favorite".to_string(), Some("Main".to_string())),
            ("/recent".to_string(), "recent".to_string(), None),
            ("/default".to_string(), "default".to_string(), None),
            ("/registered".to_string(), "registered".to_string(), None),
        ]
    );
}

fn folder(name: &str) -> FolderEntry {
    FolderEntry { name: name.to_string(), path: format!("/w/{name}") }
}

#[test]
fn folder_completions_rank_matching_directories_by_score_then_path() {
    let entries = vec![folder("project-beta"), folder("project-alpha"), folder("notes"), folder("Projects")];
    assert_eq!(
        folder_completions(&entries, "pro"),
        vec![
            (5, "/w/Projects".to_string()),
            (9, "/w/project-beta".to_string()),
            (10, "/w/project-alpha".to_string()),
        ]
    );
}

#[test]
fn folder_completions_keep_the_ten_best() {
    let entries: Vec<FolderEntry> = (0..12).rev().map(|i| folder(&format!("d{i:02}"))).collect();
    let got = folder_completions(&entries, "");
    let want: Vec<(usize, String)> = (0..10).map(|i| (0, format!("/w/d{i:02}"))).collect();
    assert_eq!(got, want);
}

#[test]
fn folder_completions_skip_names_that_do_not_match() {
    let entries = vec![folder("alpha"), folder("beta")];
    assert_eq!(folder_completions(&entries, "zz"), Vec::<(usize, String)>::new());
}

fn fav(name: &str, path: &str) -> (String, String) {
    (name.to_string(), path.to_string())
}

#[test]
fn saving_a_favorite_puts_it_first_and_drops_what_it_replaces() {
    let favorites = vec![fav("API", "/work/api"), fav("docs", "/work/docs"), fav("old", "repo")];
    // The third favorite's relative path resolves to the directory being saved.
    let resolved = vec!["/work/api".to_string(), "/work/docs".to_string(), "/work/repo".to_string()];
    let saved = save_favorite(&favorites, &resolved, "  api ", &"/work/repo".to_string()).unwrap();
    assert_eq!(saved, vec![fav("api", "/work/repo"), fav("docs", "/work/docs")]);
}

#[test]
fn a_favorite_needs_a_name() {
    let err = save_favorite(&Vec::new(), &Vec::new(), "   ", &"/work".to_string()).unwrap_err();
    assert_eq!(err, "Favorite name cannot be empty");
}
