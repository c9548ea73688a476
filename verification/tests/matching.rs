//! Scoring paths and favorite names against the picker's query.

use medulla_tui::matching::{fuzzy_subsequence_score, match_score, workspace_match_score};

#[test]
fn fuzzy_matching_accepts_tight_subsequences_and_rejects_missing_characters() {
    assert!(fuzzy_subsequence_score("workspace-manager", "wsm").is_some());
    assert!(
        fuzzy_subsequence_score("workspace-manager", "workspace")
            < fuzzy_subsequence_score("workspace-manager", "wsm")
    );
    assert_eq!(fuzzy_subsequence_score("workspace-manager", "xyz"), None);
}

#[test]
fn known_workspace_basename_prefixes_beat_filesystem_duplicates() {
    assert_eq!(match_score("/work/project-beta", "project-b"), Some(1));
}

#[test]
fn favorite_names_are_searchable_as_well_as_their_paths() {
    assert_eq!(
        workspace_match_score("/work/medulla-public", Some("Primary Medulla"), "primary"),
        Some(1)
    );
    assert!(workspace_match_score("/work/medulla-public", Some("Primary Medulla"), "medulla").is_some());
}

#[test]
fn an_exact_path_match_outranks_a_loose_label_match_for_a_favorite() {
    assert_eq!(
        workspace_match_score("/work/medulla", Some("primary medulla"), "medulla"),
        Some(0)
    );
    assert_eq!(
        workspace_match_score("/work/medulla-public", Some("Primary Medulla"), "primary"),
        Some(1)
    );
}

#[test]
fn loose_known_matches_do_not_beat_concrete_folder_matches() {
    let random_parent = match_score("/tmp/.tmpbQM6Hg", "pb").unwrap();
    let project_beta = fuzzy_subsequence_score("project-beta", "pb").unwrap() + 5;

    assert!(project_beta < random_parent);
}

#[test]
fn fuzzy_scores_count_gaps_and_leftover_length() {
    // A prefix costs only what is left over.
    assert_eq!(fuzzy_subsequence_score("project", "pro"), Some(4));
    // `w`, `s` and `m` sit at 0, 4 and 10: one step each plus the gaps,
    // then the 14 characters not matched.
    assert_eq!(fuzzy_subsequence_score("workspace-manager", "wsm"), Some(11 + 14));
    assert_eq!(fuzzy_subsequence_score("anything", ""), Some(0));
}

#[test]
fn a_blank_query_matches_everything_equally() {
    assert_eq!(match_score("/work/anything", "   "), Some(0));
    assert_eq!(match_score("/work/Project", "/WORK/project"), Some(0));
    assert_eq!(match_score("/work/project", "project"), Some(0));
    assert_eq!(match_score("/work/project", "/work/pro"), Some(1));
    assert_eq!(match_score("/work/project", "zzz"), None);
}

#[test]
fn without_a_label_only_the_path_is_scored() {
    assert_eq!(workspace_match_score("/work/api", None, "api"), Some(0));
    assert_eq!(workspace_match_score("/work/api", Some("zzz"), "nomatch"), None);
}

#[test]
fn scoring_ignores_ascii_case() {
    assert_eq!(match_score("/home/me/Projects/Medulla", "medulla"), match_score("/home/me/projects/medulla", "MEDULLA"));
    assert_eq!(match_score("/srv/Alpha", "ALP"), Some(1));
}

#[test]
fn a_fuzzy_score_exists_exactly_for_a_subsequence() {
    assert!(fuzzy_subsequence_score("medulla", "mdl").is_some());
    assert!(fuzzy_subsequence_score("medulla", "mld").is_none());
    assert!(fuzzy_subsequence_score("abc", "").is_some());
    assert!(fuzzy_subsequence_score("ab", "abc").is_none());
}
