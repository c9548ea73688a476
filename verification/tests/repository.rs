//! Assembling the Changes review from Git's output, and the small decisions
//! taken on Git's answers.

use medulla_tui::git::{ChangeOrigin, ChangedFile};
use medulla_tui::repository::{
    changed_files, command_error, commit_query, discovery_error, exit_verdict, origins, path_less, resolved_commit,
};

fn bytes(s: &str) -> Vec<u8> {
    s.as_bytes().to_vec()
}

fn chars(s: &str) -> Vec<char> {
    s.chars().collect()
}

fn view(files: &[ChangedFile]) -> Vec<(char, String, Vec<ChangeOrigin>)> {
    files
        .iter()
        .map(|f| (f.status, String::from_utf8(f.path.clone()).unwrap(), f.origins.clone()))
        .collect()
}

#[test]
fn review_lists_each_path_once_sorted_with_its_origins() {
    let name_status = bytes("M\0b.rs\0R100\0old\0new\0");
    let untracked = bytes("c.txt\0b.rs\0");
    let outputs = vec![
        (ChangeOrigin::Staged, bytes("b.rs\0")),
        (ChangeOrigin::Unstaged, bytes("b.rs\0z\0")),
        (ChangeOrigin::Untracked, bytes("c.txt\0u2\0")),
    ];
    let files = changed_files(&name_status, &untracked, &outputs);
    assert_eq!(
        view(&files),
        vec![
            ('M', "b.rs".to_string(), vec![ChangeOrigin::Staged, ChangeOrigin::Unstaged]),
            ('?', "c.txt".to_string(), vec![ChangeOrigin::Untracked]),
            ('R', "new".to_string(), vec![]),
            ('M', "z".to_string(), vec![ChangeOrigin::Unstaged]),
        ]
    );
}

#[test]
fn review_keeps_a_path_whose_changes_cancel_out() {
    let files = changed_files(
        &Vec::new(),
        &Vec::new(),
        &vec![(ChangeOrigin::Committed, bytes("src/a.rs\0")), (ChangeOrigin::Unstaged, bytes("src/a.rs\0"))],
    );
    assert_eq!(
        view(&files),
        vec![('M', "src/a.rs".to_string(), vec![ChangeOrigin::Committed, ChangeOrigin::Unstaged])]
    );
}

#[test]
fn review_sorts_paths_component_by_component() {
    let files = changed_files(&bytes("A\0a-b\0A\0a/b\0A\0a\0"), &Vec::new(), &Vec::new());
    let paths: Vec<String> = view(&files).into_iter().map(|f| f.1).collect();
    assert_eq!(paths, vec!["a", "a/b", "a-b"]);
    assert!(path_less(&bytes("a/b"), &bytes("a-b")));
    assert!(!path_less(&bytes("a-b"), &bytes("a/b")));
}

#[test]
fn origins_list_each_place_once_in_the_order_reported() {
    let table = origins(&vec![
        (ChangeOrigin::Committed, bytes("x\0y\0x\0")),
        (ChangeOrigin::Staged, bytes("y\0")),
        (ChangeOrigin::Committed, bytes("y\0")),
    ]);
    let got: Vec<(String, Vec<ChangeOrigin>)> =
        table.into_iter().map(|(p, os)| (String::from_utf8(p).unwrap(), os)).collect();
    assert_eq!(
        got,
        vec![
            ("x".to_string(), vec![ChangeOrigin::Committed]),
            ("y".to_string(), vec![ChangeOrigin::Committed, ChangeOrigin::Staged]),
        ]
    );
}

#[test]
fn exit_codes_answer_yes_no_or_fail() {
    assert_eq!(exit_verdict(Some(0), 128), Some(true));
    assert_eq!(exit_verdict(Some(128), 128), Some(false));
    assert_eq!(exit_verdict(Some(1), 128), None);
    assert_eq!(exit_verdict(None, 1), None);
}

#[test]
fn silent_git_failures_still_say_something() {
    assert_eq!(command_error(&chars("  \n")), "Git command failed");
    assert_eq!(command_error(&chars(" fatal: bad object\n")), "fatal: bad object");
}

#[test]
fn outside_a_repository_reads_as_a_sentence() {
    assert_eq!(
        discovery_error("fatal: Not A Git Repository (or any of the parent directories): .git".to_string()),
        "Not a Git repository · nothing to review here"
    );
    assert_eq!(discovery_error("permission denied".to_string()), "permission denied");
}

#[test]
fn commit_queries_trim_and_refuse_blank_revisions() {
    assert_eq!(commit_query(&chars("  HEAD~1 ")), Ok(chars("HEAD~1^{commit}")));
    assert_eq!(commit_query(&chars("   ")), Err("Enter a commit id or revision".to_string()));
    assert_eq!(resolved_commit(&chars(" abc "), Ok(chars("0123abcd\n"))), Ok("0123abcd".to_string()));
    assert_eq!(
        resolved_commit(&chars(" nope "), Err("fatal".to_string())),
        Err("Unknown commit or revision: nope".to_string())
    );
}
