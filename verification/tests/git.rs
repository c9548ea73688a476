//! Reading Git's output: paths, name-status lines, and commits.

use medulla_tui::git::{parse_commits, parse_name_status, path_from_line, split_paths};

#[test]
fn git_path_removes_only_the_command_terminator() {
    assert_eq!(path_from_line(b"/repo/with space \n".to_vec()), b"/repo/with space ".to_vec());
    assert_eq!(path_from_line(b"C:\\repo\r\n".to_vec()), b"C:\\repo".to_vec());
}

#[test]
fn a_path_without_a_terminator_is_kept_whole() {
    assert_eq!(path_from_line(b"/repo".to_vec()), b"/repo".to_vec());
    assert_eq!(path_from_line(b"/repo\r".to_vec()), b"/repo\r".to_vec());
    assert_eq!(path_from_line(Vec::new()), Vec::<u8>::new());
}

#[test]
fn nul_separated_paths_skip_empty_fields() {
    let parts = split_paths(&b"a\0b c\0\0".to_vec());
    assert_eq!(parts, vec![b"a".to_vec(), b"b c".to_vec()]);
}

#[test]
fn name_status_reads_renames_by_their_new_path() {
    let files = parse_name_status(&b"M\0src/a.rs\0R100\0old.rs\0new.rs\0A\0b.txt\0".to_vec());
    let seen: Vec<(char, Vec<u8>)> = files.iter().map(|f| (f.status, f.path.clone())).collect();
    assert_eq!(
        seen,
        vec![('M', b"src/a.rs".to_vec()), ('R', b"new.rs".to_vec()), ('A', b"b.txt".to_vec())]
    );
    assert!(files.iter().all(|f| f.origins.is_empty()));
}

#[test]
fn commit_lines_split_on_the_first_nul() {
    let text: Vec<char> = "abc123\0First subject\r\ndef456\0Second\0with nul\nno separator\n".chars().collect();
    let commits = parse_commits(&text);
    let seen: Vec<(String, String)> = commits.iter().map(|c| (c.id.clone(), c.subject.clone())).collect();
    assert_eq!(
        seen,
        vec![
            ("abc123".to_string(), "First subject".to_string()),
            ("def456".to_string(), "Second\0with nul".to_string()),
        ]
    );
}
