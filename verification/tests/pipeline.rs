use filecat::{files_to_string, folder_included, FileEntry, RunError};

fn entry(path: &str, contents: Option<&str>) -> FileEntry {
    FileEntry { path: path.to_string(), contents: contents.map(|c| c.to_string()) }
}

#[test]
fn empty_walk_gives_empty_output() {
    let out = files_to_string(true, &vec![], &vec![]).unwrap();
    assert_eq!(out, "");
}

#[test]
fn all_entries_filtered_out_gives_empty_output() {
    let entries = vec![
        entry("root/a/notes.py", Some("x=1")),
        entry("root/b/readme.md", Some("hello")),
    ];
    let out = files_to_string(true, &entries, &vec!["zzz".to_string()]).unwrap();
    assert_eq!(out, "");
}

#[test]
fn root_not_a_directory_fails_with_no_output() {
    let entries = vec![entry("root/a/notes.py", Some("x=1"))];
    let r = files_to_string(false, &entries, &vec![]);
    assert_eq!(r, Err(RunError::NotADirectory));
}

#[test]
fn filter_set_selects_by_parent_name() {
    let entries = vec![
        entry("root/a/notes.py", Some("x=1")),
        entry("root/b/readme.md", Some("hello")),
    ];
    let out = files_to_string(true, &entries, &vec!["a".to_string()]).unwrap();
    assert_eq!(out, "# root/a/notes.py\nx=1\n.");
}

#[test]
fn empty_filter_includes_every_file_once() {
    let entries = vec![
        entry("root/a/notes.py", Some("x=1")),
        entry("root/b/readme.md", Some("hello")),
    ];
    let out = files_to_string(true, &entries, &vec![]).unwrap();
    assert_eq!(out, "# root/a/notes.py\nx=1\n.\n\n// root/b/readme.md\nhello\n.");
}

#[test]
fn file_appears_iff_parent_in_filter_set() {
    let entries = vec![
        entry("root/a/one.py", Some("1")),
        entry("root/b/two.py", Some("2")),
        entry("root/c/three.py", Some("3")),
    ];
    let both = files_to_string(true, &entries, &vec!["a".to_string(), "c".to_string()]).unwrap();
    assert_eq!(both, "# root/a/one.py\n1\n.\n\n# root/c/three.py\n3\n.");
    let only_b = files_to_string(true, &entries, &vec!["b".to_string()]).unwrap();
    assert_eq!(only_b, "# root/b/two.py\n2\n.");
}

#[test]
fn identical_runs_give_identical_output() {
    let entries = vec![
        entry("root/a/notes.py", Some("x=1")),
        entry("root/b/readme.md", Some("hello")),
    ];
    let folders = vec!["a".to_string(), "b".to_string()];
    let first = files_to_string(true, &entries, &folders).unwrap();
    let second = files_to_string(true, &entries, &folders).unwrap();
    assert_eq!(first, second);
}

#[test]
fn css_block_keeps_closing_marker() {
    let entries = vec![entry("proj/styles/style.css", Some("body{}"))];
    let out = files_to_string(true, &entries, &vec!["styles".to_string()]).unwrap();
    assert_eq!(out, "/* proj/styles/style.css\nbody{}\n.\n*/");
}

#[test]
fn html_block_keeps_closing_marker() {
    let entries = vec![entry("site/pages/index.html", Some("<p>hi</p>"))];
    let out = files_to_string(true, &entries, &vec![]).unwrap();
    assert_eq!(out, "<!-- site/pages/index.html\n<p>hi</p>\n.\n-->");
}

#[test]
fn unreadable_file_keeps_empty_delimiter_block() {
    let entries = vec![
        entry("root/a/data.bin", None),
        entry("root/a/notes.py", Some("x=1")),
    ];
    let out = files_to_string(true, &entries, &vec![]).unwrap();
    assert_eq!(out, "// root/a/data.bin\n.\n\n# root/a/notes.py\nx=1\n.");
}

#[test]
fn interior_whitespace_is_kept_between_blocks() {
    let entries = vec![
        entry("r/a/x.css", Some("a{}")),
        entry("r/a/y.css", Some("b{}")),
    ];
    let out = files_to_string(true, &entries, &vec![]).unwrap();
    assert_eq!(out, "/* r/a/x.css\na{}\n.\n*/\n\n/* r/a/y.css\nb{}\n.\n*/");
}

#[test]
fn folder_included_empty_set_matches_everything() {
    assert!(folder_included(&vec![], "anything"));
    assert!(folder_included(&vec![], ""));
}

#[test]
fn folder_included_checks_membership() {
    let folders = vec!["a".to_string(), "b".to_string()];
    assert!(folder_included(&folders, "a"));
    assert!(folder_included(&folders, "b"));
    assert!(!folder_included(&folders, "c"));
    assert!(!folder_included(&folders, ""));
}
