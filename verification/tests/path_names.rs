use filecat::parent_folder_name;
use filecat::paths::{file_extension, file_name};
use filecat::text::{str_eq, trim_whitespace};

#[test]
fn parent_of_nested_path() {
    assert_eq!(parent_folder_name("root/a/notes.py"), "a");
    assert_eq!(parent_folder_name("root/a/b/notes.py"), "b");
}

#[test]
fn parent_of_single_segment_is_empty() {
    assert_eq!(parent_folder_name("notes.py"), "");
}

#[test]
fn parent_of_two_segments_is_first() {
    assert_eq!(parent_folder_name("a/notes.py"), "a");
}

#[test]
fn file_name_is_final_segment() {
    assert_eq!(file_name("root/a/notes.py"), "notes.py");
    assert_eq!(file_name("notes.py"), "notes.py");
}

#[test]
fn file_extension_cases() {
    assert_eq!(file_extension("a/notes.py"), Some("py".to_string()));
    assert_eq!(file_extension("a/archive.tar.gz"), Some("gz".to_string()));
    assert_eq!(file_extension("a/Makefile"), None);
    assert_eq!(file_extension("a/.profile"), None);
}

#[test]
fn str_eq_compares_characters() {
    assert!(str_eq("abc", "abc"));
    assert!(!str_eq("abc", "abd"));
    assert!(!str_eq("abc", "ab"));
    assert!(str_eq("", ""));
}

#[test]
fn trim_removes_edge_whitespace_only() {
    assert_eq!(trim_whitespace("  x=1\n"), "x=1");
    assert_eq!(trim_whitespace("\n\t \r\n"), "");
    assert_eq!(trim_whitespace(""), "");
    assert_eq!(trim_whitespace("a \n b"), "a \n b");
}
