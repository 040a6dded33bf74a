use clipboard_files::canonicalize_all;
use clipboard_files::canonicalize_and_filter;
use clipboard_files::strip_prefix;
use clipboard_files::ClipboardError;

#[test]
fn strip_removes_extended_prefix() {
    assert_eq!(
        strip_prefix(r"\\?\C:\Users\me\file.txt".to_string()),
        r"C:\Users\me\file.txt".to_string()
    );
}

#[test]
fn strip_leaves_plain_path_alone() {
    assert_eq!(strip_prefix("/tmp/a.txt".to_string()), "/tmp/a.txt".to_string());
}

#[test]
fn strip_leaves_short_path_alone() {
    assert_eq!(strip_prefix(r"\\?".to_string()), r"\\?".to_string());
    assert_eq!(strip_prefix(String::new()), String::new());
}

#[test]
fn strip_is_idempotent_on_singly_marked_path() {
    let once = strip_prefix(r"\\?\C:\x".to_string());
    let twice = strip_prefix(once.clone());
    assert_eq!(once, twice);
    assert_eq!(once, r"C:\x".to_string());
}

#[test]
fn strip_removes_one_marker_of_a_doubly_marked_path() {
    let once = strip_prefix(r"\\?\\\?\C:\x".to_string());
    assert_eq!(once, r"\\?\C:\x".to_string());
}

#[test]
fn all_resolved_batch_is_accepted_in_order() {
    let rs = vec![
        Some("/home/a".to_string()),
        Some(r"\\?\C:\b".to_string()),
        Some("/home/c".to_string()),
    ];
    let out = canonicalize_all(rs);
    assert_eq!(
        out,
        Ok(vec![
            "/home/a".to_string(),
            r"C:\b".to_string(),
            "/home/c".to_string()
        ])
    );
}

#[test]
fn empty_batch_is_accepted() {
    let out = canonicalize_all(Vec::new());
    assert_eq!(out, Ok(Vec::new()));
}

#[test]
fn one_unresolved_entry_rejects_the_whole_batch() {
    let rs = vec![
        Some("/home/a".to_string()),
        None,
        Some("/home/c".to_string()),
    ];
    assert_eq!(canonicalize_all(rs), Err(ClipboardError::NoExist));
}

#[test]
fn all_unresolved_entries_reject_the_batch() {
    let rs: Vec<Option<String>> = vec![None, None];
    assert_eq!(canonicalize_all(rs), Err(ClipboardError::NoExist));
}

#[test]
fn filter_drops_unresolved_entries_and_keeps_order() {
    let rs = vec![
        Some("/home/a".to_string()),
        None,
        Some(r"\\?\C:\b".to_string()),
        None,
    ];
    let out = canonicalize_and_filter(rs);
    assert_eq!(out, vec!["/home/a".to_string(), r"C:\b".to_string()]);
}

#[test]
fn filter_of_nothing_resolved_is_empty() {
    let rs: Vec<Option<String>> = vec![None, None, None];
    assert_eq!(canonicalize_and_filter(rs), Vec::<String>::new());
}

#[test]
fn filter_of_empty_batch_is_empty() {
    assert_eq!(canonicalize_and_filter(Vec::new()), Vec::<String>::new());
}
