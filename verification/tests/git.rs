use grit::git::{
    diff_args, diff_entries, dirty_path_lines, non_zero_oid, parse_numstat_line,
    parse_raw_line, repo_root_from_output, sanitise_ref, FileStatus,
};

const A: &str = "1111111111111111111111111111111111111111";
const B: &str = "2222222222222222222222222222222222222222";
const Z: &str = "0000000000000000000000000000000000000000";

#[test]
fn sanitise_ref_replaces_unsafe_characters() {
    assert_eq!(sanitise_ref("refs/heads/main"), "refs-heads-main");
    assert_eq!(sanitise_ref("a\\b:c*d?e\"f<g>h|i j"), "a-b-c-d-e-f-g-h-i-j");
    assert_eq!(sanitise_ref("HEAD~1"), "HEAD-1");
    assert_eq!(sanitise_ref("main^2"), "main-2");
    assert_eq!(sanitise_ref("v1.0"), "v1-0");
    assert_eq!(sanitise_ref("feature_x"), "feature-x");
    assert_eq!(sanitise_ref("."), "working-tree");
    assert_eq!(sanitise_ref(".."), "--");
}

#[test]
fn non_zero_oid_drops_null_ids() {
    assert_eq!(non_zero_oid(Z), None);
    assert_eq!(non_zero_oid(A), Some(A.to_string()));
    assert_eq!(non_zero_oid("000a"), Some("000a".to_string()));
}

#[test]
fn raw_line_modified() {
    let line = format!(":100644 100644 {A} {B} M\tsrc/lib.rs");
    let e = parse_raw_line(&line).unwrap();
    assert_eq!(e.path, "src/lib.rs");
    assert_eq!(e.old_path, None);
    assert_eq!(e.blob_old.as_deref(), Some(A));
    assert_eq!(e.blob_new.as_deref(), Some(B));
    assert_eq!(e.status, FileStatus::Modified);
}

#[test]
fn raw_line_added_and_deleted() {
    let added = parse_raw_line(&format!(":000000 100644 {Z} {B} A\tnew.rs")).unwrap();
    assert_eq!(added.status, FileStatus::Added);
    assert_eq!(added.blob_old, None);
    let deleted = parse_raw_line(&format!(":100644 000000 {A} {Z} D\told.rs")).unwrap();
    assert_eq!(deleted.status, FileStatus::Deleted);
    assert_eq!(deleted.blob_new, None);
}

#[test]
fn raw_line_rename() {
    let e = parse_raw_line(&format!(":100644 100644 {A} {B} R087\told/a.rs\tnew/a.rs")).unwrap();
    assert_eq!(e.status, FileStatus::Moved);
    assert_eq!(e.path, "new/a.rs");
    assert_eq!(e.old_path.as_deref(), Some("old/a.rs"));
    assert!(parse_raw_line(&format!(":100644 100644 {A} {B} C100\tonly-one-path")).is_none());
}

#[test]
fn raw_line_skips_other_lines() {
    assert!(parse_raw_line("3b18e512dba79e4c8300dd08aeb37f8e728b8dad").is_none());
    assert!(parse_raw_line(":100644 100644 a b\tpath").is_none());
    assert!(parse_raw_line(":100644 100644 a b M path-without-tab").is_none());
    assert!(parse_raw_line("").is_none());
}

#[test]
fn numstat_lines() {
    assert_eq!(parse_numstat_line("12\t3\tsrc/lib.rs"), Some((12, 3)));
    assert_eq!(parse_numstat_line("-\t-\timage.png"), Some((0, 0)));
    assert_eq!(parse_numstat_line("5\t1\t"), Some((5, 1)));
    assert_eq!(parse_numstat_line("5\t1"), None);
    assert_eq!(parse_numstat_line("3b18e512dba79e4c8300dd08aeb37f8e728b8dad"), None);
    assert_eq!(parse_numstat_line("99999999999\t+7\ta\tb"), Some((0, 7)));
}

#[test]
fn diff_entries_pair_raw_and_numstat() {
    let raw = format!(
        "commit\n:100644 100644 {A} {B} M\ta.rs\n:000000 100644 {Z} {B} A\tb.rs\n"
    );
    let numstat = "commit\n1\t2\ta.rs\n3\t0\tb.rs\n";
    let es = diff_entries(raw.as_bytes(), numstat.as_bytes(), "main", "feature").unwrap();
    assert_eq!(es.len(), 2);
    assert_eq!(es[0].path, "a.rs");
    assert_eq!(es[0].blob_a.as_deref(), Some(A));
    assert_eq!(es[0].blob_b.as_deref(), Some(B));
    assert_eq!((es[0].additions, es[0].deletions), (1, 2));
    assert_eq!(es[1].status, FileStatus::Added);
    assert_eq!(es[1].blob_a, None);
    assert_eq!((es[1].additions, es[1].deletions), (3, 0));
}

#[test]
fn diff_entries_working_tree_sides() {
    let raw = format!(":100644 100644 {A} {Z} M\ta.rs\n");
    let b_dot = diff_entries(raw.as_bytes(), b"", "main", ".").unwrap();
    assert_eq!(b_dot[0].blob_a.as_deref(), Some(A));
    assert_eq!(b_dot[0].blob_b, None);
    assert_eq!((b_dot[0].additions, b_dot[0].deletions), (0, 0));
    let a_dot = diff_entries(raw.as_bytes(), b"", ".", "main").unwrap();
    assert_eq!(a_dot[0].blob_a, None);
    assert_eq!(a_dot[0].blob_b.as_deref(), Some(A));
}

#[test]
fn diff_command_lines() {
    assert_eq!(diff_args("main", "feature", "--raw"), vec!["diff-tree", "--raw", "-r", "main", "feature"]);
    assert_eq!(diff_args("main", ".", "--numstat"), vec!["diff-index", "--numstat", "main"]);
    assert_eq!(diff_args(".", "HEAD~1", "--raw"), vec!["diff-index", "--raw", "HEAD~1"]);
}

#[test]
fn output_helpers() {
    assert_eq!(repo_root_from_output(b"/home/me/repo\n\n"), Some("/home/me/repo".to_string()));
    assert_eq!(repo_root_from_output(b"/x"), Some("/x".to_string()));
    assert_eq!(repo_root_from_output(b"/caf\xc3\xa9\n"), Some("/caf\u{e9}".to_string()));
    assert_eq!(repo_root_from_output(b"/x\xff\n"), None);
    assert_eq!(
        dirty_path_lines(b"a.rs\n\nb/c.rs\r\n"),
        Some(vec!["a.rs".to_string(), "b/c.rs".to_string()])
    );
    assert_eq!(dirty_path_lines(b"\xff"), None);
}

#[test]
fn diff_entries_refuse_output_that_is_not_utf8() {
    let raw = format!(":100644 100644 {A} {B} M\ta.rs\n");
    assert!(diff_entries(b"\xff", b"", "main", "feature").is_none());
    assert!(diff_entries(raw.as_bytes(), b"1\t2\t\xfe\n", "main", "feature").is_none());
}
