use grit::git::{DiffEntry, FileStatus};
use grit::session::{
    merge_state, merge_state_with_dirty, session_id, FileEntry, PersistedFile, PersistedSession, PersistedState,
    ReviewState, Session,
};

fn oid(hex: &str) -> String {
    format!("{:0<40}", hex)
}

fn entry(path: &str, blob_a: Option<String>, blob_b: Option<String>) -> DiffEntry {
    DiffEntry {
        path: path.to_string(),
        blob_a,
        blob_b,
        status: FileStatus::Modified,
        old_path: None,
        additions: 0,
        deletions: 0,
    }
}

fn file(path: &str, state: ReviewState, blob_a: Option<String>, blob_b: Option<String>) -> FileEntry {
    FileEntry {
        path: path.to_string(),
        state,
        blob_a,
        blob_b,
        status: FileStatus::Modified,
        old_path: None,
        additions: 0,
        deletions: 0,
    }
}

fn session(files: Vec<FileEntry>) -> Session {
    Session { id: "main__feature".into(), ref_a: "main".into(), ref_b: "feature".into(), files }
}

#[test]
fn session_id_joins_refs() {
    assert_eq!(session_id("main", "feature"), "main__feature");
}

#[test]
fn session_id_sanitises_slashes() {
    assert_eq!(session_id("refs/heads/main", "feature/foo"), "refs-heads-main__feature-foo");
}

#[test]
fn session_id_sanitises_special_chars() {
    assert_eq!(session_id("a:b*c?", "d<e>f"), "a-b-c-__d-e-f");
}

#[test]
fn session_ids_of_different_ref_pairs_differ() {
    assert_ne!(session_id("a__b", "c"), session_id("a", "b__c"));
    assert_eq!(session_id("a__b", "c"), "a--b__c");
}

#[test]
fn session_id_names_the_working_tree() {
    assert_eq!(session_id("main", "."), "main__working-tree");
}

#[test]
fn merge_state_no_persisted_all_unreviewed() {
    let entries = merge_state(vec![entry("a.rs", Some(oid("aa")), Some(oid("bb")))], None);
    assert_eq!(entries[0].state, ReviewState::Unreviewed);
}

#[test]
fn merge_state_reviewed_stable_survives_matching_blobs() {
    let persisted = Some(PersistedSession {
        files: vec![PersistedFile {
            path: "a.rs".into(),
            state: PersistedState::Reviewed,
            blob_a: Some(oid("aa")),
            blob_b: Some(oid("bb")),
        }],
    });
    let entries = merge_state(vec![entry("a.rs", Some(oid("aa")), Some(oid("bb")))], persisted);
    assert_eq!(entries[0].state, ReviewState::ReviewedStable);
}

#[test]
fn merge_state_blob_mismatch_resets_to_unreviewed() {
    let persisted = Some(PersistedSession {
        files: vec![PersistedFile {
            path: "a.rs".into(),
            state: PersistedState::Reviewed,
            blob_a: Some(oid("aa")),
            blob_b: Some(oid("bb")), // old blob
        }],
    });
    let entries = merge_state(vec![entry("a.rs", Some(oid("aa")), Some(oid("cc")))], persisted);
    assert_eq!(entries[0].state, ReviewState::Unreviewed);
}

#[test]
fn merge_state_new_file_is_unreviewed() {
    let entries = merge_state(
        vec![entry("new.rs", Some(oid("aa")), Some(oid("bb")))],
        Some(PersistedSession { files: vec![] }),
    );
    assert_eq!(entries[0].state, ReviewState::Unreviewed);
}

#[test]
fn merge_state_removed_file_is_absent() {
    let persisted = Some(PersistedSession {
        files: vec![PersistedFile {
            path: "gone.rs".into(),
            state: PersistedState::Reviewed,
            blob_a: None,
            blob_b: None,
        }],
    });
    let entries = merge_state(vec![], persisted);
    assert!(entries.is_empty());
}

#[test]
fn merge_state_saved_unreviewed_stays_unreviewed() {
    let persisted = Some(PersistedSession {
        files: vec![PersistedFile {
            path: "a.rs".into(),
            state: PersistedState::Unreviewed,
            blob_a: Some(oid("aa")),
            blob_b: Some(oid("bb")),
        }],
    });
    let entries = merge_state(vec![entry("a.rs", Some(oid("aa")), Some(oid("bb")))], persisted);
    assert_eq!(entries[0].state, ReviewState::Unreviewed);
}

#[test]
fn merge_state_keeps_diff_order_and_fields() {
    let mut moved = entry("new/name.rs", None, Some(oid("dd")));
    moved.status = FileStatus::Moved;
    moved.old_path = Some("old/name.rs".into());
    moved.additions = 4;
    moved.deletions = 2;
    let entries = merge_state(vec![entry("z.rs", None, None), moved], None);
    assert_eq!(entries.len(), 2);
    assert_eq!(entries[0].path, "z.rs");
    assert_eq!(entries[1].path, "new/name.rs");
    assert_eq!(entries[1].old_path.as_deref(), Some("old/name.rs"));
    assert_eq!(entries[1].status, FileStatus::Moved);
    assert_eq!((entries[1].additions, entries[1].deletions), (4, 2));
    assert_eq!(entries[1].blob_b, Some(oid("dd")));
}

#[test]
fn merge_state_working_tree_side_without_blob_matches() {
    let persisted = Some(PersistedSession {
        files: vec![PersistedFile {
            path: "w.rs".into(),
            state: PersistedState::Reviewed,
            blob_a: Some(oid("aa")),
            blob_b: None,
        }],
    });
    let entries = merge_state(vec![entry("w.rs", Some(oid("aa")), None)], persisted);
    assert_eq!(entries[0].state, ReviewState::ReviewedStable);
}

#[test]
fn to_persisted_saves_dirty_as_reviewed() {
    let s = session(vec![
        file("a.rs", ReviewState::ReviewedStable, Some(oid("aa")), Some(oid("bb"))),
        file("b.rs", ReviewState::Unreviewed, Some(oid("cc")), None),
        file("c.rs", ReviewState::ReviewedDirty, None, None),
    ]);
    let p = s.to_persisted();
    assert_eq!(p.files.len(), 3);
    assert_eq!(p.files[0].path, "a.rs");
    assert_eq!(p.files[0].state, PersistedState::Reviewed);
    assert_eq!(p.files[0].blob_a, Some(oid("aa")));
    assert_eq!(p.files[1].state, PersistedState::Unreviewed);
    assert_eq!(p.files[1].blob_b, None);
    assert_eq!(p.files[2].state, PersistedState::Reviewed);
}

#[test]
fn refresh_keeps_reviewed_stable_for_unchanged_blobs() {
    let mut s = session(vec![file("a.rs", ReviewState::ReviewedStable, Some(oid("aa")), Some(oid("bb")))]);
    s.refresh(vec![entry("a.rs", Some(oid("aa")), Some(oid("bb")))], &vec![]);
    assert_eq!(s.files[0].state, ReviewState::ReviewedStable);
    assert_eq!(s.id, "main__feature");
}

#[test]
fn refresh_turns_dirty_into_stable_when_unchanged() {
    let mut s = session(vec![file("a.rs", ReviewState::ReviewedDirty, Some(oid("aa")), None)]);
    s.refresh(vec![entry("a.rs", Some(oid("aa")), None)], &vec![]);
    assert_eq!(s.files[0].state, ReviewState::ReviewedStable);
}

#[test]
fn refresh_resets_changed_blobs() {
    let mut s = session(vec![file("a.rs", ReviewState::ReviewedStable, Some(oid("aa")), Some(oid("bb")))]);
    s.refresh(vec![entry("a.rs", Some(oid("aa")), Some(oid("ee")))], &vec![]);
    assert_eq!(s.files[0].state, ReviewState::Unreviewed);
    assert_eq!(s.files[0].blob_b, Some(oid("ee")));
}

#[test]
fn refresh_adds_new_files_and_drops_removed_ones() {
    let mut s = session(vec![
        file("a.rs", ReviewState::ReviewedStable, Some(oid("aa")), Some(oid("bb"))),
        file("gone.rs", ReviewState::ReviewedStable, None, None),
    ]);
    s.refresh(vec![
        entry("a.rs", Some(oid("aa")), Some(oid("bb"))),
        entry("new.rs", None, Some(oid("ff"))),
    ], &vec![]);
    assert_eq!(s.files.len(), 2);
    assert_eq!(s.files[0].state, ReviewState::ReviewedStable);
    assert_eq!(s.files[1].path, "new.rs");
    assert_eq!(s.files[1].state, ReviewState::Unreviewed);
}

#[test]
fn has_pending_changes_false_for_identical_diff() {
    let s = session(vec![file("a.rs", ReviewState::ReviewedStable, Some(oid("aa")), Some(oid("bb")))]);
    assert!(!s.has_pending_changes(vec![entry("a.rs", Some(oid("aa")), Some(oid("bb")))], &vec![]));
}

#[test]
fn has_pending_changes_true_when_blob_changes() {
    let s = session(vec![file("a.rs", ReviewState::ReviewedStable, Some(oid("aa")), Some(oid("bb")))]);
    assert!(s.has_pending_changes(vec![entry("a.rs", Some(oid("aa")), Some(oid("cc")))], &vec![]));
}

#[test]
fn has_pending_changes_true_when_file_added() {
    let s = session(vec![file("a.rs", ReviewState::Unreviewed, Some(oid("aa")), Some(oid("bb")))]);
    assert!(s.has_pending_changes(vec![
        entry("a.rs", Some(oid("aa")), Some(oid("bb"))),
        entry("b.rs", None, Some(oid("cc"))),
    ], &vec![]));
}

#[test]
fn merge_marks_reviewed_files_with_uncommitted_changes_dirty() {
    let persisted = Some(PersistedSession {
        files: vec![
            PersistedFile { path: "a.rs".into(), state: PersistedState::Reviewed, blob_a: Some(oid("aa")), blob_b: None },
            PersistedFile { path: "b.rs".into(), state: PersistedState::Reviewed, blob_a: Some(oid("bb")), blob_b: None },
            PersistedFile { path: "c.rs".into(), state: PersistedState::Unreviewed, blob_a: Some(oid("cc")), blob_b: None },
        ],
    });
    let dirty = vec!["a.rs".to_string(), "c.rs".to_string()];
    let entries = merge_state_with_dirty(
        vec![
            entry("a.rs", Some(oid("aa")), None),
            entry("b.rs", Some(oid("bb")), None),
            entry("c.rs", Some(oid("cc")), None),
        ],
        persisted,
        &dirty,
    );
    assert_eq!(entries[0].state, ReviewState::ReviewedDirty);
    assert_eq!(entries[1].state, ReviewState::ReviewedStable);
    assert_eq!(entries[2].state, ReviewState::Unreviewed);
}

#[test]
fn refresh_marks_and_clears_dirty() {
    let mut s = session(vec![file("a.rs", ReviewState::ReviewedStable, Some(oid("aa")), None)]);
    s.refresh(vec![entry("a.rs", Some(oid("aa")), None)], &vec!["a.rs".to_string()]);
    assert_eq!(s.files[0].state, ReviewState::ReviewedDirty);
    s.refresh(vec![entry("a.rs", Some(oid("aa")), None)], &vec![]);
    assert_eq!(s.files[0].state, ReviewState::ReviewedStable);
}

#[test]
fn has_pending_changes_true_when_a_reviewed_file_turns_dirty() {
    let s = session(vec![file("a.rs", ReviewState::ReviewedStable, Some(oid("aa")), None)]);
    assert!(s.has_pending_changes(vec![entry("a.rs", Some(oid("aa")), None)], &vec!["a.rs".to_string()]));
    assert!(!s.has_pending_changes(vec![entry("a.rs", Some(oid("aa")), None)], &vec!["b.rs".to_string()]));
}

#[test]
fn uses_working_tree_only_with_dot() {
    assert!(grit::session::uses_working_tree(".", "main"));
    assert!(grit::session::uses_working_tree("main", "."));
    assert!(!grit::session::uses_working_tree("main", "feature"));
    assert!(!grit::session::uses_working_tree("./", "feature"));
}

#[test]
fn session_dir_is_under_grit() {
    assert_eq!(grit::session::session_dir("/repo", "main__feature"), "/repo/.grit/sessions/main__feature");
    assert_eq!(grit::session::session_dir("/repo/", "x"), "/repo/.grit/sessions/x");
}
