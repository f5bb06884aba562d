use grit::checklist::Checklist;
use grit::git::{DiffEntry, FileStatus};
use grit::session::{FileEntry, ReviewState, Session};

fn file(path: &str, state: ReviewState) -> FileEntry {
    FileEntry {
        path: path.into(),
        state,
        blob_a: Some("aa".into()),
        blob_b: Some("bb".into()),
        status: FileStatus::Modified,
        old_path: None,
        additions: 1,
        deletions: 1,
    }
}

fn checklist(n: usize) -> Checklist {
    let files = (0..n).map(|i| file(&format!("f{i}.rs"), ReviewState::Unreviewed)).collect();
    Checklist::new(Session { id: "a__b".into(), ref_a: "a".into(), ref_b: "b".into(), files })
}

#[test]
fn navigation_stays_on_the_list() {
    let mut c = checklist(3);
    assert_eq!(c.selected, 0);
    c.select_prev();
    assert_eq!(c.selected, 0);
    c.select_next();
    c.select_next();
    c.select_next();
    assert_eq!(c.selected, 2);
    c.select_index(7);
    assert_eq!(c.selected, 2);
    c.select_index(1);
    assert_eq!(c.selected, 1);
    assert_eq!(c.selected_file().unwrap().path, "f1.rs");
}

#[test]
fn empty_list_has_no_selected_file() {
    let mut c = checklist(0);
    c.select_next();
    assert_eq!(c.selected, 0);
    assert!(c.selected_file().is_none());
    c.toggle_reviewed();
}

#[test]
fn toggle_cycles_states() {
    let mut c = checklist(2);
    c.toggle_reviewed();
    assert_eq!(c.session.files[0].state, ReviewState::ReviewedStable);
    assert_eq!(c.session.files[1].state, ReviewState::Unreviewed);
    c.toggle_reviewed();
    assert_eq!(c.session.files[0].state, ReviewState::Unreviewed);
    c.session.files[1].state = ReviewState::ReviewedDirty;
    c.select_next();
    c.toggle_reviewed();
    assert_eq!(c.session.files[1].state, ReviewState::ReviewedStable);
}

#[test]
fn refresh_clamps_selection() {
    let mut c = checklist(3);
    c.select_index(2);
    let current = vec![DiffEntry {
        path: "f0.rs".into(),
        blob_a: Some("aa".into()),
        blob_b: Some("bb".into()),
        status: FileStatus::Modified,
        old_path: None,
        additions: 1,
        deletions: 1,
    }];
    c.refresh(current, &vec![]);
    assert_eq!(c.session.files.len(), 1);
    assert_eq!(c.selected, 0);
}
