use grit::checklist::Checklist;
use grit::git::{DiffEntry, FileStatus};
use grit::run_loop::{timer_due, LoopAction, LoopState};
use grit::session::{FileEntry, PersistedState, ReviewState, Session};
use grit::tui::ChecklistControl;

fn file(path: &str, state: ReviewState) -> FileEntry {
    FileEntry {
        path: path.into(),
        state,
        blob_a: Some("aa".into()),
        blob_b: Some("bb".into()),
        status: FileStatus::Modified,
        old_path: None,
        additions: 1,
        deletions: 1,
    }
}

fn entry(path: &str) -> DiffEntry {
    DiffEntry {
        path: path.into(),
        blob_a: Some("aa".into()),
        blob_b: Some("bb".into()),
        status: FileStatus::Modified,
        old_path: None,
        additions: 1,
        deletions: 1,
    }
}

fn checklist(paths: &[&str]) -> Checklist {
    let files = paths.iter().map(|p| file(p, ReviewState::ReviewedStable)).collect();
    Checklist::new(Session { id: "a__b".into(), ref_a: "a".into(), ref_b: "b".into(), files })
}

#[test]
fn start_splits_at_the_configured_share() {
    let s = LoopState::start(43, 81, 50);
    assert_eq!(s.available_height, 40);
    assert_eq!(s.width, 80);
    assert_eq!(s.split_row, 20);
    assert_eq!(s.saved_split, None);
    assert_eq!(s.preview_scroll, 0);
    assert_eq!(s.last_selected, None);
    assert!(!s.refresh_pending);
    assert_eq!(LoopState::start(4, 10, 50).split_row, 2);
}

#[test]
fn refresh_clears_the_prompt_and_saves_and_quit_saves() {
    let mut s = LoopState::start(43, 81, 50);
    s.note_changes(true);
    assert!(s.refresh_pending);
    s.note_changes(false);
    assert!(s.refresh_pending);
    assert_eq!(s.step(ChecklistControl::Refresh, None), LoopAction::RefreshThenSave);
    assert!(!s.refresh_pending);
    assert_eq!(s.step(ChecklistControl::Quit, None), LoopAction::SaveThenExit);
    assert_eq!(s.step(ChecklistControl::Save, None), LoopAction::SaveSession);
    assert_eq!(s.step(ChecklistControl::CopyPathNew, None), LoopAction::CopyPath(true));
    assert_eq!(s.step(ChecklistControl::CopyPathOld, None), LoopAction::CopyPath(false));
    assert_eq!(s.step(ChecklistControl::Resize, None), LoopAction::Resize);
}

#[test]
fn split_keys_do_nothing_in_full_screen() {
    let mut s = LoopState::start(43, 81, 50);
    assert_eq!(s.step(ChecklistControl::AdjustSplit(-1), None), LoopAction::Redraw);
    assert_eq!(s.split_row, 19);
    s.step(ChecklistControl::ToggleFullscreen, None);
    assert_eq!((s.split_row, s.saved_split), (0, Some(19)));
    s.step(ChecklistControl::AdjustSplit(1), None);
    assert_eq!(s.split_row, 0);
    s.step(ChecklistControl::ToggleFullscreen, None);
    assert_eq!((s.split_row, s.saved_split), (19, None));
    s.step(ChecklistControl::UpdateDrag(100), None);
    assert_eq!(s.split_row, 38);
}

#[test]
fn scroll_needs_a_ready_preview_and_stays_in_range() {
    let mut s = LoopState::start(43, 81, 50);
    s.step(ChecklistControl::ScrollPreview(5), None);
    assert_eq!(s.preview_scroll, 0);
    // 20 preview rows, 100 lines: the furthest scroll is 100 - 20 + 5
    s.step(ChecklistControl::ScrollPreview(1000), Some(100));
    assert_eq!(s.preview_scroll, 85);
    s.step(ChecklistControl::ScrollPreview(-1000), Some(100));
    assert_eq!(s.preview_scroll, 0);
}

#[test]
fn theme_and_resize_forget_the_shown_preview() {
    let mut s = LoopState::start(43, 81, 50);
    assert!(s.follow_selection(0, 3));
    assert_eq!(s.step(ChecklistControl::CycleTheme, None), LoopAction::CycleTheme);
    assert_eq!(s.last_selected, None);
    s.follow_selection(1, 3);
    s.apply_resize(23, 41);
    assert_eq!((s.available_height, s.width, s.split_row, s.last_selected), (20, 40, 10, None));
}

#[test]
fn selection_changes_reset_the_scroll() {
    let mut s = LoopState::start(43, 81, 50);
    assert!(!s.follow_selection(0, 0));
    assert!(s.follow_selection(2, 3));
    s.step(ChecklistControl::ScrollPreview(3), Some(100));
    assert!(!s.follow_selection(2, 3));
    assert_eq!(s.preview_scroll, 3);
    assert!(s.follow_selection(1, 3));
    assert_eq!((s.preview_scroll, s.last_selected), (0, Some(1)));
}

#[test]
fn timer_runs_out_after_the_interval() {
    assert!(!timer_due(29_999, 30));
    assert!(timer_due(30_000, 30));
    assert!(timer_due(0, 0));
}

#[test]
fn refresh_step_keeps_the_selected_file_and_returns_what_to_save() {
    let mut c = checklist(&["a.rs", "b.rs", "c.rs"]);
    c.select_index(1);
    let mut s = LoopState::start(43, 81, 50);
    s.follow_selection(1, 3);
    let saved = s.refresh_step(&mut c, vec![entry("new.rs"), entry("a.rs"), entry("b.rs")], &vec![]);
    assert_eq!(c.selected, 2);
    assert_eq!(s.last_selected, Some(2));
    assert_eq!(saved.files.len(), 3);
    assert_eq!(saved.files[2].path, "b.rs");
    assert_eq!(saved.files[2].state, PersistedState::Reviewed);
    assert_eq!(saved.files[0].state, PersistedState::Unreviewed);
    // the selected file left the diff: the selection is clamped, no preview is shown
    let saved = s.refresh_step(&mut c, vec![entry("a.rs")], &vec![]);
    assert_eq!(c.selected, 0);
    assert_eq!(s.last_selected, None);
    assert_eq!(saved.files.len(), 1);
}
