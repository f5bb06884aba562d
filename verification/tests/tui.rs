use grit::checklist::Checklist;
use grit::git::FileStatus;
use grit::session::{FileEntry, ReviewState, Session};
use grit::style::{Color, Modifier, Style};
use grit::theme::Theme;
use grit::tui::{
    active_notification, adjust_split, available_height, build_file_paths, checkbox, copied_notice,
    copy_line, count_style, count_width, diff_command, divider_text, drag_split, file_row, footer,
    handle_checklist_key, handle_mouse, initial_split, position_of_path, preview_width,
    prioritize, reselect, resize_split, scroll_indicator, scroll_marks, scroll_preview, spinner_next,
    title_bar_line, toggle_fullscreen, work_items, ChecklistControl, KeyCode, KeyEvent,
    MouseButton, MouseEvent, MouseEventKind,
};

fn file(path: &str, additions: u32, deletions: u32) -> FileEntry {
    FileEntry {
        path: path.into(),
        state: ReviewState::Unreviewed,
        blob_a: None,
        blob_b: None,
        status: FileStatus::Modified,
        old_path: None,
        additions,
        deletions,
    }
}

fn checklist(n: usize) -> Checklist {
    let files = (0..n).map(|i| file(&format!("f{i}.rs"), 0, 0)).collect();
    Checklist::new(Session { id: "a__b".into(), ref_a: "a".into(), ref_b: "b".into(), files })
}

fn key(c: char) -> KeyEvent {
    KeyEvent { code: KeyCode::Char(c), ctrl: false }
}

#[test]
fn keys_map_to_controls() {
    let mut c = checklist(3);
    assert_eq!(handle_checklist_key(key('q'), &mut c), ChecklistControl::Quit);
    assert_eq!(handle_checklist_key(KeyEvent { code: KeyCode::Esc, ctrl: false }, &mut c), ChecklistControl::Quit);
    assert_eq!(handle_checklist_key(KeyEvent { code: KeyCode::Char('c'), ctrl: true }, &mut c), ChecklistControl::Quit);
    assert_eq!(handle_checklist_key(key('c'), &mut c), ChecklistControl::Continue);
    assert_eq!(handle_checklist_key(key('u'), &mut c), ChecklistControl::Continue);
    assert_eq!(c.selected, 1);
    assert_eq!(handle_checklist_key(KeyEvent { code: KeyCode::Up, ctrl: false }, &mut c), ChecklistControl::Continue);
    assert_eq!(c.selected, 0);
    assert_eq!(handle_checklist_key(key(' '), &mut c), ChecklistControl::Save);
    assert_eq!(c.session.files[0].state, ReviewState::ReviewedStable);
    assert_eq!(handle_checklist_key(key('r'), &mut c), ChecklistControl::Refresh);
    assert_eq!(handle_checklist_key(key('t'), &mut c), ChecklistControl::CycleTheme);
    assert_eq!(handle_checklist_key(KeyEvent { code: KeyCode::Enter, ctrl: false }, &mut c), ChecklistControl::ToggleFullscreen);
    assert_eq!(handle_checklist_key(key('y'), &mut c), ChecklistControl::CopyPathNew);
    assert_eq!(handle_checklist_key(key('Y'), &mut c), ChecklistControl::CopyPathOld);
    assert_eq!(handle_checklist_key(key('='), &mut c), ChecklistControl::AdjustSplit(-1));
    assert_eq!(handle_checklist_key(key('-'), &mut c), ChecklistControl::AdjustSplit(1));
    assert_eq!(handle_checklist_key(key('j'), &mut c), ChecklistControl::ScrollPreview(1));
    assert_eq!(handle_checklist_key(key('k'), &mut c), ChecklistControl::ScrollPreview(-1));
    assert_eq!(handle_checklist_key(key('z'), &mut c), ChecklistControl::Continue);
}

fn mouse(kind: MouseEventKind, column: u16, row: u16) -> MouseEvent {
    MouseEvent { kind, column, row }
}

#[test]
fn mouse_rows() {
    let mut c = checklist(5);
    let mut dragging = false;
    // split_row 4: list rows 1..=4, divider row 5, preview below
    let down = MouseEventKind::Down(MouseButton::Left);
    assert_eq!(handle_mouse(mouse(down, 3, 3), &mut c, 4, &mut dragging, false, 80), ChecklistControl::Continue);
    assert_eq!(c.selected, 2);
    assert_eq!(handle_mouse(mouse(down, 3, 5), &mut c, 4, &mut dragging, false, 80), ChecklistControl::Continue);
    assert!(dragging);
    assert_eq!(handle_mouse(mouse(MouseEventKind::Drag(MouseButton::Left), 3, 7), &mut c, 4, &mut dragging, false, 80), ChecklistControl::UpdateDrag(7));
    assert_eq!(handle_mouse(mouse(MouseEventKind::Up(MouseButton::Left), 3, 7), &mut c, 4, &mut dragging, false, 80), ChecklistControl::Continue);
    assert!(!dragging);
    assert_eq!(handle_mouse(mouse(MouseEventKind::Drag(MouseButton::Left), 3, 7), &mut c, 4, &mut dragging, false, 80), ChecklistControl::Continue);
    assert_eq!(handle_mouse(mouse(down, 10, 9), &mut c, 4, &mut dragging, false, 80), ChecklistControl::CopyPathOld);
    assert_eq!(handle_mouse(mouse(down, 40, 9), &mut c, 4, &mut dragging, false, 80), ChecklistControl::CopyPathNew);
    assert_eq!(handle_mouse(mouse(MouseEventKind::ScrollDown, 1, 9), &mut c, 4, &mut dragging, false, 80), ChecklistControl::ScrollPreview(3));
    assert_eq!(handle_mouse(mouse(MouseEventKind::ScrollUp, 1, 9), &mut c, 4, &mut dragging, false, 80), ChecklistControl::ScrollPreview(-3));
    assert_eq!(handle_mouse(mouse(MouseEventKind::ScrollUp, 1, 2), &mut c, 4, &mut dragging, false, 80), ChecklistControl::Continue);
    // full screen: the divider does not start a drag
    assert_eq!(handle_mouse(mouse(down, 3, 5), &mut c, 4, &mut dragging, true, 80), ChecklistControl::Continue);
    assert!(!dragging);
    assert_eq!(c.selected, 2);
}

#[test]
fn split_arithmetic() {
    assert_eq!(available_height(40), 37);
    assert_eq!(available_height(2), 0);
    assert_eq!(preview_width(0), 0);
    assert_eq!(initial_split(37, 50), 18);
    assert_eq!(initial_split(3, 50), 2);
    assert_eq!(adjust_split(10, -1, 30), 9);
    assert_eq!(adjust_split(2, -1, 30), 2);
    assert_eq!(adjust_split(28, 1, 30), 28);
    assert_eq!(drag_split(0, 30), 2);
    assert_eq!(drag_split(12, 30), 11);
    assert_eq!(drag_split(100, 30), 28);
    assert_eq!(resize_split(10, 20, 40), 20);
    assert_eq!(resize_split(10, 20, 6), 3);
    assert_eq!(resize_split(10, 0, 40), 10);
    assert_eq!(toggle_fullscreen(12, None), (0, Some(12)));
    assert_eq!(toggle_fullscreen(0, Some(12)), (12, None));
}

#[test]
fn preview_scrolling() {
    // 30 rows available, split 10: preview 20 rows; 100 lines scroll to 100 - 20 + 5
    assert_eq!(scroll_preview(0, -1, 100, 30, 10), 0);
    assert_eq!(scroll_preview(84, 3, 100, 30, 10), 85);
    assert_eq!(scroll_preview(5, 1, 10, 30, 10), 0);
    assert_eq!(copy_line(0), 1);
    assert_eq!(scroll_marks(0, 10, 20), (false, true));
    assert_eq!(scroll_marks(10, 10, 20), (true, false));
    assert_eq!(spinner_next(9), 0);
}

#[test]
fn title_bar_pads_to_width() {
    let line = title_bar_line("main", "feature", 40, false, "1.2.3");
    assert_eq!(line.spans.len(), 1);
    let text = &line.spans[0].content;
    assert!(text.starts_with("  main  \u{2192}  feature"));
    assert!(text.ends_with("grit v1.2.3"));
    // every character here takes one column, so 40 characters fill 40 columns
    assert_eq!(text.chars().count(), 40);
    let pending = title_bar_line("main", "feature", 80, true, "1.2.3");
    assert_eq!(pending.spans.len(), 2);
    assert_eq!(pending.spans[1].content, "  Changes detected \u{2014} press r to refresh  ");
    assert_eq!(
        pending.spans[1].style,
        Style::default().bg(Color::Rgb(160, 40, 40)).fg(Color::White).add_modifier(Modifier::Bold)
    );
    assert_eq!(pending.spans[0].content.chars().count() + pending.spans[1].content.chars().count(), 80);
    let narrow = title_bar_line("main", "feature", 5, false, "1");
    assert_eq!(narrow.spans[0].content, "  main  \u{2192}  featuregrit v1");
    // wide characters take two columns each: 12 + 7 columns of text, 11 of padding
    let wide = title_bar_line("\u{65e5}\u{672c}", "b", 30, false, "1");
    assert_eq!(wide.spans[0].content, format!("  \u{65e5}\u{672c}  \u{2192}  b{}grit v1", " ".repeat(11)));
}

#[test]
fn scroll_indicator_rows() {
    let t = scroll_indicator(true, true, 3);
    let rows: Vec<&str> = t.lines.iter().map(|l| l.spans[0].content.as_str()).collect();
    assert_eq!(rows, vec!["\u{2191}", " ", "\u{2193}"]);
    let one = scroll_indicator(true, true, 1);
    assert_eq!(one.lines[0].spans[0].content, "\u{2195}");
    assert!(scroll_indicator(true, false, 0).lines.is_empty());
    let below_only = scroll_indicator(false, true, 1);
    assert_eq!(below_only.lines[0].spans[0].content, "\u{2193}");
}

#[test]
fn count_styles() {
    let fg = Color::Green;
    let bg = Color::Rgb(0, 80, 0);
    assert_eq!(count_style(0, fg, bg), Style::default().fg(fg).add_modifier(Modifier::Dim));
    assert_eq!(count_style(99, fg, bg), Style::default().fg(fg));
    assert_eq!(count_style(100, fg, bg), Style::default().fg(fg).add_modifier(Modifier::Bold));
    assert_eq!(count_style(1000, fg, bg), Style::default().fg(fg).bg(bg).add_modifier(Modifier::Bold));
}

#[test]
fn file_rows() {
    let theme = Theme::default_theme();
    let files = vec![file("a.rs", 120, 3), file("b.rs", 4, 0)];
    assert_eq!(count_width(&files), 4);
    let row = file_row(&files[1], 4, &theme);
    let parts: Vec<&str> = row.spans.iter().map(|s| s.content.as_str()).collect();
    assert_eq!(parts, vec![" [ ] ", "M", "  ", "  +4", "  ", "  -0", "  b.rs"]);
    assert_eq!(row.spans[1].style, theme.status_modified);
    let mut moved = file("new.rs", 1, 1);
    moved.status = FileStatus::Moved;
    moved.old_path = Some("old.rs".into());
    moved.state = ReviewState::ReviewedDirty;
    let row = file_row(&moved, 2, &theme);
    assert_eq!(row.spans[0].content, " [~] ");
    assert_eq!(row.spans[1].content, "R");
    assert_eq!(row.spans[7].content, "  (was: old.rs)");
    assert_eq!(row.spans[7].style, Style::default().add_modifier(Modifier::Dim));
    assert_eq!(checkbox(ReviewState::ReviewedStable), "[x]");
    assert_eq!(count_width(&vec![]), 2);
}

#[test]
fn divider_and_footer() {
    assert_eq!(
        divider_text(false, None, 50),
        "\u{2500}\u{2500}\u{2500} Preview \u{b7} Enter to expand \u{2500}\u{2500}\u{2500}\u{2500}\u{2500} -/= resize \u{2500}\u{2500}\u{2500}"
    );
    assert_eq!(divider_text(true, Some("a.rs"), 10), "\u{2500}\u{2500}\u{2500} a.rs \u{b7} Enter to restore  \u{2500}\u{2500}\u{2500}");
    let theme = Theme::default_theme();
    let f = footer(Some("Copied"), &theme);
    assert_eq!(f.content, " Copied");
    assert_eq!(f.style, theme.footer_notification);
    let h = footer(None, &theme);
    assert!(h.content.starts_with("  u/i navigate"));
    assert_eq!(h.style, theme.footer);
    let n: Option<(String, u32)> = Some(("hi".into(), 3));
    assert_eq!(active_notification(&n), Some("hi"));
    assert_eq!(active_notification::<u32>(&None), None);
}

#[test]
fn paths_and_work_queue() {
    let files = vec![file("a.rs", 0, 0), file("b/c.rs", 0, 0)];
    let paths = build_file_paths(&files, "/wa", "/wb/");
    assert_eq!(paths[1], ("/wa/b/c.rs".to_string(), "/wb/b/c.rs".to_string()));
    assert_eq!(position_of_path(&files, "b/c.rs"), Some(1));
    assert_eq!(position_of_path(&files, "b//c.rs"), Some(1));
    assert_eq!(position_of_path(&files, "x.rs"), None);
    let mut q = work_items(&paths, "difft", 80, Color::Green, Color::Red, Color::Magenta);
    assert_eq!(q.len(), 2);
    assert_eq!(q[1].index, 1);
    assert_eq!(q[1].path_b, "/wb/b/c.rs");
    prioritize(&mut q, 1);
    assert_eq!(q[0].index, 1);
    assert_eq!(q[1].index, 0);
    prioritize(&mut q, 7);
    assert_eq!(q[0].index, 1);
    assert_eq!(copied_notice("Copied".into(), false), "Copied");
    assert_eq!(
        copied_notice("Copied".into(), true),
        "Copied  \u{26a0} grit-managed worktree \u{2014} edits will be lost on exit"
    );
    assert_eq!(diff_command("difft --color always"), ("difft".to_string(), vec!["--color".to_string(), "always".to_string()]));
    assert_eq!(diff_command("  "), ("  ".to_string(), vec![]));
}

#[test]
fn reselect_follows_the_file_after_refresh() {
    let mut c = checklist(3);
    assert_eq!(reselect(&mut c, Some("f2.rs")), Some(2));
    assert_eq!(c.selected, 2);
    c.select_index(1);
    assert_eq!(reselect(&mut c, Some("gone.rs")), None);
    assert_eq!(c.selected, 1);
    assert_eq!(reselect(&mut c, None), None);
    assert_eq!(c.selected, 1);
}
