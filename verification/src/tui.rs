//! The rules of the terminal interface: what keys and mouse actions do, how the
//! split between file list and preview moves, and what the title bar, file rows,
//! divider, footer and scroll indicators show.
use crate::chars;
use crate::chars::{decimal_chars, push_chars, push_str, string_of};
use crate::checklist;
use crate::checklist::Checklist;
use crate::git::FileStatus;
use crate::session;
use crate::session::{FileEntry, ReviewState};
use crate::style;
use crate::style::{Color, Line, Modifier, Span, Style, Text};
use crate::theme::Theme;
use crate::paths;
use crate::paths::{join_path, same_path};
use std::collections::VecDeque;
use vstd::prelude::*;

verus! {

/// What the event loop does after an input.
#[derive(Clone, Copy, Debug, PartialEq, Eq, Structural)]
pub enum ChecklistControl {
    Continue,
    Save,
    Refresh,
    CycleTheme,
    ToggleFullscreen,
    CopyPathNew,
    CopyPathOld,
    Quit,
    AdjustSplit(i32),
    ScrollPreview(i32),
    UpdateDrag(u16),
    Resize,
}

/// A key.
#[derive(Clone, Copy, Debug, PartialEq, Eq, Structural)]
pub enum KeyCode {
    Char(char),
    Esc,
    Up,
    Down,
    Enter,
    Other,
}

/// A key press, with whether Control was held.
#[derive(Clone, Copy, Debug, PartialEq, Eq, Structural)]
pub struct KeyEvent {
    pub code: KeyCode,
    pub ctrl: bool,
}

/// What a key does to the checklist.
#[derive(Clone, Copy, Debug, PartialEq, Eq, Structural)]
pub enum KeyEffect {
    Nothing,
    SelectNext,
    SelectPrev,
    Toggle,
}

/// The control a key gives: `q`, Esc and Ctrl-C quit; `u`/Down and `i`/Up move
/// the selection; space marks the file (and saves); `r` refreshes; `t` cycles
/// the theme; Enter toggles full screen; `y`/`Y` copy the new/old path; `=`/`-`
/// move the split; `j`/`k` scroll the preview. Any other key (`R`, `h`, `l`
/// among them) does nothing.
pub open spec fn spec_key_control(key: KeyEvent) -> ChecklistControl {
    match key.code {
        KeyCode::Esc => ChecklistControl::Quit,
        KeyCode::Down | KeyCode::Up => ChecklistControl::Continue,
        KeyCode::Enter => ChecklistControl::ToggleFullscreen,
        KeyCode::Other => ChecklistControl::Continue,
        KeyCode::Char(c) => {
            if c == 'q' {
                ChecklistControl::Quit
            } else if c == 'c' && key.ctrl {
                ChecklistControl::Quit
            } else if c == ' ' {
                ChecklistControl::Save
            } else if c == 'r' {
                ChecklistControl::Refresh
            } else if c == 't' {
                ChecklistControl::CycleTheme
            } else if c == 'y' {
                ChecklistControl::CopyPathNew
            } else if c == 'Y' {
                ChecklistControl::CopyPathOld
            } else if c == '=' {
                ChecklistControl::AdjustSplit(-1i32)
            } else if c == '-' {
                ChecklistControl::AdjustSplit(1)
            } else if c == 'j' {
                ChecklistControl::ScrollPreview(1)
            } else if c == 'k' {
                ChecklistControl::ScrollPreview(-1i32)
            } else {
                ChecklistControl::Continue
            }
        },
    }
}

pub open spec fn spec_key_effect(key: KeyEvent) -> KeyEffect {
    match key.code {
        KeyCode::Down => KeyEffect::SelectNext,
        KeyCode::Up => KeyEffect::SelectPrev,
        KeyCode::Char(c) => {
            if c == 'u' {
                KeyEffect::SelectNext
            } else if c == 'i' {
                KeyEffect::SelectPrev
            } else if c == ' ' {
                KeyEffect::Toggle
            } else {
                KeyEffect::Nothing
            }
        },
        _ => KeyEffect::Nothing,
    }
}

/// Handles a key press in the checklist.
pub fn handle_checklist_key(key: KeyEvent, checklist: &mut Checklist) -> (r: ChecklistControl)
    requires
        spec_key_effect(key) == KeyEffect::SelectNext && old(checklist).len() > 0 ==> old(
            checklist,
        ).selected < usize::MAX,
    ensures
        r == spec_key_control(key),
        spec_key_effect(key) == KeyEffect::Nothing ==> *final(checklist) == *old(checklist),
        spec_key_effect(key) == KeyEffect::SelectNext ==> final(checklist).session == old(
            checklist,
        ).session && final(checklist).selected == checklist::next_selection(
            old(checklist).selected as int,
            old(checklist).len() as int,
        ),
        spec_key_effect(key) == KeyEffect::SelectPrev ==> final(checklist).session == old(
            checklist,
        ).session && final(checklist).selected == checklist::prev_selection(
            old(checklist).selected as int,
        ),
        spec_key_effect(key) == KeyEffect::Toggle ==> checklist::after_toggle(
            *old(checklist),
            *final(checklist),
        ),
{
    match key.code {
        KeyCode::Esc => ChecklistControl::Quit,
        KeyCode::Down => {
            checklist.select_next();
            ChecklistControl::Continue
        },
        KeyCode::Up => {
            checklist.select_prev();
            ChecklistControl::Continue
        },
        KeyCode::Enter => ChecklistControl::ToggleFullscreen,
        KeyCode::Other => ChecklistControl::Continue,
        KeyCode::Char(c) => {
            if c == 'q' {
                ChecklistControl::Quit
            } else if c == 'c' && key.ctrl {
                ChecklistControl::Quit
            } else if c == 'u' {
                checklist.select_next();
                ChecklistControl::Continue
            } else if c == 'i' {
                checklist.select_prev();
                ChecklistControl::Continue
            } else if c == ' ' {
                checklist.toggle_reviewed();
                ChecklistControl::Save
            } else if c == 'r' {
                ChecklistControl::Refresh
            } else if c == 't' {
                ChecklistControl::CycleTheme
            } else if c == 'y' {
                ChecklistControl::CopyPathNew
            } else if c == 'Y' {
                ChecklistControl::CopyPathOld
            } else if c == '=' {
                ChecklistControl::AdjustSplit(-1i32)
            } else if c == '-' {
                ChecklistControl::AdjustSplit(1)
            } else if c == 'j' {
                ChecklistControl::ScrollPreview(1)
            } else if c == 'k' {
                ChecklistControl::ScrollPreview(-1i32)
            } else {
                ChecklistControl::Continue
            }
        },
    }
}

/// A mouse button.
#[derive(Clone, Copy, Debug, PartialEq, Eq, Structural)]
pub enum MouseButton {
    Left,
    Right,
    Middle,
}

/// What the mouse did.
#[derive(Clone, Copy, Debug, PartialEq, Eq, Structural)]
pub enum MouseEventKind {
    Down(MouseButton),
    Up(MouseButton),
    Drag(MouseButton),
    Moved,
    ScrollDown,
    ScrollUp,
    Other,
}

/// A mouse event at a terminal cell.
#[derive(Clone, Copy, Debug, PartialEq, Eq, Structural)]
pub struct MouseEvent {
    pub kind: MouseEventKind,
    pub column: u16,
    pub row: u16,
}

/// The control a mouse event gives. Row 0 is the title bar, rows `1..=split_row`
/// the file list, row `1 + split_row` the divider, and the preview below it. A
/// left click on the preview copies the old path (left half) or the new one.
pub open spec fn spec_mouse_control(
    mouse: MouseEvent,
    split_row: u16,
    dragging: bool,
    fullscreen: bool,
    width: u16,
) -> ChecklistControl {
    let divider = split_row + 1;
    match mouse.kind {
        MouseEventKind::Down(MouseButton::Left) => {
            if mouse.row == divider && !fullscreen {
                ChecklistControl::Continue
            } else if mouse.row > 0 && mouse.row < divider {
                ChecklistControl::Continue
            } else if mouse.row > divider {
                if mouse.column < width / 2 {
                    ChecklistControl::CopyPathOld
                } else {
                    ChecklistControl::CopyPathNew
                }
            } else {
                ChecklistControl::Continue
            }
        },
        MouseEventKind::Drag(MouseButton::Left) => {
            if dragging {
                ChecklistControl::UpdateDrag(mouse.row)
            } else {
                ChecklistControl::Continue
            }
        },
        MouseEventKind::ScrollDown => {
            if mouse.row > divider {
                ChecklistControl::ScrollPreview(3)
            } else {
                ChecklistControl::Continue
            }
        },
        MouseEventKind::ScrollUp => {
            if mouse.row > divider {
                ChecklistControl::ScrollPreview(-3i32)
            } else {
                ChecklistControl::Continue
            }
        },
        _ => ChecklistControl::Continue,
    }
}

/// Whether the divider is being dragged after a mouse event: pressing on the
/// divider (outside full screen) starts a drag, releasing the left button ends it.
pub open spec fn spec_dragging_after(
    mouse: MouseEvent,
    split_row: u16,
    dragging: bool,
    fullscreen: bool,
) -> bool {
    match mouse.kind {
        MouseEventKind::Down(MouseButton::Left) => {
            if mouse.row == split_row + 1 && !fullscreen {
                true
            } else {
                dragging
            }
        },
        MouseEventKind::Up(MouseButton::Left) => false,
        _ => dragging,
    }
}

/// The file a left click selects: the one on the clicked list row.
pub open spec fn spec_clicked_file(mouse: MouseEvent, split_row: u16, fullscreen: bool) -> Option<int> {
    match mouse.kind {
        MouseEventKind::Down(MouseButton::Left) => {
            if mouse.row == split_row + 1 && !fullscreen {
                None
            } else if mouse.row > 0 && mouse.row < split_row + 1 {
                Some(mouse.row - 1)
            } else {
                None
            }
        },
        _ => None,
    }
}

/// Handles a mouse event in the checklist.
pub fn handle_mouse(
    mouse: MouseEvent,
    checklist: &mut Checklist,
    split_row: u16,
    dragging: &mut bool,
    fullscreen: bool,
    width: u16,
) -> (r: ChecklistControl)
    requires
        split_row < u16::MAX,
    ensures
        r == spec_mouse_control(mouse, split_row, *old(dragging), fullscreen, width),
        *final(dragging) == spec_dragging_after(mouse, split_row, *old(dragging), fullscreen),
        final(checklist).session == old(checklist).session,
        final(checklist).selected == match spec_clicked_file(mouse, split_row, fullscreen) {
            Some(i) => checklist::index_selection(
                old(checklist).selected as int,
                i,
                old(checklist).len() as int,
            ),
            None => old(checklist).selected as int,
        },
{
    let divider_row = 1 + split_row;
    match mouse.kind {
        MouseEventKind::Down(MouseButton::Left) => {
            if mouse.row == divider_row && !fullscreen {
                *dragging = true;
            } else if mouse.row > 0 && mouse.row < divider_row {
                let list_row = (mouse.row - 1) as usize;
                checklist.select_index(list_row);
            } else if mouse.row > divider_row {
                if mouse.column < width / 2 {
                    return ChecklistControl::CopyPathOld;
                } else {
                    return ChecklistControl::CopyPathNew;
                }
            }
            ChecklistControl::Continue
        },
        MouseEventKind::Drag(MouseButton::Left) => {
            if *dragging {
                ChecklistControl::UpdateDrag(mouse.row)
            } else {
                ChecklistControl::Continue
            }
        },
        MouseEventKind::Up(MouseButton::Left) => {
            *dragging = false;
            ChecklistControl::Continue
        },
        MouseEventKind::ScrollDown => {
            if mouse.row > divider_row {
                ChecklistControl::ScrollPreview(3)
            } else {
                ChecklistControl::Continue
            }
        },
        MouseEventKind::ScrollUp => {
            if mouse.row > divider_row {
                ChecklistControl::ScrollPreview(-3)
            } else {
                ChecklistControl::Continue
            }
        },
        _ => ChecklistControl::Continue,
    }
}

/// The rows left for the file list, divider and preview: the terminal height
/// without the title bar, the divider and the footer.
pub fn available_height(terminal_height: u16) -> (r: u16)
    ensures
        r == if terminal_height >= 3 {
            terminal_height - 3
        } else {
            0
        },
{
    terminal_height.saturating_sub(3)
}

/// The width diff output is laid out for: the terminal width without the
/// scroll-indicator column.
pub fn preview_width(terminal_width: u16) -> (r: u16)
    ensures
        r == if terminal_width >= 1 {
            terminal_width - 1
        } else {
            0
        },
{
    terminal_width.saturating_sub(1)
}

/// The first split row: `preview_split` percent of the available rows, at
/// least 2.
pub fn initial_split(available: u16, preview_split: u8) -> (r: u16)
    requires
        available * preview_split <= u16::MAX,
    ensures
        r == if available * preview_split / 100 >= 2 {
            available * preview_split / 100
        } else {
            2
        },
{
    let rows = available * (preview_split as u16) / 100;
    if rows >= 2 {
        rows
    } else {
        2
    }
}

/// `v` kept between `lo` and `hi`.
pub open spec fn clamp(v: int, lo: int, hi: int) -> int {
    if v < lo {
        lo
    } else if v > hi {
        hi
    } else {
        v
    }
}

/// The largest split row: two rows are kept for the preview.
pub open spec fn max_split(available: u16) -> int {
    if available >= 2 {
        available - 2
    } else {
        0
    }
}

/// The split after moving it by `delta` rows (`=` and `-`): kept between 2 and
/// the largest split. With fewer than 4 rows available there is no such range.
pub fn adjust_split(split_row: u16, delta: i32, available: u16) -> (r: u16)
    requires
        max_split(available) >= 2,
        i32::MIN <= split_row + delta <= i32::MAX,
    ensures
        r == clamp(split_row + delta, 2, max_split(available)),
{
    let max = available.saturating_sub(2);
    let v = split_row as i32 + delta;
    if v < 2 {
        2
    } else if v > max as i32 {
        max
    } else {
        v as u16
    }
}

/// The split when the divider is dragged to terminal row `row` (the title bar is
/// row 0), kept between 2 and the largest split.
pub fn drag_split(row: u16, available: u16) -> (r: u16)
    requires
        max_split(available) >= 2,
    ensures
        r == clamp(if row >= 1 {
            row - 1
        } else {
            0
        }, 2, max_split(available)),
{
    let new_split = row.saturating_sub(1);
    let max = available.saturating_sub(2);
    if new_split < 2 {
        2
    } else if new_split > max {
        max
    } else {
        new_split
    }
}

/// The split after the terminal is resized: scaled by the change in available
/// rows and kept between 2 and the new largest split; unchanged when no rows
/// were available before.
pub fn resize_split(split_row: u16, old_available: u16, new_available: u16) -> (r: u16)
    requires
        old_available > 0 ==> max_split(new_available) >= 2,
    ensures
        old_available == 0 ==> r == split_row,
        old_available > 0 ==> r == clamp(
            split_row * new_available / old_available as int,
            2,
            max_split(new_available),
        ),
{
    if old_available > 0 {
        assert((split_row as int) * (new_available as int) <= 65535 * 65535) by (nonlinear_arith)
            requires
                0 <= split_row <= 65535,
                0 <= new_available <= 65535,
        ;
        let scaled = (split_row as u32 * new_available as u32) / old_available as u32;
        let max = new_available.saturating_sub(2) as u32;
        if scaled < 2 {
            2
        } else if scaled > max {
            max as u16
        } else {
            scaled as u16
        }
    } else {
        split_row
    }
}

/// Entering full screen saves the split and gives the preview every row;
/// leaving it restores the saved split.
pub open spec fn spec_toggle_fullscreen(split_row: u16, saved: Option<u16>) -> (u16, Option<u16>) {
    match saved {
        None => (0u16, Some(split_row)),
        Some(restored) => (restored, None::<u16>),
    }
}

pub fn toggle_fullscreen(split_row: u16, saved: Option<u16>) -> (r: (u16, Option<u16>))
    ensures
        r == spec_toggle_fullscreen(split_row, saved),
{
    match saved {
        None => (0, Some(split_row)),
        Some(restored) => (restored, None),
    }
}

/// The furthest the preview scrolls: none when the text fits; else until the
/// last line is a quarter of the pane up from the bottom.
pub open spec fn spec_scroll_max(total_lines: int, preview_height: int) -> int {
    if total_lines <= preview_height {
        0
    } else {
        total_lines - preview_height + preview_height / 4
    }
}

pub open spec fn preview_rows(available: u16, split_row: u16) -> int {
    if available >= split_row {
        available - split_row
    } else {
        0
    }
}

/// The preview scroll after moving it by `delta` lines (`j`/`k`, the wheel):
/// kept between 0 and the furthest scroll.
pub fn scroll_preview(
    preview_scroll: usize,
    delta: i32,
    total_lines: usize,
    available: u16,
    split_row: u16,
) -> (r: usize)
    requires
        preview_scroll <= i32::MAX,
        preview_scroll + delta >= i32::MIN,
        preview_scroll + delta <= i32::MAX,
        spec_scroll_max(total_lines as int, preview_rows(available, split_row)) <= i32::MAX,
    ensures
        r == clamp(
            preview_scroll + delta,
            0,
            spec_scroll_max(total_lines as int, preview_rows(available, split_row)),
        ),
{
    let preview_height = available.saturating_sub(split_row) as usize;
    let max = if total_lines <= preview_height {
        0
    } else {
        total_lines - preview_height + preview_height / 4
    };
    let v = preview_scroll as i32 + delta;
    if v < 0 {
        0
    } else if v > max as i32 {
        max
    } else {
        v as usize
    }
}

/// The next frame of the loading spinner, cycling through ten.
pub fn spinner_next(frame: u8) -> (r: u8)
    requires
        frame < u8::MAX,
    ensures
        r == (frame + 1) % 10,
{
    (frame + 1) % 10
}

/// Whether there is more above and below a window of `visible` rows that starts
/// at `offset` into `total` rows.
pub fn scroll_marks(offset: usize, visible: usize, total: usize) -> (r: (bool, bool))
    requires
        offset + visible <= usize::MAX,
    ensures
        r == (offset > 0, offset + visible < total),
{
    (offset > 0, offset + visible < total)
}

/// The line to copy with a path: the preview's top line, counted from 1.
pub fn copy_line(preview_scroll: usize) -> (r: u32)
    requires
        preview_scroll < usize::MAX,
    ensures
        r == (preview_scroll + 1) % 0x1_0000_0000,
{
    ((preview_scroll as u64 + 1) % 0x1_0000_0000) as u32
}

/// `n` copies of `c`.
pub open spec fn repeat(c: char, n: nat) -> Seq<char> {
    Seq::new(n, |i: int| c)
}

fn push_repeat(v: &mut Vec<char>, c: char, n: usize)
    ensures
        final(v)@ == old(v)@ + repeat(c, n as nat),
{
    let ghost start = v@;
    let mut i: usize = 0;
    while i < n
        invariant
            i <= n,
            v@ =~= start + repeat(c, i as nat),
        decreases n - i,
    {
        v.push(c);
        i = i + 1;
        assert(v@ =~= start + repeat(c, i as nat));
    }
}

/// The number of terminal columns `s` takes, as ratatui measures it when drawing
/// (the Unicode display width of its characters).
pub uninterp spec fn display_width(s: Seq<char>) -> nat;

/// ratatui's `Span::width` on a span of `s`: its Unicode display width
/// (unicode-width's `UnicodeWidthStr::width`). The result is named, not stated:
/// the width tables take pages.
#[verifier::external_body]
fn text_width(s: &str) -> (r: usize)
    ensures
        r == display_width(s@),
{
    ratatui::text::Span::raw(s).width()
}

pub open spec fn right_text(refresh_pending: bool, version: Seq<char>) -> Seq<char> {
    if refresh_pending {
        "  Changes detected \u{2014} press r to refresh  "@
    } else {
        "grit v"@ + version
    }
}

/// The title bar: `  <ref_a>  →  <ref_b>` on the left and, on the right, the
/// version or, when the diff changed, a prompt to refresh on a red background.
/// The left part is padded with spaces so that the right part ends at column
/// `width`, counting display columns (no padding when the two do not fit).
pub open spec fn spec_title_bar(
    ref_a: Seq<char>,
    ref_b: Seq<char>,
    width: u16,
    refresh_pending: bool,
    version: Seq<char>,
) -> Seq<(Seq<char>, Style)> {
    let left = "  "@ + ref_a + "  \u{2192}  "@ + ref_b;
    let right = right_text(refresh_pending, version);
    let padding = if width >= display_width(left) + display_width(right) {
        width - (display_width(left) + display_width(right))
    } else {
        0
    };
    let padded = left + repeat(' ', padding as nat);
    if refresh_pending {
        seq![
            (padded, style::plain()),
            (
                right,
                style::plain().spec_bg(Color::Rgb(160, 40, 40)).spec_fg(
                    Color::White,
                ).spec_add_modifier(Modifier::Bold),
            ),
        ]
    } else {
        seq![(padded + right, style::plain())]
    }
}

pub fn title_bar_line(ref_a: &str, ref_b: &str, width: u16, refresh_pending: bool, version: &str) -> (r: Line)
    ensures
        r@ == spec_title_bar(ref_a@, ref_b@, width, refresh_pending, version@),
{
    let mut lv: Vec<char> = Vec::new();
    push_str(&mut lv, "  ");
    push_str(&mut lv, ref_a);
    push_str(&mut lv, "  \u{2192}  ");
    push_str(&mut lv, ref_b);
    let mut rv: Vec<char> = Vec::new();
    if refresh_pending {
        push_str(&mut rv, "  Changes detected \u{2014} press r to refresh  ");
    } else {
        push_str(&mut rv, "grit v");
        push_str(&mut rv, version);
    }
    let left = string_of(&lv);
    let right = string_of(&rv);
    assert(lv@ =~= "  "@ + ref_a@ + "  \u{2192}  "@ + ref_b@);
    assert(right@ =~= right_text(refresh_pending, version@));
    let ll = text_width(left.as_str());
    let rl = text_width(right.as_str());
    let padding = (width as usize).saturating_sub(ll).saturating_sub(rl);
    let mut padded = lv;
    push_repeat(&mut padded, ' ', padding);
    if refresh_pending {
        let style = Style::new().bg(Color::Rgb(160, 40, 40)).fg(Color::White).add_modifier(
            Modifier::Bold,
        );
        let mut spans: Vec<Span> = Vec::new();
        spans.push(Span::raw(string_of(&padded)));
        spans.push(Span::styled(right, style));
        let r = Line { spans };
        assert(r@ =~= spec_title_bar(ref_a@, ref_b@, width, refresh_pending, version@));
        r
    } else {
        push_chars(&mut padded, &rv);
        let mut spans: Vec<Span> = Vec::new();
        spans.push(Span::raw(string_of(&padded)));
        let r = Line { spans };
        assert(r@ =~= spec_title_bar(ref_a@, ref_b@, width, refresh_pending, version@));
        r
    }
}

/// The scroll-indicator column: a blank row per row, with `↑` on the first row
/// when there is more above and `↓` on the last when there is more below, or a
/// single `↕` when both show in one row.
pub open spec fn spec_scroll_indicator(above: bool, below: bool, height: u16) -> Seq<Seq<char>> {
    let blank = Seq::new(height as nat, |i: int| " "@);
    if height == 0 {
        seq![]
    } else if above && below && height == 1 {
        seq!["\u{2195}"@]
    } else {
        let with_up = if above {
            blank.update(0, "\u{2191}"@)
        } else {
            blank
        };
        if below {
            with_up.update(height - 1, "\u{2193}"@)
        } else {
            with_up
        }
    }
}

/// The scroll indicator as text, one plain span per row.
pub fn scroll_indicator(above: bool, below: bool, height: u16) -> (r: Text)
    ensures
        r@ == spec_scroll_indicator(above, below, height).map_values(
            |l: Seq<char>| seq![(l, style::plain())],
        ),
{
    let mut lines: Vec<Line> = Vec::new();
    let ghost target = spec_scroll_indicator(above, below, height).map_values(
        |l: Seq<char>| seq![(l, style::plain())],
    );
    let mut i: u16 = 0;
    while i < height
        invariant
            i <= height,
            target == spec_scroll_indicator(above, below, height).map_values(
                |l: Seq<char>| seq![(l, style::plain())],
            ),
            lines@.len() == i,
            forall|k: int| 0 <= k < i ==> #[trigger] lines@[k]@ == target[k],
        decreases height - i,
    {
        let text = if above && below && height == 1 {
            "\u{2195}".to_owned()
        } else if above && i == 0 {
            "\u{2191}".to_owned()
        } else if below && i == height - 1 {
            "\u{2193}".to_owned()
        } else {
            " ".to_owned()
        };
        let mut spans: Vec<Span> = Vec::new();
        spans.push(Span::raw(text));
        let l = Line { spans };
        assert(l@ =~= target[i as int]);
        lines.push(l);
        i = i + 1;
    }
    let r = Text { lines };
    assert(r@ =~= target);
    r
}

/// The style of an addition or deletion count: dim for none, plain up to 99,
/// bold up to 999, and bold on the heavy background beyond.
pub open spec fn spec_count_style(count: u32, fg: Color, heavy_bg: Color) -> Style {
    let p = style::plain().spec_fg(fg);
    if count == 0 {
        p.spec_add_modifier(Modifier::Dim)
    } else if count <= 99 {
        p
    } else if count <= 999 {
        p.spec_add_modifier(Modifier::Bold)
    } else {
        p.spec_bg(heavy_bg).spec_add_modifier(Modifier::Bold)
    }
}

pub fn count_style(count: u32, fg: Color, heavy_bg: Color) -> (r: Style)
    ensures
        r == spec_count_style(count, fg, heavy_bg),
{
    let p = Style::new().fg(fg);
    if count == 0 {
        p.add_modifier(Modifier::Dim)
    } else if count <= 99 {
        p
    } else if count <= 999 {
        p.add_modifier(Modifier::Bold)
    } else {
        p.bg(heavy_bg).add_modifier(Modifier::Bold)
    }
}

/// The checkbox of a review state: `[ ]`, `[x]`, or `[~]` for reviewed but dirty.
pub open spec fn spec_checkbox(state: ReviewState) -> Seq<char> {
    match state {
        ReviewState::Unreviewed => "[ ]"@,
        ReviewState::ReviewedStable => "[x]"@,
        ReviewState::ReviewedDirty => "[~]"@,
    }
}

pub fn checkbox(state: ReviewState) -> (r: &'static str)
    ensures
        r@ == spec_checkbox(state),
{
    match state {
        ReviewState::Unreviewed => "[ ]",
        ReviewState::ReviewedStable => "[x]",
        ReviewState::ReviewedDirty => "[~]",
    }
}

/// The status letter of a file: `A`, `D`, `M`, or `R` for a move.
pub open spec fn spec_status_char(status: FileStatus) -> Seq<char> {
    match status {
        FileStatus::Added => "A"@,
        FileStatus::Deleted => "D"@,
        FileStatus::Modified => "M"@,
        FileStatus::Moved => "R"@,
    }
}

pub open spec fn spec_status_style(status: FileStatus, theme: Theme) -> Style {
    match status {
        FileStatus::Added => theme.status_added,
        FileStatus::Deleted => theme.status_deleted,
        FileStatus::Modified => theme.status_modified,
        FileStatus::Moved => theme.status_moved,
    }
}

/// `s` right-aligned in `width` columns.
pub open spec fn pad_left(s: Seq<char>, width: int) -> Seq<char> {
    if s.len() < width {
        repeat(' ', (width - s.len()) as nat) + s
    } else {
        s
    }
}

fn push_padded(v: &mut Vec<char>, s: &[char], width: usize)
    ensures
        final(v)@ == old(v)@ + pad_left(s@, width as int),
{
    if s.len() < width {
        push_repeat(v, ' ', width - s.len());
    }
    push_chars(v, s);
}

fn signed_count(sign: char, n: u32) -> (r: Vec<char>)
    ensures
        r@ == seq![sign] + chars::decimal(n as nat),
{
    let mut v: Vec<char> = Vec::new();
    v.push(sign);
    let d = decimal_chars(n as u64);
    push_chars(&mut v, &d);
    v
}

/// A row of the file list: checkbox, status letter, the right-aligned counts
/// of added and deleted lines, the path, and for a moved file where it was.
pub open spec fn spec_file_row(f: session::FileEntryModel, count_width: int, theme: Theme) -> Seq<
    (Seq<char>, Style),
> {
    let p = style::plain();
    let base = seq![
        (" "@ + spec_checkbox(f.state) + " "@, p),
        (spec_status_char(f.status), spec_status_style(f.status, theme)),
        ("  "@, p),
        (
            pad_left(seq!['+'] + chars::decimal(f.additions as nat), count_width),
            spec_count_style(f.additions, theme.count_positive, theme.count_positive_bg),
        ),
        ("  "@, p),
        (
            pad_left(seq!['-'] + chars::decimal(f.deletions as nat), count_width),
            spec_count_style(f.deletions, theme.count_negative, theme.count_negative_bg),
        ),
        ("  "@ + f.path, p),
    ];
    match f.old_path {
        Some(old) => if f.status == FileStatus::Moved {
            base.push(("  (was: "@ + old + ")"@, p.spec_add_modifier(Modifier::Dim)))
        } else {
            base
        },
        None => base,
    }
}

fn text_span(v: &Vec<char>, style: Style) -> (r: Span)
    ensures
        r@ == (v@, style),
{
    Span::styled(string_of(v), style)
}

/// Renders a row of the file list.
pub fn file_row(f: &FileEntry, count_width: usize, theme: &Theme) -> (r: Line)
    ensures
        r@ == spec_file_row(f@, count_width as int, *theme),
{
    let p = Style::new();
    let mut spans: Vec<Span> = Vec::new();
    let mut v0: Vec<char> = Vec::new();
    v0.push(' ');
    push_str(&mut v0, checkbox(f.state));
    v0.push(' ');
    spans.push(text_span(&v0, p));
    let (letter, st) = match f.status {
        FileStatus::Added => ("A", theme.status_added),
        FileStatus::Deleted => ("D", theme.status_deleted),
        FileStatus::Modified => ("M", theme.status_modified),
        FileStatus::Moved => ("R", theme.status_moved),
    };
    spans.push(Span::styled(letter.to_owned(), st));
    spans.push(Span::raw("  ".to_owned()));
    let adds = signed_count('+', f.additions);
    let mut v1: Vec<char> = Vec::new();
    push_padded(&mut v1, &adds, count_width);
    spans.push(text_span(&v1, count_style(f.additions, theme.count_positive, theme.count_positive_bg)));
    spans.push(Span::raw("  ".to_owned()));
    let dels = signed_count('-', f.deletions);
    let mut v2: Vec<char> = Vec::new();
    push_padded(&mut v2, &dels, count_width);
    spans.push(text_span(&v2, count_style(f.deletions, theme.count_negative, theme.count_negative_bg)));
    let mut v3: Vec<char> = Vec::new();
    push_str(&mut v3, "  ");
    push_str(&mut v3, f.path.as_str());
    spans.push(text_span(&v3, p));
    proof {
        reveal_strlit(" ");
        assert(v0@ =~= " "@ + spec_checkbox(f.state) + " "@);
        assert(v1@ =~= pad_left(seq!['+'] + chars::decimal(f.additions as nat), count_width as int));
        assert(v3@ =~= "  "@ + f.path@);
    }
    if f.status == FileStatus::Moved {
        match &f.old_path {
            Some(old) => {
                let mut v4: Vec<char> = Vec::new();
                push_str(&mut v4, "  (was: ");
                push_str(&mut v4, old.as_str());
                push_str(&mut v4, ")");
                spans.push(text_span(&v4, p.add_modifier(Modifier::Dim)));
            },
            None => {},
        }
    }
    let r = Line { spans };
    assert(r@ =~= spec_file_row(f@, count_width as int, *theme));
    r
}

/// The largest count of added lines among `files` (0 for none).
pub open spec fn max_additions(files: Seq<session::FileEntryModel>) -> nat
    decreases files.len(),
{
    if files.len() == 0 {
        0
    } else {
        let m = max_additions(files.drop_last());
        if files.last().additions > m {
            files.last().additions as nat
        } else {
            m
        }
    }
}

/// The largest count of deleted lines among `files` (0 for none).
pub open spec fn max_deletions(files: Seq<session::FileEntryModel>) -> nat
    decreases files.len(),
{
    if files.len() == 0 {
        0
    } else {
        let m = max_deletions(files.drop_last());
        if files.last().deletions > m {
            files.last().deletions as nat
        } else {
            m
        }
    }
}

/// The width of the count columns: that of the widest of `+<largest additions>`
/// and `-<largest deletions>`.
pub open spec fn spec_count_width(files: Seq<session::FileEntryModel>) -> int {
    let a = 1 + chars::decimal(max_additions(files)).len();
    let d = 1 + chars::decimal(max_deletions(files)).len();
    if a >= d {
        a as int
    } else {
        d as int
    }
}

pub fn count_width(files: &Vec<FileEntry>) -> (r: usize)
    ensures
        r == spec_count_width(files@.map_values(|f: FileEntry| f@)),
{
    let ghost fv = files@.map_values(|f: FileEntry| f@);
    let mut max_add: u32 = 0;
    let mut max_del: u32 = 0;
    let mut i: usize = 0;
    assert(fv.take(0) =~= Seq::<session::FileEntryModel>::empty());
    while i < files.len()
        invariant
            i <= files@.len(),
            fv == files@.map_values(|f: FileEntry| f@),
            max_add == max_additions(fv.take(i as int)),
            max_del == max_deletions(fv.take(i as int)),
        decreases files@.len() - i,
    {
        assert(fv.take(i + 1).drop_last() =~= fv.take(i as int));
        assert(fv.take(i + 1).last() == files@[i as int]@);
        if files[i].additions > max_add {
            max_add = files[i].additions;
        }
        if files[i].deletions > max_del {
            max_del = files[i].deletions;
        }
        i = i + 1;
    }
    assert(fv.take(files@.len() as int) =~= fv);
    proof {
        chars::lemma_decimal_len_u32(max_add);
        chars::lemma_decimal_len_u32(max_del);
    }
    let a = decimal_chars(max_add as u64).len() + 1;
    let d = decimal_chars(max_del as u64).len() + 1;
    if a >= d {
        a
    } else {
        d
    }
}

pub open spec fn divider_left(fullscreen: bool, path: Seq<char>) -> Seq<char> {
    if fullscreen {
        "\u{2500}\u{2500}\u{2500} "@ + path + " \u{b7} Enter to restore "@
    } else {
        "\u{2500}\u{2500}\u{2500} Preview \u{b7} Enter to expand "@
    }
}

pub open spec fn divider_right(fullscreen: bool) -> Seq<char> {
    if fullscreen {
        " \u{2500}\u{2500}\u{2500}"@
    } else {
        " -/= resize \u{2500}\u{2500}\u{2500}"@
    }
}

/// The divider between list and preview: a label (the selected path in full
/// screen), a rule of `─` filling `width` columns, and a hint.
pub open spec fn spec_divider(fullscreen: bool, path: Seq<char>, width: u16) -> Seq<char> {
    let left = divider_left(fullscreen, path);
    let right = divider_right(fullscreen);
    let fill = if width >= left.len() + right.len() {
        width - (left.len() + right.len())
    } else {
        0
    };
    left + repeat('\u{2500}', fill as nat) + right
}

/// Renders the divider; `path` is the selected file's path, if there is one.
pub fn divider_text(fullscreen: bool, path: Option<&str>, width: u16) -> (r: String)
    ensures
        r@ == spec_divider(
            fullscreen,
            match path {
                Some(p) => p@,
                None => seq![],
            },
            width,
        ),
{
    let ghost pv: Seq<char> = match path {
        Some(p) => p@,
        None => seq![],
    };
    let mut left: Vec<char> = Vec::new();
    let mut right: Vec<char> = Vec::new();
    if fullscreen {
        push_str(&mut left, "\u{2500}\u{2500}\u{2500} ");
        match path {
            Some(p) => push_str(&mut left, p),
            None => {},
        }
        push_str(&mut left, " \u{b7} Enter to restore ");
        push_str(&mut right, " \u{2500}\u{2500}\u{2500}");
    } else {
        push_str(&mut left, "\u{2500}\u{2500}\u{2500} Preview \u{b7} Enter to expand ");
        push_str(&mut right, " -/= resize \u{2500}\u{2500}\u{2500}");
    }
    assert(left@ =~= divider_left(fullscreen, pv));
    assert(right@ =~= divider_right(fullscreen));
    let fill = (width as usize).saturating_sub(left.len()).saturating_sub(right.len());
    let mut v = left;
    push_repeat(&mut v, '\u{2500}', fill);
    push_chars(&mut v, &right);
    string_of(&v)
}

/// The footer's help text.
pub open spec fn footer_help() -> Seq<char> {
    " u/i navigate   j/k scroll preview   space toggle reviewed   r refresh   y/Y copy path (new/old)"@
}

/// The footer: a notification when there is one (in the notification style),
/// else the key help; after one space.
pub fn footer(notification: Option<&str>, theme: &Theme) -> (r: Span)
    ensures
        r@ == (
            seq![' '] + match notification {
                Some(n) => n@,
                None => footer_help(),
            },
            match notification {
                Some(_) => theme.footer_notification,
                None => theme.footer,
            },
        ),
{
    let mut v: Vec<char> = Vec::new();
    v.push(' ');
    match notification {
        Some(n) => {
            push_str(&mut v, n);
            text_span(&v, theme.footer_notification)
        },
        None => {
            push_str(
                &mut v,
                " u/i navigate   j/k scroll preview   space toggle reviewed   r refresh   y/Y copy path (new/old)",
            );
            text_span(&v, theme.footer)
        },
    }
}

/// The text of a notification, if there is one.
pub fn active_notification<T>(notification: &Option<(String, T)>) -> (r: Option<&str>)
    ensures
        match notification {
            Some(n) => r matches Some(s) && s@ == n.0@,
            None => r is None,
        },
{
    match notification {
        Some(n) => Some(n.0.as_str()),
        None => None,
    }
}

/// The two sides' paths of each file: the file's path joined onto each worktree.
pub fn build_file_paths(files: &Vec<FileEntry>, worktree_a: &str, worktree_b: &str) -> (r: Vec<
    (String, String),
>)
    ensures
        r@.len() == files@.len(),
        forall|i: int|
            0 <= i < files@.len() ==> (#[trigger] r@[i]).0@ == paths::spec_join(
                worktree_a@,
                files@[i].path@,
            ) && r@[i].1@ == paths::spec_join(worktree_b@, files@[i].path@),
{
    let mut r: Vec<(String, String)> = Vec::new();
    let mut i: usize = 0;
    while i < files.len()
        invariant
            i <= files@.len(),
            r@.len() == i,
            forall|k: int|
                0 <= k < i ==> (#[trigger] r@[k]).0@ == paths::spec_join(
                    worktree_a@,
                    files@[k].path@,
                ) && r@[k].1@ == paths::spec_join(worktree_b@, files@[k].path@),
        decreases files@.len() - i,
    {
        let a = join_path(worktree_a, files[i].path.as_str());
        let b = join_path(worktree_b, files[i].path.as_str());
        r.push((a, b));
        i = i + 1;
    }
    r
}

/// Where the file at `path` is in `files`: after a refresh the selection
/// follows the file it was on.
pub fn position_of_path(files: &Vec<FileEntry>, path: &str) -> (r: Option<usize>)
    ensures
        match r {
            Some(i) => i < files@.len() && paths::path_eq(files@[i as int].path@, path@) && forall|
                j: int,
            | 0 <= j < i ==> !paths::path_eq(#[trigger] files@[j].path@, path@),
            None => forall|j: int|
                0 <= j < files@.len() ==> !paths::path_eq(#[trigger] files@[j].path@, path@),
        },
{
    let mut i: usize = 0;
    while i < files.len()
        invariant
            i <= files@.len(),
            forall|j: int| 0 <= j < i ==> !paths::path_eq(#[trigger] files@[j].path@, path@),
        decreases files@.len() - i,
    {
        if same_path(files[i].path.as_str(), path) {
            return Some(i);
        }
        i = i + 1;
    }
    None
}

/// Whether `i` is the first position in `files` whose path is `path`.
pub open spec fn first_with_path(files: Seq<session::FileEntryModel>, path: Seq<char>, i: int) -> bool {
    &&& 0 <= i < files.len()
    &&& paths::path_eq(files[i].path, path)
    &&& forall|j: int| 0 <= j < i ==> !paths::path_eq(#[trigger] files[j].path, path)
}

/// Whether no file in `files` has the path `path`.
pub open spec fn without_path(files: Seq<session::FileEntryModel>, path: Seq<char>) -> bool {
    forall|j: int| 0 <= j < files.len() ==> !paths::path_eq(#[trigger] files[j].path, path)
}

/// After a refresh, puts the selection back on the file that was selected
/// before (`path`), when that file is still listed, and returns its position;
/// otherwise leaves the selection as it is and returns `None`.
pub fn reselect(checklist: &mut Checklist, path: Option<&str>) -> (r: Option<usize>)
    ensures
        final(checklist).session == old(checklist).session,
        match r {
            Some(i) => path is Some && final(checklist).selected == i && first_with_path(
                old(checklist).files(),
                path->0@,
                i as int,
            ),
            None => final(checklist).selected == old(checklist).selected && (path is None
                || without_path(old(checklist).files(), path->0@)),
        },
{
    match path {
        Some(p) => {
            let ghost fs = checklist.files();
            let found = position_of_path(&checklist.session.files, p);
            match found {
                Some(i) => {
                    assert(fs[i as int] == checklist.session.files@[i as int]@);
                    assert forall|j: int| 0 <= j < i implies !paths::path_eq(
                        #[trigger] fs[j].path,
                        p@,
                    ) by {
                        assert(fs[j] == checklist.session.files@[j]@);
                    }
                    checklist.selected = i;
                    Some(i)
                },
                None => {
                    assert forall|j: int| 0 <= j < fs.len() implies !paths::path_eq(
                        #[trigger] fs[j].path,
                        p@,
                    ) by {
                        assert(fs[j] == checklist.session.files@[j]@);
                    }
                    None
                },
            }
        },
        None => None,
    }
}

/// The note added to a copy notification when the worktree is the tool's own.
pub fn copied_notice(message: String, managed: bool) -> (r: String)
    ensures
        managed ==> r@ == message@ + "  \u{26a0} grit-managed worktree \u{2014} edits will be lost on exit"@,
        !managed ==> r@ == message@,
{
    if managed {
        let mut v = chars::chars_of(message.as_str());
        push_str(&mut v, "  \u{26a0} grit-managed worktree \u{2014} edits will be lost on exit");
        string_of(&v)
    } else {
        message
    }
}

/// A diff to compute in the background: file `index`, its two sides, the diff
/// tool, the width to lay it out for and the theme's diff colours.
#[derive(Debug)]
pub struct WorkItem {
    pub index: usize,
    pub path_a: String,
    pub path_b: String,
    pub diff_tool: String,
    pub width: u16,
    pub diff_added: Color,
    pub diff_deleted: Color,
    pub diff_unmatched: Color,
}

/// The queue of diffs for `file_paths`, in file order.
pub fn work_items(
    file_paths: &Vec<(String, String)>,
    diff_tool: &str,
    width: u16,
    diff_added: Color,
    diff_deleted: Color,
    diff_unmatched: Color,
) -> (r: VecDeque<WorkItem>)
    ensures
        r@.len() == file_paths@.len(),
        forall|i: int|
            #![trigger r@[i]]
            0 <= i < r@.len() ==> {
                &&& r@[i].index == i
                &&& r@[i].path_a@ == file_paths@[i].0@
                &&& r@[i].path_b@ == file_paths@[i].1@
                &&& r@[i].diff_tool@ == diff_tool@
                &&& r@[i].width == width
                &&& r@[i].diff_added == diff_added
                &&& r@[i].diff_deleted == diff_deleted
                &&& r@[i].diff_unmatched == diff_unmatched
            },
{
    let mut q: VecDeque<WorkItem> = VecDeque::new();
    let mut i: usize = 0;
    while i < file_paths.len()
        invariant
            i <= file_paths@.len(),
            q@.len() == i,
            forall|k: int|
                #![trigger q@[k]]
                0 <= k < i ==> {
                    &&& q@[k].index == k
                    &&& q@[k].path_a@ == file_paths@[k].0@
                    &&& q@[k].path_b@ == file_paths@[k].1@
                    &&& q@[k].diff_tool@ == diff_tool@
                    &&& q@[k].width == width
                    &&& q@[k].diff_added == diff_added
                    &&& q@[k].diff_deleted == diff_deleted
                    &&& q@[k].diff_unmatched == diff_unmatched
                },
        decreases file_paths@.len() - i,
    {
        let item = WorkItem {
            index: i,
            path_a: file_paths[i].0.clone(),
            path_b: file_paths[i].1.clone(),
            diff_tool: diff_tool.to_owned(),
            width,
            diff_added,
            diff_deleted,
            diff_unmatched,
        };
        q.push_back(item);
        i = i + 1;
    }
    q
}

/// The position of the first queued diff of file `index`.
pub open spec fn queue_position(q: Seq<WorkItem>, index: usize, from: int) -> Option<int>
    decreases q.len() - from,
{
    if from < 0 || from >= q.len() {
        None
    } else if q[from].index == index {
        Some(from)
    } else {
        queue_position(q, index, from + 1)
    }
}

/// Moves the queued diff of file `index` to the front, so that the selected
/// file's diff is computed next; the rest keep their order.
pub fn prioritize(queue: &mut VecDeque<WorkItem>, index: usize)
    ensures
        match queue_position(old(queue)@, index, 0) {
            Some(p) => final(queue)@ == seq![old(queue)@[p]] + old(queue)@.remove(p),
            None => final(queue)@ == old(queue)@,
        },
{
    let ghost q0 = queue@;
    let mut i: usize = 0;
    let n = queue.len();
    while i < n
        invariant
            queue@ == q0,
            q0 == old(queue)@,
            n == q0.len(),
            i <= n,
            queue_position(q0, index, 0) == queue_position(q0, index, i as int),
        decreases n - i,
    {
        if queue[i].index == index {
            let item = queue.remove(i);
            match item {
                Some(it) => {
                    queue.push_front(it);
                },
                None => {},
            }
            return;
        }
        i = i + 1;
    }
}

/// How the diff tool is run: its first word is the program (the whole setting
/// when it has no words) and the other words are its arguments.
pub open spec fn spec_diff_command(diff_tool: Seq<char>) -> (Seq<char>, Seq<Seq<char>>) {
    let ws = chars::words(diff_tool);
    if ws.len() == 0 {
        (diff_tool, seq![])
    } else {
        (ws[0], ws.skip(1))
    }
}

pub fn diff_command(diff_tool: &str) -> (r: (String, Vec<String>))
    ensures
        r.0@ == spec_diff_command(diff_tool@).0,
        r.1@.map_values(|a: String| a@) == spec_diff_command(diff_tool@).1,
{
    let cs = chars::chars_of(diff_tool);
    let ws = chars::split_words(&cs);
    let ghost wv = ws@.map_values(|v: Vec<char>| v@);
    if ws.len() == 0 {
        return (diff_tool.to_owned(), Vec::new());
    }
    let mut args: Vec<String> = Vec::new();
    let mut i: usize = 1;
    while i < ws.len()
        invariant
            1 <= i <= ws@.len(),
            wv == ws@.map_values(|v: Vec<char>| v@),
            args@.map_values(|a: String| a@) =~= wv.subrange(1, i as int),
        decreases ws@.len() - i,
    {
        let ghost old_args = args@.map_values(|a: String| a@);
        let a = string_of(&ws[i]);
        args.push(a);
        assert(args@.map_values(|a: String| a@) =~= old_args.push(a@));
        i = i + 1;
    }
    (string_of(&ws[0]), args)
}

/// The split always stays between 2 rows and the largest split, however it is
/// moved, dragged or rescaled.
pub proof fn law_split_in_range(v: int, available: u16)
    requires
        max_split(available) >= 2,
    ensures
        2 <= clamp(v, 2, max_split(available)) <= max_split(available),
{
}

/// The preview never scrolls before its first line nor past its furthest scroll.
pub proof fn law_scroll_in_range(v: int, total_lines: int, preview_height: int)
    requires
        0 <= total_lines,
        0 <= preview_height,
    ensures
        0 <= clamp(v, 0, spec_scroll_max(total_lines, preview_height)) <= spec_scroll_max(
            total_lines,
            preview_height,
        ),
{
}

/// Moving a queued diff to the front keeps every diff in the queue: the queue
/// keeps its length and the diff of file `index` comes first.
pub proof fn law_prioritize_reorders(q: Seq<WorkItem>, index: usize, p: int)
    requires
        queue_position(q, index, 0) == Some(p),
    ensures
        0 <= p < q.len(),
        (seq![q[p]] + q.remove(p)).len() == q.len(),
        (seq![q[p]] + q.remove(p))[0].index == index,
        (seq![q[p]] + q.remove(p)).to_multiset() =~= q.to_multiset(),
{
    lemma_queue_position(q, index, 0);
    assert(q =~= q.take(p) + seq![q[p]] + q.skip(p + 1));
    assert(q.remove(p) =~= q.take(p) + q.skip(p + 1));
    vstd::seq_lib::lemma_multiset_commutative(q.take(p), seq![q[p]]);
    vstd::seq_lib::lemma_multiset_commutative(q.take(p) + seq![q[p]], q.skip(p + 1));
    vstd::seq_lib::lemma_multiset_commutative(seq![q[p]], q.remove(p));
    vstd::seq_lib::lemma_multiset_commutative(q.take(p), q.skip(p + 1));
    vstd::seq_lib::lemma_multiset_commutative(seq![q[p]] + q.take(p), q.skip(p + 1));
    vstd::seq_lib::lemma_multiset_commutative(seq![q[p]], q.take(p));
}

pub proof fn lemma_queue_position(q: Seq<WorkItem>, index: usize, from: int)
    requires
        0 <= from,
    ensures
        queue_position(q, index, from) matches Some(p) ==> from <= p < q.len() && q[p].index
            == index,
    decreases q.len() - from,
{
    if 0 <= from < q.len() && q[from].index != index {
        lemma_queue_position(q, index, from + 1);
    }
}

/// Entering and then leaving full screen restores the split.
pub proof fn law_fullscreen_round_trip(split_row: u16)
    ensures
        ({
            let entered = spec_toggle_fullscreen(split_row, None);
            spec_toggle_fullscreen(entered.0, entered.1) == (split_row, None::<u16>)
        }),
{
}

/// The arrow keys move the selection as `u` and `i` do, with or without Ctrl:
/// Down and `u` select the next file, Up and `i` the previous one, and none of
/// them asks the loop for more. The next file is one further down, stopping at
/// the last; the previous one is one further up, stopping at the first.
pub proof fn law_arrow_keys_move_selection(ctrl: bool, selected: int, len: int)
    ensures
        spec_key_effect((KeyEvent { code: KeyCode::Down, ctrl })) == KeyEffect::SelectNext,
        spec_key_effect((KeyEvent { code: KeyCode::Char('u'), ctrl })) == KeyEffect::SelectNext,
        spec_key_effect((KeyEvent { code: KeyCode::Up, ctrl })) == KeyEffect::SelectPrev,
        spec_key_effect((KeyEvent { code: KeyCode::Char('i'), ctrl })) == KeyEffect::SelectPrev,
        spec_key_control((KeyEvent { code: KeyCode::Down, ctrl })) == ChecklistControl::Continue,
        spec_key_control((KeyEvent { code: KeyCode::Up, ctrl })) == ChecklistControl::Continue,
        0 <= selected && selected + 1 < len ==> checklist::next_selection(selected, len) == selected
            + 1,
        0 < len <= selected + 1 ==> checklist::next_selection(selected, len) == len - 1,
        selected > 0 ==> checklist::prev_selection(selected) == selected - 1,
        checklist::prev_selection(0) == 0,
{
}

/// How a line count is drawn, in the count's colour: dim for none; plain, with
/// no emphasis, from 1 to 99; bold from 100 to 999; bold on the heavy background
/// from 1000 on. Only a zero count is dim.
pub proof fn law_count_intensity(n: u32, fg: Color, heavy_bg: Color)
    ensures
        n == 0 ==> spec_count_style(n, fg, heavy_bg) == (Style {
            fg: Some(fg),
            bg: None,
            modifiers: style::Modifiers {
                bold: false,
                dim: true,
                italic: false,
                underlined: false,
                crossed_out: false,
            },
        }),
        1 <= n <= 99 ==> spec_count_style(n, fg, heavy_bg) == (Style {
            fg: Some(fg),
            bg: None,
            modifiers: style::Modifiers {
                bold: false,
                dim: false,
                italic: false,
                underlined: false,
                crossed_out: false,
            },
        }),
        100 <= n <= 999 ==> spec_count_style(n, fg, heavy_bg) == (Style {
            fg: Some(fg),
            bg: None,
            modifiers: style::Modifiers {
                bold: true,
                dim: false,
                italic: false,
                underlined: false,
                crossed_out: false,
            },
        }),
        n >= 1000 ==> spec_count_style(n, fg, heavy_bg) == (Style {
            fg: Some(fg),
            bg: Some(heavy_bg),
            modifiers: style::Modifiers {
                bold: true,
                dim: false,
                italic: false,
                underlined: false,
                crossed_out: false,
            },
        }),
        spec_count_style(n, fg, heavy_bg).modifiers.dim <==> n == 0,
{
}

} // verus!
