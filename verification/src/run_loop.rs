//! The decisions of the interface's event loop: what each input does to the
//! loop's state, and what the loop must then do outside (save, refresh, copy,
//! redraw). The loop itself, which reads input, draws and runs the diff worker,
//! acts on these answers.
use crate::checklist;
use crate::checklist::Checklist;
use crate::git::DiffEntry;
use crate::session;
use crate::session::PersistedSession;
use crate::tui;
use crate::tui::ChecklistControl;
use vstd::prelude::*;

verus! {

/// What the event loop keeps between inputs.
#[derive(Clone, Copy, Debug, PartialEq, Eq, Structural)]
pub struct LoopState {
    /// Rows for the file list, divider and preview.
    pub available_height: u16,
    /// The width diff output is laid out for.
    pub width: u16,
    /// The rows of the file list (0 in full screen).
    pub split_row: u16,
    /// The split to restore when leaving full screen; `Some` exactly in full screen.
    pub saved_split: Option<u16>,
    /// The first preview line shown.
    pub preview_scroll: usize,
    /// The file whose preview was last shown.
    pub last_selected: Option<usize>,
    /// Whether a check found that a refresh would change what is shown.
    pub refresh_pending: bool,
}

/// What the loop does outside after an input.
#[derive(Clone, Copy, Debug, PartialEq, Eq, Structural)]
pub enum LoopAction {
    /// Only draw again.
    Redraw,
    /// Write the session to disk.
    SaveSession,
    /// Recompute the diff and the dirty paths, apply them with `refresh_step`,
    /// write what it returns, restart the refresh timer and recompute every
    /// preview.
    RefreshThenSave,
    /// Switch to the next theme and recompute every preview.
    CycleTheme,
    /// Copy the selected file's path and line: on the new side (`true`) or the
    /// old one.
    CopyPath(bool),
    /// Write the session to disk and leave.
    SaveThenExit,
    /// Read the terminal's size and apply it with `apply_resize`.
    Resize,
}

/// The rows left for the file list, divider and preview in a terminal of
/// `terminal_height` rows (title bar, divider and footer take three).
pub open spec fn rows_for(terminal_height: u16) -> u16 {
    if terminal_height >= 3 {
        (terminal_height - 3) as u16
    } else {
        0u16
    }
}

/// The state at the start: the split at `preview_split` percent of the rows.
pub open spec fn spec_start(terminal_height: u16, terminal_width: u16, preview_split: u8) -> LoopState {
    let available = rows_for(terminal_height);
    let rows = available * preview_split / 100;
    LoopState {
        available_height: available,
        width: if terminal_width >= 1 {
            (terminal_width - 1) as u16
        } else {
            0u16
        },
        split_row: if rows >= 2 {
            rows as u16
        } else {
            2u16
        },
        saved_split: None,
        preview_scroll: 0,
        last_selected: None,
        refresh_pending: false,
    }
}

/// The inputs on which a step is defined: the split can only be moved or
/// dragged when at least four rows are available, and the scroll arithmetic
/// stays within `i32`.
pub open spec fn step_allowed(s: LoopState, control: ChecklistControl, preview_lines: Option<usize>) -> bool {
    match control {
        ChecklistControl::AdjustSplit(d) => s.saved_split is Some || (tui::max_split(
            s.available_height,
        ) >= 2 && i32::MIN <= s.split_row + d <= i32::MAX),
        ChecklistControl::UpdateDrag(_) => tui::max_split(s.available_height) >= 2,
        ChecklistControl::ScrollPreview(d) => match preview_lines {
            Some(n) => {
                &&& s.preview_scroll <= i32::MAX
                &&& i32::MIN <= s.preview_scroll + d <= i32::MAX
                &&& tui::spec_scroll_max(n as int, tui::preview_rows(s.available_height, s.split_row))
                    <= i32::MAX
            },
            None => true,
        },
        _ => true,
    }
}

/// What an input does to the state and what must follow:
/// - a refresh clears the pending prompt and is followed by saving;
/// - quitting saves first;
/// - cycling the theme forgets which preview was shown;
/// - the split moves by `=`/`-` only outside full screen, and follows a drag;
/// - the preview scrolls only when its diff is ready (`preview_lines`).
pub open spec fn spec_loop_step(s: LoopState, control: ChecklistControl, preview_lines: Option<usize>) -> (
    LoopState,
    LoopAction,
) {
    match control {
        ChecklistControl::Continue => (s, LoopAction::Redraw),
        ChecklistControl::Save => (s, LoopAction::SaveSession),
        ChecklistControl::Refresh => (
            LoopState { refresh_pending: false, ..s },
            LoopAction::RefreshThenSave,
        ),
        ChecklistControl::CycleTheme => (LoopState { last_selected: None, ..s }, LoopAction::CycleTheme),
        ChecklistControl::ToggleFullscreen => {
            let t = tui::spec_toggle_fullscreen(s.split_row, s.saved_split);
            (LoopState { split_row: t.0, saved_split: t.1, ..s }, LoopAction::Redraw)
        },
        ChecklistControl::CopyPathNew => (s, LoopAction::CopyPath(true)),
        ChecklistControl::CopyPathOld => (s, LoopAction::CopyPath(false)),
        ChecklistControl::Quit => (s, LoopAction::SaveThenExit),
        ChecklistControl::AdjustSplit(d) => {
            if s.saved_split is None {
                (
                    LoopState {
                        split_row: tui::clamp(s.split_row + d, 2, tui::max_split(s.available_height))
                            as u16,
                        ..s
                    },
                    LoopAction::Redraw,
                )
            } else {
                (s, LoopAction::Redraw)
            }
        },
        ChecklistControl::ScrollPreview(d) => match preview_lines {
            Some(n) => (
                LoopState {
                    preview_scroll: tui::clamp(
                        s.preview_scroll + d,
                        0,
                        tui::spec_scroll_max(
                            n as int,
                            tui::preview_rows(s.available_height, s.split_row),
                        ),
                    ) as usize,
                    ..s
                },
                LoopAction::Redraw,
            ),
            None => (s, LoopAction::Redraw),
        },
        ChecklistControl::UpdateDrag(row) => (
            LoopState {
                split_row: tui::clamp(
                    if row >= 1 {
                        row - 1
                    } else {
                        0
                    },
                    2,
                    tui::max_split(s.available_height),
                ) as u16,
                ..s
            },
            LoopAction::Redraw,
        ),
        ChecklistControl::Resize => (s, LoopAction::Resize),
    }
}

/// The state after the terminal was resized to the given size: the split keeps
/// its share of the rows (within 2 and the largest split) unless no rows were
/// available before, and the shown preview is forgotten (it is recomputed at the
/// new width).
pub open spec fn spec_resize(s: LoopState, terminal_height: u16, terminal_width: u16) -> LoopState {
    let available = rows_for(terminal_height);
    LoopState {
        available_height: available,
        width: if terminal_width >= 1 {
            (terminal_width - 1) as u16
        } else {
            0u16
        },
        split_row: if s.available_height > 0 {
            tui::clamp(
                s.split_row * available / s.available_height as int,
                2,
                tui::max_split(available),
            ) as u16
        } else {
            s.split_row
        },
        last_selected: None,
        ..s
    }
}

/// Where the selection is after a refresh, as `refresh_step` leaves it: on the
/// file selected before when it is still listed (its first position), else
/// where the refresh put it.
pub open spec fn reselected(
    before: Seq<session::FileEntryModel>,
    selected: int,
    after: Seq<session::FileEntryModel>,
    shown: Option<usize>,
    new_selected: int,
) -> bool {
    match shown {
        Some(i) => {
            &&& 0 <= selected < before.len()
            &&& new_selected == i
            &&& tui::first_with_path(after, before[selected].path, i as int)
        },
        None => {
            &&& new_selected == checklist::clamped_selection(selected, after.len() as int)
            &&& (selected < 0 || selected >= before.len() || tui::without_path(
                after,
                before[selected].path,
            ))
        },
    }
}

/// After each refresh the session is saved, and the prompt to refresh is gone;
/// quitting saves the session before leaving; `s` saves it in place.
pub proof fn law_refresh_and_quit_save(s: LoopState, preview_lines: Option<usize>)
    ensures
        spec_loop_step(s, ChecklistControl::Refresh, preview_lines).1 == LoopAction::RefreshThenSave,
        !spec_loop_step(s, ChecklistControl::Refresh, preview_lines).0.refresh_pending,
        spec_loop_step(s, ChecklistControl::Quit, preview_lines).1 == LoopAction::SaveThenExit,
        spec_loop_step(s, ChecklistControl::Save, preview_lines).1 == LoopAction::SaveSession,
{
}

/// In full screen, `=` and `-` leave the split alone; leaving full screen
/// restores the split that was there before entering it.
pub proof fn law_full_screen_keeps_split(s: LoopState, d: i32, preview_lines: Option<usize>)
    requires
        s.saved_split is None,
    ensures
        ({
            let full = spec_loop_step(s, ChecklistControl::ToggleFullscreen, preview_lines).0;
            &&& full.saved_split is Some
            &&& spec_loop_step(full, ChecklistControl::AdjustSplit(d), preview_lines).0 == full
            &&& spec_loop_step(full, ChecklistControl::ToggleFullscreen, preview_lines).0 == s
        }),
{
}

/// A scroll moves the preview only when its diff is ready, and never before its
/// first line nor past its furthest scroll.
pub proof fn law_scroll_stays_in_preview(s: LoopState, d: i32, preview_lines: Option<usize>)
    ensures
        preview_lines is None ==> spec_loop_step(s, ChecklistControl::ScrollPreview(d), preview_lines).0
            == s,
        preview_lines is Some ==> ({
            let after = spec_loop_step(s, ChecklistControl::ScrollPreview(d), preview_lines).0;
            let max = tui::spec_scroll_max(
                preview_lines->0 as int,
                tui::preview_rows(s.available_height, s.split_row),
            );
            max <= usize::MAX ==> 0 <= after.preview_scroll <= max
        }),
{
}

impl LoopState {
    /// The state at the start, for a terminal of the given size and the
    /// configured split.
    pub fn start(terminal_height: u16, terminal_width: u16, preview_split: u8) -> (r: LoopState)
        requires
            rows_for(terminal_height) * preview_split <= u16::MAX,
        ensures
            r == spec_start(terminal_height, terminal_width, preview_split),
    {
        let available = tui::available_height(terminal_height);
        LoopState {
            available_height: available,
            width: tui::preview_width(terminal_width),
            split_row: tui::initial_split(available, preview_split),
            saved_split: None,
            preview_scroll: 0,
            last_selected: None,
            refresh_pending: false,
        }
    }

    /// Applies an input; `preview_lines` is the length of the selected file's
    /// diff when it is ready.
    pub fn step(&mut self, control: ChecklistControl, preview_lines: Option<usize>) -> (r: LoopAction)
        requires
            step_allowed(*old(self), control, preview_lines),
        ensures
            (*final(self), r) == spec_loop_step(*old(self), control, preview_lines),
    {
        match control {
            ChecklistControl::Continue => LoopAction::Redraw,
            ChecklistControl::Save => LoopAction::SaveSession,
            ChecklistControl::Refresh => {
                self.refresh_pending = false;
                LoopAction::RefreshThenSave
            },
            ChecklistControl::CycleTheme => {
                self.last_selected = None;
                LoopAction::CycleTheme
            },
            ChecklistControl::ToggleFullscreen => {
                let (row, saved) = tui::toggle_fullscreen(self.split_row, self.saved_split);
                self.split_row = row;
                self.saved_split = saved;
                LoopAction::Redraw
            },
            ChecklistControl::CopyPathNew => LoopAction::CopyPath(true),
            ChecklistControl::CopyPathOld => LoopAction::CopyPath(false),
            ChecklistControl::Quit => LoopAction::SaveThenExit,
            ChecklistControl::AdjustSplit(d) => {
                if self.saved_split.is_none() {
                    self.split_row = tui::adjust_split(self.split_row, d, self.available_height);
                }
                LoopAction::Redraw
            },
            ChecklistControl::ScrollPreview(d) => {
                match preview_lines {
                    Some(n) => {
                        self.preview_scroll = tui::scroll_preview(
                            self.preview_scroll,
                            d,
                            n,
                            self.available_height,
                            self.split_row,
                        );
                    },
                    None => {},
                }
                LoopAction::Redraw
            },
            ChecklistControl::UpdateDrag(row) => {
                self.split_row = tui::drag_split(row, self.available_height);
                LoopAction::Redraw
            },
            ChecklistControl::Resize => LoopAction::Resize,
        }
    }

    /// Applies a new terminal size (after a `Resize` action).
    pub fn apply_resize(&mut self, terminal_height: u16, terminal_width: u16)
        requires
            old(self).available_height > 0 ==> tui::max_split(rows_for(terminal_height)) >= 2,
        ensures
            *final(self) == spec_resize(*old(self), terminal_height, terminal_width),
    {
        let available = tui::available_height(terminal_height);
        self.split_row = tui::resize_split(self.split_row, self.available_height, available);
        self.available_height = available;
        self.width = tui::preview_width(terminal_width);
        self.last_selected = None;
    }

    /// Notes the selection before drawing: when it moved to another file of a
    /// non-empty list, the preview starts again from its top and `true` is
    /// returned (the loop then drops the notification and asks for that diff
    /// first if it is not ready).
    pub fn follow_selection(&mut self, selected: usize, total: usize) -> (changed: bool)
        ensures
            changed == (total > 0 && old(self).last_selected != Some(selected)),
            changed ==> *final(self) == (LoopState {
                last_selected: Some(selected),
                preview_scroll: 0,
                ..*old(self)
            }),
            !changed ==> *final(self) == *old(self),
    {
        let moved = match self.last_selected {
            Some(last) => last != selected,
            None => true,
        };
        if total > 0 && moved {
            self.last_selected = Some(selected);
            self.preview_scroll = 0;
            true
        } else {
            false
        }
    }

    /// Records the result of a timed check for changes: once a check finds
    /// that a refresh would change what is shown, the prompt stays until a
    /// refresh.
    pub fn note_changes(&mut self, changed: bool)
        ensures
            *final(self) == (LoopState {
                refresh_pending: old(self).refresh_pending || changed,
                ..*old(self)
            }),
    {
        self.refresh_pending = self.refresh_pending || changed;
    }

    /// Refreshes the checklist with a new diff and the paths now dirty (after a
    /// `RefreshThenSave` action), keeps the selection on the file it was on when
    /// that file is still listed, and returns what to save. The preview shown is
    /// then that file's, or none.
    pub fn refresh_step(
        &mut self,
        checklist: &mut Checklist,
        current: Vec<DiffEntry>,
        dirty: &Vec<String>,
    ) -> (saved: PersistedSession)
        ensures
            final(checklist).files() == session::refreshed(
                old(checklist).files(),
                session::diff_model(current@),
                session::paths_model(dirty@),
            ),
            final(checklist).session.id == old(checklist).session.id,
            final(checklist).session.ref_a == old(checklist).session.ref_a,
            final(checklist).session.ref_b == old(checklist).session.ref_b,
            reselected(
                old(checklist).files(),
                old(checklist).selected as int,
                final(checklist).files(),
                final(self).last_selected,
                final(checklist).selected as int,
            ),
            *final(self) == (LoopState { last_selected: final(self).last_selected, ..*old(self) }),
            saved@ == session::persisted_files(final(checklist).files()),
    {
        let ghost before = checklist.files();
        let ghost sel = checklist.selected as int;
        let path: Option<String> = match checklist.selected_file() {
            Some(f) => Some(f.path.clone()),
            None => None,
        };
        proof {
            if 0 <= sel < before.len() {
                assert(before[sel] == checklist.session.files@[sel]@);
            }
        }
        checklist.refresh(current, dirty);
        let found = match &path {
            Some(p) => tui::reselect(checklist, Some(p.as_str())),
            None => tui::reselect(checklist, None),
        };
        self.last_selected = found;
        checklist.session.to_persisted()
    }
}

/// Whether the refresh timer has run out: `elapsed_ms` milliseconds since the
/// last check, against an interval of `interval_secs` seconds.
pub fn timer_due(elapsed_ms: u128, interval_secs: u64) -> (r: bool)
    ensures
        r == (elapsed_ms >= interval_secs * 1000),
{
    elapsed_ms >= (interval_secs as u128) * 1000
}

} // verus!
