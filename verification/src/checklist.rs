//! The file checklist: which file is selected, and marking files reviewed.
use crate::git::DiffEntry;
use crate::session;
use crate::session::{FileEntry, ReviewState, Session};
use vstd::prelude::*;

verus! {

/// The session's files with a selection.
#[derive(Debug)]
pub struct Checklist {
    pub session: Session,
    pub selected: usize,
}

/// What marking a file (un)reviewed does: unreviewed and dirty files become
/// reviewed and stable; stable ones become unreviewed.
pub open spec fn toggled(s: ReviewState) -> ReviewState {
    match s {
        ReviewState::Unreviewed => ReviewState::ReviewedStable,
        ReviewState::ReviewedDirty => ReviewState::ReviewedStable,
        ReviewState::ReviewedStable => ReviewState::Unreviewed,
    }
}

pub open spec fn with_state(f: session::FileEntryModel, s: ReviewState) -> session::FileEntryModel {
    session::FileEntryModel { state: s, ..f }
}

/// The selection after moving down in a list of `len` files.
pub open spec fn next_selection(selected: int, len: int) -> int {
    if len == 0 {
        selected
    } else if selected + 1 < len {
        selected + 1
    } else {
        len - 1
    }
}

/// The selection after moving up.
pub open spec fn prev_selection(selected: int) -> int {
    if selected == 0 {
        0
    } else {
        selected - 1
    }
}

/// The selection after choosing file `index` of `len`.
pub open spec fn index_selection(selected: int, index: int, len: int) -> int {
    if index < len {
        index
    } else {
        selected
    }
}

/// The selection kept on a list of `len` files.
pub open spec fn clamped_selection(selected: int, len: int) -> int {
    if len == 0 {
        selected
    } else if selected < len {
        selected
    } else {
        len - 1
    }
}

/// The files after marking file `selected`: only that file's state changes.
pub open spec fn toggle_files(files: Seq<session::FileEntryModel>, selected: int) -> Seq<
    session::FileEntryModel,
> {
    if 0 <= selected < files.len() {
        files.update(selected, with_state(files[selected], toggled(files[selected].state)))
    } else {
        files
    }
}

/// `new` is `old` after marking the selected file.
pub open spec fn after_toggle(old: Checklist, new: Checklist) -> bool {
    &&& new.selected == old.selected
    &&& new.session.id == old.session.id
    &&& new.session.ref_a == old.session.ref_a
    &&& new.session.ref_b == old.session.ref_b
    &&& new.files() == toggle_files(old.files(), old.selected as int)
}

impl Checklist {
    pub open spec fn files(&self) -> Seq<session::FileEntryModel> {
        self.session.files_model()
    }

    pub open spec fn len(&self) -> nat {
        self.session.files@.len()
    }

    /// A checklist over `session` with the first file selected.
    pub fn new(session: Session) -> (r: Checklist)
        ensures
            r.session == session,
            r.selected == 0,
    {
        Checklist { session, selected: 0 }
    }

    /// The selected file, if the selection is on one.
    pub fn selected_file(&self) -> (r: Option<&FileEntry>)
        ensures
            self.selected < self.len() ==> r == Some(&self.session.files@[self.selected as int]),
            self.selected >= self.len() ==> r is None,
    {
        if self.selected < self.session.files.len() {
            Some(&self.session.files[self.selected])
        } else {
            None
        }
    }

    /// Moves the selection down one file, stopping at the last.
    pub fn select_next(&mut self)
        requires
            old(self).len() > 0 ==> old(self).selected < usize::MAX,
        ensures
            final(self).session == old(self).session,
            final(self).selected == next_selection(old(self).selected as int, old(self).len() as int),
    {
        let n = self.session.files.len();
        if n > 0 {
            let next = self.selected + 1;
            self.selected = if next < n - 1 {
                next
            } else {
                n - 1
            };
        }
    }

    /// Moves the selection up one file, stopping at the first.
    pub fn select_prev(&mut self)
        ensures
            final(self).session == old(self).session,
            final(self).selected == prev_selection(old(self).selected as int),
    {
        self.selected = self.selected.saturating_sub(1);
    }

    /// Selects file `index`, when there is one.
    pub fn select_index(&mut self, index: usize)
        ensures
            final(self).session == old(self).session,
            final(self).selected == index_selection(
                old(self).selected as int,
                index as int,
                old(self).len() as int,
            ),
    {
        if index < self.session.files.len() {
            self.selected = index;
        }
    }

    /// Refreshes the session with a new diff of its refs and the paths now dirty
    /// (see `Session::refresh`) and keeps the selection on the list.
    pub fn refresh(&mut self, current: Vec<DiffEntry>, dirty: &Vec<String>)
        ensures
            final(self).files() == session::refreshed(
                old(self).files(),
                session::diff_model(current@),
                session::paths_model(dirty@),
            ),
            final(self).session.id == old(self).session.id,
            final(self).session.ref_a == old(self).session.ref_a,
            final(self).session.ref_b == old(self).session.ref_b,
            final(self).selected == clamped_selection(
                old(self).selected as int,
                final(self).len() as int,
            ),
    {
        self.session.refresh(current, dirty);
        let n = self.session.files.len();
        if n > 0 {
            if self.selected > n - 1 {
                self.selected = n - 1;
            }
        }
    }

    /// Marks the selected file reviewed, or unreviewed when it is reviewed and
    /// stable. Nothing else changes.
    pub fn toggle_reviewed(&mut self)
        ensures
            after_toggle(*old(self), *final(self)),
    {
        let i = self.selected;
        if i < self.session.files.len() {
            let next = match self.session.files[i].state {
                ReviewState::Unreviewed => ReviewState::ReviewedStable,
                ReviewState::ReviewedDirty => ReviewState::ReviewedStable,
                ReviewState::ReviewedStable => ReviewState::Unreviewed,
            };
            let ghost before = self.files();
            self.session.files[i].state = next;
            assert(self.files() =~= before.update(i as int, with_state(before[i as int], next)));
        }
    }
}

/// The selection never leaves a non-empty list: moving down, moving up,
/// choosing a file and refreshing all keep it on a file.
pub proof fn law_selection_stays_on_list(selected: int, index: int, len: int, new_len: int)
    requires
        0 <= selected < len,
        0 <= index,
        0 < new_len,
    ensures
        0 <= next_selection(selected, len) < len,
        0 <= prev_selection(selected) < len,
        0 <= index_selection(selected, index, len) < len,
        0 <= clamped_selection(selected, new_len) < new_len,
{
}

/// Moving down and then up returns to the same file, unless the selection was
/// already on the last one.
pub proof fn law_next_then_prev(selected: int, len: int)
    requires
        0 <= selected,
        selected + 1 < len,
    ensures
        prev_selection(next_selection(selected, len)) == selected,
{
}

/// Marking a file twice gives back its state, except that a dirty file ends
/// unreviewed (the first mark makes it reviewed and stable); a mark never makes a
/// file dirty.
pub proof fn law_toggle_twice(s: ReviewState)
    ensures
        toggled(s) != ReviewState::ReviewedDirty,
        s != ReviewState::ReviewedDirty ==> toggled(toggled(s)) == s,
        s == ReviewState::ReviewedDirty ==> toggled(toggled(s)) == ReviewState::Unreviewed,
{
}

} // verus!
