//! Review sessions: the files of a diff with their review states, what is
//! saved of them between runs, and how saved progress is merged into a new diff.
use crate::chars;
use crate::chars::{chars_of, string_of};
use crate::git;
use crate::git::{sanitise_ref, DiffEntry, FileStatus};
use crate::paths;
use crate::paths::{join_path, same_path};
use vstd::prelude::*;

verus! {

/// Where a file stands in the review.
#[derive(Clone, Copy, Debug, PartialEq, Eq, Structural)]
pub enum ReviewState {
    Unreviewed,
    ReviewedStable,
    /// Reviewed earlier, but the working tree has changed since.
    ReviewedDirty,
}

/// A file of the session's diff with its review state.
#[derive(Debug)]
pub struct FileEntry {
    pub path: String,
    pub state: ReviewState,
    /// Blob ids when this entry was computed: `None` for the working tree or
    /// when the file is absent on that side.
    pub blob_a: Option<String>,
    pub blob_b: Option<String>,
    /// Derived from git on each load; not saved.
    pub status: FileStatus,
    pub old_path: Option<String>,
    pub additions: u32,
    pub deletions: u32,
}

pub struct FileEntryModel {
    pub path: Seq<char>,
    pub state: ReviewState,
    pub blob_a: Option<Seq<char>>,
    pub blob_b: Option<Seq<char>>,
    pub status: FileStatus,
    pub old_path: Option<Seq<char>>,
    pub additions: u32,
    pub deletions: u32,
}

impl View for FileEntry {
    type V = FileEntryModel;

    open spec fn view(&self) -> FileEntryModel {
        FileEntryModel {
            path: self.path@,
            state: self.state,
            blob_a: self.blob_a.deep_view(),
            blob_b: self.blob_b.deep_view(),
            status: self.status,
            old_path: self.old_path.deep_view(),
            additions: self.additions,
            deletions: self.deletions,
        }
    }
}

/// A review session between two refs.
#[derive(Debug)]
pub struct Session {
    pub id: String,
    pub ref_a: String,
    pub ref_b: String,
    pub files: Vec<FileEntry>,
}

impl Session {
    pub open spec fn files_model(&self) -> Seq<FileEntryModel> {
        self.files@.map_values(|f: FileEntry| f@)
    }
}

/// The saved review state of a file.
#[derive(Clone, Copy, Debug, PartialEq, Eq, Structural)]
pub enum PersistedState {
    Unreviewed,
    Reviewed,
}

/// What is saved of a file between runs.
#[derive(Debug)]
pub struct PersistedFile {
    pub path: String,
    pub state: PersistedState,
    pub blob_a: Option<String>,
    pub blob_b: Option<String>,
}

pub struct PersistedFileModel {
    pub path: Seq<char>,
    pub state: PersistedState,
    pub blob_a: Option<Seq<char>>,
    pub blob_b: Option<Seq<char>>,
}

impl View for PersistedFile {
    type V = PersistedFileModel;

    open spec fn view(&self) -> PersistedFileModel {
        PersistedFileModel {
            path: self.path@,
            state: self.state,
            blob_a: self.blob_a.deep_view(),
            blob_b: self.blob_b.deep_view(),
        }
    }
}

/// What is saved of a session between runs.
#[derive(Debug)]
pub struct PersistedSession {
    pub files: Vec<PersistedFile>,
}

impl View for PersistedSession {
    type V = Seq<PersistedFileModel>;

    open spec fn view(&self) -> Seq<PersistedFileModel> {
        self.files@.map_values(|f: PersistedFile| f@)
    }
}

/// A copy of an optional string.
pub fn clone_opt(o: &Option<String>) -> (r: Option<String>)
    ensures
        r.deep_view() == o.deep_view(),
{
    match o {
        Some(s) => Some(s.clone()),
        None => None,
    }
}

/// Whether two optional strings are equal.
pub fn opt_eq(a: &Option<String>, b: &Option<String>) -> (r: bool)
    ensures
        r == (a.deep_view() == b.deep_view()),
{
    match (a, b) {
        (Some(x), Some(y)) => chars::str_eq(x.as_str(), y.as_str()),
        (None, None) => true,
        _ => false,
    }
}

/// The session's name: the two refs as directory names, joined by `__`.
pub open spec fn spec_session_id(ref_a: Seq<char>, ref_b: Seq<char>) -> Seq<char> {
    git::spec_sanitise_ref(ref_a) + seq!['_', '_'] + git::spec_sanitise_ref(ref_b)
}

pub fn session_id(ref_a: &str, ref_b: &str) -> (r: String)
    ensures
        r@ == spec_session_id(ref_a@, ref_b@),
{
    let a = sanitise_ref(ref_a);
    let b = sanitise_ref(ref_b);
    let mut v = chars_of(a.as_str());
    v.push('_');
    v.push('_');
    let bv = chars_of(b.as_str());
    let ghost prefix = v@;
    let mut i: usize = 0;
    while i < bv.len()
        invariant
            i <= bv@.len(),
            v@ =~= prefix + bv@.take(i as int),
        decreases bv@.len() - i,
    {
        v.push(bv[i]);
        i = i + 1;
    }
    assert(bv@.take(bv@.len() as int) =~= bv@);
    assert(prefix =~= a@ + seq!['_', '_']);
    string_of(&v)
}

/// A sanitised ref holds no `_`.
pub proof fn lemma_sanitised_has_no_underscore(r: Seq<char>)
    ensures
        forall|i: int|
            0 <= i < git::spec_sanitise_ref(r).len() ==> #[trigger] git::spec_sanitise_ref(r)[i]
                != '_',
{
    reveal_strlit("working-tree");
}

/// A session id names its pair of refs unambiguously: equal ids come from refs
/// that sanitise alike, pairwise (a sanitised ref holds no `_`, so the first
/// `__` marks where the first ref ends).
pub proof fn law_session_id_unambiguous(a1: Seq<char>, b1: Seq<char>, a2: Seq<char>, b2: Seq<char>)
    requires
        spec_session_id(a1, b1) == spec_session_id(a2, b2),
    ensures
        git::spec_sanitise_ref(a1) == git::spec_sanitise_ref(a2),
        git::spec_sanitise_ref(b1) == git::spec_sanitise_ref(b2),
{
    let x1 = git::spec_sanitise_ref(a1);
    let x2 = git::spec_sanitise_ref(a2);
    let y1 = git::spec_sanitise_ref(b1);
    let y2 = git::spec_sanitise_ref(b2);
    let id = spec_session_id(a1, b1);
    lemma_sanitised_has_no_underscore(a1);
    lemma_sanitised_has_no_underscore(a2);
    if x1.len() < x2.len() {
        assert(id[x1.len() as int] == '_');
        assert(spec_session_id(a2, b2)[x1.len() as int] == x2[x1.len() as int]);
        assert(false);
    }
    if x2.len() < x1.len() {
        assert(spec_session_id(a2, b2)[x2.len() as int] == '_');
        assert(id[x2.len() as int] == x1[x2.len() as int]);
        assert(false);
    }
    assert(x1 =~= id.take(x1.len() as int));
    assert(x2 =~= spec_session_id(a2, b2).take(x2.len() as int));
    assert(y1 =~= id.skip(x1.len() as int + 2));
    assert(y2 =~= spec_session_id(a2, b2).skip(x2.len() as int + 2));
}

/// The directory a session is saved in: `<repo_root>/.grit/sessions/<id>`.
pub fn session_dir(repo_root: &str, id: &str) -> (r: String)
    ensures
        r@ == paths::spec_join(
            paths::spec_join(paths::spec_join(repo_root@, ".grit"@), "sessions"@),
            id@,
        ),
{
    let grit = join_path(repo_root, ".grit");
    let sessions = join_path(grit.as_str(), "sessions");
    join_path(sessions.as_str(), id)
}

/// The index of the first saved file whose path equals `path` (as std's `Path`
/// equality has it), from `i` on.
pub open spec fn first_match_from(files: Seq<PersistedFileModel>, path: Seq<char>, i: int) -> Option<int>
    decreases files.len() - i,
{
    if i < 0 || i >= files.len() {
        None
    } else if paths::path_eq(files[i].path, path) {
        Some(i)
    } else {
        first_match_from(files, path, i + 1)
    }
}

pub open spec fn first_match(files: Seq<PersistedFileModel>, path: Seq<char>) -> Option<int> {
    first_match_from(files, path, 0)
}

pub proof fn lemma_first_match_from(files: Seq<PersistedFileModel>, path: Seq<char>, i: int)
    requires
        0 <= i,
    ensures
        match first_match_from(files, path, i) {
            Some(j) => i <= j < files.len() && paths::path_eq(files[j].path, path) && forall|m: int|
                i <= m < j ==> !paths::path_eq(#[trigger] files[m].path, path),
            None => forall|m: int|
                i <= m < files.len() ==> !paths::path_eq(#[trigger] files[m].path, path),
        },
    decreases files.len() - i,
{
    if i < files.len() && !paths::path_eq(files[i].path, path) {
        lemma_first_match_from(files, path, i + 1);
    }
}

/// The state a file of a new diff gets from saved progress: reviewed and stable
/// when the first saved file of that path was reviewed with the same blobs on
/// both sides; unreviewed otherwise.
pub open spec fn merged_state(entry: git::DiffEntryModel, saved: Seq<PersistedFileModel>) -> ReviewState {
    match first_match(saved, entry.path) {
        Some(i) => {
            if 0 <= i < saved.len() && saved[i].state == PersistedState::Reviewed && entry.blob_a
                == saved[i].blob_a && entry.blob_b == saved[i].blob_b {
                ReviewState::ReviewedStable
            } else {
                ReviewState::Unreviewed
            }
        },
        None => ReviewState::Unreviewed,
    }
}

pub open spec fn merged_entry(entry: git::DiffEntryModel, saved: Seq<PersistedFileModel>) -> FileEntryModel {
    FileEntryModel {
        path: entry.path,
        state: merged_state(entry, saved),
        blob_a: entry.blob_a,
        blob_b: entry.blob_b,
        status: entry.status,
        old_path: entry.old_path,
        additions: entry.additions,
        deletions: entry.deletions,
    }
}

pub open spec fn saved_files(persisted: Option<Seq<PersistedFileModel>>) -> Seq<PersistedFileModel> {
    match persisted {
        Some(f) => f,
        None => seq![],
    }
}

/// The files of diff `current`, in its order, each with the state that saved
/// progress gives it.
pub open spec fn spec_merge_state(current: Seq<git::DiffEntryModel>, persisted: Option<Seq<PersistedFileModel>>) -> Seq<FileEntryModel> {
    current.map_values(|e: git::DiffEntryModel| merged_entry(e, saved_files(persisted)))
}

pub open spec fn persisted_model(p: Option<PersistedSession>) -> Option<Seq<PersistedFileModel>> {
    match p {
        Some(s) => Some(s@),
        None => None,
    }
}

fn merged_state_exec(entry: &DiffEntry, saved: &Vec<PersistedFile>) -> (r: ReviewState)
    ensures
        r == merged_state(entry@, saved@.map_values(|f: PersistedFile| f@)),
{
    let ghost sv = saved@.map_values(|f: PersistedFile| f@);
    let mut i: usize = 0;
    while i < saved.len()
        invariant
            i <= saved@.len(),
            sv == saved@.map_values(|f: PersistedFile| f@),
            first_match(sv, entry.path@) == first_match_from(sv, entry.path@, i as int),
        decreases saved@.len() - i,
    {
        let f = &saved[i];
        if same_path(f.path.as_str(), entry.path.as_str()) {
            assert(first_match(sv, entry.path@) == Some(i as int));
            if f.state == PersistedState::Reviewed && opt_eq(&entry.blob_a, &f.blob_a) && opt_eq(
                &entry.blob_b,
                &f.blob_b,
            ) {
                return ReviewState::ReviewedStable;
            } else {
                return ReviewState::Unreviewed;
            }
        }
        i = i + 1;
    }
    ReviewState::Unreviewed
}

/// Whether `path` is among `listed` (as std's `Path` equality has it).
pub open spec fn in_paths(path: Seq<char>, listed: Seq<Seq<char>>) -> bool {
    exists|j: int| 0 <= j < listed.len() && paths::path_eq(#[trigger] listed[j], path)
}

/// The dirty overlay: a reviewed, stable file whose path has uncommitted changes
/// in the working tree is reviewed, dirty; any other file is left as it is.
pub open spec fn with_dirty(f: FileEntryModel, dirty: Seq<Seq<char>>) -> FileEntryModel {
    if f.state == ReviewState::ReviewedStable && in_paths(f.path, dirty) {
        FileEntryModel { state: ReviewState::ReviewedDirty, ..f }
    } else {
        f
    }
}

/// The files of diff `current` with the state that saved progress gives them,
/// and the dirty overlay for the paths in `dirty`.
pub open spec fn spec_merge_with_dirty(
    current: Seq<git::DiffEntryModel>,
    persisted: Option<Seq<PersistedFileModel>>,
    dirty: Seq<Seq<char>>,
) -> Seq<FileEntryModel> {
    spec_merge_state(current, persisted).map_values(|f: FileEntryModel| with_dirty(f, dirty))
}

pub open spec fn paths_model(v: Seq<String>) -> Seq<Seq<char>> {
    v.map_values(|s: String| s@)
}

/// Whether `path` is one of `listed`.
fn is_listed(path: &str, listed: &Vec<String>) -> (r: bool)
    ensures
        r == in_paths(path@, paths_model(listed@)),
{
    let ghost lv = paths_model(listed@);
    let mut j: usize = 0;
    while j < listed.len()
        invariant
            j <= listed@.len(),
            lv == paths_model(listed@),
            forall|k: int| 0 <= k < j ==> !paths::path_eq(#[trigger] lv[k], path@),
        decreases listed@.len() - j,
    {
        if same_path(listed[j].as_str(), path) {
            assert(paths::path_eq(lv[j as int], path@));
            return true;
        }
        j = j + 1;
    }
    false
}

/// Merges saved progress into the files of a new diff and marks the reviewed
/// files whose paths are in `dirty` (those with uncommitted changes in the
/// working tree) reviewed, dirty.
pub fn merge_state_with_dirty(
    current: Vec<DiffEntry>,
    persisted: Option<PersistedSession>,
    dirty: &Vec<String>,
) -> (r: Vec<FileEntry>)
    ensures
        r@.map_values(|f: FileEntry| f@) == spec_merge_with_dirty(
            current@.map_values(|e: DiffEntry| e@),
            persisted_model(persisted),
            paths_model(dirty@),
        ),
{
    let saved: Vec<PersistedFile> = match persisted {
        Some(p) => p.files,
        None => Vec::new(),
    };
    let ghost sv = saved@.map_values(|f: PersistedFile| f@);
    assert(sv =~= saved_files(persisted_model(persisted)));
    let ghost cv = current@.map_values(|e: DiffEntry| e@);
    let ghost dv = paths_model(dirty@);
    let mut r: Vec<FileEntry> = Vec::new();
    let mut i: usize = 0;
    while i < current.len()
        invariant
            i <= current@.len(),
            cv == current@.map_values(|e: DiffEntry| e@),
            sv == saved@.map_values(|f: PersistedFile| f@),
            dv == paths_model(dirty@),
            r@.map_values(|f: FileEntry| f@) =~= cv.take(i as int).map_values(
                |e: git::DiffEntryModel| with_dirty(merged_entry(e, sv), dv),
            ),
        decreases current@.len() - i,
    {
        let e = &current[i];
        let merged = merged_state_exec(e, &saved);
        let state = if merged == ReviewState::ReviewedStable && is_listed(e.path.as_str(), dirty) {
            ReviewState::ReviewedDirty
        } else {
            merged
        };
        let f = FileEntry {
            path: e.path.clone(),
            state,
            blob_a: clone_opt(&e.blob_a),
            blob_b: clone_opt(&e.blob_b),
            status: e.status,
            old_path: clone_opt(&e.old_path),
            additions: e.additions,
            deletions: e.deletions,
        };
        assert(f@ == with_dirty(merged_entry(cv[i as int], sv), dv));
        let ghost old_r = r@.map_values(|f: FileEntry| f@);
        r.push(f);
        assert(r@.map_values(|f: FileEntry| f@) =~= old_r.push(f@));
        assert(cv.take(i + 1).map_values(
            |e: git::DiffEntryModel| with_dirty(merged_entry(e, sv), dv),
        ) =~= cv.take(i as int).map_values(
            |e: git::DiffEntryModel| with_dirty(merged_entry(e, sv), dv),
        ).push(with_dirty(merged_entry(cv[i as int], sv), dv)));
        i = i + 1;
    }
    assert(cv.take(current@.len() as int) =~= cv);
    assert(r@.map_values(|f: FileEntry| f@) =~= spec_merge_with_dirty(
        cv,
        persisted_model(persisted),
        dv,
    ));
    r
}

/// Merges saved progress into the files of a new diff: a file keeps its reviewed
/// state only when its blobs on both sides are unchanged; new and changed files
/// are unreviewed; saved files that left the diff are dropped.
pub fn merge_state(current: Vec<DiffEntry>, persisted: Option<PersistedSession>) -> (r: Vec<
    FileEntry,
>)
    ensures
        r@.map_values(|f: FileEntry| f@) == spec_merge_state(
            current@.map_values(|e: DiffEntry| e@),
            persisted_model(persisted),
        ),
{
    let ghost cv = current@.map_values(|e: DiffEntry| e@);
    let ghost pm = persisted_model(persisted);
    let none: Vec<String> = Vec::new();
    let r = merge_state_with_dirty(current, persisted, &none);
    assert(paths_model(none@) =~= Seq::<Seq<char>>::empty());
    assert(spec_merge_with_dirty(cv, pm, paths_model(none@)) =~= spec_merge_state(cv, pm));
    r
}

/// Whether the comparison has the working tree (`.`) on either side: only then
/// can files have uncommitted changes that mark them dirty.
pub fn uses_working_tree(ref_a: &str, ref_b: &str) -> (r: bool)
    ensures
        r == (ref_a@ == chars::working_tree_ref() || ref_b@ == chars::working_tree_ref()),
{
    chars::is_working_tree_ref(ref_a) || chars::is_working_tree_ref(ref_b)
}

/// What is saved of a file: reviewed (stable or dirty) is saved as reviewed.
pub open spec fn persisted_of(f: FileEntryModel) -> PersistedFileModel {
    PersistedFileModel {
        path: f.path,
        state: if f.state == ReviewState::Unreviewed {
            PersistedState::Unreviewed
        } else {
            PersistedState::Reviewed
        },
        blob_a: f.blob_a,
        blob_b: f.blob_b,
    }
}

pub open spec fn persisted_files(files: Seq<FileEntryModel>) -> Seq<PersistedFileModel> {
    files.map_values(|f: FileEntryModel| persisted_of(f))
}

/// Whether two file lists agree, position by position, on paths, blobs and
/// review states.
pub open spec fn same_review(a: Seq<FileEntryModel>, b: Seq<FileEntryModel>) -> bool {
    &&& a.len() == b.len()
    &&& forall|i: int|
        #![trigger a[i]]
        0 <= i < a.len() ==> {
            &&& a[i].path == b[i].path
            &&& a[i].blob_a == b[i].blob_a
            &&& a[i].blob_b == b[i].blob_b
            &&& a[i].state == b[i].state
        }
}

pub open spec fn diff_model(current: Seq<DiffEntry>) -> Seq<git::DiffEntryModel> {
    current.map_values(|e: DiffEntry| e@)
}

/// The files a refresh gives: the new diff merged with the session's own
/// current progress, with the dirty overlay for the paths in `dirty`.
pub open spec fn refreshed(
    files: Seq<FileEntryModel>,
    current: Seq<git::DiffEntryModel>,
    dirty: Seq<Seq<char>>,
) -> Seq<FileEntryModel> {
    spec_merge_with_dirty(current, Some(persisted_files(files)), dirty)
}

impl Session {
    /// What is saved of this session.
    pub fn to_persisted(&self) -> (r: PersistedSession)
        ensures
            r@ == persisted_files(self.files_model()),
    {
        let mut out: Vec<PersistedFile> = Vec::new();
        let mut i: usize = 0;
        while i < self.files.len()
            invariant
                i <= self.files@.len(),
                out@.map_values(|f: PersistedFile| f@) =~= persisted_files(
                    self.files_model().take(i as int),
                ),
            decreases self.files@.len() - i,
        {
            let f = &self.files[i];
            let state = match f.state {
                ReviewState::Unreviewed => PersistedState::Unreviewed,
                ReviewState::ReviewedStable => PersistedState::Reviewed,
                ReviewState::ReviewedDirty => PersistedState::Reviewed,
            };
            let p = PersistedFile {
                path: f.path.clone(),
                state,
                blob_a: clone_opt(&f.blob_a),
                blob_b: clone_opt(&f.blob_b),
            };
            let ghost old_out = out@.map_values(|f: PersistedFile| f@);
            out.push(p);
            assert(out@.map_values(|f: PersistedFile| f@) =~= old_out.push(p@));
            assert(self.files_model().take(i + 1) =~= self.files_model().take(i as int).push(
                self.files@[i as int]@,
            ));
            i = i + 1;
        }
        assert(self.files_model().take(self.files@.len() as int) =~= self.files_model());
        PersistedSession { files: out }
    }

    /// Re-merges the session with a new diff of its refs, taking the session's
    /// current progress (not what was last saved) as the prior state; `dirty`
    /// lists the paths with uncommitted changes in the working tree.
    pub fn refresh(&mut self, current: Vec<DiffEntry>, dirty: &Vec<String>)
        ensures
            final(self).files_model() == refreshed(
                old(self).files_model(),
                diff_model(current@),
                paths_model(dirty@),
            ),
            final(self).id == old(self).id,
            final(self).ref_a == old(self).ref_a,
            final(self).ref_b == old(self).ref_b,
    {
        let snapshot = self.to_persisted();
        self.files = merge_state_with_dirty(current, Some(snapshot), dirty);
    }

    /// Whether a refresh with a new diff of the session's refs and the paths now
    /// dirty would change what the session shows: the files, their blobs or their
    /// review states.
    pub fn has_pending_changes(&self, current: Vec<DiffEntry>, dirty: &Vec<String>) -> (r: bool)
        ensures
            r == !same_review(
                self.files_model(),
                refreshed(self.files_model(), diff_model(current@), paths_model(dirty@)),
            ),
            r == changes_shown(
                self.files_model(),
                refreshed(self.files_model(), diff_model(current@), paths_model(dirty@)),
            ),
    {
        proof {
            law_same_review_compares_every_field(
                self.files_model(),
                refreshed(self.files_model(), diff_model(current@), paths_model(dirty@)),
            );
        }
        let snapshot = self.to_persisted();
        let next = merge_state_with_dirty(current, Some(snapshot), dirty);
        differs(&self.files, &next)
    }
}

/// Whether going from file list `a` to `b` changes what is shown: the number of
/// files, or at some position the path, the blob on side a or side b, or the
/// review state.
pub open spec fn changes_shown(a: Seq<FileEntryModel>, b: Seq<FileEntryModel>) -> bool {
    a.len() != b.len() || exists|i: int|
        0 <= i < a.len() && ((#[trigger] a[i]).path != b[i].path || a[i].blob_a != b[i].blob_a
            || a[i].blob_b != b[i].blob_b || a[i].state != b[i].state)
}

/// Whether two file lists disagree on paths, blobs or review states.
pub fn differs(a: &Vec<FileEntry>, b: &Vec<FileEntry>) -> (r: bool)
    ensures
        r == !same_review(a@.map_values(|f: FileEntry| f@), b@.map_values(|f: FileEntry| f@)),
        r == changes_shown(a@.map_values(|f: FileEntry| f@), b@.map_values(|f: FileEntry| f@)),
{
    proof {
        law_same_review_compares_every_field(
            a@.map_values(|f: FileEntry| f@),
            b@.map_values(|f: FileEntry| f@),
        );
    }
    let ghost av = a@.map_values(|f: FileEntry| f@);
    let ghost bv = b@.map_values(|f: FileEntry| f@);
    if a.len() != b.len() {
        return true;
    }
    let mut i: usize = 0;
    while i < a.len()
        invariant
            i <= a@.len(),
            a@.len() == b@.len(),
            av == a@.map_values(|f: FileEntry| f@),
            bv == b@.map_values(|f: FileEntry| f@),
            forall|k: int|
                #![trigger av[k]]
                0 <= k < i ==> {
                    &&& av[k].path == bv[k].path
                    &&& av[k].blob_a == bv[k].blob_a
                    &&& av[k].blob_b == bv[k].blob_b
                    &&& av[k].state == bv[k].state
                },
        decreases a@.len() - i,
    {
        let x = &a[i];
        let y = &b[i];
        assert(av[i as int] == x@ && bv[i as int] == y@);
        if !chars::str_eq(x.path.as_str(), y.path.as_str()) || !opt_eq(&x.blob_a, &y.blob_a)
            || !opt_eq(&x.blob_b, &y.blob_b) || !(x.state == y.state) {
            return true;
        }
        i = i + 1;
    }
    false
}

/// A merge lists exactly the files of the new diff, in its order, with their
/// paths, blobs, statuses and counts: files that left the diff are dropped and
/// new files are added.
pub proof fn law_merge_lists_the_new_diff(
    current: Seq<git::DiffEntryModel>,
    persisted: Option<Seq<PersistedFileModel>>,
)
    ensures
        spec_merge_state(current, persisted).len() == current.len(),
        forall|i: int|
            #![trigger spec_merge_state(current, persisted)[i]]
            0 <= i < current.len() ==> {
                let f = spec_merge_state(current, persisted)[i];
                &&& f.path == current[i].path
                &&& f.blob_a == current[i].blob_a
                &&& f.blob_b == current[i].blob_b
                &&& f.status == current[i].status
                &&& f.old_path == current[i].old_path
                &&& f.additions == current[i].additions
                &&& f.deletions == current[i].deletions
            },
{
}

/// Without saved progress every file is unreviewed.
pub proof fn law_merge_without_saved_progress(current: Seq<git::DiffEntryModel>)
    ensures
        forall|i: int|
            0 <= i < current.len() ==> #[trigger] spec_merge_state(current, None)[i].state
                == ReviewState::Unreviewed,
{
}

/// A file comes out of a merge reviewed only when a saved record of its path was
/// reviewed with the very same blobs on both sides; a merge never marks a file
/// dirty. So a file whose blob changed, and a file new to the diff, are unreviewed.
pub proof fn law_merge_reviewed_only_with_same_blobs(
    current: Seq<git::DiffEntryModel>,
    persisted: Option<Seq<PersistedFileModel>>,
    i: int,
)
    requires
        0 <= i < current.len(),
    ensures
        spec_merge_state(current, persisted)[i].state != ReviewState::ReviewedDirty,
        spec_merge_state(current, persisted)[i].state == ReviewState::ReviewedStable ==> exists|
            j: int,
        |
            0 <= j < saved_files(persisted).len() && {
                let f = #[trigger] saved_files(persisted)[j];
                &&& paths::path_eq(f.path, current[i].path)
                &&& f.state == PersistedState::Reviewed
                &&& f.blob_a == current[i].blob_a
                &&& f.blob_b == current[i].blob_b
            },
{
    let saved = saved_files(persisted);
    lemma_first_match_from(saved, current[i].path, 0);
    if spec_merge_state(current, persisted)[i].state == ReviewState::ReviewedStable {
        let j = first_match(saved, current[i].path)->0;
        assert(saved[j] == saved_files(persisted)[j]);
    }
}

/// A reviewed file whose blobs are unchanged stays reviewed: when the first saved
/// record of its path was reviewed with the same blobs, the merge keeps it
/// reviewed and stable.
pub proof fn law_merge_keeps_unchanged_review(
    current: Seq<git::DiffEntryModel>,
    persisted: Option<Seq<PersistedFileModel>>,
    i: int,
    j: int,
)
    requires
        0 <= i < current.len(),
        first_match(saved_files(persisted), current[i].path) == Some(j),
        saved_files(persisted)[j].state == PersistedState::Reviewed,
        saved_files(persisted)[j].blob_a == current[i].blob_a,
        saved_files(persisted)[j].blob_b == current[i].blob_b,
    ensures
        spec_merge_state(current, persisted)[i].state == ReviewState::ReviewedStable,
{
    lemma_first_match_from(saved_files(persisted), current[i].path, 0);
}

/// Refreshing with a diff in which nothing changed keeps every file, and every
/// review: unreviewed files stay unreviewed, and reviewed ones (stable or dirty)
/// stay reviewed, dirty exactly when their path is now listed with uncommitted
/// changes. Each path must be found first at its own position.
pub proof fn law_refresh_with_unchanged_diff(
    files: Seq<FileEntryModel>,
    current: Seq<git::DiffEntryModel>,
    dirty: Seq<Seq<char>>,
)
    requires
        current.len() == files.len(),
        forall|i: int|
            #![trigger current[i]]
            0 <= i < current.len() ==> {
                &&& current[i].path == files[i].path
                &&& current[i].blob_a == files[i].blob_a
                &&& current[i].blob_b == files[i].blob_b
            },
        forall|i: int|
            0 <= i < files.len() ==> #[trigger] first_match(persisted_files(files), files[i].path)
                == Some(i),
    ensures
        refreshed(files, current, dirty).len() == files.len(),
        forall|i: int|
            #![trigger refreshed(files, current, dirty)[i]]
            0 <= i < files.len() ==> {
                &&& refreshed(files, current, dirty)[i].path == files[i].path
                &&& refreshed(files, current, dirty)[i].state == if files[i].state
                    == ReviewState::Unreviewed {
                    ReviewState::Unreviewed
                } else if in_paths(files[i].path, dirty) {
                    ReviewState::ReviewedDirty
                } else {
                    ReviewState::ReviewedStable
                }
            },
{
    assert forall|i: int| 0 <= i < files.len() implies {
        &&& refreshed(files, current, dirty)[i].path == files[i].path
        &&& refreshed(files, current, dirty)[i].state == if files[i].state
            == ReviewState::Unreviewed {
            ReviewState::Unreviewed
        } else if in_paths(files[i].path, dirty) {
            ReviewState::ReviewedDirty
        } else {
            ReviewState::ReviewedStable
        }
    } by {
        assert(current[i].path == files[i].path);
        assert(first_match(persisted_files(files), current[i].path) == Some(i));
        assert(persisted_files(files)[i] == persisted_of(files[i]));
    }
}

/// The dirty overlay only ever marks reviewed files: after a merge with the
/// paths listed as dirty, a file is reviewed, dirty exactly when the plain merge
/// gives it reviewed and stable and its path is listed; otherwise it is what the
/// plain merge gives. Everything else about each file is the plain merge's.
pub proof fn law_dirty_marks_only_reviewed_files(
    current: Seq<git::DiffEntryModel>,
    persisted: Option<Seq<PersistedFileModel>>,
    dirty: Seq<Seq<char>>,
)
    ensures
        spec_merge_with_dirty(current, persisted, dirty).len() == current.len(),
        forall|i: int|
            #![trigger spec_merge_with_dirty(current, persisted, dirty)[i]]
            0 <= i < current.len() ==> {
                let plain = spec_merge_state(current, persisted)[i];
                let marked = spec_merge_with_dirty(current, persisted, dirty)[i];
                &&& (marked.state == ReviewState::ReviewedDirty) == (plain.state
                    == ReviewState::ReviewedStable && in_paths(current[i].path, dirty))
                &&& marked.state != ReviewState::ReviewedDirty ==> marked == plain
                &&& marked == FileEntryModel { state: marked.state, ..plain }
            },
{
}

/// The dirty mark is never saved: a reviewed, dirty file is saved as reviewed.
pub proof fn law_dirty_is_not_saved(f: FileEntryModel)
    requires
        f.state == ReviewState::ReviewedDirty,
    ensures
        persisted_of(f).state == PersistedState::Reviewed,
{
}

/// Two file lists show the same thing exactly when they have the same length
/// and agree, position by position, on the path, both blobs and the review
/// state: a difference in any one of these four (side a's blob included) is a
/// difference, and nothing else (status, old path, counts) is.
pub proof fn law_same_review_compares_every_field(a: Seq<FileEntryModel>, b: Seq<FileEntryModel>)
    ensures
        same_review(a, b) <==> (a.len() == b.len() && forall|i: int|
            0 <= i < a.len() ==> (#[trigger] a[i]).path == b[i].path && a[i].blob_a == b[i].blob_a
                && a[i].blob_b == b[i].blob_b && a[i].state == b[i].state),
{
}

/// A check for changes reports one whenever a refresh would change anything
/// shown of a file: its path, the blob on either side, or its review state, or
/// the number of files.
pub proof fn law_pending_when_a_field_changes(
    files: Seq<FileEntryModel>,
    current: Seq<git::DiffEntryModel>,
    dirty: Seq<Seq<char>>,
    i: int,
)
    requires
        0 <= i < files.len(),
        i < refreshed(files, current, dirty).len(),
    ensures
        refreshed(files, current, dirty).len() != files.len() ==> !same_review(
            files,
            refreshed(files, current, dirty),
        ),
        refreshed(files, current, dirty)[i].blob_a != files[i].blob_a ==> !same_review(
            files,
            refreshed(files, current, dirty),
        ),
        refreshed(files, current, dirty)[i].blob_b != files[i].blob_b ==> !same_review(
            files,
            refreshed(files, current, dirty),
        ),
        refreshed(files, current, dirty)[i].path != files[i].path ==> !same_review(
            files,
            refreshed(files, current, dirty),
        ),
        refreshed(files, current, dirty)[i].state != files[i].state ==> !same_review(
            files,
            refreshed(files, current, dirty),
        ),
{
}

} // verus!
