//! Reading the output of `git diff-tree`/`git diff-index` (`--raw` and
//! `--numstat`) into the list of changed files, and the naming of refs on disk.
use crate::chars;
use crate::chars::{
    chars_of, copy_range, find_class_from, is_working_tree_ref, parse_decimal, split_lines,
    split_words, string_of, CharClass,
};
use vstd::prelude::*;
use vstd::utf8::{decode_utf8, valid_utf8};

verus! {

/// How a file changed between the two sides.
#[derive(Clone, Copy, Debug, PartialEq, Eq, Structural)]
pub enum FileStatus {
    Added,
    Deleted,
    Modified,
    Moved,
}

/// One changed file. Blob ids are `None` when the side is the working tree (no
/// stable hash) or when the file is absent on that side (added or deleted).
#[derive(Debug)]
pub struct DiffEntry {
    pub path: String,
    pub blob_a: Option<String>,
    pub blob_b: Option<String>,
    pub status: FileStatus,
    pub old_path: Option<String>,
    pub additions: u32,
    pub deletions: u32,
}

pub struct DiffEntryModel {
    pub path: Seq<char>,
    pub blob_a: Option<Seq<char>>,
    pub blob_b: Option<Seq<char>>,
    pub status: FileStatus,
    pub old_path: Option<Seq<char>>,
    pub additions: u32,
    pub deletions: u32,
}

impl View for DiffEntry {
    type V = DiffEntryModel;

    open spec fn view(&self) -> DiffEntryModel {
        DiffEntryModel {
            path: self.path@,
            blob_a: self.blob_a.deep_view(),
            blob_b: self.blob_b.deep_view(),
            status: self.status,
            old_path: self.old_path.deep_view(),
            additions: self.additions,
            deletions: self.deletions,
        }
    }
}

/// One line of `git diff --raw` output: the blob ids on the tree side (`old`)
/// and the other side (`new`), the status, and the path (and, for a rename or
/// copy, the path it came from).
#[derive(Debug)]
pub struct RawEntry {
    pub path: String,
    pub old_path: Option<String>,
    pub blob_old: Option<String>,
    pub blob_new: Option<String>,
    pub status: FileStatus,
}

pub struct RawEntryModel {
    pub path: Seq<char>,
    pub old_path: Option<Seq<char>>,
    pub blob_old: Option<Seq<char>>,
    pub blob_new: Option<Seq<char>>,
    pub status: FileStatus,
}

impl View for RawEntry {
    type V = RawEntryModel;

    open spec fn view(&self) -> RawEntryModel {
        RawEntryModel {
            path: self.path@,
            old_path: self.old_path.deep_view(),
            blob_old: self.blob_old.deep_view(),
            blob_new: self.blob_new.deep_view(),
            status: self.status,
        }
    }
}

/// The characters that become `-` when a ref is used as a directory name:
/// path separators, characters that shells or file systems treat specially,
/// git's revision operators `~`, `^` and `.`, and `_` (so that `__`, which
/// joins two sanitised refs, never occurs inside one).
pub open spec fn is_unsafe_ref_char(c: char) -> bool {
    c == '/' || c == '\\' || c == ':' || c == '*' || c == '?' || c == '"' || c == '<' || c == '>'
        || c == '|' || c == ' ' || c == '~' || c == '^' || c == '.' || c == '_'
}

/// A ref as a directory name: `.` (the working tree) is `working-tree`; in any
/// other ref each of `/ \ : * ? " < > | ~ ^ . _` and space becomes `-`.
pub open spec fn spec_sanitise_ref(r: Seq<char>) -> Seq<char> {
    if r == chars::working_tree_ref() {
        "working-tree"@
    } else {
        r.map_values(
            |c: char|
                if is_unsafe_ref_char(c) {
                    '-'
                } else {
                    c
                },
        )
    }
}

pub fn sanitise_ref(git_ref: &str) -> (r: String)
    ensures
        r@ == spec_sanitise_ref(git_ref@),
{
    if is_working_tree_ref(git_ref) {
        return "working-tree".to_owned();
    }
    let cs = chars_of(git_ref);
    let mut out: Vec<char> = Vec::new();
    let mut i: usize = 0;
    while i < cs.len()
        invariant
            i <= cs@.len(),
            cs@ == git_ref@,
            out@ =~= cs@.take(i as int).map_values(
                |c: char|
                    if is_unsafe_ref_char(c) {
                        '-'
                    } else {
                        c
                    },
            ),
        decreases cs@.len() - i,
    {
        let c = cs[i];
        let d = if c == '/' || c == '\\' || c == ':' || c == '*' || c == '?' || c == '"' || c
            == '<' || c == '>' || c == '|' || c == ' ' || c == '~' || c == '^' || c == '.' || c
            == '_' {
            '-'
        } else {
            c
        };
        out.push(d);
        i = i + 1;
    }
    assert(cs@.take(cs@.len() as int) =~= cs@);
    string_of(&out)
}

/// An object id, unless it is all zeros (git's id for "no blob").
pub open spec fn spec_non_zero_oid(s: Seq<char>) -> Option<Seq<char>> {
    if forall|i: int| 0 <= i < s.len() ==> #[trigger] s[i] == '0' {
        None
    } else {
        Some(s)
    }
}

fn non_zero_oid_chars(s: &[char]) -> (r: Option<String>)
    ensures
        r.deep_view() == spec_non_zero_oid(s@),
{
    let mut i: usize = 0;
    while i < s.len()
        invariant
            i <= s@.len(),
            forall|k: int| 0 <= k < i ==> #[trigger] s@[k] == '0',
        decreases s@.len() - i,
    {
        if s[i] != '0' {
            return Some(string_of(s));
        }
        i = i + 1;
    }
    None
}

/// `None` for an all-zero object id, else the id.
pub fn non_zero_oid(s: &str) -> (r: Option<String>)
    ensures
        r.deep_view() == spec_non_zero_oid(s@),
{
    let cs = chars_of(s);
    non_zero_oid_chars(&cs)
}

/// A line of `--raw` output: `:old-mode new-mode old-blob new-blob status\tpath`,
/// or for a rename or copy `... R<n>\told\tnew`. Other lines (such as the commit
/// id that `diff-tree` prints) give `None`.
pub open spec fn spec_parse_raw_line(line: Seq<char>) -> Option<RawEntryModel> {
    if line.len() == 0 || line[0] != ':' {
        None
    } else {
        let rest = line.skip(1);
        match chars::find(rest, CharClass::Char('\t')) {
            None => None,
            Some(k) => {
                let meta = rest.take(k);
                let paths = rest.skip(k + 1);
                let parts = chars::words(meta);
                if parts.len() < 5 || parts[4].len() == 0 {
                    None
                } else {
                    let blob_old = spec_non_zero_oid(parts[2]);
                    let blob_new = spec_non_zero_oid(parts[3]);
                    let sc = parts[4][0];
                    if sc == 'A' {
                        Some(
                            RawEntryModel {
                                path: paths,
                                old_path: None,
                                blob_old,
                                blob_new,
                                status: FileStatus::Added,
                            },
                        )
                    } else if sc == 'D' {
                        Some(
                            RawEntryModel {
                                path: paths,
                                old_path: None,
                                blob_old,
                                blob_new,
                                status: FileStatus::Deleted,
                            },
                        )
                    } else if sc == 'R' || sc == 'C' {
                        match chars::find(paths, CharClass::Char('\t')) {
                            None => None,
                            Some(j) => Some(
                                RawEntryModel {
                                    path: paths.skip(j + 1),
                                    old_path: Some(paths.take(j)),
                                    blob_old,
                                    blob_new,
                                    status: FileStatus::Moved,
                                },
                            ),
                        }
                    } else {
                        Some(
                            RawEntryModel {
                                path: paths,
                                old_path: None,
                                blob_old,
                                blob_new,
                                status: FileStatus::Modified,
                            },
                        )
                    }
                }
            },
        }
    }
}

pub open spec fn opt_model(r: Option<RawEntry>) -> Option<RawEntryModel> {
    match r {
        Some(e) => Some(e@),
        None => None,
    }
}

/// Parses one line of `--raw` output given as characters.
pub fn parse_raw_chars(line: &[char]) -> (r: Option<RawEntry>)
    ensures
        opt_model(r) == spec_parse_raw_line(line@),
{
    let n = line.len();
    if n == 0 || line[0] != ':' {
        return None;
    }
    let ghost rest = line@.skip(1);
    proof {
        chars::lemma_find_from_skip(line@, CharClass::Char('\t'), 1, 0);
        chars::lemma_find_from(line@, CharClass::Char('\t'), 1);
    }
    let tab = match find_class_from(line, CharClass::Char('\t'), 1) {
        Some(t) => t,
        None => {
            return None;
        },
    };
    let meta = copy_range(line, 1, tab);
    assert(meta@ =~= rest.take(tab - 1));
    let paths = copy_range(line, tab + 1, n);
    assert(paths@ =~= rest.skip(tab - 1 + 1));
    let parts = split_words(&meta);
    let ghost pv = parts@.map_values(|v: Vec<char>| v@);
    if parts.len() < 5 || parts[4].len() == 0 {
        return None;
    }
    assert(pv[4] == parts@[4]@);
    let blob_old = non_zero_oid_chars(&parts[2]);
    let blob_new = non_zero_oid_chars(&parts[3]);
    let sc = parts[4][0];
    if sc == 'A' {
        Some(
            RawEntry {
                path: string_of(&paths),
                old_path: None,
                blob_old,
                blob_new,
                status: FileStatus::Added,
            },
        )
    } else if sc == 'D' {
        Some(
            RawEntry {
                path: string_of(&paths),
                old_path: None,
                blob_old,
                blob_new,
                status: FileStatus::Deleted,
            },
        )
    } else if sc == 'R' || sc == 'C' {
        proof {
            chars::lemma_find_from(paths@, CharClass::Char('\t'), 0);
        }
        match find_class_from(&paths, CharClass::Char('\t'), 0) {
            None => None,
            Some(j) => {
                let old = copy_range(&paths, 0, j);
                let new = copy_range(&paths, j + 1, paths.len());
                assert(old@ =~= paths@.take(j as int));
                assert(new@ =~= paths@.skip(j + 1));
                Some(
                    RawEntry {
                        path: string_of(&new),
                        old_path: Some(string_of(&old)),
                        blob_old,
                        blob_new,
                        status: FileStatus::Moved,
                    },
                )
            },
        }
    } else {
        Some(
            RawEntry {
                path: string_of(&paths),
                old_path: None,
                blob_old,
                blob_new,
                status: FileStatus::Modified,
            },
        )
    }
}

/// Parses one line of `--raw` output.
pub fn parse_raw_line(line: &str) -> (r: Option<RawEntry>)
    ensures
        opt_model(r) == spec_parse_raw_line(line@),
{
    let cs = chars_of(line);
    parse_raw_chars(&cs)
}

/// A count as std's `str::parse::<u32>` reads it, or 0 when it does not (as for
/// the `-` that binary files show).
pub open spec fn count_or_zero(s: Seq<char>) -> u32 {
    match chars::parse_bounded(s, u32::MAX as nat) {
        Some(v) => v as u32,
        None => 0,
    }
}

/// A line of `--numstat` output: `additions\tdeletions\tpath`. Lines without
/// three tab-separated fields give `None`.
pub open spec fn spec_parse_numstat_line(line: Seq<char>) -> Option<(u32, u32)> {
    match chars::find(line, CharClass::Char('\t')) {
        None => None,
        Some(k1) => {
            let rest = line.skip(k1 + 1);
            match chars::find(rest, CharClass::Char('\t')) {
                None => None,
                Some(k2) => Some((count_or_zero(line.take(k1)), count_or_zero(rest.take(k2)))),
            }
        },
    }
}

fn count_or_zero_exec(s: &[char]) -> (r: u32)
    ensures
        r == count_or_zero(s@),
{
    match parse_decimal(s, 0xffff_ffff) {
        Some(v) => v as u32,
        None => 0,
    }
}

/// Parses one line of `--numstat` output given as characters.
pub fn parse_numstat_chars(line: &[char]) -> (r: Option<(u32, u32)>)
    ensures
        r == spec_parse_numstat_line(line@),
{
    proof {
        chars::lemma_find_from(line@, CharClass::Char('\t'), 0);
    }
    let k1 = match find_class_from(line, CharClass::Char('\t'), 0) {
        Some(k) => k,
        None => {
            return None;
        },
    };
    let n = line.len();
    assert(k1 < n);
    let ghost rest = line@.skip(k1 + 1);
    proof {
        chars::lemma_find_from_skip(line@, CharClass::Char('\t'), k1 + 1, 0);
        chars::lemma_find_from(line@, CharClass::Char('\t'), k1 + 1);
    }
    let k2 = match find_class_from(line, CharClass::Char('\t'), k1 + 1) {
        Some(k) => k,
        None => {
            return None;
        },
    };
    let adds = copy_range(line, 0, k1);
    let dels = copy_range(line, k1 + 1, k2);
    assert(adds@ =~= line@.take(k1 as int));
    assert(dels@ =~= rest.take(k2 - k1 - 1));
    Some((count_or_zero_exec(&adds), count_or_zero_exec(&dels)))
}

/// Parses one line of `--numstat` output.
pub fn parse_numstat_line(line: &str) -> (r: Option<(u32, u32)>)
    ensures
        r == spec_parse_numstat_line(line@),
{
    let cs = chars_of(line);
    parse_numstat_chars(&cs)
}

/// The entries of the `--raw` lines that parse, in order.
pub open spec fn raw_entries(ls: Seq<Seq<char>>) -> Seq<RawEntryModel>
    decreases ls.len(),
{
    if ls.len() == 0 {
        seq![]
    } else {
        let rest = raw_entries(ls.drop_last());
        match spec_parse_raw_line(ls.last()) {
            Some(e) => rest.push(e),
            None => rest,
        }
    }
}

/// The counts of the `--numstat` lines that parse, in order.
pub open spec fn numstat_counts(ls: Seq<Seq<char>>) -> Seq<(u32, u32)>
    decreases ls.len(),
{
    if ls.len() == 0 {
        seq![]
    } else {
        let rest = numstat_counts(ls.drop_last());
        match spec_parse_numstat_line(ls.last()) {
            Some(c) => rest.push(c),
            None => rest,
        }
    }
}

/// The `i`-th count, or `(0, 0)` when there are fewer counts.
pub open spec fn count_at(counts: Seq<(u32, u32)>, i: int) -> (u32, u32) {
    if 0 <= i < counts.len() {
        counts[i]
    } else {
        (0, 0)
    }
}

/// A changed file from its raw entry and its counts. `diff-index` reports from
/// the tree's side: when `ref_a` is the working tree, its old blob is `ref_b`'s
/// and side a has none; when `ref_b` is the working tree, side b has none.
pub open spec fn entry_of(raw: RawEntryModel, count: (u32, u32), ref_a: Seq<char>, ref_b: Seq<char>) -> DiffEntryModel {
    let blob_a = if ref_a == chars::working_tree_ref() {
        None
    } else {
        raw.blob_old
    };
    let blob_b = if ref_a == chars::working_tree_ref() {
        raw.blob_old
    } else if ref_b == chars::working_tree_ref() {
        None
    } else {
        raw.blob_new
    };
    DiffEntryModel {
        path: raw.path,
        blob_a,
        blob_b,
        status: raw.status,
        old_path: raw.old_path,
        additions: count.0,
        deletions: count.1,
    }
}

pub open spec fn entries_of(raws: Seq<RawEntryModel>, counts: Seq<(u32, u32)>, ref_a: Seq<char>, ref_b: Seq<char>) -> Seq<DiffEntryModel> {
    Seq::new(raws.len(), |i: int| entry_of(raws[i], count_at(counts, i), ref_a, ref_b))
}

/// The changed files that `--raw` output `raw_out` and `--numstat` output
/// `numstat_out` of the same diff describe: the i-th file has the i-th counts.
pub open spec fn spec_diff_entries(raw_out: Seq<char>, numstat_out: Seq<char>, ref_a: Seq<char>, ref_b: Seq<char>) -> Seq<DiffEntryModel> {
    entries_of(
        raw_entries(chars::lines(raw_out)),
        numstat_counts(chars::lines(numstat_out)),
        ref_a,
        ref_b,
    )
}

fn numstat_counts_exec(out: &str) -> (r: Vec<(u32, u32)>)
    ensures
        r@ == numstat_counts(chars::lines(out@)),
{
    let cs = chars_of(out);
    let ls = split_lines(&cs);
    let ghost lv = ls@.map_values(|v: Vec<char>| v@);
    let mut r: Vec<(u32, u32)> = Vec::new();
    let mut i: usize = 0;
    assert(lv.take(0) =~= Seq::<Seq<char>>::empty());
    while i < ls.len()
        invariant
            i <= ls@.len(),
            lv == ls@.map_values(|v: Vec<char>| v@),
            r@ == numstat_counts(lv.take(i as int)),
        decreases ls@.len() - i,
    {
        assert(lv.take(i + 1).drop_last() =~= lv.take(i as int));
        assert(lv.take(i + 1).last() == ls@[i as int]@);
        match parse_numstat_chars(&ls[i]) {
            Some(c) => r.push(c),
            None => {},
        }
        i = i + 1;
    }
    assert(lv.take(ls@.len() as int) =~= lv);
    r
}

/// The changed files of a diff, from the text of git's `--raw` and `--numstat`
/// output for it and the two refs compared (`.` is the working tree).
fn entries_from_text(raw_out: &str, numstat_out: &str, ref_a: &str, ref_b: &str) -> (r: Vec<
    DiffEntry,
>)
    ensures
        r@.map_values(|e: DiffEntry| e@) == spec_diff_entries(
            raw_out@,
            numstat_out@,
            ref_a@,
            ref_b@,
        ),
{
    let counts = numstat_counts_exec(numstat_out);
    let a_dot = is_working_tree_ref(ref_a);
    let b_dot = is_working_tree_ref(ref_b);
    let cs = chars_of(raw_out);
    let ls = split_lines(&cs);
    let ghost lv = ls@.map_values(|v: Vec<char>| v@);
    let mut r: Vec<DiffEntry> = Vec::new();
    let mut i: usize = 0;
    assert(lv.take(0) =~= Seq::<Seq<char>>::empty());
    assert(r@.map_values(|e: DiffEntry| e@) =~= entries_of(
        raw_entries(lv.take(0)),
        counts@,
        ref_a@,
        ref_b@,
    ));
    while i < ls.len()
        invariant
            i <= ls@.len(),
            lv == ls@.map_values(|v: Vec<char>| v@),
            a_dot == (ref_a@ == chars::working_tree_ref()),
            b_dot == (ref_b@ == chars::working_tree_ref()),
            r@.map_values(|e: DiffEntry| e@) == entries_of(
                raw_entries(lv.take(i as int)),
                counts@,
                ref_a@,
                ref_b@,
            ),
        decreases ls@.len() - i,
    {
        assert(lv.take(i + 1).drop_last() =~= lv.take(i as int));
        assert(lv.take(i + 1).last() == ls@[i as int]@);
        let ghost before = raw_entries(lv.take(i as int));
        match parse_raw_chars(&ls[i]) {
            Some(raw) => {
                let idx = r.len();
                let (additions, deletions) = if idx < counts.len() {
                    counts[idx]
                } else {
                    (0, 0)
                };
                let ghost rm = raw@;
                let (blob_a, blob_b) = if a_dot {
                    (None, raw.blob_old)
                } else {
                    (raw.blob_old, if b_dot {
                        None
                    } else {
                        raw.blob_new
                    })
                };
                let e = DiffEntry {
                    path: raw.path,
                    blob_a,
                    blob_b,
                    status: raw.status,
                    old_path: raw.old_path,
                    additions,
                    deletions,
                };
                assert(e@ == entry_of(rm, count_at(counts@, idx as int), ref_a@, ref_b@));
                let ghost old_r = r@.map_values(|e: DiffEntry| e@);
                r.push(e);
                assert(r@.map_values(|e: DiffEntry| e@) =~= old_r.push(e@));
                assert(entries_of(before.push(rm), counts@, ref_a@, ref_b@) =~= entries_of(
                    before,
                    counts@,
                    ref_a@,
                    ref_b@,
                ).push(entry_of(rm, count_at(counts@, idx as int), ref_a@, ref_b@)));
            },
            None => {},
        }
        i = i + 1;
    }
    assert(lv.take(ls@.len() as int) =~= lv);
    r
}

/// Decodes git's output as UTF-8 (std's `str::from_utf8`): `Some` exactly when
/// the bytes are valid UTF-8, with the characters they encode.
#[verifier::external_body]
fn decode_output(bytes: &[u8]) -> (r: Option<String>)
    ensures
        r is Some <==> valid_utf8(bytes@),
        r matches Some(s) ==> s@ == decode_utf8(bytes@),
{
    match std::str::from_utf8(bytes) {
        Ok(s) => Some(s.to_owned()),
        Err(_) => None,
    }
}

/// `s` without its trailing newlines.
pub open spec fn trim_newlines(s: Seq<char>) -> Seq<char>
    decreases s.len(),
{
    if s.len() > 0 && s.last() == '\n' {
        trim_newlines(s.drop_last())
    } else {
        s
    }
}

/// The repository root from the text of `git rev-parse --show-toplevel`: the
/// text without its trailing newlines.
fn root_from_text(stdout: &str) -> (r: String)
    ensures
        r@ == trim_newlines(stdout@),
{
    let mut v = chars_of(stdout);
    while v.len() > 0 && v[v.len() - 1] == '\n'
        invariant
            trim_newlines(v@) == trim_newlines(stdout@),
        decreases v@.len(),
    {
        v.pop();
    }
    string_of(&v)
}

/// The paths in the text of `git diff-index --name-only HEAD`: its non-empty lines.
fn dirty_lines_from_text(stdout: &str) -> (r: Vec<String>)
    ensures
        r@.map_values(|p: String| p@) == chars::nonempty(chars::lines(stdout@)),
{
    let cs = chars_of(stdout);
    let ls = split_lines(&cs);
    let ghost lv = ls@.map_values(|v: Vec<char>| v@);
    let mut r: Vec<String> = Vec::new();
    let mut i: usize = 0;
    assert(lv.take(0) =~= Seq::<Seq<char>>::empty());
    while i < ls.len()
        invariant
            i <= ls@.len(),
            lv == ls@.map_values(|v: Vec<char>| v@),
            r@.map_values(|p: String| p@) =~= chars::nonempty(lv.take(i as int)),
        decreases ls@.len() - i,
    {
        assert(lv.take(i + 1).drop_last() =~= lv.take(i as int));
        assert(lv.take(i + 1).last() == ls@[i as int]@);
        if ls[i].len() > 0 {
            let ghost old_r = r@.map_values(|p: String| p@);
            let p = string_of(&ls[i]);
            r.push(p);
            assert(r@.map_values(|p: String| p@) =~= old_r.push(p@));
        }
        i = i + 1;
    }
    assert(lv.take(ls@.len() as int) =~= lv);
    r
}

/// The changed files of a diff, from the bytes git wrote for `--raw` and for
/// `--numstat` and the two refs compared (`.` is the working tree). `None` when
/// either output is not UTF-8.
pub fn diff_entries(raw_out: &[u8], numstat_out: &[u8], ref_a: &str, ref_b: &str) -> (r: Option<
    Vec<DiffEntry>,
>)
    ensures
        r is Some <==> valid_utf8(raw_out@) && valid_utf8(numstat_out@),
        r matches Some(es) ==> es@.map_values(|e: DiffEntry| e@) == spec_diff_entries(
            decode_utf8(raw_out@),
            decode_utf8(numstat_out@),
            ref_a@,
            ref_b@,
        ),
{
    let raw = match decode_output(raw_out) {
        Some(t) => t,
        None => return None,
    };
    let numstat = match decode_output(numstat_out) {
        Some(t) => t,
        None => return None,
    };
    Some(entries_from_text(raw.as_str(), numstat.as_str(), ref_a, ref_b))
}

/// The repository root from the bytes `git rev-parse --show-toplevel` wrote: the
/// text without its trailing newlines. `None` when the output is not UTF-8.
pub fn repo_root_from_output(stdout: &[u8]) -> (r: Option<String>)
    ensures
        r is Some <==> valid_utf8(stdout@),
        r matches Some(root) ==> root@ == trim_newlines(decode_utf8(stdout@)),
{
    match decode_output(stdout) {
        Some(t) => Some(root_from_text(t.as_str())),
        None => None,
    }
}

/// The paths listed in the bytes `git diff-index --name-only HEAD` wrote: the
/// non-empty lines of its text. `None` when the output is not UTF-8.
pub fn dirty_path_lines(stdout: &[u8]) -> (r: Option<Vec<String>>)
    ensures
        r is Some <==> valid_utf8(stdout@),
        r matches Some(ps) ==> ps@.map_values(|p: String| p@) == chars::nonempty(
            chars::lines(decode_utf8(stdout@)),
        ),
{
    match decode_output(stdout) {
        Some(t) => Some(dirty_lines_from_text(t.as_str())),
        None => None,
    }
}

/// The git command line that lists the changes between `ref_a` and `ref_b` in
/// the format `format_flag`: with the working tree on either side,
/// `diff-index <flag> <the other ref>`; else `diff-tree <flag> -r <ref_a> <ref_b>`.
pub open spec fn spec_diff_args(ref_a: Seq<char>, ref_b: Seq<char>, format_flag: Seq<char>) -> Seq<Seq<char>> {
    if ref_a == chars::working_tree_ref() || ref_b == chars::working_tree_ref() {
        let tree_ref = if ref_b == chars::working_tree_ref() {
            ref_a
        } else {
            ref_b
        };
        seq!["diff-index"@, format_flag, tree_ref]
    } else {
        seq!["diff-tree"@, format_flag, "-r"@, ref_a, ref_b]
    }
}

pub fn diff_args(ref_a: &str, ref_b: &str, format_flag: &str) -> (r: Vec<String>)
    ensures
        r@.map_values(|a: String| a@) == spec_diff_args(ref_a@, ref_b@, format_flag@),
{
    let a_dot = is_working_tree_ref(ref_a);
    let b_dot = is_working_tree_ref(ref_b);
    let mut r: Vec<String> = Vec::new();
    if a_dot || b_dot {
        let tree_ref = if b_dot {
            ref_a
        } else {
            ref_b
        };
        r.push("diff-index".to_owned());
        r.push(format_flag.to_owned());
        r.push(tree_ref.to_owned());
    } else {
        r.push("diff-tree".to_owned());
        r.push(format_flag.to_owned());
        r.push("-r".to_owned());
        r.push(ref_a.to_owned());
        r.push(ref_b.to_owned());
    }
    assert(r@.map_values(|a: String| a@) =~= spec_diff_args(ref_a@, ref_b@, format_flag@));
    r
}

/// An object id gives a blob exactly when it is not all zeros, and then the
/// blob is the id itself.
pub proof fn law_non_zero_oid(s: Seq<char>)
    ensures
        (exists|i: int| 0 <= i < s.len() && s[i] != '0') ==> spec_non_zero_oid(s) == Some(s),
        (forall|i: int| 0 <= i < s.len() ==> s[i] == '0') ==> spec_non_zero_oid(s) is None,
{
}

/// Whatever its status letter, a parsed `--raw` line carries as old and new
/// blobs the non-zero ids of the third and fourth fields before the tab: an
/// added file with a non-zero new id has a new blob, a deleted file with a
/// non-zero old id an old blob. The status is `A` added, `D` deleted, `R` or
/// `C` moved, anything else modified, and the path is what follows the tab (for
/// a move, what follows the second tab, the first being the old path).
pub proof fn law_raw_line_fields(line: Seq<char>)
    ensures
        spec_parse_raw_line(line) matches Some(e) ==> ({
            let rest = line.skip(1);
            let k = chars::find(rest, CharClass::Char('\t'))->0;
            let parts = chars::words(rest.take(k));
            let paths = rest.skip(k + 1);
            let sc = parts[4][0];
            &&& line[0] == ':'
            &&& parts.len() >= 5
            &&& e.blob_old == spec_non_zero_oid(parts[2])
            &&& e.blob_new == spec_non_zero_oid(parts[3])
            &&& (sc == 'A' <==> e.status == FileStatus::Added)
            &&& (sc == 'D' <==> e.status == FileStatus::Deleted)
            &&& ((sc == 'R' || sc == 'C') <==> e.status == FileStatus::Moved)
            &&& (e.status == FileStatus::Moved) == (e.old_path is Some)
            &&& e.status != FileStatus::Moved ==> e.path == paths
            &&& e.old_path matches Some(o) ==> paths == o + seq!['\t'] + e.path
        }),
{
    if spec_parse_raw_line(line) is Some {
        let rest = line.skip(1);
        let k = chars::find(rest, CharClass::Char('\t'))->0;
        let paths = rest.skip(k + 1);
        chars::lemma_find(paths, CharClass::Char('\t'));
        match chars::find(paths, CharClass::Char('\t')) {
            Some(j) => {
                assert(paths =~= paths.take(j) + seq!['\t'] + paths.skip(j + 1));
            },
            None => {},
        }
    }
}

/// The two sides of a diff entry: between two refs, side a has the raw line's
/// old blob and side b its new one; with the working tree as `ref_b`, side b
/// has no blob; with the working tree as `ref_a`, side a has none and side b
/// has the raw line's old blob (the tree's). Everything else comes from the raw
/// line and the counts unchanged.
pub proof fn law_entry_sides(raw: RawEntryModel, count: (u32, u32), ref_a: Seq<char>, ref_b: Seq<char>)
    ensures
        ref_a != seq!['.'] && ref_b != seq!['.'] ==> entry_of(raw, count, ref_a, ref_b).blob_a
            == raw.blob_old && entry_of(raw, count, ref_a, ref_b).blob_b == raw.blob_new,
        ref_a != seq!['.'] && ref_b == seq!['.'] ==> entry_of(raw, count, ref_a, ref_b).blob_a
            == raw.blob_old && entry_of(raw, count, ref_a, ref_b).blob_b is None,
        ref_a == seq!['.'] ==> entry_of(raw, count, ref_a, ref_b).blob_a is None && entry_of(
            raw,
            count,
            ref_a,
            ref_b,
        ).blob_b == raw.blob_old,
        entry_of(raw, count, ref_a, ref_b).path == raw.path,
        entry_of(raw, count, ref_a, ref_b).old_path == raw.old_path,
        entry_of(raw, count, ref_a, ref_b).status == raw.status,
        entry_of(raw, count, ref_a, ref_b).additions == count.0,
        entry_of(raw, count, ref_a, ref_b).deletions == count.1,
{
}

} // verus!
