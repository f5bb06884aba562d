//! Worktrees for the two sides of a review: where they are put, which are the
//! tool's own, and when removing one needs the user's confirmation.
use crate::chars;
use crate::chars::{chars_of, is_whitespace, is_working_tree_ref, push_str, string_of};
use crate::git;
use crate::git::sanitise_ref;
use crate::paths;
use crate::paths::{join_path, starts_with_path};
use vstd::prelude::*;

verus! {

/// A side of the review on disk: a checked-out worktree, or the working tree
/// itself.
#[derive(Debug)]
pub enum Worktree {
    Checkout { path: String },
    WorkingTree { path: String },
}

impl Worktree {
    pub open spec fn spec_path(&self) -> Seq<char> {
        match self {
            Worktree::Checkout { path } => path@,
            Worktree::WorkingTree { path } => path@,
        }
    }

    /// Where this side is on disk.
    pub fn path(&self) -> (r: &str)
        ensures
            r@ == self.spec_path(),
    {
        match self {
            Worktree::Checkout { path } => path.as_str(),
            Worktree::WorkingTree { path } => path.as_str(),
        }
    }
}

/// What creating a side needs.
#[derive(Debug)]
pub enum CreatePlan {
    /// The side is ready as it is (the working tree).
    Ready(Worktree),
    /// The side is a checkout at this path: reused when it exists, else made
    /// with `git worktree add --detach`.
    CheckoutAt(String),
}

/// Where the checkout of `git_ref` goes: `<worktrees_dir>/<ref as directory name>`.
pub open spec fn spec_checkout_path(worktrees_dir: Seq<char>, git_ref: Seq<char>) -> Seq<char> {
    paths::spec_join(worktrees_dir, git::spec_sanitise_ref(git_ref))
}

/// How to create the side for `git_ref`: `.` is the working tree at `repo_root`;
/// any other ref is a checkout under `worktrees_dir`.
pub fn create_plan(repo_root: &str, git_ref: &str, worktrees_dir: &str) -> (r: CreatePlan)
    ensures
        git_ref@ == chars::working_tree_ref() ==> (r matches CreatePlan::Ready(
            Worktree::WorkingTree { path },
        ) && path@ == repo_root@),
        git_ref@ != chars::working_tree_ref() ==> (r matches CreatePlan::CheckoutAt(path) && path@
            == spec_checkout_path(worktrees_dir@, git_ref@)),
{
    if is_working_tree_ref(git_ref) {
        return CreatePlan::Ready(Worktree::WorkingTree { path: repo_root.to_owned() });
    }
    let name = sanitise_ref(git_ref);
    CreatePlan::CheckoutAt(join_path(worktrees_dir, name.as_str()))
}

/// The directory that holds the tool's own worktrees: `<repo_root>/.grit/worktrees`.
pub open spec fn spec_managed_dir(repo_root: Seq<char>) -> Seq<char> {
    paths::spec_join(paths::spec_join(repo_root, ".grit"@), "worktrees"@)
}

/// Whether `worktree_root` lies in the tool's own worktree directory.
pub fn is_managed(worktree_root: &str, repo_root: &str) -> (r: bool)
    ensures
        r == paths::path_starts_with(worktree_root@, spec_managed_dir(repo_root@)),
{
    let grit = join_path(repo_root, ".grit");
    let dir = join_path(grit.as_str(), "worktrees");
    starts_with_path(worktree_root, dir.as_str())
}

/// What removing a side on exit needs.
#[derive(Debug)]
pub enum RemovalStep {
    /// Nothing to remove (the working tree).
    Keep,
    /// Remove the checkout at this path.
    Remove(String),
    /// Remove the checkout at this path once it is known safe or confirmed.
    Confirm(String),
}

/// How to remove `worktree`: the working tree is kept; the tool's own checkouts
/// are removed; any other checkout needs confirmation first.
pub fn removal_step(repo_root: &str, worktree: Worktree) -> (r: RemovalStep)
    ensures
        worktree is WorkingTree ==> r is Keep,
        worktree is Checkout ==> paths::path_starts_with(
            worktree.spec_path(),
            spec_managed_dir(repo_root@),
        ) ==> (r matches RemovalStep::Remove(p) && p@ == worktree.spec_path()),
        worktree is Checkout ==> !paths::path_starts_with(
            worktree.spec_path(),
            spec_managed_dir(repo_root@),
        ) ==> (r matches RemovalStep::Confirm(p) && p@ == worktree.spec_path()),
{
    match worktree {
        Worktree::WorkingTree { .. } => RemovalStep::Keep,
        Worktree::Checkout { path } => {
            if is_managed(path.as_str(), repo_root) {
                RemovalStep::Remove(path)
            } else {
                RemovalStep::Confirm(path)
            }
        },
    }
}

/// The reasons a checkout is unsafe to remove, in order.
pub open spec fn spec_warnings(uncommitted: bool, unpushed: bool) -> Seq<Seq<char>> {
    (if uncommitted {
        seq!["uncommitted changes"@]
    } else {
        seq![]
    }) + (if unpushed {
        seq!["unpushed commits"@]
    } else {
        seq![]
    })
}

/// `ws` joined by ` and `.
pub open spec fn joined_and(ws: Seq<Seq<char>>) -> Seq<char>
    decreases ws.len(),
{
    if ws.len() == 0 {
        seq![]
    } else if ws.len() == 1 {
        ws[0]
    } else {
        joined_and(ws.drop_last()) + " and "@ + ws.last()
    }
}

/// The warning for a checkout that has uncommitted changes or unpushed commits,
/// or `None` when it has neither and is safe to remove without asking.
pub fn removal_warning(path: &str, uncommitted: bool, unpushed: bool) -> (r: Option<String>)
    ensures
        !uncommitted && !unpushed ==> r is None,
        uncommitted || unpushed ==> (r matches Some(m) && m@ == "Worktree at '"@ + path@
            + "' has "@ + joined_and(spec_warnings(uncommitted, unpushed)) + "."@),
{
    if !uncommitted && !unpushed {
        return None;
    }
    let mut v: Vec<char> = Vec::new();
    push_str(&mut v, "Worktree at '");
    push_str(&mut v, path);
    push_str(&mut v, "' has ");
    if uncommitted {
        push_str(&mut v, "uncommitted changes");
        if unpushed {
            push_str(&mut v, " and ");
            push_str(&mut v, "unpushed commits");
        }
    } else {
        push_str(&mut v, "unpushed commits");
    }
    push_str(&mut v, ".");
    proof {
        let ws = spec_warnings(uncommitted, unpushed);
        let head = "Worktree at '"@ + path@ + "' has "@;
        if uncommitted && unpushed {
            assert(ws =~= seq!["uncommitted changes"@, "unpushed commits"@]);
            assert(ws.drop_last() =~= seq!["uncommitted changes"@]);
            assert(joined_and(ws.drop_last()) == "uncommitted changes"@);
            assert(joined_and(ws) == "uncommitted changes"@ + " and "@ + "unpushed commits"@);
            assert(v@ =~= head + ("uncommitted changes"@ + " and "@ + "unpushed commits"@) + "."@);
        } else if uncommitted {
            assert(ws =~= seq!["uncommitted changes"@]);
            assert(v@ =~= head + "uncommitted changes"@ + "."@);
        } else {
            assert(ws =~= seq!["unpushed commits"@]);
            assert(v@ =~= head + "unpushed commits"@ + "."@);
        }
    }
    Some(string_of(&v))
}

pub open spec fn is_yes(c: char) -> bool {
    c == 'y' || c == 'Y'
}

/// Whether an answer to "Remove anyway? [y/N]" confirms: after trimming
/// whitespace it is `y`, in either case.
pub open spec fn spec_confirms(s: Seq<char>) -> bool {
    exists|k: int|
        0 <= k < s.len() && is_yes(#[trigger] s[k]) && forall|j: int|
            0 <= j < s.len() && j != k ==> chars::spec_is_whitespace(s[j])
}

/// Reads the user's answer to the removal prompt.
pub fn confirms_removal(response: &str) -> (r: bool)
    ensures
        r == spec_confirms(response@),
{
    let cs = chars_of(response);
    let ghost s = cs@;
    let mut found: Option<usize> = None;
    let mut i: usize = 0;
    while i < cs.len()
        invariant
            s == cs@,
            s == response@,
            i <= cs@.len(),
            match found {
                None => forall|j: int| 0 <= j < i ==> chars::spec_is_whitespace(s[j]),
                Some(k) => k < i && !chars::spec_is_whitespace(s[k as int]) && forall|j: int|
                    0 <= j < i && j != k ==> chars::spec_is_whitespace(s[j]),
            },
        decreases cs@.len() - i,
    {
        if !is_whitespace(cs[i]) {
            match found {
                Some(k) => {
                    proof {
                        assert forall|k0: int|
                            0 <= k0 < s.len() && is_yes(#[trigger] s[k0]) implies !(forall|j: int|
                            0 <= j < s.len() && j != k0 ==> chars::spec_is_whitespace(s[j])) by {
                            if k0 == k {
                                assert(!chars::spec_is_whitespace(s[i as int]));
                            } else {
                                assert(!chars::spec_is_whitespace(s[k as int]));
                            }
                        }
                    }
                    return false;
                },
                None => {
                    found = Some(i);
                },
            }
        }
        i = i + 1;
    }
    match found {
        Some(k) => {
            let c = cs[k];
            let yes = c == 'y' || c == 'Y';
            proof {
                if !yes {
                    assert forall|k0: int|
                        0 <= k0 < s.len() && is_yes(#[trigger] s[k0]) implies !(forall|j: int|
                        0 <= j < s.len() && j != k0 ==> chars::spec_is_whitespace(s[j])) by {
                        assert(k0 != k);
                        assert(!chars::spec_is_whitespace(s[k as int]));
                    }
                }
            }
            yes
        },
        None => {
            proof {
                assert forall|k0: int| 0 <= k0 < s.len() implies !is_yes(#[trigger] s[k0]) by {
                    assert(chars::spec_is_whitespace(s[k0]));
                }
            }
            false
        },
    }
}

} // verus!
