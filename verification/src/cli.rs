//! The command line: the two refs to compare.
use crate::chars;
use crate::chars::is_working_tree_ref;
use crate::paths;
use crate::paths::join_path;
use vstd::prelude::*;

verus! {

/// The refs given on the command line; the second is optional.
#[derive(Debug)]
pub struct Args {
    pub ref_a: String,
    pub ref_b: Option<String>,
}

impl Args {
    /// The two refs: a missing second ref is `.`, the working tree.
    pub fn resolve(self) -> (r: (String, String))
        ensures
            r.0@ == self.ref_a@,
            r.1@ == match self.ref_b {
                Some(b) => b@,
                None => chars::working_tree_ref(),
            },
    {
        let b = match self.ref_b {
            Some(b) => b,
            None => {
                let s = ".".to_owned();
                proof {
                    reveal_strlit(".");
                }
                assert(s@ =~= chars::working_tree_ref());
                s
            },
        };
        (self.ref_a, b)
    }
}

/// Both refs were `.`: the working tree can be only one side.
#[derive(Debug, PartialEq, Eq)]
pub struct BothWorkingTree;

impl BothWorkingTree {
    /// The message shown for this error.
    pub fn message(&self) -> (r: String)
        ensures
            r@ == "'.' may only appear once"@,
    {
        "'.' may only appear once".to_owned()
    }
}

/// Accepts the refs unless both are `.`.
pub fn validate_refs(ref_a: &str, ref_b: &str) -> (r: Result<(), BothWorkingTree>)
    ensures
        r is Err <==> (ref_a@ == chars::working_tree_ref() && ref_b@ == chars::working_tree_ref()),
{
    if is_working_tree_ref(ref_a) && is_working_tree_ref(ref_b) {
        Err(BothWorkingTree)
    } else {
        Ok(())
    }
}

/// Where a session's checkouts go: `<repo_root>/.grit/worktrees/<session id>`.
pub fn worktrees_dir(repo_root: &str, session_id: &str) -> (r: String)
    ensures
        r@ == paths::spec_join(
            paths::spec_join(paths::spec_join(repo_root@, ".grit"@), "worktrees"@),
            session_id@,
        ),
{
    let grit = join_path(repo_root, ".grit");
    let wt = join_path(grit.as_str(), "worktrees");
    join_path(wt.as_str(), session_id)
}

} // verus!
