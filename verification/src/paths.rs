//! Paths, held as strings: joining, comparison and prefix tests with std's
//! `Path` rules on Unix.
use crate::chars::{chars_of, string_of};
use vstd::prelude::*;

verus! {

/// `base` joined with `seg` as std's `Path::join` does it on Unix: an absolute
/// `seg` replaces `base`; otherwise a `/` is put between them unless `base` is
/// empty or already ends in one.
pub open spec fn spec_join(base: Seq<char>, seg: Seq<char>) -> Seq<char> {
    if seg.len() > 0 && seg[0] == '/' {
        seg
    } else if base.len() > 0 && base.last() != '/' {
        base + seq!['/'] + seg
    } else {
        base + seg
    }
}

/// Joins `seg` onto `base` (std's `Path::join`, Unix rules).
pub fn join_path(base: &str, seg: &str) -> (r: String)
    ensures
        r@ == spec_join(base@, seg@),
{
    let b = chars_of(base);
    let s = chars_of(seg);
    if s.len() > 0 && s[0] == '/' {
        return string_of(&s);
    }
    let mut out = b.clone();
    let n = b.len();
    if n > 0 && b[n - 1] != '/' {
        out.push('/');
    }
    let ghost prefix = out@;
    let mut i: usize = 0;
    while i < s.len()
        invariant
            i <= s@.len(),
            out@ =~= prefix + s@.take(i as int),
        decreases s@.len() - i,
    {
        out.push(s[i]);
        i = i + 1;
    }
    assert(s@.take(s@.len() as int) =~= s@);
    proof {
        if n > 0 && b@[n - 1] != '/' {
            assert(prefix =~= b@ + seq!['/']);
        } else {
            assert(prefix =~= b@);
        }
    }
    string_of(&out)
}

/// Whether std's `Path` equality holds between `a` and `b` (it compares paths
/// component by component).
pub uninterp spec fn path_eq(a: Seq<char>, b: Seq<char>) -> bool;

/// std's `==` on `Path::new(a)` and `Path::new(b)`. The result is named; the
/// contract also states that equal strings are equal paths. How components are
/// normalised (repeated or trailing separators, `.`) is left to the name.
#[verifier::external_body]
pub(crate) fn same_path(a: &str, b: &str) -> (r: bool)
    ensures
        r == path_eq(a@, b@),
        a@ == b@ ==> r,
{
    std::path::Path::new(a) == std::path::Path::new(b)
}

/// Whether std's `Path::starts_with` holds: `base` is a prefix of `p` in whole
/// components.
pub uninterp spec fn path_starts_with(p: Seq<char>, base: Seq<char>) -> bool;

/// std's `Path::new(p).starts_with(base)`. The result is named; which component
/// prefixes count is left to the name.
#[verifier::external_body]
pub(crate) fn starts_with_path(p: &str, base: &str) -> (r: bool)
    ensures
        r == path_starts_with(p@, base@),
{
    std::path::Path::new(p).starts_with(base)
}

} // verus!
