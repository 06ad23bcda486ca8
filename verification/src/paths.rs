//! Path Safety Validator: the sole defense against archive entries escaping
//! their installation root. A path is safe iff it is not absolute and no
//! segment of it is the parent-directory token `..`.

use vstd::prelude::*;
use vstd::string::StrSliceExecFns;
use crate::errors::Error;
use crate::text::str_eq;
use crate::text::str_starts_with;
use crate::text::spec_starts_with;

verus! {

pub open spec fn is_absolute_path(s: Seq<char>) -> bool {
    s.len() > 0 && s[0] == '/'
}

/// A parent-directory segment `..` stands at index `i` of `s`: the two dots
/// fill a whole segment, bounded by separators or by the ends of the path.
pub open spec fn dotdot_at(s: Seq<char>, i: int) -> bool {
    &&& 0 <= i
    &&& i + 2 <= s.len()
    &&& s[i] == '.'
    &&& s[i + 1] == '.'
    &&& (i == 0 || s[i - 1] == '/')
    &&& (i + 2 == s.len() || s[i + 2] == '/')
}

pub open spec fn has_parent_segment(s: Seq<char>) -> bool {
    exists|i: int| dotdot_at(s, i)
}

/// The Path Safety Validator's acceptance set: relative paths with no
/// parent-directory segment.
pub open spec fn path_is_safe(s: Seq<char>) -> bool {
    !is_absolute_path(s) && !has_parent_segment(s)
}

/// Accepts exactly the safe paths; any violation is an `InvalidFileName`
/// error carrying the offending path.
pub fn validate_path(p: &str) -> (r: Result<(), Error>)
    ensures
        r is Ok <==> path_is_safe(p@),
        r is Err ==> r->Err_0 is InvalidFileName && r->Err_0->InvalidFileName_0@ == p@,
{
    let n = p.unicode_len();
    if n > 0 && p.get_char(0) == '/' {
        return Err(Error::InvalidFileName(p.to_owned()));
    }
    let mut i: usize = 0;
    while i < n
        invariant
            0 <= i <= n,
            n == p@.len(),
            forall|j: int| 0 <= j < i ==> !dotdot_at(p@, j),
        decreases n - i,
    {
        if n >= 2 && i <= n - 2 {
            let two_dots = p.get_char(i) == '.' && p.get_char(i + 1) == '.';
            let left_edge = i == 0 || p.get_char(i - 1) == '/';
            let right_edge = i + 2 == n || p.get_char(i + 2) == '/';
            if two_dots && left_edge && right_edge {
                assert(dotdot_at(p@, i as int));
                return Err(Error::InvalidFileName(p.to_owned()));
            }
        }
        assert(!dotdot_at(p@, i as int));
        i = i + 1;
    }
    assert forall|j: int| !dotdot_at(p@, j) by {
        if 0 <= j && j + 2 <= p@.len() {
            assert(j < n);
        }
    }
    Ok(())
}

/// Component-wise path containment: `p` is a prefix of `q` taken segment by
/// segment, so `a` contains `a` and `a/b` but not `ab`. The empty path is a
/// prefix of every path. Paths are compared as written: a declared
/// directory carrying a trailing separator (`a/`) is a different path from
/// `a` and is not normalized here.
pub open spec fn is_path_prefix(p: Seq<char>, q: Seq<char>) -> bool {
    ||| p.len() == 0
    ||| p == q
    ||| (p.len() < q.len() && spec_starts_with(q, p) && q[p.len() as int] == '/')
}

/// Whether the path `q` starts with the path `p`, segment by segment.
pub fn path_starts_with(q: &str, p: &str) -> (r: bool)
    ensures
        r == is_path_prefix(p@, q@),
{
    let pn = p.unicode_len();
    let qn = q.unicode_len();
    if pn == 0 {
        return true;
    }
    if str_eq(q, p) {
        return true;
    }
    pn < qn && str_starts_with(q, p) && q.get_char(pn) == '/'
}

} // verus!
