//! Image tag policy: the embedded container image may carry any tag outside
//! the reserved vendor namespace, but a tag inside it must name exactly this
//! package, preventing a package from claiming another vendor-namespaced
//! image identity.

use vstd::prelude::*;
use vstd::string::StrSliceExecFns;
use crate::errors::Error;
use crate::text::spec_first_index_of;
use crate::text::spec_starts_with;
use crate::text::first_index_of;
use crate::text::lemma_first_index_of;
use crate::text::concat_strs;
use crate::text::str_eq;
use crate::text::str_starts_with;

verus! {

/// The repository portion of a tag: everything before the first `:`, or the
/// whole tag when it has none.
pub open spec fn tag_repo(t: Seq<char>) -> Seq<char> {
    let i = spec_first_index_of(t, ':');
    if i == -1 {
        t
    } else {
        t.subrange(0, i)
    }
}

/// The policy on one tag for the package `id`: a tag outside the reserved
/// vendor namespace is unconstrained; one inside it must have exactly
/// `start9/<id>` as its repository portion.
pub open spec fn tag_allowed(t: Seq<char>, id: Seq<char>) -> bool {
    spec_starts_with(t, "start9/"@) ==> tag_repo(t) == "start9/"@ + id
}

/// Checks one tag against the policy for `package_id`.
pub fn check_image_tag(tag: &str, package_id: &str) -> (ok: bool)
    ensures
        ok == tag_allowed(tag@, package_id@),
{
    if !str_starts_with(tag, "start9/") {
        return true;
    }
    let expected = concat_strs("start9/", package_id);
    proof {
        lemma_first_index_of(tag@, ':');
    }
    let repo = match first_index_of(tag, ':') {
        Some(i) => tag.substring_char(0, i),
        None => tag,
    };
    proof {
        if spec_first_index_of(tag@, ':') == -1 {
            assert(repo@ == tag_repo(tag@));
        }
    }
    str_eq(repo, expected.as_str())
}

/// Checks every repository tag of the embedded image against the policy; a
/// violating tag is a `PolicyViolation` error carrying that tag. The first
/// violating tag, in order, is reported.
pub fn check_image_tags(tags: &Vec<String>, package_id: &str) -> (r: Result<(), Error>)
    ensures
        r is Ok <==> (forall|i: int|
            0 <= i < tags@.len() ==> tag_allowed(tags@[i]@, package_id@)),
        r is Err ==> r->Err_0 is PolicyViolation && (exists|i: int|
            0 <= i < tags@.len() && tags@[i]@ == r->Err_0->PolicyViolation_0@ && !tag_allowed(
                tags@[i]@,
                package_id@,
            ) && (forall|j: int| 0 <= j < i ==> tag_allowed(tags@[j]@, package_id@))),
{
    let n = tags.len();
    let mut i: usize = 0;
    while i < n
        invariant
            0 <= i <= n,
            n == tags@.len(),
            forall|j: int| 0 <= j < i ==> tag_allowed(tags@[j]@, package_id@),
        decreases n - i,
    {
        let tag = &tags[i];
        if !check_image_tag(tag.as_str(), package_id) {
            return Err(Error::PolicyViolation(tag.clone()));
        }
        i = i + 1;
    }
    Ok(())
}

} // verus!
