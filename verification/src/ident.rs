//! Package identifier derived from a candidate package file's name: the file
//! must carry the fixed package extension, and its base name must be a legal
//! identifier — non-empty, alphanumeric characters and hyphens only, and not
//! inside the reserved vendor namespace.

use vstd::prelude::*;
use vstd::string::StrSliceExecFns;
use crate::errors::Error;
use crate::text::spec_last_index_of;
use crate::text::spec_starts_with;
use crate::text::last_index_of;
use crate::text::lemma_last_index_of;
use crate::text::str_eq;
use crate::text::str_starts_with;

verus! {

/// What `char::is_alphanumeric` returns for a character; it depends on the
/// character alone.
pub uninterp spec fn is_alnum(c: char) -> bool;

/// Relies on char::is_alphanumeric: whether the character is alphabetic or
/// numeric under Unicode's categories, a function of the character alone.
#[verifier::external_body]
fn char_is_alphanumeric(c: char) -> (r: bool)
    ensures
        r == is_alnum(c),
{
    c.is_alphanumeric()
}

/// Every character of `id` is alphanumeric or a hyphen.
pub open spec fn valid_id_chars(id: Seq<char>) -> bool {
    forall|i: int| 0 <= i < id.len() ==> is_alnum(id[i]) || id[i] == '-'
}

/// A legal package identifier: non-empty, alphanumeric and hyphens only, and
/// not beginning with the reserved vendor prefix.
pub open spec fn valid_package_id(id: Seq<char>) -> bool {
    id.len() > 0 && !spec_starts_with(id, "start9"@) && valid_id_chars(id)
}

/// `s` with every trailing path separator removed.
pub open spec fn trim_trailing_slashes(s: Seq<char>) -> Seq<char>
    decreases s.len(),
{
    if s.len() > 0 && s.last() == '/' {
        trim_trailing_slashes(s.drop_last())
    } else {
        s
    }
}

/// The base file name of `s`: what follows the last separator, after
/// trailing separators are dropped.
pub open spec fn base_name_of(s: Seq<char>) -> Seq<char> {
    let t = trim_trailing_slashes(s);
    t.subrange(spec_last_index_of(t, '/') + 1, t.len() as int)
}

/// The package identifier that the file name `s` yields, if any: the base
/// name must split at its last dot into a legal identifier and the fixed
/// package extension.
pub open spec fn spec_package_id(s: Seq<char>) -> Option<Seq<char>> {
    let f = base_name_of(s);
    let k = spec_last_index_of(f, '.');
    if k <= 0 {
        None
    } else if f.subrange(k + 1, f.len() as int) == "s9pk"@ && valid_package_id(
        f.subrange(0, k),
    ) {
        Some(f.subrange(0, k))
    } else {
        None
    }
}

/// The default output file name for a package: its identifier with the
/// fixed package extension appended.
pub fn default_output_name(id: &str) -> (r: String)
    ensures
        r@ == id@ + ".s9pk"@,
{
    crate::text::concat_strs(id, ".s9pk")
}

/// A valid package identifier that moreover contains no separator and no
/// dot (alphanumeric characters are neither, but the characters accepted by
/// `is_alnum` are known here only by name) parses back out of the default
/// output file name `<id>.s9pk`.
pub proof fn lemma_package_id_of_default_name(id: Seq<char>)
    requires
        valid_package_id(id),
        forall|i: int| 0 <= i < id.len() ==> id[i] != '/' && id[i] != '.',
    ensures
        spec_package_id(id + ".s9pk"@) == Some(id),
{
    reveal_strlit(".s9pk");
    reveal_strlit("s9pk");
    let s = id + ".s9pk"@;
    let idn = id.len() as int;
    assert(".s9pk"@.len() == 5);
    assert(s.len() == idn + 5);
    assert(s[idn] == '.');
    assert(s[idn + 1] == 's');
    assert(s[idn + 2] == '9');
    assert(s[idn + 3] == 'p');
    assert(s[idn + 4] == 'k');
    assert(s.last() == 'k');
    assert(trim_trailing_slashes(s) == s);
    lemma_last_index_of(s, '/');
    let rs = spec_last_index_of(s, '/');
    if rs >= 0 {
        assert(s[rs] == '/');
        if rs < idn {
            assert(id[rs] == '/');
        } else {
            assert(rs == idn || rs == idn + 1 || rs == idn + 2 || rs == idn + 3 || rs == idn
                + 4);
        }
        assert(false);
    }
    let f = base_name_of(s);
    assert(f =~= s);
    lemma_last_index_of(s, '.');
    let k = spec_last_index_of(s, '.');
    if k < idn {
        assert(s[idn] != '.');
        assert(false);
    }
    if k > idn {
        assert(s[k] == '.');
        assert(k == idn + 1 || k == idn + 2 || k == idn + 3 || k == idn + 4);
        assert(false);
    }
    assert(k == idn);
    assert forall|t: int| 0 <= t < 4 implies f.subrange(k + 1, f.len() as int)[t]
        == "s9pk"@[t] by {
        assert(f.subrange(k + 1, f.len() as int)[t] == s[idn + 1 + t]);
        assert(t == 0 || t == 1 || t == 2 || t == 3);
    }
    assert(f.subrange(k + 1, f.len() as int) =~= "s9pk"@);
    assert(f.subrange(0, k) =~= id);
}

/// The base file name of `p`, with trailing separators dropped first.
fn base_name(p: &str) -> (r: String)
    ensures
        r@ == base_name_of(p@),
{
    let n = p.unicode_len();
    let mut end = n;
    proof {
        assert(p@.subrange(0, n as int) =~= p@);
    }
    while end > 0 && p.get_char(end - 1) == '/'
        invariant
            0 <= end <= n,
            n == p@.len(),
            trim_trailing_slashes(p@) == trim_trailing_slashes(p@.subrange(0, end as int)),
        decreases end,
    {
        proof {
            assert(p@.subrange(0, end as int).last() == p@[end - 1]);
            assert(p@.subrange(0, end as int).drop_last() =~= p@.subrange(0, end as int - 1));
        }
        end = end - 1;
    }
    let trimmed = p.substring_char(0, end);
    proof {
        if end > 0 {
            assert(p@.subrange(0, end as int).last() == p@[end - 1]);
        }
        assert(trim_trailing_slashes(p@.subrange(0, end as int)) == p@.subrange(0, end as int));
        lemma_last_index_of(trimmed@, '/');
    }
    let start = match last_index_of(trimmed, '/') {
        Some(i) => i + 1,
        None => 0,
    };
    let base = trimmed.substring_char(start, end);
    proof {
        assert(base@ =~= base_name_of(p@));
    }
    base.to_owned()
}

/// Derives the expected package identifier from a candidate package file's
/// path: requires the fixed `s9pk` extension and a legal identifier as base
/// name. Any violation is an `InvalidFileName` error carrying the path.
pub fn package_id_from_path(p: &str) -> (r: Result<String, Error>)
    ensures
        r is Ok ==> spec_package_id(p@) == Some(r->Ok_0@),
        r is Err ==> spec_package_id(p@) is None,
        r is Err ==> r->Err_0 is InvalidFileName && r->Err_0->InvalidFileName_0@ == p@,
{
    let f = base_name(p);
    proof {
        lemma_last_index_of(f@, '.');
    }
    let k = match last_index_of(f.as_str(), '.') {
        Some(i) => i,
        None => {
            return Err(Error::InvalidFileName(p.to_owned()));
        },
    };
    if k == 0 {
        return Err(Error::InvalidFileName(p.to_owned()));
    }
    let fn_len = f.as_str().unicode_len();
    let ext = f.as_str().substring_char(k + 1, fn_len);
    if !str_eq(ext, "s9pk") {
        return Err(Error::InvalidFileName(p.to_owned()));
    }
    let stem = f.as_str().substring_char(0, k);
    if str_starts_with(stem, "start9") {
        return Err(Error::InvalidFileName(p.to_owned()));
    }
    let stem_len = stem.unicode_len();
    let mut i: usize = 0;
    while i < stem_len
        invariant
            0 <= i <= stem_len,
            stem_len == stem@.len(),
            forall|j: int| 0 <= j < i ==> is_alnum(stem@[j]) || stem@[j] == '-',
            spec_package_id(p@) == if valid_id_chars(stem@) {
                Some(stem@)
            } else {
                None::<Seq<char>>
            },
        decreases stem_len - i,
    {
        let c = stem.get_char(i);
        if !char_is_alphanumeric(c) && c != '-' {
            assert(!valid_id_chars(stem@)) by {
                assert(!(is_alnum(stem@[i as int]) || stem@[i as int] == '-'));
            }
            return Err(Error::InvalidFileName(p.to_owned()));
        }
        i = i + 1;
    }
    Ok(stem.to_owned())
}

} // verus!
