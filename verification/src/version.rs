//! Version compatibility check: a package declares a version-range
//! requirement; the running system's version must satisfy it.

use vstd::prelude::*;
use vstd::string::StringExecFns;
use crate::text::concat_strs;

verus! {

/// A semantic version of the running system.
#[derive(Clone, Copy, Debug, PartialEq, Eq, Structural)]
pub struct Version {
    pub major: u64,
    pub minor: u64,
    pub patch: u64,
}

/// A version-range requirement declared by a manifest.
#[derive(Clone, Copy, Debug, PartialEq, Eq, Structural)]
pub enum VersionRange {
    /// Any version satisfies the requirement.
    Any,
    /// Exactly the given version satisfies the requirement.
    Exactly(Version),
    /// The given version and everything above it satisfies the requirement.
    AtLeast(Version),
    /// Everything at or above the given version with the same major number
    /// satisfies the requirement.
    Compatible(Version),
}

pub open spec fn spec_version_le(a: Version, b: Version) -> bool {
    a.major < b.major || (a.major == b.major && (a.minor < b.minor || (a.minor == b.minor
        && a.patch <= b.patch)))
}

pub open spec fn spec_satisfies(v: Version, r: VersionRange) -> bool {
    match r {
        VersionRange::Any => true,
        VersionRange::Exactly(w) => v == w,
        VersionRange::AtLeast(w) => spec_version_le(w, v),
        VersionRange::Compatible(w) => spec_version_le(w, v) && v.major == w.major,
    }
}

pub fn version_le(a: &Version, b: &Version) -> (r: bool)
    ensures
        r == spec_version_le(*a, *b),
{
    if a.major != b.major {
        a.major < b.major
    } else if a.minor != b.minor {
        a.minor < b.minor
    } else {
        a.patch <= b.patch
    }
}

/// The character of one decimal digit.
pub open spec fn digit_char(d: nat) -> char {
    if d == 0 {
        '0'
    } else if d == 1 {
        '1'
    } else if d == 2 {
        '2'
    } else if d == 3 {
        '3'
    } else if d == 4 {
        '4'
    } else if d == 5 {
        '5'
    } else if d == 6 {
        '6'
    } else if d == 7 {
        '7'
    } else if d == 8 {
        '8'
    } else {
        '9'
    }
}

/// The decimal digits of `n`, most significant first, no leading zeros.
pub open spec fn spec_decimal(n: nat) -> Seq<char>
    decreases n,
{
    if n < 10 {
        seq![digit_char(n)]
    } else {
        spec_decimal(n / 10) + seq![digit_char(n % 10)]
    }
}

/// The `major.minor.patch` rendering of a version.
pub open spec fn spec_version_text(v: Version) -> Seq<char> {
    spec_decimal(v.major as nat) + "."@ + spec_decimal(v.minor as nat) + "."@ + spec_decimal(
        v.patch as nat,
    )
}

/// The rendering of a version-range requirement.
pub open spec fn spec_range_text(r: VersionRange) -> Seq<char> {
    match r {
        VersionRange::Any => "*"@,
        VersionRange::Exactly(v) => "="@ + spec_version_text(v),
        VersionRange::AtLeast(v) => ">="@ + spec_version_text(v),
        VersionRange::Compatible(v) => "^"@ + spec_version_text(v),
    }
}

/// The one-character string of a decimal digit.
fn digit_str(d: u64) -> (r: &'static str)
    requires
        d < 10,
    ensures
        r@ == seq![digit_char(d as nat)],
{
    proof {
        reveal_strlit("0");
        reveal_strlit("1");
        reveal_strlit("2");
        reveal_strlit("3");
        reveal_strlit("4");
        reveal_strlit("5");
        reveal_strlit("6");
        reveal_strlit("7");
        reveal_strlit("8");
        reveal_strlit("9");
        assert("0"@ =~= seq!['0']);
        assert("1"@ =~= seq!['1']);
        assert("2"@ =~= seq!['2']);
        assert("3"@ =~= seq!['3']);
        assert("4"@ =~= seq!['4']);
        assert("5"@ =~= seq!['5']);
        assert("6"@ =~= seq!['6']);
        assert("7"@ =~= seq!['7']);
        assert("8"@ =~= seq!['8']);
        assert("9"@ =~= seq!['9']);
    }
    if d == 0 {
        "0"
    } else if d == 1 {
        "1"
    } else if d == 2 {
        "2"
    } else if d == 3 {
        "3"
    } else if d == 4 {
        "4"
    } else if d == 5 {
        "5"
    } else if d == 6 {
        "6"
    } else if d == 7 {
        "7"
    } else if d == 8 {
        "8"
    } else {
        "9"
    }
}

/// The decimal rendering of an unsigned number.
pub fn u64_to_decimal(n: u64) -> (r: String)
    ensures
        r@ == spec_decimal(n as nat),
    decreases n,
{
    if n < 10 {
        let d = digit_str(n);
        d.to_owned()
    } else {
        let prefix = u64_to_decimal(n / 10);
        prefix.concat(digit_str(n % 10))
    }
}

/// The `major.minor.patch` rendering of a version.
pub fn version_text(v: &Version) -> (r: String)
    ensures
        r@ == spec_version_text(*v),
{
    let major = u64_to_decimal(v.major);
    let minor = u64_to_decimal(v.minor);
    let patch = u64_to_decimal(v.patch);
    major.concat(".").concat(minor.as_str()).concat(".").concat(patch.as_str())
}

/// The rendering of a version-range requirement, as an error names it.
pub fn range_text(r: &VersionRange) -> (res: String)
    ensures
        res@ == spec_range_text(*r),
{
    match r {
        VersionRange::Any => String::from_str("*"),
        VersionRange::Exactly(v) => concat_strs("=", version_text(v).as_str()),
        VersionRange::AtLeast(v) => concat_strs(">=", version_text(v).as_str()),
        VersionRange::Compatible(v) => concat_strs("^", version_text(v).as_str()),
    }
}

/// The pure predicate behind the version compatibility gate: does the
/// running system's version `v` satisfy the requirement `r`?
pub fn satisfies(v: &Version, r: &VersionRange) -> (ok: bool)
    ensures
        ok == spec_satisfies(*v, *r),
{
    match r {
        VersionRange::Any => true,
        VersionRange::Exactly(w) => v.major == w.major && v.minor == w.minor && v.patch
            == w.patch,
        VersionRange::AtLeast(w) => version_le(w, v),
        VersionRange::Compatible(w) => version_le(w, v) && v.major == w.major,
    }
}

} // verus!
