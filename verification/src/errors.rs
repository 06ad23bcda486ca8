//! The error taxonomy of packing and verification. Every failure is terminal
//! for the operation that raised it; the variant and its payload name the
//! first check that failed.

use vstd::prelude::*;
use vstd::string::StringExecFns;
use crate::text::concat_strs;
use crate::version::VersionRange;
use crate::version::range_text;
use crate::version::spec_range_text;

verus! {

#[derive(Debug, Clone)]
pub enum Error {
    /// A source or output directory whose name cannot be used.
    InvalidDirectoryName(String),
    /// A path that is absolute, escapes its root, or is not a legal package
    /// file name; carries the offending path.
    InvalidFileName(String),
    /// An output path that cannot be written; carries the path.
    InvalidOutputPath(String),
    /// The running system's version does not satisfy the manifest's
    /// requirement; carries the requirement.
    VersionIncompatible(VersionRange),
    /// An entry was present but had the wrong name, type or position;
    /// carries the expected and the actual entry name.
    PackageCorrupted { expected: String, actual: String },
    /// The stream ended before a required entry appeared; carries the name
    /// of the missing logical section.
    MissingSection(String),
    /// The embedded image claims a tag inside the reserved vendor namespace
    /// that does not belong to this package; carries the tag.
    PolicyViolation(String),
    /// The configuration schema, the generated default value, or a
    /// consistency rule disagree; carries the failing step's context.
    ConfigInconsistent(String),
}

impl Error {
    /// A human-readable description of the error.
    pub fn message(&self) -> (r: String)
        ensures
            match self {
                Error::InvalidDirectoryName(p) => r@ == "Invalid Directory Name: "@ + p@,
                Error::InvalidFileName(p) => r@ == "Invalid File Name: "@ + p@,
                Error::InvalidOutputPath(p) => r@ == "Invalid Output Path: "@ + p@,
                Error::VersionIncompatible(req) => r@ == "Unsupported system version: expected "@
                    + spec_range_text(*req),
                Error::PackageCorrupted { expected, actual } => r@
                    == "Package File Invalid or Corrupted: expected "@ + expected@ + ", got "@
                    + actual@,
                Error::MissingSection(s) => r@ == "missing "@ + s@,
                Error::PolicyViolation(t) => r@ == "Contains prohibited image tag: "@ + t@,
                Error::ConfigInconsistent(c) => r@ == "Config Inconsistent: "@ + c@,
            },
    {
        match self {
            Error::InvalidDirectoryName(p) => String::from_str("Invalid Directory Name: ").concat(
                p.as_str(),
            ),
            Error::InvalidFileName(p) => String::from_str("Invalid File Name: ").concat(p.as_str()),
            Error::InvalidOutputPath(p) => String::from_str("Invalid Output Path: ").concat(
                p.as_str(),
            ),
            Error::VersionIncompatible(req) => concat_strs(
                "Unsupported system version: expected ",
                range_text(req).as_str(),
            ),
            Error::PackageCorrupted { expected, actual } => String::from_str(
                "Package File Invalid or Corrupted: expected ",
            ).concat(expected.as_str()).concat(", got ").concat(actual.as_str()),
            Error::MissingSection(s) => String::from_str("missing ").concat(s.as_str()),
            Error::PolicyViolation(t) => String::from_str("Contains prohibited image tag: ").concat(
                t.as_str(),
            ),
            Error::ConfigInconsistent(c) => String::from_str("Config Inconsistent: ").concat(
                c.as_str(),
            ),
        }
    }
}

} // verus!
