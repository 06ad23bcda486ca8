//! The manifest: identity, version requirement, declared assets, optional
//! public and shared directories, and the embedded image kind — together
//! with the checks the verifier runs against a decoded manifest.

use vstd::prelude::*;
use crate::errors::Error;
use crate::paths::is_path_prefix;
use crate::paths::path_is_safe;
use crate::paths::path_starts_with;
use crate::paths::validate_path;
use crate::text::str_eq;
use crate::version::Version;
use crate::version::VersionRange;
use crate::version::satisfies;
use crate::version::spec_satisfies;

verus! {

/// A packaged file or directory subtree: where it sits inside the archive
/// (`src`, package-local) and where it is placed at install time (`dst`).
#[derive(Debug, Clone)]
pub struct Asset {
    pub src: String,
    pub dst: String,
}

/// The kind of the embedded container image; exactly one kind exists: a
/// nested tar-format image archive follows the assets.
#[derive(Clone, Copy, Debug, PartialEq, Eq, Structural)]
pub enum ImageConfig {
    Tar,
}

/// The package manifest, as decoded from the archive's first entry.
#[derive(Debug, Clone)]
pub struct Manifest {
    pub id: String,
    pub os_version_required: VersionRange,
    pub has_instructions: bool,
    pub assets: Vec<Asset>,
    pub public: Option<String>,
    pub shared: Option<String>,
    pub image: ImageConfig,
}

/// The manifest's containment invariant: when both a public and a shared
/// directory are declared, neither may contain the other.
pub open spec fn public_shared_ok(m: Manifest) -> bool {
    (m.public is Some && m.shared is Some) ==> (!is_path_prefix((m.shared->0)@, (m.public->0)@)
        && !is_path_prefix((m.public->0)@, (m.shared->0)@))
}

/// Both declared directories, where present, are safe paths.
pub open spec fn public_shared_safe(m: Manifest) -> bool {
    &&& (m.public is Some ==> path_is_safe((m.public->0)@))
    &&& (m.shared is Some ==> path_is_safe((m.shared->0)@))
}

/// Everything `check_manifest` enforces: the running version satisfies the
/// requirement, the id equals the identifier expected from the file name,
/// and the public/shared directories respect containment and path safety.
pub open spec fn manifest_checks_ok(m: Manifest, expected_id: Seq<char>, current: Version) -> bool {
    &&& spec_satisfies(current, m.os_version_required)
    &&& m.id@ == expected_id
    &&& public_shared_ok(m)
    &&& public_shared_safe(m)
}

/// The checks the verifier runs on a freshly decoded manifest, in order:
/// version compatibility, identity, containment of the public and shared
/// directories, and their path safety.
pub fn check_manifest(m: &Manifest, expected_id: &str, current: &Version) -> (r: Result<(), Error>)
    ensures
        r is Ok <==> manifest_checks_ok(*m, expected_id@, *current),
        r is Err ==> match r->Err_0 {
            Error::VersionIncompatible(req) => req == m.os_version_required && !spec_satisfies(
                *current,
                m.os_version_required,
            ),
            Error::PackageCorrupted { expected, actual } => expected@ == expected_id@ && actual@
                == m.id@ && m.id@ != expected_id@,
            Error::InvalidDirectoryName(p) => m.public is Some && m.shared is Some && p@ == (
            m.public->0)@ && !public_shared_ok(*m),
            Error::InvalidFileName(p) => !path_is_safe(p@) && ((m.public is Some && p@ == (
            m.public->0)@) || (m.shared is Some && p@ == (m.shared->0)@)),
            _ => false,
        },
{
    if !satisfies(current, &m.os_version_required) {
        return Err(Error::VersionIncompatible(m.os_version_required));
    }
    if !str_eq(m.id.as_str(), expected_id) {
        return Err(
            Error::PackageCorrupted { expected: expected_id.to_owned(), actual: m.id.clone() },
        );
    }
    if let (Some(public), Some(shared)) = (&m.public, &m.shared) {
        if path_starts_with(public.as_str(), shared.as_str()) || path_starts_with(
            shared.as_str(),
            public.as_str(),
        ) {
            return Err(Error::InvalidDirectoryName(public.clone()));
        }
    }
    if let Some(public) = &m.public {
        validate_path(public.as_str())?;
    }
    if let Some(shared) = &m.shared {
        validate_path(shared.as_str())?;
    }
    Ok(())
}

} // verus!
