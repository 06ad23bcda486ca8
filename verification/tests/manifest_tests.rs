use s9pack::errors::Error;
use s9pack::manifest::check_manifest;
use s9pack::manifest::ImageConfig;
use s9pack::manifest::Manifest;
use s9pack::version::Version;
use s9pack::version::VersionRange;

fn base_manifest() -> Manifest {
    Manifest {
        id: String::from("my-app"),
        os_version_required: VersionRange::Any,
        has_instructions: false,
        assets: Vec::new(),
        public: None,
        shared: None,
        image: ImageConfig::Tar,
    }
}

fn current() -> Version {
    Version { major: 0, minor: 2, patch: 0 }
}

#[test]
fn accepts_matching_manifest() {
    let m = base_manifest();
    assert!(check_manifest(&m, "my-app", &current()).is_ok());
}

#[test]
fn rejects_mismatched_id() {
    let m = base_manifest();
    match check_manifest(&m, "other-app", &current()) {
        Err(Error::PackageCorrupted { expected, actual }) => {
            assert_eq!(expected, "other-app");
            assert_eq!(actual, "my-app");
        },
        other => panic!("expected PackageCorrupted, got {:?}", other),
    }
}

#[test]
fn rejects_incompatible_version() {
    let mut m = base_manifest();
    m.os_version_required = VersionRange::AtLeast(Version { major: 1, minor: 0, patch: 0 });
    match check_manifest(&m, "my-app", &current()) {
        Err(Error::VersionIncompatible(_)) => {},
        other => panic!("expected VersionIncompatible, got {:?}", other),
    }
}

#[test]
fn rejects_public_inside_shared() {
    let mut m = base_manifest();
    m.public = Some(String::from("a/b"));
    m.shared = Some(String::from("a"));
    assert!(matches!(
        check_manifest(&m, "my-app", &current()),
        Err(Error::InvalidDirectoryName(_))
    ));
}

#[test]
fn rejects_shared_inside_public() {
    let mut m = base_manifest();
    m.public = Some(String::from("a"));
    m.shared = Some(String::from("a/b"));
    assert!(matches!(
        check_manifest(&m, "my-app", &current()),
        Err(Error::InvalidDirectoryName(_))
    ));
}

#[test]
fn accepts_disjoint_public_and_shared() {
    let mut m = base_manifest();
    m.public = Some(String::from("a"));
    m.shared = Some(String::from("b"));
    assert!(check_manifest(&m, "my-app", &current()).is_ok());
}

#[test]
fn rejects_unsafe_public_directory() {
    let mut m = base_manifest();
    m.public = Some(String::from("../outside"));
    assert!(matches!(
        check_manifest(&m, "my-app", &current()),
        Err(Error::InvalidFileName(_))
    ));
}
