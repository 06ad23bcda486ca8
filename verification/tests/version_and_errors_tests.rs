use s9pack::commands::Output;
use s9pack::commands::Pack;
use s9pack::commands::PackPath;
use s9pack::commands::Verify;
use s9pack::commands::VerifyPath;
use s9pack::errors::Error;
use s9pack::version::satisfies;
use s9pack::version::Version;
use s9pack::version::VersionRange;

fn v(major: u64, minor: u64, patch: u64) -> Version {
    Version { major, minor, patch }
}

#[test]
fn any_range_is_always_satisfied() {
    assert!(satisfies(&v(0, 0, 0), &VersionRange::Any));
    assert!(satisfies(&v(9, 9, 9), &VersionRange::Any));
}

#[test]
fn exact_range_is_satisfied_only_by_itself() {
    let r = VersionRange::Exactly(v(1, 2, 3));
    assert!(satisfies(&v(1, 2, 3), &r));
    assert!(!satisfies(&v(1, 2, 4), &r));
    assert!(!satisfies(&v(1, 2, 2), &r));
}

#[test]
fn at_least_range_orders_lexicographically() {
    let r = VersionRange::AtLeast(v(1, 2, 3));
    assert!(satisfies(&v(1, 2, 3), &r));
    assert!(satisfies(&v(1, 3, 0), &r));
    assert!(satisfies(&v(2, 0, 0), &r));
    assert!(!satisfies(&v(1, 2, 2), &r));
    assert!(!satisfies(&v(0, 9, 9), &r));
}

#[test]
fn compatible_range_keeps_the_major_number() {
    let r = VersionRange::Compatible(v(1, 2, 3));
    assert!(satisfies(&v(1, 2, 3), &r));
    assert!(satisfies(&v(1, 9, 0), &r));
    assert!(!satisfies(&v(2, 0, 0), &r));
    assert!(!satisfies(&v(1, 2, 2), &r));
}

#[test]
fn decimal_rendering_is_exact() {
    assert_eq!(s9pack::version::u64_to_decimal(0), "0");
    assert_eq!(s9pack::version::u64_to_decimal(7), "7");
    assert_eq!(s9pack::version::u64_to_decimal(1234567890), "1234567890");
    assert_eq!(s9pack::version::version_text(&v(10, 0, 3)), "10.0.3");
    assert_eq!(s9pack::version::range_text(&VersionRange::Any), "*");
    assert_eq!(s9pack::version::range_text(&VersionRange::Compatible(v(1, 2, 3))), "^1.2.3");
}

#[test]
fn version_error_names_the_requirement() {
    let e = Error::VersionIncompatible(VersionRange::AtLeast(v(1, 2, 3)));
    assert_eq!(e.message(), "Unsupported system version: expected >=1.2.3");
}

#[test]
fn first_entry_must_be_the_manifest_section() {
    assert!(s9pack::stream::check_manifest_entry_name("manifest.cbor").is_ok());
    match s9pack::stream::check_manifest_entry_name("evil.bin") {
        Err(Error::PackageCorrupted { expected, actual }) => {
            assert_eq!(expected, "manifest.cbor");
            assert_eq!(actual, "evil.bin");
        },
        other => panic!("expected PackageCorrupted, got {:?}", other),
    }
}

#[test]
fn error_messages_carry_their_context() {
    let e = Error::InvalidFileName(String::from("../x"));
    assert_eq!(e.message(), "Invalid File Name: ../x");
    let e = Error::PackageCorrupted {
        expected: String::from("manifest.cbor"),
        actual: String::from("evil.bin"),
    };
    assert_eq!(
        e.message(),
        "Package File Invalid or Corrupted: expected manifest.cbor, got evil.bin"
    );
    let e = Error::MissingSection(String::from("image.tar"));
    assert_eq!(e.message(), "missing image.tar");
    let e = Error::PolicyViolation(String::from("start9/evil:latest"));
    assert_eq!(e.message(), "Contains prohibited image tag: start9/evil:latest");
}

#[test]
fn command_descriptors_expose_their_names() {
    assert_eq!(Pack.name(), "pack");
    assert_eq!(Verify.name(), "verify");
    assert_eq!(Output.name(), "output");
    assert_eq!(Output.short(), Some("o"));
    assert_eq!(Output.long(), Some("output"));
    assert!(Output.takes_value());
    assert_eq!(PackPath.name(), "PATH");
    assert!(PackPath.required());
    assert_eq!(VerifyPath.name(), "PATH");
    assert!(VerifyPath.required());
    assert!(Pack.about().is_some());
    assert!(Verify.about().is_some());
    assert!(PackPath.help().is_some());
    assert!(VerifyPath.help().is_some());
}
