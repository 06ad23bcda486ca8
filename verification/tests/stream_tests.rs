use s9pack::errors::Error;
use s9pack::manifest::Asset;
use s9pack::manifest::ImageConfig;
use s9pack::manifest::Manifest;
use s9pack::stream::verify_entry_stream;
use s9pack::stream::EntryHeader;
use s9pack::stream::EntryKind;
use s9pack::version::VersionRange;

fn entry(path: &str, kind: EntryKind) -> EntryHeader {
    EntryHeader { path: String::from(path), kind }
}

fn manifest_with_dir_asset() -> Manifest {
    Manifest {
        id: String::from("my-app"),
        os_version_required: VersionRange::Any,
        has_instructions: false,
        assets: vec![Asset { src: String::from("data"), dst: String::from("srv/data") }],
        public: None,
        shared: None,
        image: ImageConfig::Tar,
    }
}

fn control_entries() -> Vec<EntryHeader> {
    vec![
        entry("manifest.cbor", EntryKind::File),
        entry("config_spec.cbor", EntryKind::File),
        entry("config_rules.cbor", EntryKind::File),
    ]
}

#[test]
fn directory_without_boundary_marker_is_missing_marker() {
    let m = manifest_with_dir_asset();
    let mut es = control_entries();
    es.push(entry("data/", EntryKind::Directory));
    es.push(entry("data/a.txt", EntryKind::File));
    es.push(entry("data/b.txt", EntryKind::File));
    match verify_entry_stream(&m, &es) {
        Err(Error::MissingSection(s)) => {
            assert_eq!(s, "directory end marker: APPMGR_DIR_END:data");
        },
        other => panic!("expected MissingSection, got {:?}", other),
    }
}

#[test]
fn directory_with_boundary_marker_succeeds() {
    let m = manifest_with_dir_asset();
    let mut es = control_entries();
    es.push(entry("data/", EntryKind::Directory));
    es.push(entry("data/a.txt", EntryKind::File));
    es.push(entry("data/b.txt", EntryKind::File));
    es.push(entry("APPMGR_DIR_END:data", EntryKind::File));
    es.push(entry("image.tar", EntryKind::File));
    assert!(verify_entry_stream(&m, &es).is_ok());
}

#[test]
fn foreign_entry_inside_directory_is_corruption() {
    let m = manifest_with_dir_asset();
    let mut es = control_entries();
    es.push(entry("data/", EntryKind::Directory));
    es.push(entry("data/a.txt", EntryKind::File));
    es.push(entry("elsewhere/b.txt", EntryKind::File));
    es.push(entry("APPMGR_DIR_END:data", EntryKind::File));
    es.push(entry("image.tar", EntryKind::File));
    match verify_entry_stream(&m, &es) {
        Err(Error::PackageCorrupted { expected, actual }) => {
            assert_eq!(expected, "data/");
            assert_eq!(actual, "elsewhere/b.txt");
        },
        other => panic!("expected PackageCorrupted, got {:?}", other),
    }
}

#[test]
fn asset_entry_of_directory_type_needs_trailing_separator() {
    let m = manifest_with_dir_asset();
    let mut es = control_entries();
    es.push(entry("data", EntryKind::Directory));
    match verify_entry_stream(&m, &es) {
        Err(Error::PackageCorrupted { expected, actual }) => {
            assert_eq!(expected, "data/");
            assert_eq!(actual, "data");
        },
        other => panic!("expected PackageCorrupted, got {:?}", other),
    }
}

#[test]
fn empty_stream_is_missing_manifest() {
    let m = manifest_with_dir_asset();
    match verify_entry_stream(&m, &Vec::new()) {
        Err(Error::MissingSection(s)) => assert_eq!(s, "manifest"),
        other => panic!("expected MissingSection, got {:?}", other),
    }
}

#[test]
fn instructions_entry_is_required_when_declared() {
    let mut m = manifest_with_dir_asset();
    m.has_instructions = true;
    m.assets = Vec::new();
    let mut es = control_entries();
    es.push(entry("image.tar", EntryKind::File));
    match verify_entry_stream(&m, &es) {
        Err(Error::PackageCorrupted { expected, actual }) => {
            assert_eq!(expected, "instructions.md");
            assert_eq!(actual, "image.tar");
        },
        other => panic!("expected PackageCorrupted, got {:?}", other),
    }
}

#[test]
fn unsafe_declared_asset_path_is_rejected_before_reading_entries() {
    let mut m = manifest_with_dir_asset();
    m.assets = vec![Asset { src: String::from("../up"), dst: String::from("x") }];
    let es = control_entries();
    match verify_entry_stream(&m, &es) {
        Err(Error::InvalidFileName(p)) => assert_eq!(p, "../up"),
        other => panic!("expected InvalidFileName, got {:?}", other),
    }
}

#[test]
fn trailing_entries_after_image_are_tolerated() {
    let mut m = manifest_with_dir_asset();
    m.assets = Vec::new();
    let mut es = control_entries();
    es.push(entry("image.tar", EntryKind::File));
    es.push(entry("garbage", EntryKind::File));
    assert!(verify_entry_stream(&m, &es).is_ok());
}
