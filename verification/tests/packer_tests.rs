use s9pack::errors::Error;
use s9pack::manifest::Asset;
use s9pack::manifest::ImageConfig;
use s9pack::manifest::Manifest;
use s9pack::packer::pack_plan;
use s9pack::packer::AssetSource;
use s9pack::stream::verify_entry_stream;
use s9pack::stream::EntryKind;
use s9pack::version::Version;
use s9pack::version::VersionRange;

fn current() -> Version {
    Version { major: 0, minor: 2, patch: 0 }
}

fn two_asset_manifest() -> Manifest {
    Manifest {
        id: String::from("my-app"),
        os_version_required: VersionRange::Any,
        has_instructions: true,
        assets: vec![
            Asset { src: String::from("app.conf"), dst: String::from("etc/app.conf") },
            Asset { src: String::from("data"), dst: String::from("srv/data") },
        ],
        public: None,
        shared: None,
        image: ImageConfig::Tar,
    }
}

fn two_asset_sources() -> Vec<AssetSource> {
    vec![
        AssetSource::File,
        AssetSource::Directory {
            members: vec![
                String::from("data/a.txt"),
                String::from("data/sub/b.txt"),
                String::from("data/sub/c.txt"),
            ],
        },
    ]
}

#[test]
fn packed_plan_passes_verification() {
    let m = two_asset_manifest();
    let plan = pack_plan(&m, &two_asset_sources(), &current()).unwrap();
    assert!(verify_entry_stream(&m, &plan).is_ok());
    assert_eq!(m.assets.len(), 2);
}

#[test]
fn packed_plan_has_the_documented_layout() {
    let m = two_asset_manifest();
    let plan = pack_plan(&m, &two_asset_sources(), &current()).unwrap();
    let names: Vec<&str> = plan.iter().map(|e| e.path.as_str()).collect();
    assert_eq!(
        names,
        vec![
            "manifest.cbor",
            "config_spec.cbor",
            "config_rules.cbor",
            "instructions.md",
            "app.conf",
            "data/",
            "data/a.txt",
            "data/sub/b.txt",
            "data/sub/c.txt",
            "APPMGR_DIR_END:data",
            "image.tar",
        ]
    );
    assert_eq!(plan[5].kind, EntryKind::Directory);
    assert_eq!(plan[4].kind, EntryKind::File);
}

#[test]
fn swapping_schema_and_rules_entries_is_corruption() {
    let m = two_asset_manifest();
    let mut plan = pack_plan(&m, &two_asset_sources(), &current()).unwrap();
    plan.swap(1, 2);
    match verify_entry_stream(&m, &plan) {
        Err(Error::PackageCorrupted { expected, actual }) => {
            assert_eq!(expected, "config_spec.cbor");
            assert_eq!(actual, "config_rules.cbor");
        },
        other => panic!("expected PackageCorrupted, got {:?}", other),
    }
}

#[test]
fn incompatible_version_aborts_packing() {
    let mut m = two_asset_manifest();
    m.os_version_required = VersionRange::Exactly(Version { major: 9, minor: 9, patch: 9 });
    assert!(matches!(
        pack_plan(&m, &two_asset_sources(), &current()),
        Err(Error::VersionIncompatible(_))
    ));
}

#[test]
fn unsafe_asset_source_aborts_packing() {
    let mut m = two_asset_manifest();
    m.assets[0].src = String::from("../evil");
    assert!(matches!(
        pack_plan(&m, &two_asset_sources(), &current()),
        Err(Error::InvalidFileName(_))
    ));
}

#[test]
fn asset_source_under_the_sentinel_prefix_aborts_packing() {
    let mut m = two_asset_manifest();
    m.assets[0].src = String::from("APPMGR_DIR_END:data");
    assert!(matches!(
        pack_plan(&m, &two_asset_sources(), &current()),
        Err(Error::InvalidFileName(_))
    ));
}

#[test]
fn member_outside_its_directory_aborts_packing() {
    let m = two_asset_manifest();
    let sources = vec![
        AssetSource::File,
        AssetSource::Directory { members: vec![String::from("elsewhere/a.txt")] },
    ];
    assert!(matches!(
        pack_plan(&m, &sources, &current()),
        Err(Error::InvalidFileName(_))
    ));
}

#[test]
fn tampering_with_the_image_entry_is_corruption() {
    let m = two_asset_manifest();
    let mut plan = pack_plan(&m, &two_asset_sources(), &current()).unwrap();
    let last = plan.len() - 1;
    plan[last].path = String::from("image.tgz");
    match verify_entry_stream(&m, &plan) {
        Err(Error::PackageCorrupted { expected, actual }) => {
            assert_eq!(expected, "image.tar");
            assert_eq!(actual, "image.tgz");
        },
        other => panic!("expected PackageCorrupted, got {:?}", other),
    }
}

#[test]
fn truncated_plan_is_a_missing_section() {
    let m = two_asset_manifest();
    let mut plan = pack_plan(&m, &two_asset_sources(), &current()).unwrap();
    plan.pop();
    assert!(matches!(
        verify_entry_stream(&m, &plan),
        Err(Error::MissingSection(_))
    ));
}
