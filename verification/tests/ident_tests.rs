use s9pack::errors::Error;
use s9pack::ident::default_output_name;
use s9pack::ident::package_id_from_path;

#[test]
fn default_output_name_round_trips_to_the_identifier() {
    let name = default_output_name("my-app");
    assert_eq!(name, "my-app.s9pk");
    assert_eq!(package_id_from_path(&name).unwrap(), "my-app");
}

#[test]
fn rejects_reserved_vendor_prefix() {
    assert!(package_id_from_path("start9-test.s9pk").is_err());
    assert!(package_id_from_path("start9.s9pk").is_err());
}

#[test]
fn rejects_underscore_in_identifier() {
    assert!(matches!(
        package_id_from_path("my_app.s9pk"),
        Err(Error::InvalidFileName(_))
    ));
}

#[test]
fn accepts_hyphenated_identifier() {
    assert_eq!(package_id_from_path("my-app.s9pk").unwrap(), "my-app");
}

#[test]
fn accepts_identifier_under_a_directory() {
    assert_eq!(package_id_from_path("some/dir/my-app.s9pk").unwrap(), "my-app");
    assert_eq!(package_id_from_path("my-app.s9pk/").unwrap(), "my-app");
}

#[test]
fn rejects_wrong_or_missing_extension() {
    assert!(package_id_from_path("my-app.tar").is_err());
    assert!(package_id_from_path("my-app").is_err());
    assert!(package_id_from_path(".s9pk").is_err());
}

#[test]
fn error_carries_the_whole_path() {
    match package_id_from_path("dir/my_app.s9pk") {
        Err(Error::InvalidFileName(p)) => assert_eq!(p, "dir/my_app.s9pk"),
        other => panic!("expected InvalidFileName, got {:?}", other),
    }
}
