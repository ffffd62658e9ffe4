//! The installation pipeline run against in-memory archives: the archive
//! bytes are built with the zip crate, the manifest entry is read back
//! through the library, and the profile is updated as an install would.

use std::io::{Cursor, Write};

use gpm_core::error::GpmError;
use gpm_core::install::read_manifest_from_archive;
use gpm_core::package::Package;
use gpm_core::stored_package_information::StoredPackageInformation;

fn build_zip(entries: &[(&str, &[u8])]) -> Vec<u8> {
    let mut writer = zip::ZipWriter::new(Cursor::new(Vec::new()));
    let options = zip::write::SimpleFileOptions::default();
    for (name, contents) in entries {
        writer.start_file(*name, options).unwrap();
        writer.write_all(contents).unwrap();
    }
    writer.finish().unwrap().into_inner()
}

fn string_field(value: &serde_json::Value, field: &str) -> Option<String> {
    value.get(field).and_then(|v| v.as_str()).map(String::from)
}

fn parse_manifest(bytes: &[u8]) -> StoredPackageInformation {
    let value: serde_json::Value = serde_json::from_slice(bytes).unwrap();
    StoredPackageInformation {
        creator: string_field(&value, "creator"),
        identifier: string_field(&value, "identifier"),
        version: string_field(&value, "version"),
        display_name: string_field(&value, "display_name"),
        description: string_field(&value, "description"),
        license: string_field(&value, "license"),
        website_url: string_field(&value, "website_url"),
        dependencies: Vec::new(),
        tags: Vec::new(),
        install_strategies: Vec::new(),
        extra_data: Vec::new(),
    }
}

#[test]
fn manifest_entry_is_read_out_of_the_archive() {
    let manifest = br#"{"identifier": "hello_world", "version": "1.0.0"}"#;
    let archive = build_zip(&[
        ("config.json", manifest.as_slice()),
        ("data/content.txt", b"payload"),
    ]);
    let bytes = read_manifest_from_archive(&archive, "/downloads/mod.zip").unwrap();
    assert_eq!(bytes, manifest);
}

#[test]
fn archive_without_manifest_fails_with_manifest_missing() {
    let archive = build_zip(&[("data/content.txt", b"payload")]);
    let err = read_manifest_from_archive(&archive, "/downloads/mod.zip").unwrap_err();
    match err {
        GpmError::ManifestMissing { primary_path, .. } => {
            assert_eq!(primary_path, "config.json");
        }
        other => panic!("expected ManifestMissing, got {:?}", other),
    }
}

#[test]
fn unreadable_archive_fails_with_source_unreadable() {
    let not_an_archive = vec![0u8, 1, 2, 3, 4, 5];
    let err = read_manifest_from_archive(&not_an_archive, "/downloads/mod.zip").unwrap_err();
    match err {
        GpmError::SourceUnreadable { path, .. } => {
            assert_eq!(path, "/downloads/mod.zip");
        }
        other => panic!("expected SourceUnreadable, got {:?}", other),
    }
}

#[test]
fn unparsable_manifest_entry_is_manifest_corrupt() {
    let outcome: Result<StoredPackageInformation, String> =
        Err(String::from("expected a value"));
    let err = gpm_core::install::manifest_from_parse(outcome).unwrap_err();
    match err {
        GpmError::ManifestCorrupt { path, cause } => {
            assert_eq!(path, "config.json");
            assert_eq!(cause, "expected a value");
        }
        other => panic!("expected ManifestCorrupt, got {:?}", other),
    }
}

#[test]
fn parsed_manifest_entry_becomes_the_description() {
    let outcome: Result<StoredPackageInformation, String> = Ok(StoredPackageInformation {
        creator: None,
        identifier: Some(String::from("a_mod")),
        version: Some(String::from("1.0")),
        display_name: None,
        description: None,
        license: None,
        website_url: None,
        dependencies: Vec::new(),
        tags: Vec::new(),
        install_strategies: Vec::new(),
        extra_data: Vec::new(),
    });
    let information = gpm_core::install::manifest_from_parse(outcome).unwrap();
    assert_eq!(information.identifier(), &Some(String::from("a_mod")));
    assert_eq!(information.version(), &Some(String::from("1.0")));
}

#[test]
fn install_records_the_mod_in_the_profile() {
    // scaffold a profile, as the init command would in an empty folder
    let mut profile = Package::new_in_folder(String::from("/profile"));
    assert_eq!(
        profile.information.identifier(),
        &Some(String::from("package_id"))
    );
    assert_eq!(profile.information.version(), &Some(String::from("0.1")));

    // package a mod into an archive
    let manifest = br#"{"identifier": "hello_world", "version": "1.0.0"}"#;
    let archive = build_zip(&[
        ("config.json", manifest.as_slice()),
        ("data/content.txt", b"payload"),
    ]);

    // read the manifest back out of the archive and require its identity
    let manifest_bytes = read_manifest_from_archive(&archive, "/downloads/mod.zip").unwrap();
    let information = parse_manifest(&manifest_bytes).into_package_information();
    let (identifier, version) =
        gpm_core::install::require_install_identity(&information).unwrap();

    // the store addresses the mod by identifier and version
    let store = gpm_core::mod_storage::ModStorage::new(String::from("/store"));
    assert_eq!(
        store.mod_folder(&identifier, &version),
        "/store/hello_world|1.0.0"
    );
    assert_eq!(
        store.get_tempory_folder_path(&identifier, &version),
        "/store/.tmp/hello_world|1.0.0"
    );

    // the profile records the dependency and its exact pin
    let changed = profile.record_dependency(identifier.clone(), version.clone(), true);
    assert!(changed);
    assert!(profile
        .information
        .dependencies()
        .contains(&String::from("hello_world")));
    match profile
        .lockfile
        .get_dependency_source(&String::from("hello_world"))
    {
        Some(gpm_core::lockfile::LockSource::IdVersion {
            identifier,
            version,
        }) => {
            assert_eq!(identifier, "hello_world");
            assert_eq!(version, "1.0.0");
        }
        other => panic!("expected an IdVersion pin, got {:?}", other),
    }
}
