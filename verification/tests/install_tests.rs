use gpm_core::config::GpmConfig;
use gpm_core::error::GpmError;
use gpm_core::install::{require_install_identity, PackageInput};
use gpm_core::package::Package;
use gpm_core::package_information::PackageInformation;
use gpm_core::stored_package_information::StoredPackageInformation;

#[test]
fn absolute_input_is_taken_as_is() {
    let input = PackageInput::solve_input("/downloads/mod.zip", "/work").unwrap();
    let PackageInput::LocalPath(path) = input;
    assert_eq!(path, "/downloads/mod.zip");
}

#[test]
fn relative_input_is_resolved_against_the_current_dir() {
    let input = PackageInput::solve_input("./mod.zip", "/work").unwrap();
    let PackageInput::LocalPath(path) = input;
    assert_eq!(path, "/work/./mod.zip");
}

#[test]
fn other_input_is_unrecognized() {
    let err = PackageInput::solve_input("https://example.invalid/mod.zip", "/work").unwrap_err();
    match err {
        GpmError::InputUnrecognized { input } => {
            assert_eq!(input, "https://example.invalid/mod.zip");
        }
        other => panic!("expected InputUnrecognized, got {:?}", other),
    }
}

#[test]
fn empty_input_is_unrecognized() {
    let err = PackageInput::solve_input("", "/work").unwrap_err();
    match err {
        GpmError::InputUnrecognized { input } => assert_eq!(input, ""),
        other => panic!("expected InputUnrecognized, got {:?}", other),
    }
}

fn information_with(identifier: Option<&str>, version: Option<&str>) -> PackageInformation {
    StoredPackageInformation {
        creator: None,
        identifier: identifier.map(String::from),
        version: version.map(String::from),
        display_name: None,
        description: None,
        license: None,
        website_url: None,
        dependencies: Vec::new(),
        tags: Vec::new(),
        install_strategies: Vec::new(),
        extra_data: Vec::new(),
    }
    .into_package_information()
}

#[test]
fn identity_is_returned_when_complete() {
    let information = information_with(Some("a_mod"), Some("1.2"));
    let (identifier, version) = require_install_identity(&information).unwrap();
    assert_eq!(identifier, "a_mod");
    assert_eq!(version, "1.2");
}

#[test]
fn missing_identifier_is_reported_first() {
    let information = information_with(None, None);
    match require_install_identity(&information).unwrap_err() {
        GpmError::ManifestFieldMissing { field } => assert_eq!(field, "identifier"),
        other => panic!("expected ManifestFieldMissing, got {:?}", other),
    }
}

#[test]
fn missing_version_is_reported() {
    let information = information_with(Some("a_mod"), None);
    match require_install_identity(&information).unwrap_err() {
        GpmError::ManifestFieldMissing { field } => assert_eq!(field, "version"),
        other => panic!("expected ManifestFieldMissing, got {:?}", other),
    }
}

#[test]
fn record_dependency_updates_profile_and_lock() {
    let mut profile = Package::new_in_folder(String::from("/profile"));
    let changed = profile.record_dependency(String::from("a_mod"), String::from("1.2"), true);
    assert!(changed);
    assert_eq!(profile.information.dependencies(), &vec![String::from("a_mod")]);
    match profile.lockfile.get_dependency_source(&String::from("a_mod")) {
        Some(gpm_core::lockfile::LockSource::IdVersion {
            identifier,
            version,
        }) => {
            assert_eq!(identifier, "a_mod");
            assert_eq!(version, "1.2");
        }
        other => panic!("expected an IdVersion pin, got {:?}", other),
    }
}

#[test]
fn record_dependency_respects_the_profile_guard() {
    let mut profile = Package::new_in_folder(String::from("/profile"));
    let changed = profile.record_dependency(String::from("a_mod"), String::from("1.2"), false);
    assert!(!changed);
    assert!(profile.information.dependencies().is_empty());
    assert!(profile.lockfile.entries().is_empty());
}

#[test]
fn record_dependency_twice_keeps_one_entry_with_the_second_pin() {
    let mut profile = Package::new_in_folder(String::from("/profile"));
    profile.record_dependency(String::from("a_mod"), String::from("1.0"), true);
    profile.record_dependency(String::from("a_mod"), String::from("2.0"), true);
    assert_eq!(profile.information.dependencies(), &vec![String::from("a_mod")]);
    assert_eq!(profile.lockfile.entries().len(), 1);
    match profile.lockfile.get_dependency_source(&String::from("a_mod")) {
        Some(gpm_core::lockfile::LockSource::IdVersion { version, .. }) => {
            assert_eq!(version, "2.0");
        }
        other => panic!("expected an IdVersion pin, got {:?}", other),
    }
}

#[test]
fn config_fields_from_the_file_win() {
    let config = GpmConfig::from_stored_fields(
        Some(String::from("/stores/main")),
        Some(String::from("/platform/store")),
        Some(String::from("/profiles/me")),
        Some(false),
    )
    .unwrap();
    assert_eq!(config.store_path, "/stores/main");
    assert_eq!(config.profile_path, "/profiles/me");
    assert!(!config.can_change_profile);
}

#[test]
fn config_missing_fields_use_the_defaults() {
    let config = GpmConfig::from_stored_fields(
        None,
        Some(String::from("/platform/store")),
        None,
        None,
    )
    .unwrap();
    assert_eq!(config.store_path, "/platform/store");
    assert_eq!(config.profile_path, ".");
    assert!(config.can_change_profile);
}

#[test]
fn config_without_any_store_path_cannot_be_resolved() {
    assert!(GpmConfig::from_stored_fields(None, None, None, None).is_none());
}

#[test]
fn empty_config_points_at_a_canary_folder() {
    let config = GpmConfig::empty();
    assert_eq!(config.store_path, "./non_existant_folder_UkjhXrTwJf");
    assert_eq!(config.profile_path, "./non_existant_folder_UkjhXrTwJf");
    assert!(!config.can_change_profile);
    let store = config.default_store();
    assert_eq!(store.root_folder(), "./non_existant_folder_UkjhXrTwJf");
}

#[test]
fn every_error_describes_its_offender() {
    let description = GpmError::ExtractionFailed {
        path: String::from("/store/.tmp/a|1"),
        cause: String::from("disk full"),
    }
    .describe();
    assert_eq!(
        description,
        "can't decompress the package into /store/.tmp/a|1: disk full"
    );
    let description = GpmError::PublishedPackageUnreadable {
        path: String::from("/store/a|1"),
        cause: String::from("manifest vanished"),
    }
    .describe();
    assert_eq!(
        description,
        "installed but unreadable at /store/a|1: manifest vanished"
    );
    let description = GpmError::InputUnrecognized {
        input: String::from("mystery"),
    }
    .describe();
    assert_eq!(
        description,
        "unrecognized input: mystery; did you mean ./mystery ?"
    );
}

#[test]
fn unpinned_recording_updates_only_the_dependency_set() {
    let mut profile = Package::new_in_folder(String::from("/profile"));
    let changed = profile.record_dependency_unpinned(String::from("a_mod"), true);
    assert!(changed);
    assert_eq!(profile.information.dependencies(), &vec![String::from("a_mod")]);
    assert!(profile.lockfile.entries().is_empty());
}

#[test]
fn unpinned_recording_respects_the_profile_guard() {
    let mut profile = Package::new_in_folder(String::from("/profile"));
    let changed = profile.record_dependency_unpinned(String::from("a_mod"), false);
    assert!(!changed);
    assert!(profile.information.dependencies().is_empty());
}
