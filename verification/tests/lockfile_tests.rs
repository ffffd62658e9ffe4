use gpm_core::lockfile::{LockFile, LockSource};

#[test]
fn new_lock_file_is_empty() {
    let lockfile = LockFile::new();
    assert!(lockfile.entries().is_empty());
    assert!(lockfile.get_dependency_source(&String::from("anything")).is_none());
}

#[test]
fn set_dependency_source_records_a_pin() {
    let mut lockfile = LockFile::new();
    lockfile.set_dependency_source(
        String::from("dep_a"),
        LockSource::IdVersion {
            identifier: String::from("dep_a"),
            version: String::from("1.0"),
        },
    );
    match lockfile.get_dependency_source(&String::from("dep_a")) {
        Some(LockSource::IdVersion {
            identifier,
            version,
        }) => {
            assert_eq!(identifier, "dep_a");
            assert_eq!(version, "1.0");
        }
        other => panic!("expected an IdVersion pin, got {:?}", other),
    }
}

#[test]
fn set_dependency_source_is_an_upsert() {
    let mut lockfile = LockFile::new();
    lockfile.set_dependency_source(
        String::from("dep_a"),
        LockSource::IdVersion {
            identifier: String::from("dep_a"),
            version: String::from("1.0"),
        },
    );
    lockfile.set_dependency_source(
        String::from("dep_a"),
        LockSource::IdVersion {
            identifier: String::from("dep_a"),
            version: String::from("2.0"),
        },
    );
    assert_eq!(lockfile.entries().len(), 1);
    match lockfile.get_dependency_source(&String::from("dep_a")) {
        Some(LockSource::IdVersion { version, .. }) => assert_eq!(version, "2.0"),
        other => panic!("expected an IdVersion pin, got {:?}", other),
    }
}

#[test]
fn distinct_dependencies_keep_distinct_entries() {
    let mut lockfile = LockFile::new();
    lockfile.set_dependency_source(
        String::from("dep_a"),
        LockSource::IdVersion {
            identifier: String::from("dep_a"),
            version: String::from("1.0"),
        },
    );
    lockfile.set_dependency_source(String::from("dep_b"), LockSource::Unknown);
    assert_eq!(lockfile.entries().len(), 2);
    assert!(lockfile.get_dependency_source(&String::from("dep_a")).is_some());
    match lockfile.get_dependency_source(&String::from("dep_b")) {
        Some(LockSource::Unknown) => {}
        other => panic!("expected the unknown source to be kept, got {:?}", other),
    }
    assert!(lockfile.get_dependency_source(&String::from("dep_c")).is_none());
}
