//! A loaded package: a manifest, a lock record, and the folder it lives in.
//!
//! A package is either an installed mod or the user's own project (the
//! profile). The folder's files are read and decoded outside the library;
//! what was found in them is handed in as outcomes, and the decisions — which
//! manifest format wins, what absence means, which error to raise — are made
//! here.

use crate::error::GpmError;
use crate::lockfile::{LockFile, LockSource, LockSourceView};
use crate::mod_storage::child_path_spec;
use crate::package_information::{PackageInformation, PackageInformationView};
use crate::stored_package_information::{converts_to, StoredPackageInformation};
use vstd::prelude::*;

verus! {

/// The path of the primary, structured-text manifest of a package folder.
pub open spec fn config_toml_path_spec(root: Seq<char>) -> Seq<char> {
    child_path_spec(root, "config.toml"@)
}

/// The path of the JSON manifest of a package folder.
pub open spec fn config_json_path_spec(root: Seq<char>) -> Seq<char> {
    child_path_spec(root, "config.json"@)
}

/// The path of the lock file of a package folder.
pub open spec fn lock_file_path_spec(root: Seq<char>) -> Seq<char> {
    child_path_spec(root, "gpm.lock"@)
}

/// The path of the primary, structured-text manifest under `root_folder`.
pub fn config_toml_path(root_folder: &str) -> (r: String)
    ensures
        r@ == config_toml_path_spec(root_folder@),
{
    proof {
        reveal_strlit("/");
        assert("/"@ =~= seq!['/']);
    }
    let r = String::from_str(root_folder).concat("/").concat(crate::constants::TOML_CONFIG_PATH);
    proof {
        assert(r@ =~= config_toml_path_spec(root_folder@));
    }
    r
}

/// The path of the JSON manifest under `root_folder`.
pub fn config_json_path(root_folder: &str) -> (r: String)
    ensures
        r@ == config_json_path_spec(root_folder@),
{
    proof {
        reveal_strlit("/");
        assert("/"@ =~= seq!['/']);
    }
    let r = String::from_str(root_folder).concat("/").concat(crate::constants::JSON_CONFIG_PATH);
    proof {
        assert(r@ =~= config_json_path_spec(root_folder@));
    }
    r
}

/// The path of the lock file under `root_folder`.
pub fn lock_file_path(root_folder: &str) -> (r: String)
    ensures
        r@ == lock_file_path_spec(root_folder@),
{
    proof {
        reveal_strlit("/");
        assert("/"@ =~= seq!['/']);
    }
    let r = String::from_str(root_folder).concat("/").concat(crate::constants::LOCK_FILE_PATH);
    proof {
        assert(r@ =~= lock_file_path_spec(root_folder@));
    }
    r
}

/// What reading and decoding one manifest file of a package folder yielded.
#[derive(Debug)]
pub enum ManifestFileOutcome {
    /// The file does not exist.
    Absent,
    /// The file was read and decoded into a raw manifest record.
    Parsed(StoredPackageInformation),
    /// The file exists but could not be decoded; the decoder's words are
    /// carried.
    Corrupt { cause: String },
    /// The file exists but could not be opened or read.
    Unreadable { cause: String },
}

/// What reading and decoding the lock file of a package folder yielded.
#[derive(Debug)]
pub enum LockFileOutcome {
    /// The file does not exist.
    Absent,
    /// The file was read and decoded into a lock record.
    Parsed(LockFile),
    /// The file exists but could not be decoded.
    Corrupt { cause: String },
    /// The file exists but could not be opened or read.
    Unreadable { cause: String },
}

/// A package: its manifest, its lock record, and the folder it was loaded
/// from or will be saved to.
#[derive(Debug)]
pub struct Package {
    pub information: PackageInformation,
    pub lockfile: LockFile,
    pub root_folder: String,
}

impl Package {
    /// The folder this package belongs to.
    pub open spec fn spec_root(&self) -> Seq<char> {
        self.root_folder@
    }

    /// The manifest's set-like fields and the lock record hold no duplicates.
    pub open spec fn wf(&self) -> bool {
        &&& self.information.wf()
        &&& self.lockfile.wf()
    }

    /// Assemble a package from what was found in `root_folder`, deciding
    /// between the two manifest formats.
    ///
    /// The lock file is optional: absence means an empty lock record, but a
    /// lock file that exists and cannot be read or decoded is an error. The
    /// manifest is required in exactly one of its two forms: the primary,
    /// structured-text form wins whenever it exists — the fallback form is
    /// never consulted then, so a parse error of an existing primary file is
    /// an error, not a fall-through. Only when the primary file is absent
    /// does the JSON form decide, by the same rules. When both are absent
    /// the error names both attempted paths.
    pub fn load_from_parts(
        root_folder: String,
        lock: LockFileOutcome,
        primary: ManifestFileOutcome,
        fallback: ManifestFileOutcome,
    ) -> (r: Result<Package, GpmError>)
        requires
            lock matches LockFileOutcome::Parsed(l) ==> l.wf(),
        ensures
            lock matches LockFileOutcome::Corrupt { cause } ==> (r matches Err(e) && e matches
                GpmError::LockfileCorrupt { path, cause: c } && path@ == lock_file_path_spec(
                root_folder@,
            ) && c@ == cause@),
            lock matches LockFileOutcome::Unreadable { cause } ==> (r matches Err(e) && e matches
                GpmError::StoreIOFailed { path, cause: c } && path@ == lock_file_path_spec(
                root_folder@,
            ) && c@ == cause@),
            lock_available(lock) ==> {
                &&& (primary matches ManifestFileOutcome::Parsed(m) ==> (r matches Ok(p)
                    && p.wf()
                    && converts_to(m, p.information@)
                    && p.lockfile@ == lock_map(lock)
                    && p.spec_root() == root_folder@))
                &&& (primary matches ManifestFileOutcome::Corrupt { cause } ==> (r matches Err(e)
                    && e matches GpmError::ManifestCorrupt { path, cause: c } && path@
                    == config_toml_path_spec(root_folder@) && c@ == cause@))
                &&& (primary matches ManifestFileOutcome::Unreadable { cause } ==> (r matches Err(
                    e,
                ) && e matches GpmError::StoreIOFailed { path, cause: c } && path@
                    == config_toml_path_spec(root_folder@) && c@ == cause@))
                &&& (primary is Absent ==> {
                    &&& (fallback matches ManifestFileOutcome::Parsed(m) ==> (r matches Ok(p)
                        && p.wf()
                        && converts_to(m, p.information@)
                        && p.lockfile@ == lock_map(lock)
                        && p.spec_root() == root_folder@))
                    &&& (fallback matches ManifestFileOutcome::Corrupt { cause } ==> (r matches
                        Err(e) && e matches GpmError::ManifestCorrupt { path, cause: c } && path@
                        == config_json_path_spec(root_folder@) && c@ == cause@))
                    &&& (fallback matches ManifestFileOutcome::Unreadable { cause } ==> (
                    r matches Err(e) && e matches GpmError::StoreIOFailed { path, cause: c }
                        && path@ == config_json_path_spec(root_folder@) && c@ == cause@))
                    &&& (fallback is Absent ==> (r matches Err(e) && e matches
                        GpmError::ManifestMissing { primary_path, fallback_path } && primary_path@
                        == config_toml_path_spec(root_folder@) && fallback_path@
                        == config_json_path_spec(root_folder@)))
                })
            },
    {
        let lockfile = match lock {
            LockFileOutcome::Absent => LockFile::new(),
            LockFileOutcome::Parsed(l) => l,
            LockFileOutcome::Corrupt { cause } => {
                return Err(
                    GpmError::LockfileCorrupt { path: lock_file_path(root_folder.as_str()), cause },
                );
            },
            LockFileOutcome::Unreadable { cause } => {
                return Err(
                    GpmError::StoreIOFailed { path: lock_file_path(root_folder.as_str()), cause },
                );
            },
        };
        let chosen = match primary {
            ManifestFileOutcome::Parsed(m) => m,
            ManifestFileOutcome::Corrupt { cause } => {
                return Err(
                    GpmError::ManifestCorrupt { path: config_toml_path(root_folder.as_str()), cause },
                );
            },
            ManifestFileOutcome::Unreadable { cause } => {
                return Err(
                    GpmError::StoreIOFailed { path: config_toml_path(root_folder.as_str()), cause },
                );
            },
            ManifestFileOutcome::Absent => match fallback {
                ManifestFileOutcome::Parsed(m) => m,
                ManifestFileOutcome::Corrupt { cause } => {
                    return Err(
                        GpmError::ManifestCorrupt {
                            path: config_json_path(root_folder.as_str()),
                            cause,
                        },
                    );
                },
                ManifestFileOutcome::Unreadable { cause } => {
                    return Err(
                        GpmError::StoreIOFailed {
                            path: config_json_path(root_folder.as_str()),
                            cause,
                        },
                    );
                },
                ManifestFileOutcome::Absent => {
                    return Err(
                        GpmError::ManifestMissing {
                            primary_path: config_toml_path(root_folder.as_str()),
                            fallback_path: config_json_path(root_folder.as_str()),
                        },
                    );
                },
            },
        };
        let information = chosen.into_package_information();
        Ok(Package { information, lockfile, root_folder })
    }

    /// Create a new [`Package`] with placeholder values telling the user to
    /// modify them, and an empty lock record.
    pub fn new_in_folder(root_folder: String) -> (r: Self)
        ensures
            r.wf(),
            r.spec_root() == root_folder@,
            r.lockfile@ == Map::<Seq<char>, LockSourceView>::empty(),
            r.information@ == (PackageInformationView {
                creator: Some("your name"@),
                identifier: Some("package_id"@),
                version: Some("0.1"@),
                display_name: Some("Display Name"@),
                description: Some("A short description of your mod"@),
                license: Some(
                    "a text describing the license of the content of this package (consider using a version of the creative-common one)"@,
                ),
                website_url: None,
                dependencies: Seq::empty(),
                tags: Seq::empty(),
                install_strategies: Seq::empty(),
                extra_data: Seq::empty(),
            }),
    {
        Package {
            root_folder,
            information: PackageInformation::new(
                "your name",
                "package_id",
                "0.1",
                "Display Name",
                "A short description of your mod",
                "a text describing the license of the content of this package (consider using a version of the creative-common one)",
            ),
            lockfile: LockFile::new(),
        }
    }

    /// The root folder where this package is present (where its manifest and
    /// lock file are saved).
    pub fn root_folder(&self) -> (r: &String)
        ensures
            r@ == self.spec_root(),
    {
        &self.root_folder
    }

    /// The path of this package's lock file, whether or not it exists yet.
    pub fn lockfile_path(&self) -> (r: String)
        ensures
            r@ == lock_file_path_spec(self.spec_root()),
    {
        lock_file_path(self.root_folder.as_str())
    }

    /// Record that this package depends on `identifier`, without pinning a
    /// version: add the identifier to the dependency set and leave the lock
    /// record untouched.
    ///
    /// When `allow_profile_change` forbids the mutation, the package is left
    /// exactly as it was and nothing is recorded.
    pub fn record_dependency_unpinned(
        &mut self,
        identifier: String,
        allow_profile_change: bool,
    ) -> (changed: bool)
        requires
            old(self).wf(),
        ensures
            final(self).wf(),
            changed == allow_profile_change,
            !allow_profile_change ==> *final(self) == *old(self),
            allow_profile_change ==> {
                &&& final(self).spec_root() == old(self).spec_root()
                &&& final(self).lockfile == old(self).lockfile
                &&& final(self).information@ == (PackageInformationView {
                    dependencies: final(self).information@.dependencies,
                    ..old(self).information@
                })
                &&& final(self).information@.dependencies.contains(identifier@)
                &&& (old(self).information@.dependencies.contains(identifier@)
                    ==> final(self).information@.dependencies
                        == old(self).information@.dependencies)
                &&& (!old(self).information@.dependencies.contains(identifier@)
                    ==> final(self).information@.dependencies
                        == old(self).information@.dependencies.push(identifier@))
            },
    {
        if !allow_profile_change {
            return false;
        }
        self.information.insert_dependency(identifier);
        proof {
            broadcast use vstd::seq_lib::lemma_seq_contains_after_push;

            assert(self.information@ =~= (PackageInformationView {
                dependencies: self.information@.dependencies,
                ..old(self).information@
            }));
        }
        true
    }

    /// Record that this package depends on `identifier`, pinned to `version`:
    /// add the identifier to the dependency set and upsert the exact-pin lock
    /// entry for it.
    ///
    /// When `allow_profile_change` forbids the mutation, the package is left
    /// exactly as it was and nothing is recorded.
    pub fn record_dependency(
        &mut self,
        identifier: String,
        version: String,
        allow_profile_change: bool,
    ) -> (changed: bool)
        requires
            old(self).wf(),
        ensures
            final(self).wf(),
            changed == allow_profile_change,
            !allow_profile_change ==> *final(self) == *old(self),
            allow_profile_change ==> {
                &&& final(self).spec_root() == old(self).spec_root()
                &&& final(self).lockfile@ == old(self).lockfile@.insert(
                    identifier@,
                    LockSourceView::IdVersion { identifier: identifier@, version: version@ },
                )
                &&& final(self).information@ == (PackageInformationView {
                    dependencies: final(self).information@.dependencies,
                    ..old(self).information@
                })
                &&& final(self).information@.dependencies.contains(identifier@)
                &&& (old(self).information@.dependencies.contains(identifier@)
                    ==> final(self).information@.dependencies
                        == old(self).information@.dependencies)
                &&& (!old(self).information@.dependencies.contains(identifier@)
                    ==> final(self).information@.dependencies
                        == old(self).information@.dependencies.push(identifier@))
            },
    {
        if !allow_profile_change {
            return false;
        }
        let lock_identifier = identifier.clone();
        self.information.insert_dependency(identifier.clone());
        self.lockfile.set_dependency_source(
            lock_identifier,
            LockSource::IdVersion { identifier, version },
        );
        proof {
            broadcast use vstd::seq_lib::lemma_seq_contains_after_push;

            assert(self.information@ =~= (PackageInformationView {
                dependencies: self.information@.dependencies,
                ..old(self).information@
            }));
        }
        true
    }
}

/// Whether a lock-file outcome lets loading go on: the file either parsed or
/// was absent.
pub open spec fn lock_available(lock: LockFileOutcome) -> bool {
    match lock {
        LockFileOutcome::Absent => true,
        LockFileOutcome::Parsed(_) => true,
        LockFileOutcome::Corrupt { .. } => false,
        LockFileOutcome::Unreadable { .. } => false,
    }
}

/// The lock record an available outcome stands for: the parsed record, or an
/// empty one for an absent file.
pub open spec fn lock_map(lock: LockFileOutcome) -> Map<Seq<char>, LockSourceView> {
    match lock {
        LockFileOutcome::Parsed(l) => l@,
        _ => Map::empty(),
    }
}

} // verus!
