//! The decisions of the installation pipeline: classifying the textual
//! input, reading the manifest entry out of the archive bytes, and requiring
//! the identity fields an install needs.
//!
//! The surrounding steps — opening the archive file, extracting it into the
//! staging folder, moving it into the store — are filesystem work done
//! outside the library, against the paths and decisions computed here.

use crate::constants::JSON_CONFIG_PATH;
use crate::error::GpmError;
use crate::mod_storage::child_path_spec;
use crate::package_information::PackageInformation;
use crate::stored_package_information::{converts_to, StoredPackageInformation};
use vstd::prelude::*;

verus! {

/// The argument of an install from an arbitrary textual input, which may
/// stand for something other than a local path one day.
#[derive(Debug)]
pub struct InstallParameter {
    pub input: String,
}

/// The argument of an install from a local filesystem path.
#[derive(Debug)]
pub struct InstallLocalParameter {
    pub input: String,
}

/// A classified install input. Local paths are the only kind the pipeline
/// resolves today; remote sources would become further variants of this.
#[derive(Debug)]
pub enum PackageInput {
    LocalPath(String),
}

impl PackageInput {
    /// The absolute path this input resolved to.
    pub open spec fn spec_path(&self) -> Seq<char> {
        match self {
            PackageInput::LocalPath(p) => p@,
        }
    }

    /// Classify a textual install input. An input that begins with `.` or
    /// `/` names a local path; a relative one is made absolute against
    /// `current_dir`. Anything else is refused as unrecognized, naming the
    /// input.
    pub fn solve_input(input: &str, current_dir: &str) -> (r: Result<PackageInput, GpmError>)
        ensures
            input@.len() > 0 && input@[0] == '/' ==> (r matches Ok(p) && p.spec_path() == input@),
            input@.len() > 0 && input@[0] == '.' ==> (r matches Ok(p) && p.spec_path()
                == child_path_spec(current_dir@, input@)),
            (input@.len() == 0 || (input@[0] != '/' && input@[0] != '.')) ==> (r matches Err(e)
                && e matches GpmError::InputUnrecognized { input: i } && i@ == input@),
    {
        if input.unicode_len() == 0 {
            return Err(GpmError::InputUnrecognized { input: String::from_str(input) });
        }
        let first = input.get_char(0);
        if first == '/' {
            Ok(PackageInput::LocalPath(String::from_str(input)))
        } else if first == '.' {
            proof {
                reveal_strlit("/");
                assert("/"@ =~= seq!['/']);
            }
            let joined = String::from_str(current_dir).concat("/").concat(input);
            proof {
                assert(joined@ =~= child_path_spec(current_dir@, input@));
            }
            Ok(PackageInput::LocalPath(joined))
        } else {
            Err(GpmError::InputUnrecognized { input: String::from_str(input) })
        }
    }
}

/// The contents of the entry called `name` inside the archive `archive`:
/// `Some` exactly when the bytes parse as an archive that holds an entry of
/// that name whose contents can be read out, `None` otherwise. What an
/// archive's bytes hold at a name is a function of those bytes and the name
/// alone.
pub uninterp spec fn zip_entry(archive: Seq<u8>, name: Seq<char>) -> Option<Seq<u8>>;

/// Why an entry could not be taken out of an archive.
#[derive(Debug)]
pub enum ArchiveFault {
    /// The bytes do not form a readable archive.
    BadArchive { cause: String },
    /// The archive holds no entry of the requested name.
    EntryMissing,
    /// The entry exists but its contents could not be read out.
    EntryUnreadable { cause: String },
}

/// Relies on zip::ZipArchive: `new` reads the central directory of the
/// archive bytes, and `by_name` finds the named entry, answering
/// `FileNotFound` exactly when no entry carries the name. The whole reading
/// is deterministic over the archive bytes and the entry name, so each
/// outcome decides [`zip_entry`]: contents read out in full mean `Some` of
/// them, and every fault — bytes that do not parse as an archive, a name no
/// entry carries, an entry whose contents cannot be read out — means `None`.
#[verifier::external_body]
fn archive_entry(archive: &Vec<u8>, name: &str) -> (r: Result<Vec<u8>, ArchiveFault>)
    ensures
        r matches Ok(bytes) ==> zip_entry(archive@, name@) == Some(bytes@),
        r matches Err(ArchiveFault::EntryMissing) ==> zip_entry(archive@, name@) is None,
        r matches Err(ArchiveFault::BadArchive { .. }) ==> zip_entry(archive@, name@) is None,
        r matches Err(ArchiveFault::EntryUnreadable { .. }) ==> zip_entry(archive@, name@) is None,
{
    let cursor = std::io::Cursor::new(archive.as_slice());
    let mut zip = zip::ZipArchive::new(cursor).map_err(
        |e| ArchiveFault::BadArchive { cause: e.to_string() },
    )?;
    let mut entry = zip.by_name(name).map_err(
        |e| match e {
            zip::result::ZipError::FileNotFound => ArchiveFault::EntryMissing,
            other => ArchiveFault::BadArchive { cause: other.to_string() },
        },
    )?;
    let mut out = Vec::new();
    std::io::Read::read_to_end(&mut entry, &mut out).map_err(
        |e| ArchiveFault::EntryUnreadable { cause: e.to_string() },
    )?;
    Ok(out)
}

/// Name the pipeline error each archive fault stands for, for an archive
/// that was opened at `archive_path`.
///
/// A missing manifest entry is `ManifestMissing` naming the fixed entry path
/// — an archive carries its manifest at one path only, so both attempted
/// slots name it. Any other fault means the archive itself could not be
/// used: `SourceUnreadable` naming the archive.
pub fn classify_manifest_entry(outcome: Result<Vec<u8>, ArchiveFault>, archive_path: &str) -> (r:
    Result<Vec<u8>, GpmError>)
    ensures
        outcome matches Ok(bytes) ==> r == Ok::<Vec<u8>, GpmError>(bytes),
        outcome matches Err(ArchiveFault::EntryMissing) ==> (r matches Err(e) && e matches
            GpmError::ManifestMissing { primary_path, fallback_path } && primary_path@
            == JSON_CONFIG_PATH@ && fallback_path@ == JSON_CONFIG_PATH@),
        outcome matches Err(ArchiveFault::BadArchive { cause }) ==> (r matches Err(e) && e matches
            GpmError::SourceUnreadable { path, cause: c } && path@ == archive_path@ && c@
            == cause@),
        outcome matches Err(ArchiveFault::EntryUnreadable { cause }) ==> (r matches Err(e)
            && e matches GpmError::SourceUnreadable { path, cause: c } && path@ == archive_path@
            && c@ == cause@),
{
    match outcome {
        Ok(bytes) => Ok(bytes),
        Err(ArchiveFault::EntryMissing) => Err(
            GpmError::ManifestMissing {
                primary_path: String::from_str(JSON_CONFIG_PATH),
                fallback_path: String::from_str(JSON_CONFIG_PATH),
            },
        ),
        Err(ArchiveFault::BadArchive { cause }) => Err(
            GpmError::SourceUnreadable { path: String::from_str(archive_path), cause },
        ),
        Err(ArchiveFault::EntryUnreadable { cause }) => Err(
            GpmError::SourceUnreadable { path: String::from_str(archive_path), cause },
        ),
    }
}

/// Read the manifest entry out of an archive's bytes.
///
/// The manifest lives at a fixed, well-known entry path inside a mod
/// archive; an archive that holds it yields exactly its contents. An archive
/// without that entry cannot be installed: `ManifestMissing`. An archive
/// whose bytes cannot be used at all gives `SourceUnreadable`, naming
/// `archive_path`.
pub fn read_manifest_from_archive(archive: &Vec<u8>, archive_path: &str) -> (r: Result<
    Vec<u8>,
    GpmError,
>)
    ensures
        zip_entry(archive@, JSON_CONFIG_PATH@) matches Some(contents) ==> (r matches Ok(bytes)
            && bytes@ == contents),
        r matches Ok(bytes) ==> zip_entry(archive@, JSON_CONFIG_PATH@) == Some(bytes@),
        r matches Err(e) ==> (e matches GpmError::ManifestMissing { .. } || e matches
            GpmError::SourceUnreadable { .. }),
        (r matches Err(e) && e matches GpmError::ManifestMissing { .. }) ==> zip_entry(
            archive@,
            JSON_CONFIG_PATH@,
        ) is None,
{
    let outcome = archive_entry(archive, JSON_CONFIG_PATH);
    classify_manifest_entry(outcome, archive_path)
}

/// Turn the decode of the manifest bytes taken out of an archive into the
/// package description an install goes on with.
///
/// A record that decoded becomes the in-memory description. One that did not
/// fails the installation with `ManifestCorrupt`, naming the fixed manifest
/// entry path and carrying the decoder's words: an unparsable manifest is
/// never installed.
pub fn manifest_from_parse(outcome: Result<StoredPackageInformation, String>) -> (r: Result<
    PackageInformation,
    GpmError,
>)
    ensures
        outcome matches Ok(m) ==> (r matches Ok(information) && information.wf() && converts_to(
            m,
            information@,
        )),
        outcome matches Err(cause) ==> (r matches Err(e) && e matches GpmError::ManifestCorrupt {
            path,
            cause: c,
        } && path@ == JSON_CONFIG_PATH@ && c@ == cause@),
{
    match outcome {
        Ok(m) => Ok(m.into_package_information()),
        Err(cause) => Err(
            GpmError::ManifestCorrupt { path: String::from_str(JSON_CONFIG_PATH), cause },
        ),
    }
}

/// Require the identity an install needs: the identifier and the version of
/// the mod. Either one absent fails with an error naming the missing field,
/// the identifier being checked first.
pub fn require_install_identity(information: &PackageInformation) -> (r: Result<
    (String, String),
    GpmError,
>)
    ensures
        information@.identifier is Some && information@.version is Some ==> (r matches Ok(identity)
            && information@.identifier == Some(identity.0@) && information@.version == Some(
            identity.1@,
        )),
        information@.identifier is None ==> (r matches Err(e) && e matches
            GpmError::ManifestFieldMissing { field } && field@ == "identifier"@),
        information@.identifier is Some && information@.version is None ==> (r matches Err(e)
            && e matches GpmError::ManifestFieldMissing { field } && field@ == "version"@),
{
    let identifier = match information.identifier() {
        Some(identifier) => identifier.clone(),
        None => {
            return Err(GpmError::ManifestFieldMissing { field: String::from_str("identifier") });
        },
    };
    let version = match information.version() {
        Some(version) => version.clone(),
        None => {
            return Err(GpmError::ManifestFieldMissing { field: String::from_str("version") });
        },
    };
    Ok((identifier, version))
}

} // verus!
