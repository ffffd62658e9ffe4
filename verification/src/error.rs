//! The error taxonomy of the store and the installation pipeline.
//!
//! Every variant carries the offending path, input or field, so a caller can
//! tell both what failed and where. Nothing here terminates the process; every
//! error is returned to the caller.

use vstd::prelude::*;

verus! {

/// An error of the store, the manifest codec or the installation pipeline.
#[derive(Debug, Clone)]
pub enum GpmError {
    /// The textual install input is neither an absolute nor a relative path.
    InputUnrecognized { input: String },
    /// The resolved source (the archive file) could not be opened or read.
    SourceUnreadable { path: String, cause: String },
    /// Neither manifest format was present; both attempted paths are named.
    ManifestMissing { primary_path: String, fallback_path: String },
    /// A manifest file exists but could not be parsed.
    ManifestCorrupt { path: String, cause: String },
    /// A field required at this point (identifier or version) is absent.
    ManifestFieldMissing { field: String },
    /// The archive could not be extracted into the staging folder.
    ExtractionFailed { path: String, cause: String },
    /// A create, remove or rename on the store's folders failed.
    StoreIOFailed { path: String, cause: String },
    /// The package was published but could not be read back from the store.
    PublishedPackageUnreadable { path: String, cause: String },
    /// The lock file exists but could not be parsed.
    LockfileCorrupt { path: String, cause: String },
}

impl GpmError {
    /// The user-facing description of this error.
    pub open spec fn describe_spec(&self) -> Seq<char> {
        match self {
            GpmError::InputUnrecognized { input } =>
                "unrecognized input: "@ + input@ + "; did you mean ./"@ + input@ + " ?"@,
            GpmError::SourceUnreadable { path, cause } =>
                "can't open the input path "@ + path@ + ": "@ + cause@,
            GpmError::ManifestMissing { primary_path, fallback_path } =>
                "neither "@ + primary_path@ + " nor "@ + fallback_path@ + " can be loaded"@,
            GpmError::ManifestCorrupt { path, cause } =>
                "can't parse the manifest at "@ + path@ + ": "@ + cause@,
            GpmError::ManifestFieldMissing { field } =>
                "the mod "@ + field@ + " is absent"@,
            GpmError::ExtractionFailed { path, cause } =>
                "can't decompress the package into "@ + path@ + ": "@ + cause@,
            GpmError::StoreIOFailed { path, cause } =>
                "store operation failed on "@ + path@ + ": "@ + cause@,
            GpmError::PublishedPackageUnreadable { path, cause } =>
                "installed but unreadable at "@ + path@ + ": "@ + cause@,
            GpmError::LockfileCorrupt { path, cause } =>
                "can't parse the lockfile at "@ + path@ + ": "@ + cause@,
        }
    }

    /// Describe this error in one line, naming the offending path or input.
    pub fn describe(&self) -> (r: String)
        ensures
            r@ == self.describe_spec(),
    {
        match self {
            GpmError::InputUnrecognized { input } => {
                String::from_str("unrecognized input: ")
                    .concat(input.as_str())
                    .concat("; did you mean ./")
                    .concat(input.as_str())
                    .concat(" ?")
            },
            GpmError::SourceUnreadable { path, cause } => {
                String::from_str("can't open the input path ")
                    .concat(path.as_str())
                    .concat(": ")
                    .concat(cause.as_str())
            },
            GpmError::ManifestMissing { primary_path, fallback_path } => {
                String::from_str("neither ")
                    .concat(primary_path.as_str())
                    .concat(" nor ")
                    .concat(fallback_path.as_str())
                    .concat(" can be loaded")
            },
            GpmError::ManifestCorrupt { path, cause } => {
                String::from_str("can't parse the manifest at ")
                    .concat(path.as_str())
                    .concat(": ")
                    .concat(cause.as_str())
            },
            GpmError::ManifestFieldMissing { field } => {
                String::from_str("the mod ").concat(field.as_str()).concat(" is absent")
            },
            GpmError::ExtractionFailed { path, cause } => {
                String::from_str("can't decompress the package into ")
                    .concat(path.as_str())
                    .concat(": ")
                    .concat(cause.as_str())
            },
            GpmError::StoreIOFailed { path, cause } => {
                String::from_str("store operation failed on ")
                    .concat(path.as_str())
                    .concat(": ")
                    .concat(cause.as_str())
            },
            GpmError::PublishedPackageUnreadable { path, cause } => {
                String::from_str("installed but unreadable at ")
                    .concat(path.as_str())
                    .concat(": ")
                    .concat(cause.as_str())
            },
            GpmError::LockfileCorrupt { path, cause } => {
                String::from_str("can't parse the lockfile at ")
                    .concat(path.as_str())
                    .concat(": ")
                    .concat(cause.as_str())
            },
        }
    }
}

} // verus!
