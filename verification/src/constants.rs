//! Fixed file and folder names of the store layout and the package folders.

use vstd::prelude::*;

verus! {

/// File name of the primary, structured-text manifest of a package folder.
pub const TOML_CONFIG_PATH: &'static str = "config.toml";

/// File name of the JSON manifest, read only when the primary one is absent.
/// It is also the fixed entry name of the manifest inside a mod archive.
pub const JSON_CONFIG_PATH: &'static str = "config.json";

/// Separator between identifier and version in a mod's canonical folder name.
pub const MOD_STORAGE_SEPARATOR: &'static str = "|";

/// Name of the staging subtree under the store root.
pub const STORAGE_TEMPORY_FOLDER_NAME: &'static str = ".tmp";

/// File name of a package's lock file.
pub const LOCK_FILE_PATH: &'static str = "gpm.lock";

} // verus!
