//! Decisions about clearing a filesystem path.
//!
//! The library never touches the filesystem itself. The caller probes a path,
//! reports what stands there as a [`PathProbe`], and performs the
//! [`RemovalAction`] decided here.

use crate::error::GpmError;
use vstd::prelude::*;

verus! {

/// What a probe of a filesystem path reported.
#[derive(Debug, Clone)]
pub enum PathProbe {
    /// Nothing exists at the path.
    Missing,
    /// A directory (or a link to one) stands at the path.
    Directory,
    /// A file or another non-directory entry stands at the path.
    NonDirectory,
    /// The probe itself failed; the cause is carried.
    Inaccessible { cause: String },
}

/// The deletion a path needs so that nothing stands at it afterwards.
#[derive(Debug, Clone, Copy, PartialEq, Eq, Structural)]
pub enum RemovalAction {
    /// Delete the directory and everything under it.
    RemoveTree,
    /// Delete the single file.
    RemoveFile,
    /// Nothing stands at the path; there is nothing to do.
    Nothing,
}

/// Decide how to clear `path`, given what a probe of it reported.
///
/// A missing path needs no work and is never an error, so clearing is
/// idempotent: clearing a path a second time decides `Nothing`. Only a path
/// that could not be probed at all is an error, wrapped with the path.
pub fn removal_action(probe: &PathProbe, path: &str) -> (r: Result<RemovalAction, GpmError>)
    ensures
        probe is Directory ==> r == Ok::<RemovalAction, GpmError>(RemovalAction::RemoveTree),
        probe is NonDirectory ==> r == Ok::<RemovalAction, GpmError>(RemovalAction::RemoveFile),
        probe is Missing ==> r == Ok::<RemovalAction, GpmError>(RemovalAction::Nothing),
        probe matches PathProbe::Inaccessible { cause } ==> (r matches Err(e) && e matches
            GpmError::StoreIOFailed { path: p, cause: c } && p@ == path@ && c@ == cause@),
{
    match probe {
        PathProbe::Directory => Ok(RemovalAction::RemoveTree),
        PathProbe::NonDirectory => Ok(RemovalAction::RemoveFile),
        PathProbe::Missing => Ok(RemovalAction::Nothing),
        PathProbe::Inaccessible { cause } => Err(
            GpmError::StoreIOFailed { path: String::from_str(path), cause: cause.clone() },
        ),
    }
}

} // verus!
