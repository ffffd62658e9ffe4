//! A local package store and installation pipeline for distributable content
//! units ("mods"): archives carrying a manifest that names their identity,
//! version and dependencies.
//!
//! The library holds the verified core: content addressing inside the store,
//! the manifest and lockfile data model, the dual-format manifest precedence,
//! and the decisions of the installation pipeline. Filesystem probes and the
//! encodings of the manifest files are handed in and out as plain values by an
//! unverified shell around the library.

pub mod config;
pub mod constants;
pub mod error;
pub mod install;
pub mod lockfile;
pub mod mod_storage;
pub mod package;
pub mod package_information;
pub mod stored_package_information;
pub mod tool;
