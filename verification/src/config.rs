//! The resolved configuration the core works under: a store root, a profile
//! root, and whether an install may mutate the profile.
//!
//! How these are discovered — a configuration file, a platform convention, a
//! command-line flag — is outside the library. What was found is handed in
//! as optional fields, and the defaulting decisions are made here.

use crate::mod_storage::ModStorage;
use vstd::prelude::*;

verus! {

/// The configuration the core runs under.
#[derive(Debug)]
pub struct GpmConfig {
    /// The root folder of the mod store.
    pub store_path: String,
    /// The root folder of the profile, the user's own package.
    pub profile_path: String,
    /// Whether an install may record itself in the profile's dependency and
    /// lock state. When false, only the store-side install is performed.
    pub can_change_profile: bool,
}

impl GpmConfig {
    /// Combine what the configuration file held with the platform's default
    /// store location, field by field: a field present in the file wins, a
    /// missing one falls back.
    ///
    /// The store path has no built-in fallback beyond the platform's: when
    /// the file names none and the platform offers none, nothing sensible
    /// can be resolved and `None` comes back. A missing profile path falls
    /// back to the current folder, and mutating the profile is allowed
    /// unless the file forbids it.
    pub fn from_stored_fields(
        store_path: Option<String>,
        platform_store_path: Option<String>,
        default_profile_path: Option<String>,
        can_change_profile: Option<bool>,
    ) -> (r: Option<GpmConfig>)
        ensures
            r is Some <==> (store_path is Some || platform_store_path is Some),
            r matches Some(c) ==> {
                &&& c.store_path@ == (match store_path {
                    Some(s) => s@,
                    None => platform_store_path.deep_view()->Some_0,
                })
                &&& c.profile_path@ == (match default_profile_path {
                    Some(p) => p@,
                    None => "."@,
                })
                &&& c.can_change_profile == (match can_change_profile {
                    Some(b) => b,
                    None => true,
                })
            },
    {
        let resolved_store = match store_path {
            Some(s) => s,
            None => {
                match platform_store_path {
                    Some(d) => d,
                    None => {
                        return None;
                    },
                }
            },
        };
        let resolved_profile = match default_profile_path {
            Some(p) => p,
            None => String::from_str("."),
        };
        let resolved_can_change = match can_change_profile {
            Some(b) => b,
            None => true,
        };
        Some(
            GpmConfig {
                store_path: resolved_store,
                profile_path: resolved_profile,
                can_change_profile: resolved_can_change,
            },
        )
    }

    /// A configuration independent of any global state, with defaults meant
    /// for tests: both paths point at a canary folder that should not exist,
    /// and the profile may not be changed.
    pub fn empty() -> (r: Self)
        ensures
            r.store_path@ == "./non_existant_folder_UkjhXrTwJf"@,
            r.profile_path@ == "./non_existant_folder_UkjhXrTwJf"@,
            !r.can_change_profile,
    {
        let default_path = String::from_str("./non_existant_folder_UkjhXrTwJf");
        GpmConfig {
            store_path: default_path.clone(),
            profile_path: default_path,
            can_change_profile: false,
        }
    }

    /// A [`ModStorage`] rooted at the store folder this configuration names.
    pub fn default_store(&self) -> (r: ModStorage)
        ensures
            r.spec_root() == self.store_path@,
    {
        ModStorage::new(self.store_path.clone())
    }
}

} // verus!
