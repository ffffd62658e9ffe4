//! The mod store: a root directory holding one folder per installed mod,
//! addressed by the mod's identifier and version.

use crate::constants::{MOD_STORAGE_SEPARATOR, STORAGE_TEMPORY_FOLDER_NAME};
use crate::error::GpmError;
use crate::tool::PathProbe;
use vstd::prelude::*;

verus! {

/// Canonical folder name of a mod inside a store: the identifier, the
/// separator, then the version.
pub open spec fn store_name_spec(identifier: Seq<char>, version: Seq<char>) -> Seq<char> {
    identifier + seq!['|'] + version
}

/// A path directly under `root`: the root, a path separator, then the name.
pub open spec fn child_path_spec(root: Seq<char>, name: Seq<char>) -> Seq<char> {
    root + seq!['/'] + name
}

/// The staging subtree of a store: the folder under the root that holds
/// installs being prepared, away from the canonical namespace.
pub open spec fn staging_root_spec(root: Seq<char>) -> Seq<char> {
    child_path_spec(root, ".tmp"@)
}

/// Distinct (identifier, version) pairs get distinct canonical folder names,
/// provided neither component holds the separator character. Content
/// addressing therefore never sends two different mods to one folder.
pub proof fn lemma_store_name_injective(
    id1: Seq<char>,
    v1: Seq<char>,
    id2: Seq<char>,
    v2: Seq<char>,
)
    requires
        !id1.contains('|'),
        !v1.contains('|'),
        !id2.contains('|'),
        !v2.contains('|'),
        store_name_spec(id1, v1) == store_name_spec(id2, v2),
    ensures
        id1 == id2,
        v1 == v2,
{
    let s = store_name_spec(id1, v1);
    assert(s.len() == id1.len() + 1 + v1.len());
    assert(s.len() == id2.len() + 1 + v2.len());
    assert(s[id1.len() as int] == '|');
    assert(s[id2.len() as int] == '|');
    assert forall|k: int| 0 <= k < id1.len() implies s[k] != '|' by {
        assert(s[k] == id1[k]);
        assert(!id1.contains('|'));
    }
    assert forall|k: int| 0 <= k < id2.len() implies s[k] != '|' by {
        assert(s[k] == id2[k]);
        assert(!id2.contains('|'));
    }
    assert(id1.len() == id2.len());
    assert forall|k: int| 0 <= k < id1.len() implies id1[k] == id2[k] by {
        assert(s[k] == id1[k]);
        assert(store_name_spec(id2, v2)[k] == id2[k]);
    }
    assert(id1 =~= id2);
    assert forall|k: int| 0 <= k < v1.len() implies v1[k] == v2[k] by {
        assert(s[id1.len() + 1 + k] == v1[k]);
        assert(store_name_spec(id2, v2)[id2.len() + 1 + k] == v2[k]);
    }
    assert(v1 =~= v2);
}

/// The store's canonical namespace, modelled as a map from folder name to
/// folder contents: publishing a mod binds its canonical name to the staged
/// contents, replacing whatever the name held.
pub open spec fn store_publish<V>(
    m: Map<Seq<char>, V>,
    identifier: Seq<char>,
    version: Seq<char>,
    contents: V,
) -> Map<Seq<char>, V> {
    m.insert(store_name_spec(identifier, version), contents)
}

/// Whether the canonical namespace holds a folder for the given identifier
/// and version.
pub open spec fn store_has<V>(
    m: Map<Seq<char>, V>,
    identifier: Seq<char>,
    version: Seq<char>,
) -> bool {
    m.contains_key(store_name_spec(identifier, version))
}

/// After a publish of (identifier, version), the store holds that mod, and
/// its folder holds exactly the published contents.
pub proof fn lemma_publish_then_stored<V>(
    m: Map<Seq<char>, V>,
    identifier: Seq<char>,
    version: Seq<char>,
    contents: V,
)
    ensures
        store_has(store_publish(m, identifier, version, contents), identifier, version),
        store_publish(m, identifier, version, contents)[store_name_spec(identifier, version)]
            == contents,
{
}

/// Publishing the same (identifier, version) twice leaves the canonical
/// namespace exactly as a single publish of the second contents would: one
/// folder at the canonical name, holding only the second contents.
pub proof fn lemma_republish_overwrite<V>(
    m: Map<Seq<char>, V>,
    identifier: Seq<char>,
    version: Seq<char>,
    first: V,
    second: V,
)
    ensures
        store_publish(
            store_publish(m, identifier, version, first),
            identifier,
            version,
            second,
        ) == store_publish(m, identifier, version, second),
{
    assert(store_publish(
        store_publish(m, identifier, version, first),
        identifier,
        version,
        second,
    ) =~= store_publish(m, identifier, version, second));
}

/// Publishing one mod never touches the folder of another: two separator-free
/// pairs that differ in identifier or version address different folders.
pub proof fn lemma_publish_preserves_others<V>(
    m: Map<Seq<char>, V>,
    id1: Seq<char>,
    v1: Seq<char>,
    id2: Seq<char>,
    v2: Seq<char>,
    contents: V,
)
    requires
        !id1.contains('|'),
        !v1.contains('|'),
        !id2.contains('|'),
        !v2.contains('|'),
        id1 != id2 || v1 != v2,
    ensures
        store_has(store_publish(m, id1, v1, contents), id2, v2) == store_has(m, id2, v2),
        store_has(m, id2, v2) ==> store_publish(m, id1, v1, contents)[store_name_spec(id2, v2)]
            == m[store_name_spec(id2, v2)],
{
    if store_name_spec(id1, v1) == store_name_spec(id2, v2) {
        lemma_store_name_injective(id1, v1, id2, v2);
    }
}

/// A [`ModStorage`] determines where to store unpacked mods.
///
/// It uses a root folder, then one subfolder per stored mod.
pub struct ModStorage {
    root_folder: String,
}

impl ModStorage {
    /// The root folder this store was created with.
    pub closed spec fn spec_root(&self) -> Seq<char> {
        self.root_folder@
    }

    /// Create a new [`ModStorage`] with the given root folder.
    pub fn new(root_folder: String) -> (r: Self)
        ensures
            r.spec_root() == root_folder@,
    {
        Self { root_folder }
    }

    /// The canonical folder name for the mod with the given identifier and
    /// version, without the store root.
    pub fn get_mod_store_name(&self, identifier: &str, version: &str) -> (r: String)
        ensures
            r@ == store_name_spec(identifier@, version@),
    {
        proof {
            reveal_strlit("|");
            assert(MOD_STORAGE_SEPARATOR@ =~= seq!['|']);
        }
        let r = String::from_str(identifier).concat(MOD_STORAGE_SEPARATOR).concat(version);
        proof {
            assert(r@ =~= store_name_spec(identifier@, version@));
        }
        r
    }

    /// The path to the folder where the mod with the given identifier and
    /// version is stored. Touches nothing on the file system.
    pub fn mod_folder(&self, identifier: &str, version: &str) -> (r: String)
        ensures
            r@ == child_path_spec(self.spec_root(), store_name_spec(identifier@, version@)),
    {
        let name = self.get_mod_store_name(identifier, version);
        proof {
            reveal_strlit("/");
            assert("/"@ =~= seq!['/']);
        }
        let r = self.root_folder.clone().concat("/").concat(name.as_str());
        proof {
            assert(r@ =~= child_path_spec(self.spec_root(), store_name_spec(identifier@, version@)));
        }
        r
    }

    /// The root of the store's staging subtree. Staged installs live under
    /// this folder, one per canonical name, outside the canonical namespace.
    pub fn staging_root(&self) -> (r: String)
        ensures
            r@ == staging_root_spec(self.spec_root()),
    {
        proof {
            reveal_strlit("/");
            reveal_strlit(".tmp");
            assert("/"@ =~= seq!['/']);
        }
        let r = self.root_folder.clone().concat("/").concat(STORAGE_TEMPORY_FOLDER_NAME);
        proof {
            assert(r@ =~= staging_root_spec(self.spec_root()));
        }
        r
    }

    /// The staging folder for a package, named by the same canonical scheme
    /// as the final folder, so two installs of the same identifier and
    /// version share one staging path. Touches nothing on the file system.
    pub fn get_tempory_folder_path(&self, identifier: &str, version: &str) -> (r: String)
        ensures
            r@ == child_path_spec(
                staging_root_spec(self.spec_root()),
                store_name_spec(identifier@, version@),
            ),
    {
        let name = self.get_mod_store_name(identifier, version);
        proof {
            reveal_strlit("/");
            assert("/"@ =~= seq!['/']);
        }
        let r = self.staging_root().concat("/").concat(name.as_str());
        proof {
            assert(r@ =~= child_path_spec(
                staging_root_spec(self.spec_root()),
                store_name_spec(identifier@, version@),
            ));
        }
        r
    }

    /// Whether a mod exists in this store, judged from what a probe of its
    /// canonical folder reported.
    ///
    /// A mod counts as stored exactly when a directory (or a link to one)
    /// stands at the canonical path. A missing path means not stored. A
    /// non-directory standing there is a hard error naming the path, since a
    /// mod's canonical slot must always be a directory; so is a probe that
    /// failed outright.
    pub fn check_mod_stored(&self, identifier: &str, version: &str, probe: &PathProbe) -> (r:
        Result<bool, GpmError>)
        ensures
            probe is Directory ==> r == Ok::<bool, GpmError>(true),
            probe is Missing ==> r == Ok::<bool, GpmError>(false),
            probe is NonDirectory ==> (r matches Err(e) && e matches GpmError::StoreIOFailed {
                path,
                cause,
            } && path@ == child_path_spec(
                self.spec_root(),
                store_name_spec(identifier@, version@),
            ) && cause@ == "isn't a folder, as mod should be"@),
            probe matches PathProbe::Inaccessible { cause } ==> (r matches Err(e) && e matches
                GpmError::StoreIOFailed { path, cause: c } && path@ == child_path_spec(
                self.spec_root(),
                store_name_spec(identifier@, version@),
            ) && c@ == cause@),
    {
        match probe {
            PathProbe::Directory => Ok(true),
            PathProbe::Missing => Ok(false),
            PathProbe::NonDirectory => Err(
                GpmError::StoreIOFailed {
                    path: self.mod_folder(identifier, version),
                    cause: String::from_str("isn't a folder, as mod should be"),
                },
            ),
            PathProbe::Inaccessible { cause } => Err(
                GpmError::StoreIOFailed {
                    path: self.mod_folder(identifier, version),
                    cause: cause.clone(),
                },
            ),
        }
    }

    /// The root folder of this store.
    pub fn root_folder(&self) -> (r: &String)
        ensures
            r@ == self.spec_root(),
    {
        &self.root_folder
    }
}

} // verus!
