//! The serialization-shaped form of a package's manifest: exactly the fields
//! of the two on-disk encodings, raw as read. Collections may still hold
//! duplicates here; turning the record into a [`PackageInformation`] applies
//! the set semantics.

use crate::package_information::{
    PackageInformation,
    PackageInformationExtraData,
    PackageInformationView,
};
use vstd::prelude::*;

verus! {

/// How a raw manifest record and an in-memory package description
/// correspond: every plain field equal, and the set-like collections holding
/// exactly the same members, duplicates discounted.
pub open spec fn converts_to(m: StoredPackageInformation, info: PackageInformationView) -> bool {
    &&& info.creator == m.creator.deep_view()
    &&& info.identifier == m.identifier.deep_view()
    &&& info.version == m.version.deep_view()
    &&& info.display_name == m.display_name.deep_view()
    &&& info.description == m.description.deep_view()
    &&& info.license == m.license.deep_view()
    &&& info.website_url == m.website_url.deep_view()
    &&& info.extra_data == m.extra_data.deep_view()
    &&& (forall|x: Seq<char>|
        info.dependencies.contains(x) <==> m.dependencies.deep_view().contains(x))
    &&& (forall|x: Seq<char>| info.tags.contains(x) <==> m.tags.deep_view().contains(x))
    &&& (forall|x: Seq<char>|
        info.install_strategies.contains(x) <==> m.install_strategies.deep_view().contains(x))
}

/// A package manifest as it stands in a manifest file: every field optional
/// or empty by default, nothing validated yet.
#[derive(Debug)]
pub struct StoredPackageInformation {
    pub creator: Option<String>,
    pub identifier: Option<String>,
    pub version: Option<String>,
    pub display_name: Option<String>,
    pub description: Option<String>,
    pub license: Option<String>,
    pub website_url: Option<String>,
    pub dependencies: Vec<String>,
    pub tags: Vec<String>,
    pub install_strategies: Vec<String>,
    pub extra_data: Vec<(String, String)>,
}

/// Copy an optional string by value.
fn clone_opt_string(o: &Option<String>) -> (r: Option<String>)
    ensures
        r == *o,
{
    match o {
        Some(s) => Some(s.clone()),
        None => None,
    }
}

/// Copy a vector of strings by value.
fn clone_string_vec(v: &Vec<String>) -> (r: Vec<String>)
    ensures
        r@ == v@,
{
    let mut r: Vec<String> = Vec::new();
    let mut i: usize = 0;
    while i < v.len()
        invariant
            i <= v.len(),
            r@ =~= v@.take(i as int),
        decreases v.len() - i,
    {
        r.push(v[i].clone());
        i += 1;
    }
    proof {
        assert(v@.take(v.len() as int) =~= v@);
    }
    r
}

/// Turn key-value pairs into extension entries, keeping order.
fn pairs_to_extra_data(v: &Vec<(String, String)>) -> (r: Vec<PackageInformationExtraData>)
    ensures
        r.deep_view() == v.deep_view(),
{
    let mut r: Vec<PackageInformationExtraData> = Vec::new();
    let mut i: usize = 0;
    while i < v.len()
        invariant
            i <= v.len(),
            r.deep_view() =~= v.deep_view().take(i as int),
        decreases v.len() - i,
    {
        let ghost prevd = r.deep_view();
        let entry = PackageInformationExtraData { key: v[i].0.clone(), value: v[i].1.clone() };
        proof {
            assert(v.deep_view()[i as int] =~= (v@[i as int].0@, v@[i as int].1@));
            assert(entry.deep_view() =~= v.deep_view()[i as int]);
        }
        r.push(entry);
        proof {
            assert(r.deep_view() =~= prevd.push(v.deep_view()[i as int]));
            assert(r.deep_view() =~= v.deep_view().take(i + 1));
        }
        i += 1;
    }
    proof {
        assert(v.deep_view().take(v.len() as int) =~= v.deep_view());
    }
    r
}

/// Turn extension entries back into key-value pairs, keeping order.
fn extra_data_to_pairs(v: &Vec<PackageInformationExtraData>) -> (r: Vec<(String, String)>)
    ensures
        r.deep_view() == v.deep_view(),
{
    let mut r: Vec<(String, String)> = Vec::new();
    let mut i: usize = 0;
    while i < v.len()
        invariant
            i <= v.len(),
            r.deep_view() =~= v.deep_view().take(i as int),
        decreases v.len() - i,
    {
        let ghost prevd = r.deep_view();
        let entry = (v[i].key.clone(), v[i].value.clone());
        proof {
            assert(v.deep_view()[i as int] =~= (v@[i as int].key@, v@[i as int].value@));
            assert(entry.deep_view() =~= v.deep_view()[i as int]);
        }
        r.push(entry);
        proof {
            assert(r.deep_view() =~= prevd.push(v.deep_view()[i as int]));
            assert(r.deep_view() =~= v.deep_view().take(i + 1));
        }
        i += 1;
    }
    proof {
        assert(v.deep_view().take(v.len() as int) =~= v.deep_view());
    }
    r
}

impl StoredPackageInformation {
    /// Turn this raw record into the in-memory package description. The three
    /// set-like collections lose any duplicates; every other field carries
    /// over unchanged.
    pub fn into_package_information(self) -> (r: PackageInformation)
        ensures
            r.wf(),
            converts_to(self, r@),
    {
        let extra_data = pairs_to_extra_data(&self.extra_data);
        PackageInformation::from_fields(
            self.creator,
            self.identifier,
            self.version,
            self.display_name,
            self.description,
            self.license,
            self.website_url,
            self.dependencies,
            self.tags,
            self.install_strategies,
            extra_data,
        )
    }

    /// Copy an in-memory package description into the raw record that the
    /// on-disk encodings share. Every field carries over unchanged.
    pub fn from_package_information(package: &PackageInformation) -> (r: Self)
        ensures
            r.creator.deep_view() == package@.creator,
            r.identifier.deep_view() == package@.identifier,
            r.version.deep_view() == package@.version,
            r.display_name.deep_view() == package@.display_name,
            r.description.deep_view() == package@.description,
            r.license.deep_view() == package@.license,
            r.website_url.deep_view() == package@.website_url,
            r.dependencies.deep_view() == package@.dependencies,
            r.tags.deep_view() == package@.tags,
            r.install_strategies.deep_view() == package@.install_strategies,
            r.extra_data.deep_view() == package@.extra_data,
    {
        StoredPackageInformation {
            creator: clone_opt_string(package.creator()),
            identifier: clone_opt_string(package.identifier()),
            version: clone_opt_string(package.version()),
            display_name: clone_opt_string(package.display_name()),
            description: clone_opt_string(package.description()),
            license: clone_opt_string(package.license()),
            website_url: clone_opt_string(package.website_url()),
            dependencies: clone_string_vec(package.dependencies()),
            tags: clone_string_vec(package.tags()),
            install_strategies: clone_string_vec(package.install_strategies()),
            extra_data: extra_data_to_pairs(package.extra_data()),
        }
    }
}

} // verus!
