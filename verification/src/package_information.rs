//! The in-memory record describing a package: identity, metadata, and its
//! dependency, tag and install-strategy sets.

use vstd::prelude::*;

verus! {

/// One free-form extension entry of a manifest. Order is significant and
/// duplicate keys are allowed, so these form a sequence, not a map.
#[derive(Debug, Clone)]
pub struct PackageInformationExtraData {
    pub key: String,
    pub value: String,
}

impl DeepView for PackageInformationExtraData {
    type V = (Seq<char>, Seq<char>);

    open spec fn deep_view(&self) -> (Seq<char>, Seq<char>) {
        (self.key@, self.value@)
    }
}

/// The mathematical value of a [`PackageInformation`]: every string as a
/// sequence of characters.
#[verifier::ext_equal]
pub ghost struct PackageInformationView {
    pub creator: Option<Seq<char>>,
    pub identifier: Option<Seq<char>>,
    pub version: Option<Seq<char>>,
    pub display_name: Option<Seq<char>>,
    pub description: Option<Seq<char>>,
    pub license: Option<Seq<char>>,
    pub website_url: Option<Seq<char>>,
    pub dependencies: Seq<Seq<char>>,
    pub tags: Seq<Seq<char>>,
    pub install_strategies: Seq<Seq<char>>,
    pub extra_data: Seq<(Seq<char>, Seq<char>)>,
}

impl PackageInformationView {
    /// The dependency, tag and install-strategy sequences behave as sets:
    /// no member occurs twice.
    pub open spec fn wf(self) -> bool {
        &&& self.dependencies.no_duplicates()
        &&& self.tags.no_duplicates()
        &&& self.install_strategies.no_duplicates()
    }
}

/// The description of a package: identity and metadata fields, all optional at
/// this layer, with its dependency identifiers, tags, install strategies and
/// free-form extension data.
///
/// `identifier` and `version` are required only for a package that is to be
/// installed into the store; a freshly scaffolded package may lack them.
#[derive(Debug, Clone)]
pub struct PackageInformation {
    creator: Option<String>,
    identifier: Option<String>,
    version: Option<String>,
    display_name: Option<String>,
    description: Option<String>,
    license: Option<String>,
    website_url: Option<String>,
    dependencies: Vec<String>,
    tags: Vec<String>,
    install_strategies: Vec<String>,
    extra_data: Vec<PackageInformationExtraData>,
}

impl View for PackageInformation {
    type V = PackageInformationView;

    closed spec fn view(&self) -> PackageInformationView {
        PackageInformationView {
            creator: self.creator.deep_view(),
            identifier: self.identifier.deep_view(),
            version: self.version.deep_view(),
            display_name: self.display_name.deep_view(),
            description: self.description.deep_view(),
            license: self.license.deep_view(),
            website_url: self.website_url.deep_view(),
            dependencies: self.dependencies.deep_view(),
            tags: self.tags.deep_view(),
            install_strategies: self.install_strategies.deep_view(),
            extra_data: self.extra_data.deep_view(),
        }
    }
}

/// Whether one of the strings in `v` has the value of `s`.
pub fn vec_contains_string(v: &Vec<String>, s: &String) -> (r: bool)
    ensures
        r == v.deep_view().contains(s@),
{
    let mut i: usize = 0;
    while i < v.len()
        invariant
            i <= v.len(),
            forall|k: int| 0 <= k < i ==> v.deep_view()[k] != s@,
        decreases v.len() - i,
    {
        assert(v.deep_view()[i as int] == v@[i as int]@);
        if v[i].eq(s) {
            return true;
        }
        i += 1;
    }
    assert(forall|k: int| 0 <= k < v.deep_view().len() ==> v.deep_view()[k] != s@);
    false
}

/// Drop every repeated string of `v`, keeping first occurrences in order.
fn dedup_strings(v: &Vec<String>) -> (r: Vec<String>)
    ensures
        r.deep_view().no_duplicates(),
        forall|x: Seq<char>| r.deep_view().contains(x) <==> v.deep_view().contains(x),
{
    let ghost vd = v.deep_view();
    let mut r: Vec<String> = Vec::new();
    let mut i: usize = 0;
    while i < v.len()
        invariant
            i <= v.len(),
            vd == v.deep_view(),
            r.deep_view().no_duplicates(),
            forall|x: Seq<char>| r.deep_view().contains(x) <==> vd.take(i as int).contains(x),
        decreases v.len() - i,
    {
        let ghost rd = r.deep_view();
        assert(v.deep_view()[i as int] == v@[i as int]@);
        let absent = !vec_contains_string(&r, &v[i]);
        if absent {
            r.push(v[i].clone());
            proof {
                assert(r.deep_view() =~= rd.push(vd[i as int]));
                assert forall|j: int, k: int|
                    0 <= j < r.deep_view().len() && 0 <= k < r.deep_view().len() && j != k
                    implies r.deep_view()[j] != r.deep_view()[k] by {
                    if j < rd.len() && k < rd.len() {
                    } else if j == rd.len() {
                        assert(rd.contains(r.deep_view()[k]) && !rd.contains(vd[i as int]));
                    } else {
                        assert(rd.contains(r.deep_view()[j]) && !rd.contains(vd[i as int]));
                    }
                }
            }
        }
        proof {
            broadcast use vstd::seq_lib::lemma_seq_contains_after_push;

            assert(vd.take(i + 1) =~= vd.take(i as int).push(vd[i as int]));
            if absent {
                assert(r.deep_view() == rd.push(vd[i as int]));
            }
            assert forall|x: Seq<char>|
                r.deep_view().contains(x) <==> vd.take(i + 1).contains(x) by {
                assert(vd.take(i as int).push(vd[i as int]).contains(x) <==> vd[i as int] == x
                    || vd.take(i as int).contains(x));
                if absent {
                    assert(rd.push(vd[i as int]).contains(x) <==> vd[i as int] == x
                        || rd.contains(x));
                }
            }
        }
        i += 1;
    }
    proof {
        assert(vd.take(v.len() as int) =~= vd);
    }
    r
}

impl PackageInformation {
    /// Build a record from raw fields, as they come out of a persisted
    /// manifest. The three set-like collections are freed of duplicates,
    /// keeping first occurrences; everything else is taken as given.
    pub fn from_fields(
        creator: Option<String>,
        identifier: Option<String>,
        version: Option<String>,
        display_name: Option<String>,
        description: Option<String>,
        license: Option<String>,
        website_url: Option<String>,
        dependencies: Vec<String>,
        tags: Vec<String>,
        install_strategies: Vec<String>,
        extra_data: Vec<PackageInformationExtraData>,
    ) -> (r: Self)
        ensures
            r.wf(),
            r@.creator == creator.deep_view(),
            r@.identifier == identifier.deep_view(),
            r@.version == version.deep_view(),
            r@.display_name == display_name.deep_view(),
            r@.description == description.deep_view(),
            r@.license == license.deep_view(),
            r@.website_url == website_url.deep_view(),
            r@.extra_data == extra_data.deep_view(),
            forall|x: Seq<char>|
                r@.dependencies.contains(x) <==> dependencies.deep_view().contains(x),
            forall|x: Seq<char>| r@.tags.contains(x) <==> tags.deep_view().contains(x),
            forall|x: Seq<char>|
                r@.install_strategies.contains(x) <==> install_strategies.deep_view().contains(x),
    {
        PackageInformation {
            creator,
            identifier,
            version,
            display_name,
            description,
            license,
            website_url,
            dependencies: dedup_strings(&dependencies),
            tags: dedup_strings(&tags),
            install_strategies: dedup_strings(&install_strategies),
            extra_data,
        }
    }

    /// The sequences behind the three set-like fields hold no duplicates.
    pub open spec fn wf(&self) -> bool {
        self@.wf()
    }

    /// Create a record with the given metadata and empty sets.
    pub fn new(
        creator: &str,
        identifier: &str,
        version: &str,
        display_name: &str,
        description: &str,
        license: &str,
    ) -> (r: Self)
        ensures
            r.wf(),
            r@ == (PackageInformationView {
                creator: Some(creator@),
                identifier: Some(identifier@),
                version: Some(version@),
                display_name: Some(display_name@),
                description: Some(description@),
                license: Some(license@),
                website_url: None,
                dependencies: Seq::empty(),
                tags: Seq::empty(),
                install_strategies: Seq::empty(),
                extra_data: Seq::empty(),
            }),
    {
        let r = PackageInformation {
            creator: Some(String::from_str(creator)),
            identifier: Some(String::from_str(identifier)),
            version: Some(String::from_str(version)),
            display_name: Some(String::from_str(display_name)),
            description: Some(String::from_str(description)),
            license: Some(String::from_str(license)),
            website_url: None,
            dependencies: Vec::new(),
            tags: Vec::new(),
            install_strategies: Vec::new(),
            extra_data: Vec::new(),
        };
        proof {
            assert(r@ =~= PackageInformationView {
                creator: Some(creator@),
                identifier: Some(identifier@),
                version: Some(version@),
                display_name: Some(display_name@),
                description: Some(description@),
                license: Some(license@),
                website_url: None,
                dependencies: Seq::empty(),
                tags: Seq::empty(),
                install_strategies: Seq::empty(),
                extra_data: Seq::empty(),
            });
        }
        r
    }

    /// Add `identifier` to the dependency set. A dependency already present
    /// is not added again; everything else is left unchanged.
    pub fn insert_dependency(&mut self, identifier: String) -> (added: bool)
        requires
            old(self).wf(),
        ensures
            final(self).wf(),
            added == !old(self)@.dependencies.contains(identifier@),
            added ==> final(self)@ == (PackageInformationView {
                dependencies: old(self)@.dependencies.push(identifier@),
                ..old(self)@
            }),
            !added ==> final(self)@ == old(self)@,
    {
        if vec_contains_string(&self.dependencies, &identifier) {
            false
        } else {
            let ghost pre = self@;
            let ghost id_view = identifier@;
            self.dependencies.push(identifier);
            proof {
                assert(self@.dependencies =~= pre.dependencies.push(id_view));
                assert(self@ =~= (PackageInformationView {
                    dependencies: pre.dependencies.push(id_view),
                    ..pre
                }));
            }
            true
        }
    }

    /// The creator field.
    pub fn creator(&self) -> (r: &Option<String>)
        ensures
            r.deep_view() == self@.creator,
    {
        &self.creator
    }

    /// The identifier field.
    pub fn identifier(&self) -> (r: &Option<String>)
        ensures
            r.deep_view() == self@.identifier,
    {
        &self.identifier
    }

    /// The version field.
    pub fn version(&self) -> (r: &Option<String>)
        ensures
            r.deep_view() == self@.version,
    {
        &self.version
    }

    /// The display-name field.
    pub fn display_name(&self) -> (r: &Option<String>)
        ensures
            r.deep_view() == self@.display_name,
    {
        &self.display_name
    }

    /// The description field.
    pub fn description(&self) -> (r: &Option<String>)
        ensures
            r.deep_view() == self@.description,
    {
        &self.description
    }

    /// The license field.
    pub fn license(&self) -> (r: &Option<String>)
        ensures
            r.deep_view() == self@.license,
    {
        &self.license
    }

    /// The website field.
    pub fn website_url(&self) -> (r: &Option<String>)
        ensures
            r.deep_view() == self@.website_url,
    {
        &self.website_url
    }

    /// The dependency identifiers, free of duplicates when `self` is
    /// well formed.
    pub fn dependencies(&self) -> (r: &Vec<String>)
        ensures
            r.deep_view() == self@.dependencies,
    {
        &self.dependencies
    }

    /// The tags, free of duplicates when `self` is well formed.
    pub fn tags(&self) -> (r: &Vec<String>)
        ensures
            r.deep_view() == self@.tags,
    {
        &self.tags
    }

    /// The install strategies, free of duplicates when `self` is well formed.
    pub fn install_strategies(&self) -> (r: &Vec<String>)
        ensures
            r.deep_view() == self@.install_strategies,
    {
        &self.install_strategies
    }

    /// The free-form extension entries, in order.
    pub fn extra_data(&self) -> (r: &Vec<PackageInformationExtraData>)
        ensures
            r.deep_view() == self@.extra_data,
    {
        &self.extra_data
    }
}

} // verus!
