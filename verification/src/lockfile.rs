//! The lock record of a package: for each dependency identifier, the concrete
//! source that satisfied it.
//!
//! The record behaves as a map keyed by the identifier. Writing a second
//! source for the same identifier replaces the first.

use vstd::prelude::*;

verus! {

/// The mathematical value of a [`LockSource`].
pub ghost enum LockSourceView {
    IdVersion { identifier: Seq<char>, version: Seq<char> },
    Unknown,
}

/// The resolved source that satisfied a dependency.
#[derive(Debug, Clone)]
pub enum LockSource {
    /// An exact pin: the identifier and version installed into the store.
    IdVersion { identifier: String, version: String },
    /// A source kind written by a newer version of the tool than this one;
    /// carried along without being interpreted.
    Unknown,
}

impl View for LockSource {
    type V = LockSourceView;

    open spec fn view(&self) -> LockSourceView {
        match self {
            LockSource::IdVersion { identifier, version } => LockSourceView::IdVersion {
                identifier: identifier@,
                version: version@,
            },
            LockSource::Unknown => LockSourceView::Unknown,
        }
    }
}

/// One line of a lock record: a dependency identifier and its pinned source.
#[derive(Debug, Clone)]
pub struct LockEntry {
    pub name: String,
    pub source: LockSource,
}

impl DeepView for LockEntry {
    type V = (Seq<char>, LockSourceView);

    open spec fn deep_view(&self) -> (Seq<char>, LockSourceView) {
        (self.name@, self.source@)
    }
}

/// The map held by a sequence of lock entries; a later entry for the same
/// key overrides an earlier one.
pub open spec fn entries_to_map(s: Seq<(Seq<char>, LockSourceView)>) -> Map<
    Seq<char>,
    LockSourceView,
>
    decreases s.len(),
{
    if s.len() == 0 {
        Map::empty()
    } else {
        entries_to_map(s.drop_last()).insert(s.last().0, s.last().1)
    }
}

/// The keys of a sequence of lock entries, in order.
pub open spec fn entry_keys(s: Seq<(Seq<char>, LockSourceView)>) -> Seq<Seq<char>> {
    s.map_values(|e: (Seq<char>, LockSourceView)| e.0)
}

/// A key is in the map of a sequence of entries exactly when some entry
/// carries it.
pub proof fn lemma_entries_map_domain(s: Seq<(Seq<char>, LockSourceView)>, k: Seq<char>)
    ensures
        entries_to_map(s).contains_key(k) <==> exists|i: int|
            0 <= i < s.len() && #[trigger] s[i].0 == k,
    decreases s.len(),
{
    if s.len() > 0 {
        lemma_entries_map_domain(s.drop_last(), k);
        if s.last().0 == k {
            assert(s[s.len() - 1].0 == k);
        } else {
            if exists|i: int| 0 <= i < s.len() && #[trigger] s[i].0 == k {
                let i = choose|i: int| 0 <= i < s.len() && #[trigger] s[i].0 == k;
                if i < s.len() - 1 {
                    assert(s.drop_last()[i].0 == k);
                }
            }
            if exists|i: int| 0 <= i < s.drop_last().len() && #[trigger] s.drop_last()[i].0 == k {
                let i = choose|i: int|
                    0 <= i < s.drop_last().len() && #[trigger] s.drop_last()[i].0 == k;
                assert(s[i].0 == k);
            }
        }
    }
}

/// With no repeated keys, the entry carrying a key decides the key's value
/// in the map.
pub proof fn lemma_entries_map_at(s: Seq<(Seq<char>, LockSourceView)>, i: int)
    requires
        entry_keys(s).no_duplicates(),
        0 <= i < s.len(),
    ensures
        entries_to_map(s).contains_key(s[i].0),
        entries_to_map(s)[s[i].0] == s[i].1,
    decreases s.len(),
{
    assert(entry_keys(s)[i] == s[i].0);
    if i == s.len() - 1 {
    } else {
        assert(entry_keys(s.drop_last()) =~= entry_keys(s).drop_last());
        lemma_entries_map_at(s.drop_last(), i);
        assert(entry_keys(s)[s.len() - 1] == s.last().0);
        assert(s.last().0 != s[i].0);
        assert(s.drop_last()[i] == s[i]);
    }
}

/// Replacing the entry that carries a key, or adding an entry with a fresh
/// key, makes the map of the entries take one more association.
pub proof fn lemma_entries_map_update(
    s: Seq<(Seq<char>, LockSourceView)>,
    i: int,
    v: LockSourceView,
)
    requires
        entry_keys(s).no_duplicates(),
        0 <= i < s.len(),
    ensures
        entries_to_map(s.update(i, (s[i].0, v))) == entries_to_map(s).insert(s[i].0, v),
    decreases s.len(),
{
    let k = s[i].0;
    let t = s.update(i, (k, v));
    if i == s.len() - 1 {
        assert(t.drop_last() =~= s.drop_last());
        assert(t.last() == (k, v));
        assert(entries_to_map(t) =~= entries_to_map(s).insert(k, v));
    } else {
        assert(t.drop_last() =~= s.drop_last().update(i, (k, v)));
        assert(entry_keys(s.drop_last()) =~= entry_keys(s).drop_last());
        assert(s.drop_last()[i] == s[i]);
        lemma_entries_map_update(s.drop_last(), i, v);
        assert(t.last() == s.last());
        assert(entry_keys(s)[s.len() - 1] == s.last().0);
        assert(entry_keys(s)[i] == k);
        assert(s.last().0 != k);
        assert(entries_to_map(t) =~= entries_to_map(s).insert(k, v));
    }
}

/// A lock record: each dependency identifier mapped to the source that
/// satisfied it.
#[derive(Debug, Clone)]
pub struct LockFile {
    entries: Vec<LockEntry>,
}

impl View for LockFile {
    type V = Map<Seq<char>, LockSourceView>;

    closed spec fn view(&self) -> Map<Seq<char>, LockSourceView> {
        entries_to_map(self.entries.deep_view())
    }
}

impl LockFile {
    /// The entries as they stand, in order.
    pub closed spec fn spec_entries(&self) -> Seq<(Seq<char>, LockSourceView)> {
        self.entries.deep_view()
    }

    /// No two entries carry the same identifier.
    pub open spec fn wf(&self) -> bool {
        entry_keys(self.spec_entries()).no_duplicates()
    }

    /// An empty lock record: no dependency is pinned.
    pub fn new() -> (r: Self)
        ensures
            r.wf(),
            r@ == Map::<Seq<char>, LockSourceView>::empty(),
            r.spec_entries() == Seq::<(Seq<char>, LockSourceView)>::empty(),
    {
        let r = LockFile { entries: Vec::new() };
        proof {
            assert(r.spec_entries() =~= Seq::<(Seq<char>, LockSourceView)>::empty());
            assert(r@ =~= Map::<Seq<char>, LockSourceView>::empty());
        }
        r
    }

    /// The entries of this record, in order, for persisting.
    pub fn entries(&self) -> (r: &Vec<LockEntry>)
        ensures
            r.deep_view() == self.spec_entries(),
    {
        &self.entries
    }

    /// Record `source` as what satisfies the dependency `name`. An entry
    /// already present for `name` is replaced: the record keeps one source
    /// per identifier, the one given last.
    pub fn set_dependency_source(&mut self, name: String, source: LockSource)
        requires
            old(self).wf(),
        ensures
            final(self).wf(),
            final(self)@ == old(self)@.insert(name@, source@),
    {
        let ghost sd = self.entries.deep_view();
        let ghost nv = name@;
        let ghost srcv = source@;
        let mut i: usize = 0;
        while i < self.entries.len()
            invariant
                i <= self.entries.len(),
                self.entries.deep_view() == sd,
                sd == old(self).spec_entries(),
                entry_keys(sd).no_duplicates(),
                nv == name@,
                srcv == source@,
                forall|k: int| 0 <= k < i ==> sd[k].0 != nv,
            decreases self.entries.len() - i,
        {
            assert(sd[i as int] == self.entries[i as int].deep_view());
            if self.entries[i].name.eq(&name) {
                assert(sd[i as int].0 == nv);
                let entry = LockEntry { name, source };
                proof {
                    assert(entry.deep_view() == (sd[i as int].0, srcv));
                }
                self.entries.set(i, entry);
                proof {
                    assert(self.entries.deep_view() =~= sd.update(i as int, (sd[i as int].0, srcv)));
                    lemma_entries_map_update(sd, i as int, srcv);
                    assert(entry_keys(self.entries.deep_view()) =~= entry_keys(sd));
                    assert(self@ == entries_to_map(sd).insert(nv, srcv));
                }
                return ;
            }
            i += 1;
        }
        let entry = LockEntry { name, source };
        proof {
            assert(entry.deep_view() == (nv, srcv));
        }
        self.entries.push(entry);
        proof {
            assert(self.entries.deep_view() =~= sd.push((nv, srcv)));
            assert(self.entries.deep_view().drop_last() =~= sd);
            assert(self@ == entries_to_map(sd).insert(nv, srcv));
            assert(entry_keys(self.entries.deep_view()) =~= entry_keys(sd).push(nv));
            assert forall|j: int, k: int|
                0 <= j < entry_keys(self.entries.deep_view()).len() && 0 <= k < entry_keys(
                    self.entries.deep_view(),
                ).len() && j != k implies entry_keys(self.entries.deep_view())[j] != entry_keys(
                self.entries.deep_view(),
            )[k] by {
                if j == sd.len() {
                    assert(entry_keys(sd)[k] != nv);
                } else if k == sd.len() {
                    assert(entry_keys(sd)[j] != nv);
                }
            }
        }
    }

    /// The source recorded for the dependency `name`, if any.
    pub fn get_dependency_source(&self, name: &String) -> (r: Option<&LockSource>)
        requires
            self.wf(),
        ensures
            match r {
                Some(source) => self@.contains_key(name@) && source@ == self@[name@],
                None => !self@.contains_key(name@),
            },
    {
        let ghost sd = self.entries.deep_view();
        let mut i: usize = 0;
        while i < self.entries.len()
            invariant
                self.wf(),
                sd == self.entries.deep_view(),
                i <= self.entries.len(),
                forall|k: int| 0 <= k < i ==> sd[k].0 != name@,
            decreases self.entries.len() - i,
        {
            assert(sd[i as int] == self.entries[i as int].deep_view());
            if self.entries[i].name.eq(name) {
                proof {
                    lemma_entries_map_at(sd, i as int);
                }
                return Some(&self.entries[i].source);
            }
            i += 1;
        }
        proof {
            lemma_entries_map_domain(sd, name@);
        }
        None
    }
}

} // verus!
