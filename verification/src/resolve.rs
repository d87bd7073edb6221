//! The layout resolver and its session cache.
//!
//! A `Layouts` value owns two lazily populated caches: the list of known
//! identifiers, and the decoded base layout of every document fetched so
//! far. The resolver itself performs no transport: `get_layout` walks the
//! parent chain through the cache and either resolves the layout by merging
//! child over parent, bottom up, or asks its caller — by returning
//! `Resolution::Fetch` — to fetch one named document and hand the raw text
//! to `insert_raw`. A document, once cached, is never fetched or decoded
//! again, and a parent chain that revisits a name fails with
//! `CyclicParent` instead of recursing forever.

use vstd::prelude::*;

use crate::decode::decode;
use crate::decode::spec_decode;
use crate::error::LayoutError;
use crate::layout::Layout;
use crate::layout::LayoutV;
use crate::layout::uniq_keys;
use crate::layout::view_strings;
use crate::merge::clone_strings;
use crate::merge::duplicate;
use crate::merge::lemma_map_of_contains;
use crate::merge::lemma_map_of_value;
use crate::merge::map_of;
use crate::merge::merge;
use crate::merge::merge_layouts;

verus! {

/// One step of resolution: either the fully merged layout, or the
/// identifier of the document that must be fetched and cached first.
#[derive(Debug)]
pub enum Resolution {
    Resolved(Layout),
    Fetch(String),
}

/// Specification-level outcome of resolving a name against a cache.
pub ghost enum ResolveOutcome {
    Resolved(LayoutV),
    Fetch(Seq<char>),
    Cycle(Seq<char>),
}

/// Resolve `name` against `cache`: follow the parent chain, merging child
/// over resolved parent, until a layout without a parent is reached, an
/// uncached name asks for a fetch, or a name repeats.
pub open spec fn spec_resolve(
    cache: Map<Seq<char>, LayoutV>,
    name: Seq<char>,
    seen: Set<Seq<char>>,
    fuel: nat,
) -> ResolveOutcome
    decreases fuel,
{
    if seen.contains(name) {
        ResolveOutcome::Cycle(name)
    } else if !cache.contains_key(name) {
        ResolveOutcome::Fetch(name)
    } else if fuel == 0 {
        ResolveOutcome::Cycle(name)
    } else {
        match cache[name].parent {
            Option::None => ResolveOutcome::Resolved(cache[name]),
            Option::Some(pn) => match spec_resolve(cache, pn, seen.insert(name), (fuel - 1) as nat) {
                ResolveOutcome::Resolved(pl) => ResolveOutcome::Resolved(
                    merge_layouts(cache[name], pl),
                ),
                o => o,
            },
        }
    }
}

/// A fetch is only ever requested for a document the cache does not hold:
/// with `insert_raw` never evicting, the same document is never asked for
/// twice within one session.
pub proof fn lemma_fetch_only_uncached(
    cache: Map<Seq<char>, LayoutV>,
    name: Seq<char>,
    seen: Set<Seq<char>>,
    fuel: nat,
)
    ensures
        spec_resolve(cache, name, seen, fuel) matches ResolveOutcome::Fetch(id)
            ==> !cache.contains_key(id),
    decreases fuel,
{
    if !seen.contains(name) && cache.contains_key(name) && fuel > 0 {
        match cache[name].parent {
            Option::None => {
            },
            Option::Some(pn) => {
                lemma_fetch_only_uncached(cache, pn, seen.insert(name), (fuel - 1) as nat);
            },
        }
    }
}

/// Enough fuel makes its exact amount irrelevant: as long as the walk can
/// still visit every cached document not yet seen, the outcome does not
/// depend on the bound.
pub proof fn lemma_resolve_fuel_irrelevant(
    cache: Map<Seq<char>, LayoutV>,
    name: Seq<char>,
    seen: Set<Seq<char>>,
    fuel1: nat,
    fuel2: nat,
)
    requires
        cache.dom().finite(),
        seen.finite(),
        seen.subset_of(cache.dom()),
        fuel1 + seen.len() >= cache.dom().len(),
        fuel2 + seen.len() >= cache.dom().len(),
    ensures
        spec_resolve(cache, name, seen, fuel1) == spec_resolve(cache, name, seen, fuel2),
    decreases fuel1 + fuel2,
{
    if !seen.contains(name) && cache.contains_key(name) {
        assert(seen.subset_of(cache.dom().remove(name)));
        vstd::set_lib::lemma_len_subset(seen, cache.dom().remove(name));
        assert(cache.dom().remove(name).len() == cache.dom().len() - 1);
        assert(fuel1 > 0 && fuel2 > 0);
        match cache[name].parent {
            Option::None => {
            },
            Option::Some(pn) => {
                lemma_resolve_fuel_irrelevant(
                    cache,
                    pn,
                    seen.insert(name),
                    (fuel1 - 1) as nat,
                    (fuel2 - 1) as nat,
                );
            },
        }
    }
}

/// The session state of the resolver: the cached identifier list and the
/// decoded base layouts, keyed by document identifier.
pub struct Layouts {
    files: Option<Vec<String>>,
    cache: Vec<(String, Layout)>,
}

impl Layouts {
    /// The cached base layouts as modelled key/value pairs.
    pub closed spec fn cache_entries(self) -> Seq<(Seq<char>, LayoutV)> {
        self.cache@.map_values(|e: (String, Layout)| (e.0@, e.1@))
    }

    /// The mapping from identifier to cached base layout.
    pub closed spec fn cache_map(self) -> Map<Seq<char>, LayoutV> {
        map_of(self.cache_entries())
    }

    /// The cached identifier list, if it was ever provided.
    pub closed spec fn spec_list(self) -> Option<Seq<Seq<char>>> {
        match self.files {
            Option::None => Option::None,
            Option::Some(f) => Option::Some(view_strings(f@)),
        }
    }

    /// Cache keys are unique and every cached layout is well formed.
    pub closed spec fn wf(self) -> bool {
        &&& uniq_keys(self.cache_entries())
        &&& forall|i: int| 0 <= i < self.cache@.len() ==> (#[trigger] self.cache@[i]).1@.wf()
    }

    /// How many documents the cache holds.
    pub closed spec fn cache_len(self) -> nat {
        self.cache@.len() as nat
    }

    /// What resolving `name` against the current cache yields.
    pub closed spec fn spec_resolution(self, name: Seq<char>) -> ResolveOutcome {
        spec_resolve(self.cache_map(), name, Set::empty(), self.cache@.len() as nat)
    }

    /// A fresh session: nothing listed, nothing cached.
    pub fn new() -> (r: Layouts)
        ensures
            r.wf(),
            r.spec_list() is None,
            r.cache_map() == Map::<Seq<char>, LayoutV>::empty(),
            r.cache_len() == 0,
    {
        let r = Layouts { files: Option::None, cache: Vec::new() };
        proof {
            assert(r.cache_entries() =~= Seq::<(Seq<char>, LayoutV)>::empty());
            assert(r.cache_map() =~= Map::<Seq<char>, LayoutV>::empty());
        }
        r
    }

    /// The cached identifier list, or `None` when no list was provided yet
    /// and the caller must fetch one. Two calls on the same session state
    /// return the same identifiers, whatever the source does meanwhile.
    pub fn list_layouts(&self) -> (r: Option<Vec<String>>)
        ensures
            r is Some <==> self.spec_list() is Some,
            r matches Option::Some(v) ==> self.spec_list() == Option::Some(view_strings(v@)),
    {
        match &self.files {
            Option::None => Option::None,
            Option::Some(f) => Option::Some(clone_strings(f)),
        }
    }

    /// Cache the identifier list fetched by the caller. A list already
    /// cached stays: the first listing of the session wins.
    pub fn provide_list(&mut self, ids: Vec<String>)
        ensures
            old(self).spec_list() is None ==> final(self).spec_list() == Option::Some(
                view_strings(ids@),
            ),
            old(self).spec_list() is Some ==> *final(self) == *old(self),
            final(self).cache_entries() == old(self).cache_entries(),
            final(self).cache_map() == old(self).cache_map(),
            final(self).wf() == old(self).wf(),
    {
        if self.files.is_none() {
            self.files = Option::Some(ids);
        }
    }

    /// The cached base layout under `name`, if the document was fetched.
    fn find_cached<'a>(&'a self, name: &String) -> (r: Option<&'a Layout>)
        requires
            self.wf(),
        ensures
            r is Some <==> self.cache_map().contains_key(name@),
            r matches Option::Some(l) ==> l@ == self.cache_map()[name@] && l@.wf(),
    {
        let mut i: usize = 0;
        while i < self.cache.len()
            invariant
                self.wf(),
                i <= self.cache@.len(),
                forall|j: int| 0 <= j < i ==> (#[trigger] self.cache_entries()[j]).0 != name@,
            decreases self.cache@.len() - i,
        {
            if self.cache[i].0 == *name {
                proof {
                    lemma_map_of_value(self.cache_entries(), i as int);
                }
                return Option::Some(&self.cache[i].1);
            }
            i += 1;
        }
        proof {
            lemma_map_of_contains(self.cache_entries(), name@);
        }
        Option::None
    }

    /// Whether the vector holds an equal string.
    fn contains_str(v: &Vec<String>, k: &String) -> (r: bool)
        ensures
            r == view_strings(v@).contains(k@),
    {
        let mut i: usize = 0;
        while i < v.len()
            invariant
                i <= v@.len(),
                forall|j: int| 0 <= j < i ==> view_strings(v@)[j] != k@,
            decreases v@.len() - i,
        {
            if v[i] == *k {
                proof {
                    assert(view_strings(v@)[i as int] == k@);
                }
                return true;
            }
            i += 1;
        }
        false
    }

    /// Resolve `name`, with `seen` the chain of names already on the walk
    /// and `fuel` bounding its remaining length.
    fn get_from(&self, name: &String, seen: Vec<String>, fuel: usize) -> (r: Result<
        Resolution,
        LayoutError,
    >)
        requires
            self.wf(),
        ensures
            ({
                let out = spec_resolve(
                    self.cache_map(),
                    name@,
                    view_strings(seen@).to_set(),
                    fuel as nat,
                );
                match r {
                    Ok(Resolution::Resolved(l)) => out == ResolveOutcome::Resolved(l@) && l@.wf(),
                    Ok(Resolution::Fetch(f)) => out == ResolveOutcome::Fetch(f@),
                    Err(e) => e matches LayoutError::CyclicParent(n) && out
                        == ResolveOutcome::Cycle(n@),
                }
            }),
        decreases fuel,
    {
        let ghost seen_v = view_strings(seen@);
        let ghost cm = self.cache_map();
        let ghost ss = seen_v.to_set();
        let ghost out = spec_resolve(cm, name@, ss, fuel as nat);
        if Self::contains_str(&seen, name) {
            proof {
                assert(ss.contains(name@));
                assert(out == ResolveOutcome::Cycle(name@));
            }
            return Err(LayoutError::CyclicParent(name.clone()));
        }
        proof {
            assert(!ss.contains(name@));
        }
        match self.find_cached(name) {
            Option::None => {
                proof {
                    assert(out == ResolveOutcome::Fetch(name@));
                }
                Ok(Resolution::Fetch(name.clone()))
            },
            Option::Some(base) => {
                if fuel == 0 {
                    proof {
                        assert(out == ResolveOutcome::Cycle(name@));
                    }
                    return Err(LayoutError::CyclicParent(name.clone()));
                }
                match &base.parent {
                    Option::None => {
                        proof {
                            assert(cm[name@].parent is None);
                            assert(out == ResolveOutcome::Resolved(cm[name@]));
                        }
                        Ok(Resolution::Resolved(duplicate(base)))
                    },
                    Option::Some(pn) => {
                        let pn_c = pn.clone();
                        let mut seen2 = seen;
                        seen2.push(name.clone());
                        proof {
                            assert(cm[name@].parent == Option::Some(pn_c@));
                            assert(view_strings(seen2@) =~= seen_v + seq![name@]);
                            Seq::<Seq<char>>::lemma_to_set_insert_commutes(seen_v, name@);
                            assert(view_strings(seen2@).to_set() == ss.insert(name@));
                        }
                        let ghost out2 = spec_resolve(
                            cm,
                            pn_c@,
                            ss.insert(name@),
                            (fuel - 1) as nat,
                        );
                        proof {
                            assert(out == (match out2 {
                                ResolveOutcome::Resolved(pl) => ResolveOutcome::Resolved(
                                    merge_layouts(cm[name@], pl),
                                ),
                                o => o,
                            }));
                        }
                        match self.get_from(&pn_c, seen2, fuel - 1) {
                            Ok(Resolution::Resolved(pl)) => {
                                proof {
                                    assert(out2 == ResolveOutcome::Resolved(pl@));
                                    assert(out == ResolveOutcome::Resolved(
                                        merge_layouts(base@, pl@),
                                    ));
                                }
                                Ok(Resolution::Resolved(merge(base, &pl)))
                            },
                            other => other,
                        }
                    },
                }
            },
        }
    }

    /// Resolve the named layout against the session cache.
    ///
    /// Returns the fully merged layout when every document of the parent
    /// chain is cached; `Resolution::Fetch(id)` when the document `id` —
    /// which is never one already cached — must be fetched and handed to
    /// `insert_raw` first; and `CyclicParent` when the parent chain
    /// revisits a name.
    pub fn get_layout(&self, name: &String) -> (r: Result<Resolution, LayoutError>)
        requires
            self.wf(),
        ensures
            ({
                let out = self.spec_resolution(name@);
                match r {
                    Ok(Resolution::Resolved(l)) => out == ResolveOutcome::Resolved(l@) && l@.wf(),
                    Ok(Resolution::Fetch(f)) => out == ResolveOutcome::Fetch(f@)
                        && !self.cache_map().contains_key(f@),
                    Err(e) => e matches LayoutError::CyclicParent(n) && out
                        == ResolveOutcome::Cycle(n@),
                }
            }),
    {
        let seen: Vec<String> = Vec::new();
        proof {
            assert(view_strings(seen@) =~= Seq::<Seq<char>>::empty());
            assert(view_strings(seen@).to_set() =~= Set::<Seq<char>>::empty());
            lemma_fetch_only_uncached(
                self.cache_map(),
                name@,
                Set::empty(),
                self.cache@.len() as nat,
            );
        }
        self.get_from(name, seen, self.cache.len())
    }

    /// The fuel `spec_resolution` grants — the number of cached documents —
    /// is always sufficient: granting any more changes nothing, so
    /// `CyclicParent` is only ever reported for a parent chain that truly
    /// revisits a name, never for want of fuel.
    pub proof fn lemma_resolution_fuel_sufficient(self, name: Seq<char>, extra: nat)
        requires
            self.wf(),
        ensures
            self.spec_resolution(name) == spec_resolve(
                self.cache_map(),
                name,
                Set::empty(),
                self.cache_len() + extra,
            ),
    {
        crate::merge::lemma_map_of_len(self.cache_entries());
        assert(Set::<Seq<char>>::empty().subset_of(self.cache_map().dom()));
        lemma_resolve_fuel_irrelevant(
            self.cache_map(),
            name,
            Set::empty(),
            self.cache_len(),
            self.cache_len() + extra,
        );
    }

    /// Decode raw document text and cache it under `name`.
    ///
    /// A document already cached is left untouched — the cache never
    /// refetches and never evicts. The identifier list is not affected.
    pub fn insert_raw(&mut self, name: &String, raw: &str) -> (r: Result<(), LayoutError>)
        requires
            old(self).wf(),
        ensures
            final(self).wf(),
            final(self).spec_list() == old(self).spec_list(),
            r is Ok <==> old(self).cache_map().contains_key(name@) || spec_decode(raw@) is Some,
            old(self).cache_map().contains_key(name@) ==> r is Ok && *final(self) == *old(self),
            !old(self).cache_map().contains_key(name@) && spec_decode(raw@) is Some ==> r is Ok
                && final(self).cache_map() == old(self).cache_map().insert(
                name@,
                spec_decode(raw@)->0,
            ) && final(self).cache_len() == old(self).cache_len() + 1,
            !old(self).cache_map().contains_key(name@) && spec_decode(raw@) is None ==> (r matches
            Err(e) && e is Decode) && *final(self) == *old(self),
    {
        if self.find_cached(name).is_some() {
            return Ok(());
        }
        match decode(raw) {
            Err(e) => Err(e),
            Ok(l) => {
                let ghost prev = self.cache_entries();
                proof {
                    lemma_map_of_contains(prev, name@);
                }
                self.cache.push((name.clone(), l));
                proof {
                    assert(self.cache_entries().drop_last() =~= prev);
                    assert(self.cache_entries() =~= prev.push((name@, l@)));
                    assert(self.cache_map() == map_of(prev).insert(name@, l@));
                    assert forall|i: int, j: int|
                        0 <= i < j < self.cache_entries().len() implies (
                    #[trigger] self.cache_entries()[i]).0 != (
                    #[trigger] self.cache_entries()[j]).0 by {
                        if j < prev.len() {
                            assert(prev[i].0 != prev[j].0);
                        } else {
                            assert(self.cache_entries()[j].0 == name@);
                            assert(self.cache_entries()[i] == prev[i]);
                        }
                    }
                }
                Ok(())
            },
        }
    }
}

} // verus!
