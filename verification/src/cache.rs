use vstd::prelude::*;
use std::collections::HashMap;
use crate::layout::{Parity, parity_of};

verus! {

broadcast use vstd::std_specs::hash::group_hash_axioms;

/// The cache after planning for `len`, when a plan built for it would be `built`: a cached
/// plan is kept as it is, otherwise the built one is added.
pub open spec fn after_plan<V>(cache: Map<usize, V>, len: usize, built: V) -> Map<usize, V> {
    if cache.contains_key(len) {
        cache
    } else {
        cache.insert(len, built)
    }
}

/// Planned transforms, kept by length so that each length is planned once.
pub struct PlanCache<V> {
    plans: HashMap<usize, V>,
}

impl<V> View for PlanCache<V> {
    type V = Map<usize, V>;

    closed spec fn view(&self) -> Map<usize, V> {
        self.plans@
    }
}

impl<V: Clone> PlanCache<V> {
    /// An empty cache.
    pub fn new() -> (c: Self)
        ensures
            c@ == Map::<usize, V>::empty(),
    {
        PlanCache { plans: HashMap::new() }
    }

    /// The plan cached for `len`, if any.
    pub fn get(&self, len: usize) -> (r: Option<&V>)
        ensures
            match r {
                Some(v) => self@.contains_key(len) && *v == self@[len],
                None => !self@.contains_key(len),
            },
    {
        self.plans.get(&len)
    }

    /// The plan for `len`: the cached one if there is one; otherwise the one that `build` makes
    /// for `len` and its parity, which is cached first. What is handed back is a clone of the
    /// plan the cache holds for `len`.
    pub fn plan<F: FnOnce(usize, Parity) -> V>(&mut self, len: usize, build: F) -> (r: V)
        requires
            build.requires((len, parity_of(len as nat))),
        ensures
            old(self)@.contains_key(len) ==> final(self)@ == old(self)@,
            !old(self)@.contains_key(len) ==> exists|built: V|
                #![trigger build.ensures((len, parity_of(len as nat)), built)]
                build.ensures((len, parity_of(len as nat)), built) && final(self)@ == after_plan(
                    old(self)@,
                    len,
                    built,
                ) && final(self)@ == old(self)@.insert(len, built),
            final(self)@.contains_key(len),
            cloned(final(self)@[len], r),
    {
        match self.plans.get(&len) {
            Some(v) => {
                return v.clone();
            },
            None => {},
        }
        let built = build(len, Parity::of(len));
        let r = built.clone();
        self.plans.insert(len, built);
        r
    }
}

/// Planning a length a second time hands back the plan of the first time and leaves the cache
/// as the first time left it, whatever a new build would have given; lengths other than the
/// planned one keep their plans.
pub proof fn lemma_second_plan_reuses_first<V>(cache: Map<usize, V>, len: usize, first: V, second: V)
    ensures
        after_plan(after_plan(cache, len, first), len, second) == after_plan(cache, len, first),
        after_plan(cache, len, first).contains_key(len),
        after_plan(cache, len, first)[len] == (if cache.contains_key(len) {
            cache[len]
        } else {
            first
        }),
        forall|other: usize|
            other != len ==> (#[trigger] after_plan(cache, len, first).contains_key(other)
                == cache.contains_key(other)) && (cache.contains_key(other) ==> after_plan(
                cache,
                len,
                first,
            )[other] == cache[other]),
{
}

} // verus!
