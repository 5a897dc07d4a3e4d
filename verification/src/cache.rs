use vstd::prelude::*;
use vstd::std_specs::cmp::PartialEqSpec;

verus! {

/// General purpose cache for resources.
/// This cache evicts resources based on their last used epoch.
/// Each time a resource is used, its last used epoch is updated to the current.
/// The cache evicts all resources that have not been used for a certain amount of epochs.
pub struct ResourceCache<T> {
    /// Resources in the cache, each with the epoch of its last use.
    resources: Vec<(T, u64)>,
    /// Current epoch of the cache.
    current_epoch: u64,
}

/// `f` answered `false` for `x` (one of its possible answers).
pub open spec fn rejects<T, F: Fn(&T) -> bool>(f: F, x: T) -> bool {
    call_ensures(f, (&x,), false)
}

/// `f` answered `true` for `x` (one of its possible answers).
pub open spec fn accepts<T, F: Fn(&T) -> bool>(f: F, x: T) -> bool {
    call_ensures(f, (&x,), true)
}

/// `f` may be called on every resource of `entries`.
pub open spec fn callable_on_all<T, F: Fn(&T) -> bool>(f: F, entries: Seq<(T, u64)>) -> bool {
    forall|i: int| 0 <= i < entries.len() ==> call_requires(f, (&#[trigger] entries[i].0,))
}

/// The entries that survive eviction at `epoch`: those used at or after `epoch`, in order.
pub open spec fn kept_after_evict<T>(entries: Seq<(T, u64)>, epoch: u64) -> Seq<(T, u64)> {
    entries.filter(|e: (T, u64)| e.1 >= epoch)
}

/// Outcome of a lookup that found the resource at `idx`: the lookup answered `false`
/// for every earlier entry and `true` for this one, and only its epoch was refreshed.
pub open spec fn found_at<T, F: Fn(&T) -> bool>(
    f: F,
    before: Seq<(T, u64)>,
    after: Seq<(T, u64)>,
    epoch: u64,
    idx: int,
) -> bool {
    &&& 0 <= idx < before.len()
    &&& accepts(f, before[idx].0)
    &&& forall|j: int| 0 <= j < idx ==> rejects(f, #[trigger] before[j].0)
    &&& after == before.update(idx, (before[idx].0, epoch))
}

/// `f` answered `false` for every resource of `entries`.
pub open spec fn all_rejected<T, F: Fn(&T) -> bool>(f: F, entries: Seq<(T, u64)>) -> bool {
    forall|i: int| 0 <= i < entries.len() ==> rejects(f, #[trigger] entries[i].0)
}

/// No resource of `entries` equals `key`.
pub open spec fn key_absent<T: PartialEq>(entries: Seq<(T, u64)>, key: T) -> bool {
    forall|i: int| 0 <= i < entries.len() ==> !(#[trigger] entries[i].0).eq_spec(&key)
}

/// The first resource equal to `key` is at `idx`, and only its epoch was refreshed.
pub open spec fn key_found_at<T: PartialEq>(
    before: Seq<(T, u64)>,
    after: Seq<(T, u64)>,
    epoch: u64,
    key: T,
    idx: int,
) -> bool {
    &&& 0 <= idx < before.len()
    &&& before[idx].0.eq_spec(&key)
    &&& forall|j: int| 0 <= j < idx ==> !(#[trigger] before[j].0).eq_spec(&key)
    &&& after == before.update(idx, (before[idx].0, epoch))
}

/// An entry used at or after `epoch` survives eviction at `epoch`.
pub proof fn lemma_used_entry_survives_evict<T>(entries: Seq<(T, u64)>, i: int, epoch: u64)
    requires
        0 <= i < entries.len(),
        entries[i].1 >= epoch,
    ensures
        kept_after_evict(entries, epoch).contains(entries[i]),
    decreases entries.len(),
{
    reveal_with_fuel(Seq::filter, 1);
    let rest = entries.drop_last();
    let last = entries.last();
    if i == entries.len() - 1 {
        let kept = kept_after_evict(entries, epoch);
        assert(kept == kept_after_evict(rest, epoch).push(last));
        assert(kept[kept.len() - 1] == entries[i]);
    } else {
        assert(rest[i] == entries[i]);
        lemma_used_entry_survives_evict(rest, i, epoch);
        let kept_rest = kept_after_evict(rest, epoch);
        let j = choose|j: int| 0 <= j < kept_rest.len() && kept_rest[j] == entries[i];
        if last.1 >= epoch {
            assert(kept_after_evict(entries, epoch) == kept_rest.push(last));
            assert(kept_rest.push(last)[j] == entries[i]);
        } else {
            assert(kept_after_evict(entries, epoch) == kept_rest);
        }
    }
}

/// Every entry that survives eviction at `epoch` was used at or after `epoch`,
/// and was in the cache before.
pub proof fn lemma_evict_keeps_only_recent<T>(entries: Seq<(T, u64)>, epoch: u64, j: int)
    requires
        0 <= j < kept_after_evict(entries, epoch).len(),
    ensures
        kept_after_evict(entries, epoch)[j].1 >= epoch,
        entries.contains(kept_after_evict(entries, epoch)[j]),
    decreases entries.len(),
{
    reveal_with_fuel(Seq::filter, 1);
    let rest = entries.drop_last();
    let last = entries.last();
    let kept_rest = kept_after_evict(rest, epoch);
    if last.1 >= epoch && j == kept_rest.len() {
        assert(kept_after_evict(entries, epoch) == kept_rest.push(last));
        assert(entries[entries.len() - 1] == last);
    } else {
        if last.1 >= epoch {
            assert(kept_after_evict(entries, epoch) == kept_rest.push(last));
        } else {
            assert(kept_after_evict(entries, epoch) == kept_rest);
        }
        assert(kept_after_evict(entries, epoch)[j] == kept_rest[j]);
        lemma_evict_keeps_only_recent(rest, epoch, j);
        let k = choose|k: int| 0 <= k < rest.len() && rest[k] == kept_rest[j];
        assert(entries[k] == rest[k]);
    }
}

/// Evicting at `a` and then at `b` is evicting once at the later of the two epochs;
/// in particular evicting twice at the same epoch changes nothing more.
pub proof fn lemma_evict_twice<T>(entries: Seq<(T, u64)>, a: u64, b: u64)
    ensures
        kept_after_evict(kept_after_evict(entries, a), b) == kept_after_evict(
            entries,
            if a >= b { a } else { b },
        ),
    decreases entries.len(),
{
    reveal_with_fuel(Seq::filter, 1);
    let m: u64 = if a >= b { a } else { b };
    if entries.len() > 0 {
        let rest = entries.drop_last();
        let last = entries.last();
        lemma_evict_twice(rest, a, b);
        let ka = kept_after_evict(rest, a);
        if last.1 >= a {
            assert(kept_after_evict(entries, a) == ka.push(last));
            assert(ka.push(last).drop_last() =~= ka);
            assert(ka.push(last).last() == last);
        } else {
            assert(kept_after_evict(entries, a) == ka);
        }
    } else {
        assert(kept_after_evict(entries, a) == entries);
    }
}

/// When every entry was used at or before `current`, evicting at a later epoch empties the cache.
pub proof fn lemma_evict_after_current_empties<T>(entries: Seq<(T, u64)>, current: u64, epoch: u64)
    requires
        forall|i: int| 0 <= i < entries.len() ==> #[trigger] entries[i].1 <= current,
        current < epoch,
    ensures
        kept_after_evict(entries, epoch) == Seq::<(T, u64)>::empty(),
{
    let kept = kept_after_evict(entries, epoch);
    if kept.len() > 0 {
        lemma_evict_keeps_only_recent(entries, epoch, 0);
        let k = choose|k: int| 0 <= k < entries.len() && entries[k] == kept[0];
        assert(entries[k].1 <= current);
    }
    assert(kept =~= Seq::<(T, u64)>::empty());
}

/// Eviction only drops entries: an upper bound on the epochs of all entries
/// still bounds the epochs of the survivors.
pub proof fn lemma_evict_preserves_epoch_bound<T>(entries: Seq<(T, u64)>, epoch: u64, bound: u64)
    requires
        forall|i: int| 0 <= i < entries.len() ==> #[trigger] entries[i].1 <= bound,
    ensures
        forall|i: int|
            0 <= i < kept_after_evict(entries, epoch).len() ==> #[trigger] kept_after_evict(
                entries,
                epoch,
            )[i].1 <= bound,
    decreases entries.len(),
{
    reveal_with_fuel(Seq::filter, 1);
    if entries.len() > 0 {
        let rest = entries.drop_last();
        assert forall|i: int| 0 <= i < rest.len() implies #[trigger] rest[i].1 <= bound by {
            assert(rest[i] == entries[i]);
        }
        lemma_evict_preserves_epoch_bound(rest, epoch, bound);
        let kept_rest = kept_after_evict(rest, epoch);
        let last = entries.last();
        assert(last.1 <= bound) by {
            assert(last == entries[entries.len() - 1]);
        }
        if last.1 >= epoch {
            assert(kept_after_evict(entries, epoch) == kept_rest.push(last));
        } else {
            assert(kept_after_evict(entries, epoch) == kept_rest);
        }
    }
}

/// Looking up by key is looking up with a predicate that answers exactly whether a
/// resource equals the key: the outcomes that `get` and `get_or_create` state for a key
/// are those that `fetch` and `fetch_or_create` state for such a predicate.
pub proof fn lemma_key_lookup_is_predicate_lookup<T: PartialEq, F: Fn(&T) -> bool>(
    eq: F,
    key: T,
    before: Seq<(T, u64)>,
    after: Seq<(T, u64)>,
    epoch: u64,
    idx: int,
)
    requires
        forall|x: T, b: bool| #[trigger] call_ensures(eq, (&x,), b) <==> b == x.eq_spec(&key),
    ensures
        found_at(eq, before, after, epoch, idx) <==> key_found_at(before, after, epoch, key, idx),
        all_rejected(eq, before) <==> key_absent(before, key),
{
    assert forall|x: T| rejects(eq, x) <==> !x.eq_spec(&key) by {
        assert(call_ensures(eq, (&x,), false) <==> false == x.eq_spec(&key));
    }
    assert forall|x: T| accepts(eq, x) <==> x.eq_spec(&key) by {
        assert(call_ensures(eq, (&x,), true) <==> true == x.eq_spec(&key));
    }
}

/// `get_or_create` twice with the same key: when the first call found the key or created a
/// resource equal to it, the second call finds that same resource, creates nothing and
/// leaves the number of cached resources unchanged. Both outcomes are those that
/// `get_or_create` ensures for key types whose `==` obeys its specification.
pub proof fn lemma_get_or_create_twice<T: PartialEq>(
    e0: Seq<(T, u64)>,
    e1: Seq<(T, u64)>,
    e2: Seq<(T, u64)>,
    epoch1: u64,
    epoch2: u64,
    key: T,
    r1: T,
    r2: T,
)
    requires
        (exists|idx: int| key_found_at(e0, e1, epoch1, key, idx) && r1 == e0[idx].0) || (
        key_absent(e0, key) && r1.eq_spec(&key) && e1 == e0.push((r1, epoch1))),
        (exists|idx: int| key_found_at(e1, e2, epoch2, key, idx) && r2 == e1[idx].0) || (
        key_absent(e1, key) && e2 == e1.push((r2, epoch2))),
    ensures
        !key_absent(e1, key),
        r2 == r1,
        e2.len() == e1.len(),
{
    // The first resource of `e1` equal to `key` is `r1`, at `first`.
    let first: int = if exists|idx: int| key_found_at(e0, e1, epoch1, key, idx) && r1 == e0[idx].0 {
        choose|idx: int| key_found_at(e0, e1, epoch1, key, idx) && r1 == e0[idx].0
    } else {
        e0.len() as int
    };
    assert(0 <= first < e1.len() && e1[first].0 == r1 && e1[first].0.eq_spec(&key));
    assert forall|j: int| 0 <= j < first implies !(#[trigger] e1[j].0).eq_spec(&key) by {
        if j < e0.len() {
            assert(e1[j].0 == e0[j].0);
        }
    }
    assert(!key_absent(e1, key));
    let idx2 = choose|idx: int| key_found_at(e1, e2, epoch2, key, idx) && r2 == e1[idx].0;
    if idx2 < first {
        assert(!e1[idx2].0.eq_spec(&key));
    }
    if first < idx2 {
        assert(!e1[first].0.eq_spec(&key));
    }
}

impl<T> ResourceCache<T> {
    /// No resource was used in an epoch that has not begun yet.
    pub open spec fn epochs_in_past(&self) -> bool {
        forall|i: int| 0 <= i < self.entries().len() ==> #[trigger] self.entries()[i].1 <= self.epoch()
    }

    /// Every cache keeps its resources' epochs in the past.
    #[verifier::type_invariant]
    spec fn epochs_bounded(self) -> bool {
        forall|i: int| 0 <= i < self.resources@.len() ==> #[trigger] self.resources@[i].1 <= self.current_epoch
    }

    /// The cached resources with their last used epochs, in insertion order.
    pub closed spec fn entries(&self) -> Seq<(T, u64)> {
        self.resources@
    }

    /// The current epoch of the cache.
    pub closed spec fn epoch(&self) -> u64 {
        self.current_epoch
    }

    /// Creates a new empty cache.
    pub fn new() -> (r: Self)
        ensures
            r.epochs_in_past(),
            r.entries() == Seq::<(T, u64)>::empty(),
            r.epoch() == 0,
    {
        ResourceCache { resources: Vec::new(), current_epoch: 0 }
    }

    /// Creates a new cache with preallocated resource capacity.
    pub fn with_capacity(cap: usize) -> (r: Self)
        ensures
            r.epochs_in_past(),
            r.entries() == Seq::<(T, u64)>::empty(),
            r.epoch() == 0,
    {
        ResourceCache { resources: Vec::with_capacity(cap), current_epoch: 0 }
    }

    /// Index of the first resource accepted by `eq`, if any.
    fn position<F: Fn(&T) -> bool>(&self, eq: &F) -> (r: Option<usize>)
        requires
            callable_on_all(*eq, self.entries()),
        ensures
            match r {
                None => forall|i: int|
                    0 <= i < self.entries().len() ==> rejects(*eq, #[trigger] self.entries()[i].0),
                Some(idx) => {
                    &&& idx < self.entries().len()
                    &&& accepts(*eq, self.entries()[idx as int].0)
                    &&& forall|j: int| 0 <= j < idx ==> rejects(*eq, #[trigger] self.entries()[j].0)
                },
            },
    {
        let mut i: usize = 0;
        while i < self.resources.len()
            invariant
                i <= self.resources.len(),
                callable_on_all(*eq, self.entries()),
                forall|j: int| 0 <= j < i ==> rejects(*eq, #[trigger] self.entries()[j].0),
            decreases self.resources.len() - i,
        {
            let found = eq(&self.resources[i].0);
            if found {
                return Some(i);
            }
            i = i + 1;
        }
        None
    }

    /// Index of the first resource equal to `key`, if any.
    fn position_of(&self, key: &T) -> (r: Option<usize>)
        where
            T: PartialEq,
        ensures
            r matches Some(idx) ==> idx < self.entries().len(),
            T::obeys_eq_spec() ==> match r {
                None => key_absent(self.entries(), *key),
                Some(idx) => {
                    &&& idx < self.entries().len()
                    &&& self.entries()[idx as int].0.eq_spec(key)
                    &&& forall|j: int|
                        0 <= j < idx ==> !(#[trigger] self.entries()[j].0).eq_spec(key)
                },
            },
    {
        let mut i: usize = 0;
        while i < self.resources.len()
            invariant
                i <= self.resources.len(),
                T::obeys_eq_spec() ==> forall|j: int|
                    0 <= j < i ==> !(#[trigger] self.entries()[j].0).eq_spec(key),
            decreases self.resources.len() - i,
        {
            if self.resources[i].0 == *key {
                return Some(i);
            }
            i = i + 1;
        }
        None
    }

    /// Appends `resource`, used in the current epoch.
    fn append(&mut self, resource: T)
        ensures
            final(self).entries() == old(self).entries().push((resource, old(self).epoch())),
            final(self).epoch() == old(self).epoch(),
    {
        proof {
            use_type_invariant(&*self);
        }
        let mut resources: Vec<(T, u64)> = Vec::new();
        std::mem::swap(&mut resources, &mut self.resources);
        resources.push((resource, self.current_epoch));
        self.resources = resources;
    }

    /// Sets the last used epoch of the entry at `idx` to the current epoch.
    fn touch(&mut self, idx: usize)
        requires
            idx < old(self).entries().len(),
        ensures
            final(self).entries() == old(self).entries().update(
                idx as int,
                (old(self).entries()[idx as int].0, old(self).epoch()),
            ),
            final(self).epoch() == old(self).epoch(),
    {
        proof {
            use_type_invariant(&*self);
        }
        let epoch = self.current_epoch;
        let mut resources: Vec<(T, u64)> = Vec::new();
        std::mem::swap(&mut resources, &mut self.resources);
        let entry = &mut resources[idx];
        entry.1 = epoch;
        self.resources = resources;
    }

    /// Fetches resource from cache.
    /// Resource last used epoch is updated to the current epoch.
    /// Returns `None` if resource is not in cache.
    /// Returns `Some` if resource is in cache.
    pub fn fetch<F: Fn(&T) -> bool>(&mut self, eq: F) -> (r: Option<&T>)
        requires
            callable_on_all(eq, old(self).entries()),
        ensures
            final(self).epochs_in_past(),
            final(self).epoch() == old(self).epoch(),
            r is None ==> final(self).entries() == old(self).entries(),
            r is None ==> forall|i: int|
                0 <= i < old(self).entries().len() ==> rejects(
                    eq,
                    #[trigger] old(self).entries()[i].0,
                ),
            r matches Some(x) ==> exists|idx: int|
                found_at(eq, old(self).entries(), final(self).entries(), old(self).epoch(), idx)
                    && *x == old(self).entries()[idx].0,
    {
        proof {
            use_type_invariant(&*self);
        }
        let pos = self.position(&eq);
        match pos {
            None => {},
            Some(idx) => self.touch(idx),
        }
        match pos {
            None => None,
            Some(idx) => {
                assert(found_at(eq, old(self).entries(), self.entries(), old(self).epoch(), idx as int));
                Some(&self.resources[idx].0)
            },
        }
    }

    /// Fetches resource equal to `key` from cache.
    /// Resource last used epoch is updated to the current epoch.
    /// Returns `None` if resource is not in cache.
    /// Returns `Some` if resource is in cache.
    pub fn get(&mut self, key: &T) -> (r: Option<&T>)
        where
            T: PartialEq,
        ensures
            final(self).epochs_in_past(),
            final(self).epoch() == old(self).epoch(),
            T::obeys_eq_spec() ==> (r is None ==> key_absent(old(self).entries(), *key)
                && final(self).entries() == old(self).entries()),
            T::obeys_eq_spec() ==> (r matches Some(x) ==> exists|idx: int|
                key_found_at(old(self).entries(), final(self).entries(), old(self).epoch(), *key, idx)
                    && *x == old(self).entries()[idx].0),
    {
        proof {
            use_type_invariant(&*self);
        }
        match self.position_of(key) {
            None => None,
            Some(idx) => {
                self.touch(idx);
                assert(T::obeys_eq_spec() ==> key_found_at(old(self).entries(), self.entries(), old(self).epoch(), *key, idx as int));
                Some(&self.resources[idx].0)
            },
        }
    }

    /// Fetches resource from cache without updating its last used epoch.
    /// This is useful when only shared reference to cache is available.
    /// Returns `None` if resource is not in cache.
    /// Returns `Some` if resource is in cache.
    pub fn fetch_no_update<F: Fn(&T) -> bool>(&self, eq: F) -> (r: Option<&T>)
        requires
            callable_on_all(eq, self.entries()),
        ensures
            match r {
                None => forall|i: int|
                    0 <= i < self.entries().len() ==> rejects(eq, #[trigger] self.entries()[i].0),
                Some(x) => exists|idx: int|
                    {
                        &&& 0 <= idx < self.entries().len()
                        &&& accepts(eq, self.entries()[idx].0)
                        &&& forall|j: int|
                            0 <= j < idx ==> rejects(eq, #[trigger] self.entries()[j].0)
                        &&& *x == self.entries()[idx].0
                    },
            },
    {
        match self.position(&eq) {
            None => None,
            Some(idx) => Some(&self.resources[idx].0),
        }
    }

    /// Fetches resource equal to `key` from cache without updating its last used epoch.
    pub fn get_no_update(&self, key: &T) -> (r: Option<&T>)
        where
            T: PartialEq,
        ensures
            T::obeys_eq_spec() ==> (r is None ==> key_absent(self.entries(), *key)),
            T::obeys_eq_spec() ==> (r matches Some(x) ==> exists|idx: int|
                key_found_at(self.entries(), self.entries(), self.entries()[idx].1, *key, idx)
                    && *x == self.entries()[idx].0),
    {
        match self.position_of(key) {
            None => None,
            Some(idx) => {
                assert(self.entries().update(idx as int, (self.entries()[idx as int].0, self.entries()[idx as int].1)) =~= self.entries()) by {
                    let e = self.entries()[idx as int];
                    assert((e.0, e.1) == e);
                }
                assert(T::obeys_eq_spec() ==> key_found_at(self.entries(), self.entries(), self.entries()[idx as int].1, *key, idx as int));
                Some(&self.resources[idx].0)
            },
        }
    }

    /// Fetches resource from cache, creating it with `create` when it is absent.
    /// Resource last used epoch is updated to the current epoch.
    /// A created resource is appended to the cache with the current epoch.
    /// Returns error if resource is not in cache and `create` fails.
    pub fn try_fetch_or_create<K, F, E>(&mut self, eq: K, create: F) -> (r: Result<&T, E>)
        where
            K: Fn(&T) -> bool,
            F: FnOnce() -> Result<T, E>,
        requires
            callable_on_all(eq, old(self).entries()),
            call_requires(create, ()),
        ensures
            final(self).epochs_in_past(),
            final(self).epoch() == old(self).epoch(),
            r matches Ok(x) ==> (exists|idx: int|
                found_at(eq, old(self).entries(), final(self).entries(), old(self).epoch(), idx)
                    && *x == old(self).entries()[idx].0) || (all_rejected(eq, old(self).entries())
                && call_ensures(create, (), Ok::<T, E>(*x)) && final(self).entries() == old(
                self,
            ).entries().push((*x, old(self).epoch()))),
            r matches Err(e) ==> all_rejected(eq, old(self).entries()) && call_ensures(
                create,
                (),
                Err::<T, E>(e),
            ) && final(self).entries() == old(self).entries(),
    {
        proof {
            use_type_invariant(&*self);
        }
        match self.position(&eq) {
            None => {
                let created = create();
                match created {
                    Ok(resource) => {
                        let ghost t = resource;
                        self.append(resource);
                        let idx = self.resources.len() - 1;
                        assert(self.entries() == old(self).entries().push((t, old(self).epoch())));
                        assert(all_rejected(eq, old(self).entries()));
                        Ok(&self.resources[idx].0)
                    },
                    Err(e) => Err(e),
                }
            },
            Some(idx) => {
                self.touch(idx);
                assert(found_at(eq, old(self).entries(), self.entries(), old(self).epoch(), idx as int));
                Ok(&self.resources[idx].0)
            },
        }
    }

    /// Fetches resource from cache, creating it with `create` when it is absent.
    /// Resource last used epoch is updated to the current epoch.
    /// A created resource is appended to the cache with the current epoch.
    pub fn fetch_or_create<K, F>(&mut self, eq: K, create: F) -> (r: &T)
        where
            K: Fn(&T) -> bool,
            F: FnOnce() -> T,
        requires
            callable_on_all(eq, old(self).entries()),
            call_requires(create, ()),
        ensures
            final(self).epochs_in_past(),
            final(self).epoch() == old(self).epoch(),
            (exists|idx: int|
                found_at(eq, old(self).entries(), final(self).entries(), old(self).epoch(), idx)
                    && *r == old(self).entries()[idx].0) || (all_rejected(eq, old(self).entries())
                && call_ensures(create, (), *r) && final(self).entries() == old(
                self,
            ).entries().push((*r, old(self).epoch()))),
    {
        proof {
            use_type_invariant(&*self);
        }
        match self.position(&eq) {
            None => {
                let resource = create();
                let ghost t = resource;
                self.append(resource);
                let idx = self.resources.len() - 1;
                assert(self.entries() == old(self).entries().push((t, old(self).epoch())));
                assert(all_rejected(eq, old(self).entries()));
                &self.resources[idx].0
            },
            Some(idx) => {
                self.touch(idx);
                assert(found_at(eq, old(self).entries(), self.entries(), old(self).epoch(), idx as int));
                &self.resources[idx].0
            },
        }
    }

    /// Fetches resource equal to `key` from cache, creating it with `create` when it is absent.
    /// Resource last used epoch is updated to the current epoch.
    pub fn try_get_or_create<F, E>(&mut self, key: &T, create: F) -> (r: Result<&T, E>)
        where
            T: PartialEq,
            F: FnOnce() -> Result<T, E>,
        requires
            call_requires(create, ()),
        ensures
            final(self).epochs_in_past(),
            final(self).epoch() == old(self).epoch(),
            T::obeys_eq_spec() ==> (r matches Ok(x) ==> (exists|idx: int|
                key_found_at(old(self).entries(), final(self).entries(), old(self).epoch(), *key, idx)
                    && *x == old(self).entries()[idx].0) || (key_absent(old(self).entries(), *key)
                && call_ensures(create, (), Ok::<T, E>(*x)) && final(self).entries() == old(
                self,
            ).entries().push((*x, old(self).epoch())))),
            T::obeys_eq_spec() ==> (r matches Err(e) ==> key_absent(old(self).entries(), *key)
                && call_ensures(create, (), Err::<T, E>(e)) && final(self).entries() == old(
                self,
            ).entries()),
    {
        proof {
            use_type_invariant(&*self);
        }
        match self.position_of(key) {
            None => {
                let created = create();
                match created {
                    Ok(resource) => {
                        let ghost t = resource;
                        self.append(resource);
                        let idx = self.resources.len() - 1;
                        assert(self.entries() == old(self).entries().push((t, old(self).epoch())));
                        Ok(&self.resources[idx].0)
                    },
                    Err(e) => Err(e),
                }
            },
            Some(idx) => {
                self.touch(idx);
                assert(T::obeys_eq_spec() ==> key_found_at(old(self).entries(), self.entries(), old(self).epoch(), *key, idx as int));
                Ok(&self.resources[idx].0)
            },
        }
    }

    /// Fetches resource equal to `key` from cache, creating it with `create` when it is absent.
    /// Resource last used epoch is updated to the current epoch.
    pub fn get_or_create<F>(&mut self, key: &T, create: F) -> (r: &T)
        where
            T: PartialEq,
            F: FnOnce() -> T,
        requires
            call_requires(create, ()),
        ensures
            final(self).epochs_in_past(),
            final(self).epoch() == old(self).epoch(),
            T::obeys_eq_spec() ==> (exists|idx: int|
                key_found_at(old(self).entries(), final(self).entries(), old(self).epoch(), *key, idx)
                    && *r == old(self).entries()[idx].0) || (key_absent(old(self).entries(), *key)
                && call_ensures(create, (), *r) && final(self).entries() == old(
                self,
            ).entries().push((*r, old(self).epoch()))),
    {
        proof {
            use_type_invariant(&*self);
        }
        match self.position_of(key) {
            None => {
                let resource = create();
                let ghost t = resource;
                self.append(resource);
                let idx = self.resources.len() - 1;
                assert(self.entries() == old(self).entries().push((t, old(self).epoch())));
                &self.resources[idx].0
            },
            Some(idx) => {
                self.touch(idx);
                assert(T::obeys_eq_spec() ==> key_found_at(old(self).entries(), self.entries(), old(self).epoch(), *key, idx as int));
                &self.resources[idx].0
            },
        }
    }

    /// Moves to the next epoch.
    pub fn next_epoch(&mut self)
        requires
            old(self).epoch() < u64::MAX,
        ensures
            final(self).epochs_in_past(),
            final(self).epoch() == old(self).epoch() + 1,
            final(self).entries() == old(self).entries(),
    {
        proof {
            use_type_invariant(&*self);
        }
        self.current_epoch = self.current_epoch + 1;
        assert forall|i: int| 0 <= i < self.entries().len() && old(self).epochs_in_past() implies #[trigger] self.entries()[i].1 <= self.epoch() by {
            assert(self.entries()[i] == old(self).entries()[i]);
        }
    }

    /// Evicts resources that have not been used since specified epoch.
    pub fn evict(&mut self, epoch: u64)
        ensures
            final(self).epochs_in_past(),
            final(self).entries() == kept_after_evict(old(self).entries(), epoch),
            final(self).epoch() == old(self).epoch(),
    {
        proof {
            use_type_invariant(&*self);
        }
        let mut old_resources: Vec<(T, u64)> = Vec::new();
        std::mem::swap(&mut old_resources, &mut self.resources);
        let ghost all = old_resources@;
        let mut reversed: Vec<(T, u64)> = Vec::new();
        // Move everything into `reversed`, last element first.
        while old_resources.len() > 0
            invariant
                old_resources@.len() + reversed@.len() == all.len(),
                old_resources@ == all.subrange(0, old_resources@.len() as int),
                reversed@ == all.subrange(old_resources@.len() as int, all.len() as int).reverse(),
            decreases old_resources.len(),
        {
            let ghost n = old_resources@.len();
            let item = old_resources.pop().unwrap();
            reversed.push(item);
            proof {
                assert(old_resources@ =~= all.subrange(0, n - 1));
                assert(reversed@ =~= all.subrange(n - 1, all.len() as int).reverse());
            }
        }
        proof {
            assert(reversed@ =~= all.reverse());
        }
        let mut kept: Vec<(T, u64)> = Vec::new();
        while reversed.len() > 0
            invariant
                reversed@ == all.subrange(all.len() - reversed@.len(), all.len() as int).reverse(),
                reversed@.len() <= all.len(),
                kept@ == kept_after_evict(all.subrange(0, all.len() - reversed@.len()), epoch),
            decreases reversed.len(),
        {
            let ghost k = all.len() - reversed@.len();
            let item = reversed.pop().unwrap();
            proof {
                assert(reversed@ =~= all.subrange(k + 1, all.len() as int).reverse());
                assert(item == all[k]);
                let prefix = all.subrange(0, k + 1);
                assert(prefix.drop_last() =~= all.subrange(0, k));
                assert(prefix.last() == all[k]);
                reveal_with_fuel(Seq::filter, 1);
            }
            if item.1 >= epoch {
                kept.push(item);
            }
            proof {
                let prefix = all.subrange(0, k + 1);
                assert(prefix.drop_last() =~= all.subrange(0, k));
                reveal_with_fuel(Seq::filter, 1);
                assert(kept@ =~= kept_after_evict(prefix, epoch));
            }
        }
        proof {
            assert(all.subrange(0, all.len() as int) =~= all);
            if old(self).epochs_in_past() {
                assert(all == old(self).entries());
                lemma_evict_preserves_epoch_bound(all, epoch, self.current_epoch);
            }
        }
        self.resources = kept;
    }
}

} // verus!
