use vstd::prelude::*;
use std::collections::HashMap;

verus! {

broadcast use vstd::std_specs::hash::group_hash_axioms;

/// Number of slots whose reuse a sparse descriptor array tracks.
pub const SLOT_BITS: usize = 4096;

/// The highest slot index the tracking can name.
pub const MAX_SET_INDEX: u32 = 4095;

/// Slots of a descriptor array bound sparsely: each resource, named by its raw handle,
/// keeps the slot it was first given. New resources take the first slot marked for reuse,
/// else the next slot after all that were handed out; the new resources that took fresh
/// slots wait in `updates` until they are written to the descriptor set.
pub struct SparseDescriptorsInstance {
    indices: HashMap<u64, u32>,
    upper_bounds: u32,
    unused: Vec<bool>,
    updates: Vec<u64>,
}

/// Index of the first marked slot of `unused`, if any.
pub open spec fn is_first_marked(unused: Seq<bool>, i: int) -> bool {
    &&& 0 <= i < unused.len()
    &&& unused[i]
    &&& forall|j: int| 0 <= j < i ==> !unused[j]
}

/// No slot of `unused` is marked.
pub open spec fn none_marked(unused: Seq<bool>) -> bool {
    forall|j: int| 0 <= j < unused.len() ==> !unused[j]
}

/// After the slot below `upper` was released: while the slot just below the bound is
/// marked for reuse, it is unmarked and the bound lowered past it.
pub open spec fn trimmed(unused: Seq<bool>, upper: nat) -> (Seq<bool>, nat)
    decreases upper,
{
    if upper > 0 && upper - 1 < unused.len() && unused[upper - 1] {
        trimmed(unused.update(upper - 1, false), (upper - 1) as nat)
    } else {
        (unused, upper)
    }
}

/// The pending writes: for each resource waiting in `updates` that has a slot, the
/// resource with its slot, in order.
pub open spec fn pending_writes(updates: Seq<u64>, indices: Map<u64, u32>) -> Seq<(u64, u32)>
    decreases updates.len(),
{
    if updates.len() == 0 {
        Seq::empty()
    } else {
        let prev = pending_writes(updates.drop_last(), indices);
        let d = updates.last();
        if indices.contains_key(d) {
            prev.push((d, indices[d]))
        } else {
            prev
        }
    }
}

impl SparseDescriptorsInstance {
    /// Slot of each resource.
    pub closed spec fn indices(&self) -> Map<u64, u32> {
        self.indices@
    }

    /// Slots below this were handed out.
    pub closed spec fn upper_bounds(&self) -> u32 {
        self.upper_bounds
    }

    /// Slots marked for reuse.
    pub closed spec fn unused(&self) -> Seq<bool> {
        self.unused@
    }

    /// Resources waiting to be written to the descriptor set.
    pub closed spec fn updates(&self) -> Seq<u64> {
        self.updates@
    }

    /// Every slot is tracked and the bound names a slot.
    pub open spec fn wf(&self) -> bool {
        &&& self.unused().len() == SLOT_BITS
        &&& self.upper_bounds() <= MAX_SET_INDEX
    }

    /// An instance without resources, room being reserved for `cap` pending writes.
    pub fn new(cap: u32) -> (r: Self)
        ensures
            r.wf(),
            r.indices() == Map::<u64, u32>::empty(),
            r.upper_bounds() == 0,
            none_marked(r.unused()),
            r.updates() == Seq::<u64>::empty(),
    {
        let mut unused: Vec<bool> = Vec::new();
        let mut i: usize = 0;
        while i < SLOT_BITS
            invariant
                i <= SLOT_BITS,
                unused@.len() == i,
                none_marked(unused@),
            decreases SLOT_BITS - i,
        {
            unused.push(false);
            i = i + 1;
        }
        let updates: Vec<u64> = Vec::with_capacity(cap as usize);
        SparseDescriptorsInstance { indices: HashMap::new(), upper_bounds: 0, unused, updates }
    }

    fn first_marked(&self) -> (r: Option<u32>)
        requires
            self.wf(),
        ensures
            r is None <==> none_marked(self.unused()),
            r matches Some(i) ==> is_first_marked(self.unused(), i as int),
    {
        let mut i: usize = 0;
        while i < self.unused.len()
            invariant
                i <= self.unused@.len(),
                self.unused@.len() == SLOT_BITS,
                forall|j: int| 0 <= j < i ==> !self.unused@[j],
            decreases self.unused@.len() - i,
        {
            if self.unused[i] {
                return Some(i as u32);
            }
            i = i + 1;
        }
        None
    }

    /// Whether `get_or_insert` can give `descriptor` a slot: it has one, a slot is marked
    /// for reuse, or the bound has not reached the last slot.
    pub fn can_insert(&self, descriptor: u64) -> (r: bool)
        requires
            self.wf(),
        ensures
            r == (self.indices().contains_key(descriptor) || !none_marked(self.unused())
                || self.upper_bounds() < MAX_SET_INDEX),
    {
        if self.indices.contains_key(&descriptor) {
            return true;
        }
        match self.first_marked() {
            Some(_) => true,
            None => self.upper_bounds < MAX_SET_INDEX,
        }
    }

    /// Returns the slot of `descriptor`, giving it one if it has none: the first slot
    /// marked for reuse, else the next fresh slot, in which case the resource waits to
    /// be written. Running out of slots is refused by the precondition.
    pub fn get_or_insert(&mut self, descriptor: u64) -> (r: u32)
        requires
            old(self).wf(),
            old(self).indices().contains_key(descriptor) || !none_marked(old(self).unused())
                || old(self).upper_bounds() < MAX_SET_INDEX,
        ensures
            final(self).wf(),
            final(self).unused() == old(self).unused(),
            old(self).indices().contains_key(descriptor) ==> r == old(self).indices()[descriptor]
                && *final(self) == *old(self),
            !old(self).indices().contains_key(descriptor) ==> final(self).indices() == old(self).indices().insert(descriptor, r),
            !old(self).indices().contains_key(descriptor) && !none_marked(old(self).unused())
                ==> is_first_marked(old(self).unused(), r as int) && final(self).upper_bounds()
                == old(self).upper_bounds() && final(self).updates() == old(self).updates(),
            !old(self).indices().contains_key(descriptor) && none_marked(old(self).unused()) ==> r
                == old(self).upper_bounds() && final(self).upper_bounds() == old(self).upper_bounds()
                + 1 && final(self).updates() == old(self).updates().push(descriptor),
    {
        match self.indices.get(&descriptor) {
            Some(idx) => {
                return *idx;
            },
            None => {},
        }
        match self.first_marked() {
            None => {
                self.updates.push(descriptor);
                let idx = self.upper_bounds;
                self.indices.insert(descriptor, idx);
                self.upper_bounds = idx + 1;
                idx
            },
            Some(idx) => {
                self.indices.insert(descriptor, idx);
                idx
            },
        }
    }

    /// Reports whether `descriptor` has a slot. When its slot is the bound itself, the
    /// bound is lowered by one and then past every slot below it that is marked for
    /// reuse, unmarking them. The slot is kept.
    pub fn remove(&mut self, descriptor: u64) -> (r: bool)
        requires
            old(self).wf(),
            old(self).indices().contains_key(descriptor) && old(self).indices()[descriptor]
                == old(self).upper_bounds() ==> old(self).upper_bounds() > 0,
        ensures
            final(self).wf(),
            r == old(self).indices().contains_key(descriptor),
            final(self).indices() == old(self).indices(),
            final(self).updates() == old(self).updates(),
            r && old(self).indices()[descriptor] == old(self).upper_bounds() ==> final(self).unused()
                == trimmed(old(self).unused(), (old(self).upper_bounds() - 1) as nat).0
                && final(self).upper_bounds() == trimmed(old(self).unused(), (old(self).upper_bounds() - 1) as nat).1,
            !(r && old(self).indices()[descriptor] == old(self).upper_bounds()) ==> final(self).unused() == old(self).unused() && final(self).upper_bounds() == old(self).upper_bounds(),
    {
        let idx = match self.indices.get(&descriptor) {
            None => {
                return false;
            },
            Some(idx) => *idx,
        };
        if idx == self.upper_bounds {
            self.upper_bounds = self.upper_bounds - 1;
            let ghost start_unused = self.unused@;
            let ghost start_upper = self.upper_bounds as nat;
            while self.upper_bounds > 0 && self.unused[(self.upper_bounds - 1) as usize]
                invariant
                    self.unused@.len() == SLOT_BITS,
                    self.upper_bounds <= MAX_SET_INDEX,
                    trimmed(self.unused@, self.upper_bounds as nat) == trimmed(start_unused, start_upper),
                    self.indices@ == old(self).indices@,
                    self.updates@ == old(self).updates@,
                decreases self.upper_bounds,
            {
                let k = (self.upper_bounds - 1) as usize;
                self.unused.set(k, false);
                self.upper_bounds = self.upper_bounds - 1;
            }
        }
        true
    }

    /// Takes the resources waiting to be written that have a slot, each with its slot, in
    /// the order they were added; none is left waiting.
    pub fn take_pending_writes(&mut self) -> (r: Vec<(u64, u32)>)
        requires
            old(self).wf(),
        ensures
            final(self).wf(),
            r@ == pending_writes(old(self).updates(), old(self).indices()),
            final(self).updates() == Seq::<u64>::empty(),
            final(self).indices() == old(self).indices(),
            final(self).unused() == old(self).unused(),
            final(self).upper_bounds() == old(self).upper_bounds(),
    {
        let mut writes: Vec<(u64, u32)> = Vec::new();
        let mut i: usize = 0;
        while i < self.updates.len()
            invariant
                i <= self.updates@.len(),
                self.updates@ == old(self).updates@,
                self.indices@ == old(self).indices@,
                writes@ == pending_writes(self.updates@.take(i as int), self.indices@),
            decreases self.updates@.len() - i,
        {
            let d = self.updates[i];
            proof {
                let next = self.updates@.take(i + 1);
                assert(next.drop_last() =~= self.updates@.take(i as int));
                assert(next.last() == d);
            }
            match self.indices.get(&d) {
                Some(idx) => {
                    writes.push((d, *idx));
                },
                None => {},
            }
            i = i + 1;
        }
        assert(self.updates@.take(i as int) =~= self.updates@);
        self.updates.clear();
        writes
    }
}

} // verus!
