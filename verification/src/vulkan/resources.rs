use vstd::prelude::*;

verus! {

/// Most resources that may be alive at once before creation is refused as a leak.
pub const MAX_LIVE_RESOURCES: u64 = 16536;

/// Counts of created and destroyed device resources, kept to detect leaks.
pub struct ResourceCounter {
    allocated: u64,
    freed: u64,
}

impl ResourceCounter {
    /// Resources created so far.
    pub closed spec fn allocated(&self) -> u64 {
        self.allocated
    }

    /// Resources destroyed so far.
    pub closed spec fn freed(&self) -> u64 {
        self.freed
    }

    /// No resource created or destroyed yet.
    pub fn new() -> (r: Self)
        ensures
            r.allocated() == 0,
            r.freed() == 0,
    {
        ResourceCounter { allocated: 0, freed: 0 }
    }

    /// Resources created so far.
    pub fn allocated_count(&self) -> (r: u64)
        ensures
            r == self.allocated(),
    {
        self.allocated
    }

    /// Resources destroyed so far.
    pub fn freed_count(&self) -> (r: u64)
        ensures
            r == self.freed(),
    {
        self.freed
    }
}

/// Records that a resource was created. More resources must have been created than
/// destroyed, and no more than `MAX_LIVE_RESOURCES` may be alive.
pub fn resource_allocated(counter: &mut ResourceCounter)
    requires
        old(counter).allocated() < u64::MAX,
        old(counter).allocated() + 1 > old(counter).freed(),
        old(counter).allocated() + 1 - old(counter).freed() <= MAX_LIVE_RESOURCES,
    ensures
        final(counter).allocated() == old(counter).allocated() + 1,
        final(counter).freed() == old(counter).freed(),
{
    counter.allocated = counter.allocated + 1;
}

/// Records that a resource was destroyed.
pub fn resource_freed(counter: &mut ResourceCounter)
    requires
        old(counter).freed() < u64::MAX,
    ensures
        final(counter).freed() == old(counter).freed() + 1,
        final(counter).allocated() == old(counter).allocated(),
{
    counter.freed = counter.freed + 1;
}

} // verus!
