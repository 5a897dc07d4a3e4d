use vstd::prelude::*;
use crate::descriptor::layout::{DescriptorSetLayoutBinding, DescriptorType, spec_descriptor_type_index};

verus! {

/// Number of descriptor types.
pub const DESCRIPTOR_TYPES_COUNT: usize = 12;

/// The descriptor type at position `index` in declaration order.
pub open spec fn spec_descriptor_type_at(index: int) -> DescriptorType {
    if index == 0 {
        DescriptorType::Sampler
    } else if index == 1 {
        DescriptorType::CombinedImageSampler
    } else if index == 2 {
        DescriptorType::SampledImage
    } else if index == 3 {
        DescriptorType::StorageImage
    } else if index == 4 {
        DescriptorType::UniformTexelBuffer
    } else if index == 5 {
        DescriptorType::StorageTexelBuffer
    } else if index == 6 {
        DescriptorType::UniformBuffer
    } else if index == 7 {
        DescriptorType::StorageBuffer
    } else if index == 8 {
        DescriptorType::UniformBufferDynamic
    } else if index == 9 {
        DescriptorType::StorageBufferDynamic
    } else if index == 10 {
        DescriptorType::InputAttachment
    } else {
        DescriptorType::AccelerationStructure
    }
}

/// The descriptor type at position `index` in declaration order.
fn descriptor_type_from_index(index: usize) -> (r: DescriptorType)
    requires
        index < DESCRIPTOR_TYPES_COUNT,
    ensures
        r == spec_descriptor_type_at(index as int),
        spec_descriptor_type_index(r) == index,
{
    match index {
        0 => DescriptorType::Sampler,
        1 => DescriptorType::CombinedImageSampler,
        2 => DescriptorType::SampledImage,
        3 => DescriptorType::StorageImage,
        4 => DescriptorType::UniformTexelBuffer,
        5 => DescriptorType::StorageTexelBuffer,
        6 => DescriptorType::UniformBuffer,
        7 => DescriptorType::StorageBuffer,
        8 => DescriptorType::UniformBufferDynamic,
        9 => DescriptorType::StorageBufferDynamic,
        10 => DescriptorType::InputAttachment,
        _ => DescriptorType::AccelerationStructure,
    }
}

/// Total number of descriptors of type index `t` over `bindings`.
pub open spec fn descriptors_of_type(bindings: Seq<DescriptorSetLayoutBinding>, t: int) -> int
    decreases bindings.len(),
{
    if bindings.len() == 0 {
        0
    } else {
        descriptors_of_type(bindings.drop_last(), t) + if spec_descriptor_type_index(
            bindings.last().ty,
        ) == t {
            bindings.last().count as int
        } else {
            0
        }
    }
}

/// Counting over a prefix never exceeds counting over the whole sequence.
pub proof fn lemma_descriptors_of_type_prefix(bindings: Seq<DescriptorSetLayoutBinding>, n: int, t: int)
    requires
        0 <= n <= bindings.len(),
    ensures
        0 <= descriptors_of_type(bindings.take(n), t) <= descriptors_of_type(bindings, t),
    decreases bindings.len(),
{
    if n < bindings.len() {
        assert(bindings.drop_last().take(n) =~= bindings.take(n));
        lemma_descriptors_of_type_prefix(bindings.drop_last(), n, t);
    } else {
        assert(bindings.take(n) =~= bindings);
        lemma_descriptors_of_type_nonnegative(bindings, t);
    }
}

/// Descriptor counts are never negative.
pub proof fn lemma_descriptors_of_type_nonnegative(bindings: Seq<DescriptorSetLayoutBinding>, t: int)
    ensures
        descriptors_of_type(bindings, t) >= 0,
    decreases bindings.len(),
{
    if bindings.len() > 0 {
        lemma_descriptors_of_type_nonnegative(bindings.drop_last(), t);
    }
}

/// Removing the binding at `k` removes exactly its descriptors from its type's count.
proof fn lemma_descriptors_of_type_remove(bindings: Seq<DescriptorSetLayoutBinding>, k: int, t: int)
    requires
        0 <= k < bindings.len(),
    ensures
        descriptors_of_type(bindings, t) == descriptors_of_type(bindings.remove(k), t) + if spec_descriptor_type_index(bindings[k].ty) == t {
            bindings[k].count as int
        } else {
            0
        },
    decreases bindings.len(),
{
    if k == bindings.len() - 1 {
        assert(bindings.remove(k) =~= bindings.drop_last());
    } else {
        let rest = bindings.drop_last();
        lemma_descriptors_of_type_remove(rest, k, t);
        assert(bindings.remove(k).drop_last() =~= rest.remove(k));
        assert(bindings.remove(k).last() == bindings.last());
    }
}

/// The count of each descriptor type does not depend on the order of the bindings:
/// two lists holding the same bindings, each as many times, give the same counts.
pub proof fn lemma_descriptors_of_type_order_independent(
    a: Seq<DescriptorSetLayoutBinding>,
    b: Seq<DescriptorSetLayoutBinding>,
    t: int,
)
    requires
        a.to_multiset() == b.to_multiset(),
    ensures
        descriptors_of_type(a, t) == descriptors_of_type(b, t),
    decreases a.len(),
{
    broadcast use {
        vstd::seq_lib::to_multiset_contains,
        vstd::seq_lib::to_multiset_len,
        vstd::seq_lib::to_multiset_remove,
        vstd::seq_lib::to_multiset_build,
        vstd::multiset::group_multiset_axioms,
    };

    if a.len() == 0 {
        assert(b.to_multiset().len() == 0);
        assert(b.len() == 0);
    } else {
        let x = a.last();
        let rest = a.drop_last();
        assert(rest.push(x) =~= a);
        assert(a.to_multiset().count(x) > 0);
        assert(b.contains(x));
        let k = choose|k: int| 0 <= k < b.len() && b[k] == x;
        lemma_descriptors_of_type_remove(b, k, t);
        assert(b.remove(k).to_multiset() == b.to_multiset().remove(x));
        assert(rest.to_multiset() =~= a.to_multiset().remove(x)) by {
            assert(a.to_multiset() == rest.to_multiset().insert(x));
        }
        lemma_descriptors_of_type_order_independent(rest, b.remove(k), t);
    }
}

/// Descriptor counts of `bindings` fit in `u32` for every type.
pub open spec fn counts_fit(bindings: Seq<DescriptorSetLayoutBinding>) -> bool {
    forall|t: int| 0 <= t < 12 ==> #[trigger] descriptors_of_type(bindings, t) <= u32::MAX
}

/// Number of descriptors per type, counted from layout bindings.
#[derive(Clone, Debug)]
pub struct DescriptorSizesBuilder {
    sizes: [u32; DESCRIPTOR_TYPES_COUNT],
}

/// Number of descriptors of one type in a pool.
#[derive(Clone, Copy, Debug, PartialEq, Eq, Hash)]
pub struct DescriptorPoolSize {
    pub ty: DescriptorType,
    pub descriptor_count: u32,
}

/// Number of descriptors per type, listing only types with descriptors.
#[derive(Clone, Debug)]
pub struct DescriptorSizes {
    sizes: Vec<DescriptorPoolSize>,
}

/// Pool sizes for the types below index `n` that have descriptors, in type order.
pub open spec fn pool_sizes_below(sizes: Seq<u32>, n: nat) -> Seq<DescriptorPoolSize>
    decreases n,
{
    if n == 0 {
        Seq::empty()
    } else {
        let prev = pool_sizes_below(sizes, (n - 1) as nat);
        if sizes[n - 1] > 0 {
            prev.push(
                DescriptorPoolSize {
                    ty: spec_descriptor_type_at(n - 1),
                    descriptor_count: sizes[n - 1],
                },
            )
        } else {
            prev
        }
    }
}

impl DescriptorSizesBuilder {
    /// The count of each descriptor type, by type index.
    pub closed spec fn spec_sizes(&self) -> Seq<u32> {
        self.sizes@
    }

    /// A builder holds one count for each of the twelve descriptor types.
    pub proof fn lemma_sizes_len(&self)
        ensures
            self.spec_sizes().len() == 12,
    {
    }

    /// The count of descriptor type index `t`.
    pub fn size(&self, t: usize) -> (r: u32)
        requires
            t < DESCRIPTOR_TYPES_COUNT,
        ensures
            r == self.spec_sizes()[t as int],
    {
        self.sizes[t]
    }

    /// Create new instance without descriptors.
    pub fn zero() -> (r: Self)
        ensures
            r.spec_sizes() == Seq::new(12, |i: int| 0u32),
            r.spec_sizes().len() == 12,
    {
        let r = DescriptorSizesBuilder { sizes: [0u32; DESCRIPTOR_TYPES_COUNT] };
        assert(r.spec_sizes() =~= Seq::new(12, |i: int| 0u32));
        r
    }

    /// Add a single layout binding.
    pub fn add_binding(&mut self, binding: &DescriptorSetLayoutBinding)
        requires
            old(self).spec_sizes()[spec_descriptor_type_index(binding.ty)] + binding.count
                <= u32::MAX,
        ensures
            final(self).spec_sizes() == old(self).spec_sizes().update(
                spec_descriptor_type_index(binding.ty),
                (old(self).spec_sizes()[spec_descriptor_type_index(binding.ty)]
                    + binding.count) as u32,
            ),
            final(self).spec_sizes().len() == 12,
    {
        let idx = binding.ty.index();
        self.sizes[idx] = self.sizes[idx] + binding.count;
    }

    /// Calculate ranges from bindings.
    pub fn from_bindings(bindings: &[DescriptorSetLayoutBinding]) -> (r: Self)
        requires
            counts_fit(bindings@),
        ensures
            r.spec_sizes().len() == 12,
            forall|t: int| 0 <= t < 12 ==> #[trigger] r.spec_sizes()[t] == descriptors_of_type(bindings@, t),
    {
        let mut ranges = Self::zero();
        let mut i: usize = 0;
        while i < bindings.len()
            invariant
                i <= bindings@.len(),
                counts_fit(bindings@),
                ranges.spec_sizes().len() == 12,
                forall|t: int|
                    0 <= t < 12 ==> #[trigger] ranges.spec_sizes()[t] == descriptors_of_type(
                        bindings@.take(i as int),
                        t,
                    ),
            decreases bindings.len() - i,
        {
            let binding = &bindings[i];
            proof {
                let t = spec_descriptor_type_index(binding.ty);
                let next = bindings@.take(i + 1);
                assert(next.drop_last() =~= bindings@.take(i as int));
                assert(next.last() == *binding);
                lemma_descriptors_of_type_prefix(bindings@, i + 1, t);
                assert(descriptors_of_type(bindings@, t) <= u32::MAX);
            }
            ranges.add_binding(binding);
            proof {
                let next = bindings@.take(i + 1);
                assert(next.drop_last() =~= bindings@.take(i as int));
                assert forall|t: int| 0 <= t < 12 implies #[trigger] ranges.spec_sizes()[t]
                    == descriptors_of_type(next, t) by {}
            }
            i = i + 1;
        }
        proof {
            assert(bindings@.take(bindings@.len() as int) =~= bindings@);
        }
        ranges
    }

    /// Lists the types that have descriptors, with their counts, in type order.
    pub fn build(self) -> (r: DescriptorSizes)
        ensures
            r.spec_pool_sizes() == pool_sizes_below(self.spec_sizes(), 12),
    {
        let mut sizes: Vec<DescriptorPoolSize> = Vec::new();
        let mut i: usize = 0;
        while i < DESCRIPTOR_TYPES_COUNT
            invariant
                i <= DESCRIPTOR_TYPES_COUNT,
                self.spec_sizes().len() == 12,
                sizes@ == pool_sizes_below(self.spec_sizes(), i as nat),
            decreases DESCRIPTOR_TYPES_COUNT - i,
        {
            let size = self.sizes[i];
            if size > 0 {
                sizes.push(DescriptorPoolSize { ty: descriptor_type_from_index(i), descriptor_count: size });
            }
            i = i + 1;
        }
        DescriptorSizes { sizes }
    }
}

impl DescriptorSizes {
    /// The listed pool sizes.
    pub closed spec fn spec_pool_sizes(&self) -> Seq<DescriptorPoolSize> {
        self.sizes@
    }

    /// The listed pool sizes.
    pub fn as_slice(&self) -> (r: &[DescriptorPoolSize])
        ensures
            r@ == self.spec_pool_sizes(),
    {
        self.sizes.as_slice()
    }

    /// Calculate ranges from bindings.
    pub fn from_bindings(bindings: &[DescriptorSetLayoutBinding]) -> (r: Self)
        requires
            counts_fit(bindings@),
        ensures
            r.spec_pool_sizes() == pool_sizes_below(
                Seq::new(12, |t: int| descriptors_of_type(bindings@, t) as u32),
                12,
            ),
    {
        let builder = DescriptorSizesBuilder::from_bindings(bindings);
        proof {
            assert(builder.spec_sizes() =~= Seq::new(12, |t: int| descriptors_of_type(bindings@, t) as u32));
        }
        builder.build()
    }
}

} // verus!
