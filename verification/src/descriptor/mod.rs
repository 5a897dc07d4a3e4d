pub mod binding;
pub mod layout;
pub mod sparse;

use vstd::prelude::*;
use std::marker::PhantomData;
use crate::OutOfMemory;

verus! {

/// Error that may occur during descriptor sets allocation.
#[derive(Clone, Copy, Debug, PartialEq, Eq, Structural)]
pub enum DescriptorsAllocationError {
    /// Out of device memory
    OutOfMemory { source: OutOfMemory },
    /// The total number of descriptors across all pools created
    /// with flag `CREATE_UPDATE_AFTER_BIND_BIT` set exceeds `max_update_after_bind_descriptors_in_all_pools`
    /// Or fragmentation of the underlying hardware resources occurs.
    Fragmentation,
}

impl From<OutOfMemory> for DescriptorsAllocationError {
    fn from(source: OutOfMemory) -> (r: Self) {
        DescriptorsAllocationError::OutOfMemory { source }
    }
}

impl vstd::std_specs::convert::FromSpecImpl<OutOfMemory> for DescriptorsAllocationError {
    open spec fn obeys_from_spec() -> bool {
        true
    }

    open spec fn from_spec(source: OutOfMemory) -> Self {
        DescriptorsAllocationError::OutOfMemory { source }
    }
}

/// Type-level tag for descriptors whose format is chosen at run time.
#[derive(Clone, Copy, Debug)]
pub struct DynamicFormat(());

/// Type-level tag for descriptors whose image layout is chosen at run time.
#[derive(Clone, Copy, Debug)]
pub struct DynamicLayout(());

/// Type-level tag for buffer descriptors bound with a dynamic offset.
#[derive(Clone, Copy, Debug)]
pub struct DynamicOffset(());

/// Type-level tag for buffer descriptors bound with a static offset.
#[derive(Clone, Copy, Debug)]
pub struct StaticOffset(());

/// Type-level tag for uniform descriptors.
#[derive(Clone, Copy, Debug)]
pub struct Uniform(());

/// Type-level tag for storage descriptors.
#[derive(Clone, Copy, Debug)]
pub struct Storage(());

/// Type-level tag for sampled descriptors.
#[derive(Clone, Copy, Debug)]
pub struct Sampled(());

/// Type-level tag for sampler descriptors.
#[derive(Clone, Copy, Debug)]
pub struct SamplerDescriptor(());

/// Type-level tag for combined image and sampler descriptors.
#[derive(Clone, Copy, Debug)]
pub struct CombinedImageSamplerDescriptor(());

/// Image descriptor kind: sampled or storage, with the layout it is read in.
#[derive(Clone, Copy, Debug)]
pub struct ImageDescriptor<S, L> {
    pub storage: S,
    pub layout: L,
}

/// Buffer descriptor kind: uniform or storage, with static or dynamic offset.
#[derive(Clone, Copy, Debug)]
pub struct BufferDescriptor<S, O> {
    pub storage: S,
    pub offset: O,
}

/// Texel buffer descriptor kind: uniform or storage, with its format.
#[derive(Clone, Copy, Debug)]
pub struct TexelBufferDescriptor<S, F> {
    pub storage: S,
    pub format: F,
}

/// Type-level tag for input attachment descriptors.
#[derive(Clone, Copy, Debug)]
pub struct InputAttachmentDescriptor(());

/// Type-level tag for acceleration structure descriptors.
#[derive(Clone, Copy, Debug)]
pub struct AccelerationStructureDescriptor(());

/// Descriptors input for a binding holding up to `CAP` resources of kind `T`,
/// visible in the shader stages `STAGES`.
pub struct SparseDescriptors<T, const CAP: u32, const STAGES: u32> {
    marker: PhantomData<T>,
}

} // verus!
