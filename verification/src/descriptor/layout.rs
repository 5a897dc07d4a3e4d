use vstd::prelude::*;
use crate::shader::ShaderStageFlags;

verus! {

/// Flags that can be set in each `DescriptorSetLayoutBinding`.
#[derive(Clone, Copy, Debug, PartialEq, Eq, Structural, Hash)]
pub struct DescriptorBindingFlags {
    bits: u32,
}

impl View for DescriptorBindingFlags {
    type V = u32;

    closed spec fn view(&self) -> u32 {
        self.bits
    }
}

impl DescriptorBindingFlags {
    /// Allows update binding after set is bound to encoder.
    #[allow(non_snake_case)]
    pub fn UPDATE_AFTER_BIND() -> (r: Self)
        ensures
            r@ == 0x1u32,
    {
        DescriptorBindingFlags { bits: 0x1u32 }
    }

    /// Allows updating descriptors in this binding that are not used
    /// while set is bound to pending command buffer.
    #[allow(non_snake_case)]
    pub fn UPDATE_UNUSED_WHILE_PENDING() -> (r: Self)
        ensures
            r@ == 0x2u32,
    {
        DescriptorBindingFlags { bits: 0x2u32 }
    }

    /// Allows descriptors that are not dynamically used by
    /// any shader invocation to be unbound.
    #[allow(non_snake_case)]
    pub fn PARTIALLY_BOUND() -> (r: Self)
        ensures
            r@ == 0x4u32,
    {
        DescriptorBindingFlags { bits: 0x4u32 }
    }

    /// Binding with this flag does not have descriptors count defined by layout.
    #[allow(non_snake_case)]
    pub fn VARIABLE_DESCRIPTOR_COUNT() -> (r: Self)
        ensures
            r@ == 0x8u32,
    {
        DescriptorBindingFlags { bits: 0x8u32 }
    }

    /// The bits of every defined flag.
    pub open spec fn all_bits() -> u32 {
        0xfu32
    }

    /// No flags.
    pub fn empty() -> (r: Self)
        ensures
            r@ == 0,
    {
        DescriptorBindingFlags { bits: 0 }
    }

    /// Every defined flag.
    pub fn all() -> (r: Self)
        ensures
            r@ == Self::all_bits(),
    {
        DescriptorBindingFlags { bits: 0xfu32 }
    }

    /// The raw bits.
    pub fn bits(&self) -> (r: u32)
        ensures
            r == self@,
    {
        self.bits
    }

    /// Flags from raw bits; `None` when a bit matches no defined flag.
    pub fn from_bits(bits: u32) -> (r: Option<Self>)
        ensures
            r is Some <==> bits & !Self::all_bits() == 0,
            r matches Some(f) ==> f@ == bits,
    {
        if bits & !0xfu32 == 0 {
            Some(DescriptorBindingFlags { bits })
        } else {
            None
        }
    }

    /// Flags from raw bits, dropping bits that match no defined flag.
    pub fn from_bits_truncate(bits: u32) -> (r: Self)
        ensures
            r@ == bits & Self::all_bits(),
    {
        DescriptorBindingFlags { bits: bits & 0xfu32 }
    }

    /// `true` when no flag is set.
    pub fn is_empty(&self) -> (r: bool)
        ensures
            r == (self@ == 0),
    {
        self.bits == 0
    }

    /// `true` when every flag of `other` is set in `self`.
    pub fn contains(&self, other: Self) -> (r: bool)
        ensures
            r == (self@ & other@ == other@),
    {
        self.bits & other.bits == other.bits
    }

    /// `true` when `self` and `other` share a flag.
    pub fn intersects(&self, other: Self) -> (r: bool)
        ensures
            r == (self@ & other@ != 0),
    {
        self.bits & other.bits != 0
    }

    /// Flags set in either.
    pub fn union(self, other: Self) -> (r: Self)
        ensures
            r@ == self@ | other@,
    {
        DescriptorBindingFlags { bits: self.bits | other.bits }
    }

    /// Flags set in both.
    pub fn intersection(self, other: Self) -> (r: Self)
        ensures
            r@ == self@ & other@,
    {
        DescriptorBindingFlags { bits: self.bits & other.bits }
    }

    /// Flags of `self` that are not in `other`.
    pub fn difference(self, other: Self) -> (r: Self)
        ensures
            r@ == self@ & !other@,
    {
        DescriptorBindingFlags { bits: self.bits & !other.bits }
    }

    /// Sets the flags of `other`.
    pub fn insert(&mut self, other: Self)
        ensures
            final(self)@ == old(self)@ | other@,
    {
        self.bits = self.bits | other.bits;
    }

    /// Clears the flags of `other`.
    pub fn remove(&mut self, other: Self)
        ensures
            final(self)@ == old(self)@ & !other@,
    {
        self.bits = self.bits & !other.bits;
    }
}


/// Flags that can be set for a descriptor set layout.
#[derive(Clone, Copy, Debug, PartialEq, Eq, Structural, Hash)]
pub struct DescriptorSetLayoutFlags {
    bits: u32,
}

impl View for DescriptorSetLayoutFlags {
    type V = u32;

    closed spec fn view(&self) -> u32 {
        self.bits
    }
}

impl DescriptorSetLayoutFlags {
    /// Specifies that set with this layout must not be allocated.
    /// And descriptors should be pushed to encoder directly.
    #[allow(non_snake_case)]
    pub fn PUSH_DESCRIPTOR() -> (r: Self)
        ensures
            r@ == 0x1u32,
    {
        DescriptorSetLayoutFlags { bits: 0x1u32 }
    }

    /// Allows bindings in this layout to have `DescriptorBindingFlags::UPDATE_AFTER_BIND` flags.
    #[allow(non_snake_case)]
    pub fn UPDATE_AFTER_BIND_POOL() -> (r: Self)
        ensures
            r@ == 0x2u32,
    {
        DescriptorSetLayoutFlags { bits: 0x2u32 }
    }

    /// The bits of every defined flag.
    pub open spec fn all_bits() -> u32 {
        0x3u32
    }

    /// No flags.
    pub fn empty() -> (r: Self)
        ensures
            r@ == 0,
    {
        DescriptorSetLayoutFlags { bits: 0 }
    }

    /// Every defined flag.
    pub fn all() -> (r: Self)
        ensures
            r@ == Self::all_bits(),
    {
        DescriptorSetLayoutFlags { bits: 0x3u32 }
    }

    /// The raw bits.
    pub fn bits(&self) -> (r: u32)
        ensures
            r == self@,
    {
        self.bits
    }

    /// Flags from raw bits; `None` when a bit matches no defined flag.
    pub fn from_bits(bits: u32) -> (r: Option<Self>)
        ensures
            r is Some <==> bits & !Self::all_bits() == 0,
            r matches Some(f) ==> f@ == bits,
    {
        if bits & !0x3u32 == 0 {
            Some(DescriptorSetLayoutFlags { bits })
        } else {
            None
        }
    }

    /// Flags from raw bits, dropping bits that match no defined flag.
    pub fn from_bits_truncate(bits: u32) -> (r: Self)
        ensures
            r@ == bits & Self::all_bits(),
    {
        DescriptorSetLayoutFlags { bits: bits & 0x3u32 }
    }

    /// `true` when no flag is set.
    pub fn is_empty(&self) -> (r: bool)
        ensures
            r == (self@ == 0),
    {
        self.bits == 0
    }

    /// `true` when every flag of `other` is set in `self`.
    pub fn contains(&self, other: Self) -> (r: bool)
        ensures
            r == (self@ & other@ == other@),
    {
        self.bits & other.bits == other.bits
    }

    /// `true` when `self` and `other` share a flag.
    pub fn intersects(&self, other: Self) -> (r: bool)
        ensures
            r == (self@ & other@ != 0),
    {
        self.bits & other.bits != 0
    }

    /// Flags set in either.
    pub fn union(self, other: Self) -> (r: Self)
        ensures
            r@ == self@ | other@,
    {
        DescriptorSetLayoutFlags { bits: self.bits | other.bits }
    }

    /// Flags set in both.
    pub fn intersection(self, other: Self) -> (r: Self)
        ensures
            r@ == self@ & other@,
    {
        DescriptorSetLayoutFlags { bits: self.bits & other.bits }
    }

    /// Flags of `self` that are not in `other`.
    pub fn difference(self, other: Self) -> (r: Self)
        ensures
            r@ == self@ & !other@,
    {
        DescriptorSetLayoutFlags { bits: self.bits & !other.bits }
    }

    /// Sets the flags of `other`.
    pub fn insert(&mut self, other: Self)
        ensures
            final(self)@ == old(self)@ | other@,
    {
        self.bits = self.bits | other.bits;
    }

    /// Clears the flags of `other`.
    pub fn remove(&mut self, other: Self)
        ensures
            final(self)@ == old(self)@ & !other@,
    {
        self.bits = self.bits & !other.bits;
    }
}


/// Defines layout for descriptor sets.
#[derive(Clone, Debug, PartialEq, Eq, Hash)]
pub struct DescriptorSetLayoutInfo {
    /// Array of bindings in this layout.
    /// Every element must have different `.binding` field.
    pub bindings: Vec<DescriptorSetLayoutBinding>,
    /// Flags to specify options for the descriptor set layout.
    pub flags: DescriptorSetLayoutFlags,
}

/// Defines layout for one binding in descriptor set.
#[derive(Clone, Copy, Debug, PartialEq, Eq, Hash)]
pub struct DescriptorSetLayoutBinding {
    /// Binding index.
    pub binding: u32,
    /// Type of descriptor in the binding.
    pub ty: DescriptorType,
    /// Number of descriptors in the binding.
    pub count: u32,
    /// Shader stages where this binding is accessible.
    pub stages: ShaderStageFlags,
    /// Flags to specify options for the descriptor set layout binding.
    pub flags: DescriptorBindingFlags,
}

/// Types of descriptors.
#[derive(Clone, Copy, Debug, PartialEq, Eq, Structural, Hash)]
pub enum DescriptorType {
    /// Sampler descriptor.
    Sampler,
    /// Combined image and sampler.
    CombinedImageSampler,
    /// Image that can be sampled.
    SampledImage,
    /// Image that can be used as storage.
    StorageImage,
    /// Buffer view with texels read by shaders.
    UniformTexelBuffer,
    /// Buffer view with texels read and written by shaders.
    StorageTexelBuffer,
    /// Buffer with shader uniform data.
    UniformBuffer,
    /// Buffer that can be used as storage.
    StorageBuffer,
    /// Same as `UniformBuffer` but allows specifying offset each time set is bound to encoder.
    UniformBufferDynamic,
    /// Same as `StorageBuffer` but allows specifying offset each time set is bound to encoder.
    StorageBufferDynamic,
    /// Input attachment descriptor is an image with restricted access.
    InputAttachment,
    /// Acceleration structure for ray-tracing shaders and ray queries.
    AccelerationStructure,
}

/// Position of each descriptor type in declaration order.
pub open spec fn spec_descriptor_type_index(ty: DescriptorType) -> int {
    match ty {
        DescriptorType::Sampler => 0,
        DescriptorType::CombinedImageSampler => 1,
        DescriptorType::SampledImage => 2,
        DescriptorType::StorageImage => 3,
        DescriptorType::UniformTexelBuffer => 4,
        DescriptorType::StorageTexelBuffer => 5,
        DescriptorType::UniformBuffer => 6,
        DescriptorType::StorageBuffer => 7,
        DescriptorType::UniformBufferDynamic => 8,
        DescriptorType::StorageBufferDynamic => 9,
        DescriptorType::InputAttachment => 10,
        DescriptorType::AccelerationStructure => 11,
    }
}

/// The code of each descriptor type in the Vulkan API.
pub open spec fn spec_vk_descriptor_type_code(ty: DescriptorType) -> i32 {
    match ty {
        DescriptorType::Sampler => 0,
        DescriptorType::CombinedImageSampler => 1,
        DescriptorType::SampledImage => 2,
        DescriptorType::StorageImage => 3,
        DescriptorType::UniformTexelBuffer => 4,
        DescriptorType::StorageTexelBuffer => 5,
        DescriptorType::UniformBuffer => 6,
        DescriptorType::StorageBuffer => 7,
        DescriptorType::UniformBufferDynamic => 8,
        DescriptorType::StorageBufferDynamic => 9,
        DescriptorType::InputAttachment => 10,
        DescriptorType::AccelerationStructure => 1000150000,
    }
}

impl DescriptorType {
    /// Position of this type in declaration order.
    pub fn index(self) -> (r: usize)
        ensures
            r == spec_descriptor_type_index(self),
    {
        match self {
            DescriptorType::Sampler => 0,
            DescriptorType::CombinedImageSampler => 1,
            DescriptorType::SampledImage => 2,
            DescriptorType::StorageImage => 3,
            DescriptorType::UniformTexelBuffer => 4,
            DescriptorType::StorageTexelBuffer => 5,
            DescriptorType::UniformBuffer => 6,
            DescriptorType::StorageBuffer => 7,
            DescriptorType::UniformBufferDynamic => 8,
            DescriptorType::StorageBufferDynamic => 9,
            DescriptorType::InputAttachment => 10,
            DescriptorType::AccelerationStructure => 11,
        }
    }

    /// The code of this type in the Vulkan API.
    pub fn vk_code(self) -> (r: i32)
        ensures
            r == spec_vk_descriptor_type_code(self),
    {
        match self {
            DescriptorType::Sampler => 0,
            DescriptorType::CombinedImageSampler => 1,
            DescriptorType::SampledImage => 2,
            DescriptorType::StorageImage => 3,
            DescriptorType::UniformTexelBuffer => 4,
            DescriptorType::StorageTexelBuffer => 5,
            DescriptorType::UniformBuffer => 6,
            DescriptorType::StorageBuffer => 7,
            DescriptorType::UniformBufferDynamic => 8,
            DescriptorType::StorageBufferDynamic => 9,
            DescriptorType::InputAttachment => 10,
            DescriptorType::AccelerationStructure => 1000150000,
        }
    }
}

} // verus!
