use vstd::prelude::*;
use crate::align_up;

verus! {

/// Flags to specify allowed usages for buffer.
#[derive(Clone, Copy, Debug, PartialEq, Eq, Structural, Hash)]
pub struct BufferUsage {
    bits: u32,
}

impl View for BufferUsage {
    type V = u32;

    closed spec fn view(&self) -> u32 {
        self.bits
    }
}

impl BufferUsage {
    /// Buffer with this usage flag can be used as source for various transfer operations.
    #[allow(non_snake_case)]
    pub fn TRANSFER_SRC() -> (r: Self)
        ensures
            r@ == 0x1u32,
    {
        BufferUsage { bits: 0x1u32 }
    }

    /// Buffer with this usage flag can be used as destination for various transfer operations.
    #[allow(non_snake_case)]
    pub fn TRANSFER_DST() -> (r: Self)
        ensures
            r@ == 0x2u32,
    {
        BufferUsage { bits: 0x2u32 }
    }

    /// Buffer with this usage flag can used as `UniformTexel` descriptor.
    #[allow(non_snake_case)]
    pub fn UNIFORM_TEXEL() -> (r: Self)
        ensures
            r@ == 0x4u32,
    {
        BufferUsage { bits: 0x4u32 }
    }

    /// Buffer with this usage flag can used as `StorageTexel` descriptor.
    #[allow(non_snake_case)]
    pub fn STORAGE_TEXEL() -> (r: Self)
        ensures
            r@ == 0x8u32,
    {
        BufferUsage { bits: 0x8u32 }
    }

    /// Buffer with this usage flag can used as `Uniform` descriptor.
    #[allow(non_snake_case)]
    pub fn UNIFORM() -> (r: Self)
        ensures
            r@ == 0x10u32,
    {
        BufferUsage { bits: 0x10u32 }
    }

    /// Buffer with this usage flag can used as `Storage` descriptor.
    #[allow(non_snake_case)]
    pub fn STORAGE() -> (r: Self)
        ensures
            r@ == 0x20u32,
    {
        BufferUsage { bits: 0x20u32 }
    }

    /// Buffer with this usage flag can used in `bind_index_buffer` encoder method.
    #[allow(non_snake_case)]
    pub fn INDEX() -> (r: Self)
        ensures
            r@ == 0x40u32,
    {
        BufferUsage { bits: 0x40u32 }
    }

    /// Buffer with this usage flag can used in `bind_vertex_buffers` encoder method.
    #[allow(non_snake_case)]
    pub fn VERTEX() -> (r: Self)
        ensures
            r@ == 0x80u32,
    {
        BufferUsage { bits: 0x80u32 }
    }

    /// Buffer with this usage flag can used for indirect drawing.
    #[allow(non_snake_case)]
    pub fn INDIRECT() -> (r: Self)
        ensures
            r@ == 0x100u32,
    {
        BufferUsage { bits: 0x100u32 }
    }

    /// Buffer with this usage flag can used for conditional rendering.
    #[allow(non_snake_case)]
    pub fn CONDITIONAL_RENDERING() -> (r: Self)
        ensures
            r@ == 0x200u32,
    {
        BufferUsage { bits: 0x200u32 }
    }

    /// Buffer with this usage flag can used as input for acceleration structure build.
    #[allow(non_snake_case)]
    pub fn ACCELERATION_STRUCTURE_BUILD_INPUT() -> (r: Self)
        ensures
            r@ == 0x400u32,
    {
        BufferUsage { bits: 0x400u32 }
    }

    /// Buffer with this usage flag can used to store acceleration structure.
    #[allow(non_snake_case)]
    pub fn ACCELERATION_STRUCTURE_STORAGE() -> (r: Self)
        ensures
            r@ == 0x800u32,
    {
        BufferUsage { bits: 0x800u32 }
    }

    /// Buffer with this usage flag can used to specify shader binding table.
    #[allow(non_snake_case)]
    pub fn SHADER_BINDING_TABLE() -> (r: Self)
        ensures
            r@ == 0x1000u32,
    {
        BufferUsage { bits: 0x1000u32 }
    }

    #[allow(non_snake_case)]
    pub fn TRANSFORM_FEEDBACK() -> (r: Self)
        ensures
            r@ == 0x2000u32,
    {
        BufferUsage { bits: 0x2000u32 }
    }

    #[allow(non_snake_case)]
    pub fn TRANSFORM_FEEDBACK_COUNTER() -> (r: Self)
        ensures
            r@ == 0x4000u32,
    {
        BufferUsage { bits: 0x4000u32 }
    }

    /// Buffer with this usage flag can be used to retrieve a buffer device address.
    #[allow(non_snake_case)]
    pub fn DEVICE_ADDRESS() -> (r: Self)
        ensures
            r@ == 0x8000u32,
    {
        BufferUsage { bits: 0x8000u32 }
    }

    /// The bits of every defined flag.
    pub open spec fn all_bits() -> u32 {
        0xffffu32
    }

    /// No flags.
    pub fn empty() -> (r: Self)
        ensures
            r@ == 0,
    {
        BufferUsage { bits: 0 }
    }

    /// Every defined flag.
    pub fn all() -> (r: Self)
        ensures
            r@ == Self::all_bits(),
    {
        BufferUsage { bits: 0xffffu32 }
    }

    /// The raw bits.
    pub fn bits(&self) -> (r: u32)
        ensures
            r == self@,
    {
        self.bits
    }

    /// Flags from raw bits; `None` when a bit matches no defined flag.
    pub fn from_bits(bits: u32) -> (r: Option<Self>)
        ensures
            r is Some <==> bits & !Self::all_bits() == 0,
            r matches Some(f) ==> f@ == bits,
    {
        if bits & !0xffffu32 == 0 {
            Some(BufferUsage { bits })
        } else {
            None
        }
    }

    /// Flags from raw bits, dropping bits that match no defined flag.
    pub fn from_bits_truncate(bits: u32) -> (r: Self)
        ensures
            r@ == bits & Self::all_bits(),
    {
        BufferUsage { bits: bits & 0xffffu32 }
    }

    /// `true` when no flag is set.
    pub fn is_empty(&self) -> (r: bool)
        ensures
            r == (self@ == 0),
    {
        self.bits == 0
    }

    /// `true` when every flag of `other` is set in `self`.
    pub fn contains(&self, other: Self) -> (r: bool)
        ensures
            r == (self@ & other@ == other@),
    {
        self.bits & other.bits == other.bits
    }

    /// `true` when `self` and `other` share a flag.
    pub fn intersects(&self, other: Self) -> (r: bool)
        ensures
            r == (self@ & other@ != 0),
    {
        self.bits & other.bits != 0
    }

    /// Flags set in either.
    pub fn union(self, other: Self) -> (r: Self)
        ensures
            r@ == self@ | other@,
    {
        BufferUsage { bits: self.bits | other.bits }
    }

    /// Flags set in both.
    pub fn intersection(self, other: Self) -> (r: Self)
        ensures
            r@ == self@ & other@,
    {
        BufferUsage { bits: self.bits & other.bits }
    }

    /// Flags of `self` that are not in `other`.
    pub fn difference(self, other: Self) -> (r: Self)
        ensures
            r@ == self@ & !other@,
    {
        BufferUsage { bits: self.bits & !other.bits }
    }

    /// Sets the flags of `other`.
    pub fn insert(&mut self, other: Self)
        ensures
            final(self)@ == old(self)@ | other@,
    {
        self.bits = self.bits | other.bits;
    }

    /// Clears the flags of `other`.
    pub fn remove(&mut self, other: Self)
        ensures
            final(self)@ == old(self)@ & !other@,
    {
        self.bits = self.bits & !other.bits;
    }
}


/// `to` when the bit `from` is set in `x`, otherwise no bit.
pub open spec fn mapped_bit(x: u32, from: u32, to: u32) -> u32 {
    if x & from != 0 {
        to
    } else {
        0
    }
}

fn map_flag(x: u32, from: u32, to: u32) -> (r: u32)
    ensures
        r == mapped_bit(x, from, to),
{
    if x & from != 0 {
        to
    } else {
        0
    }
}

/// Every Vulkan buffer usage bit that a `BufferUsage` flag stands for.
pub open spec fn vk_buffer_usage_known() -> u32 {
    0x1a1fffu32
}

/// The Vulkan buffer usage bits for the flags in `bits`, one Vulkan bit per flag.
pub open spec fn spec_buffer_usage_to_vk(bits: u32) -> u32 {
    mapped_bit(bits, 0x1u32, 0x1u32)
    | mapped_bit(bits, 0x2u32, 0x2u32)
    | mapped_bit(bits, 0x4u32, 0x4u32)
    | mapped_bit(bits, 0x8u32, 0x8u32)
    | mapped_bit(bits, 0x10u32, 0x10u32)
    | mapped_bit(bits, 0x20u32, 0x20u32)
    | mapped_bit(bits, 0x40u32, 0x40u32)
    | mapped_bit(bits, 0x80u32, 0x80u32)
    | mapped_bit(bits, 0x100u32, 0x100u32)
    | mapped_bit(bits, 0x200u32, 0x200u32)
    | mapped_bit(bits, 0x400u32, 0x80000u32)
    | mapped_bit(bits, 0x800u32, 0x100000u32)
    | mapped_bit(bits, 0x1000u32, 0x400u32)
    | mapped_bit(bits, 0x2000u32, 0x800u32)
    | mapped_bit(bits, 0x4000u32, 0x1000u32)
    | mapped_bit(bits, 0x8000u32, 0x20000u32)
}

/// The flags standing for the Vulkan buffer usage bits in `vk`; other Vulkan bits are dropped.
pub open spec fn spec_buffer_usage_from_vk(vk: u32) -> u32 {
    mapped_bit(vk, 0x1u32, 0x1u32)
    | mapped_bit(vk, 0x2u32, 0x2u32)
    | mapped_bit(vk, 0x4u32, 0x4u32)
    | mapped_bit(vk, 0x8u32, 0x8u32)
    | mapped_bit(vk, 0x10u32, 0x10u32)
    | mapped_bit(vk, 0x20u32, 0x20u32)
    | mapped_bit(vk, 0x40u32, 0x40u32)
    | mapped_bit(vk, 0x80u32, 0x80u32)
    | mapped_bit(vk, 0x100u32, 0x100u32)
    | mapped_bit(vk, 0x200u32, 0x200u32)
    | mapped_bit(vk, 0x80000u32, 0x400u32)
    | mapped_bit(vk, 0x100000u32, 0x800u32)
    | mapped_bit(vk, 0x400u32, 0x1000u32)
    | mapped_bit(vk, 0x800u32, 0x2000u32)
    | mapped_bit(vk, 0x1000u32, 0x4000u32)
    | mapped_bit(vk, 0x20000u32, 0x8000u32)
}

impl BufferUsage {
    /// The Vulkan buffer usage bits that these flags stand for.
    pub fn to_vk_bits(self) -> (r: u32)
        ensures
            r == spec_buffer_usage_to_vk(self@),
    {
        let bits = self.bits;
        map_flag(bits, 0x1u32, 0x1u32)
            | map_flag(bits, 0x2u32, 0x2u32)
            | map_flag(bits, 0x4u32, 0x4u32)
            | map_flag(bits, 0x8u32, 0x8u32)
            | map_flag(bits, 0x10u32, 0x10u32)
            | map_flag(bits, 0x20u32, 0x20u32)
            | map_flag(bits, 0x40u32, 0x40u32)
            | map_flag(bits, 0x80u32, 0x80u32)
            | map_flag(bits, 0x100u32, 0x100u32)
            | map_flag(bits, 0x200u32, 0x200u32)
            | map_flag(bits, 0x400u32, 0x80000u32)
            | map_flag(bits, 0x800u32, 0x100000u32)
            | map_flag(bits, 0x1000u32, 0x400u32)
            | map_flag(bits, 0x2000u32, 0x800u32)
            | map_flag(bits, 0x4000u32, 0x1000u32)
            | map_flag(bits, 0x8000u32, 0x20000u32)
    }

    /// The flags standing for the Vulkan buffer usage bits `vk`; unknown Vulkan bits are dropped.
    pub fn from_vk_bits(vk: u32) -> (r: Self)
        ensures
            r@ == spec_buffer_usage_from_vk(vk),
    {
        let bits =
        map_flag(vk, 0x1u32, 0x1u32)
            | map_flag(vk, 0x2u32, 0x2u32)
            | map_flag(vk, 0x4u32, 0x4u32)
            | map_flag(vk, 0x8u32, 0x8u32)
            | map_flag(vk, 0x10u32, 0x10u32)
            | map_flag(vk, 0x20u32, 0x20u32)
            | map_flag(vk, 0x40u32, 0x40u32)
            | map_flag(vk, 0x80u32, 0x80u32)
            | map_flag(vk, 0x100u32, 0x100u32)
            | map_flag(vk, 0x200u32, 0x200u32)
            | map_flag(vk, 0x80000u32, 0x400u32)
            | map_flag(vk, 0x100000u32, 0x800u32)
            | map_flag(vk, 0x400u32, 0x1000u32)
            | map_flag(vk, 0x800u32, 0x2000u32)
            | map_flag(vk, 0x1000u32, 0x4000u32)
            | map_flag(vk, 0x20000u32, 0x8000u32);
        BufferUsage { bits }
    }
}

/// Converting flags to Vulkan bits and back keeps every defined flag and drops the rest.
pub proof fn lemma_buffer_usage_vk_round_trip(bits: u32)
    ensures
        spec_buffer_usage_from_vk(spec_buffer_usage_to_vk(bits)) == bits & BufferUsage::all_bits(),
{
    assert(spec_buffer_usage_from_vk(spec_buffer_usage_to_vk(bits)) == bits & 0xffffu32)
        by (bit_vector);
}

/// Converting Vulkan bits to flags and back keeps exactly the Vulkan bits that a flag stands for.
pub proof fn lemma_buffer_usage_vk_read_back(vk: u32)
    ensures
        spec_buffer_usage_to_vk(spec_buffer_usage_from_vk(vk)) == vk & vk_buffer_usage_known(),
{
    assert(spec_buffer_usage_to_vk(spec_buffer_usage_from_vk(vk)) == vk & 0x1a1fffu32)
        by (bit_vector);
}

/// Information required to create a buffer.
#[derive(Clone, Copy, Debug, Hash, PartialEq, Eq)]
pub struct BufferInfo {
    /// Alignment mask for content buffer can hold.
    pub align: u64,
    /// Size of content buffer can hold.
    pub size: u64,
    /// Usage types supported by buffer.
    pub usage: BufferUsage,
}

/// `x` is a power of two.
pub open spec fn is_power_of_two(x: u64) -> bool {
    x != 0 && x & ((x - 1) as u64) == 0
}

/// A buffer description is valid when its alignment mask is one less than a power of two
/// and its size can be rounded up to that alignment without overflow.
pub open spec fn buffer_info_valid(info: BufferInfo) -> bool {
    &&& info.align < u64::MAX
    &&& is_power_of_two((info.align + 1) as u64)
    &&& info.size + info.align <= u64::MAX
}

impl BufferInfo {
    pub(crate) fn is_valid(&self) -> (r: bool)
        ensures
            r == buffer_info_valid(*self),
    {
        let is_mask = match self.align.checked_add(1) {
            None => false,
            Some(v) => v != 0 && v & (v - 1) == 0,
        };
        is_mask && align_up(self.align, self.size).is_some()
    }
}

} // verus!
