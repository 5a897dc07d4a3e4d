use vstd::prelude::*;

verus! {

/// Shader stages in which a resource is visible.
#[derive(Clone, Copy, Debug, PartialEq, Eq, Structural, Hash)]
pub struct ShaderStageFlags {
    bits: u32,
}

impl View for ShaderStageFlags {
    type V = u32;

    closed spec fn view(&self) -> u32 {
        self.bits
    }
}

impl ShaderStageFlags {
    #[allow(non_snake_case)]
    pub fn VERTEX() -> (r: Self)
        ensures
            r@ == 0x1u32,
    {
        ShaderStageFlags { bits: 0x1u32 }
    }

    #[allow(non_snake_case)]
    pub fn TESSELLATION_CONTROL() -> (r: Self)
        ensures
            r@ == 0x2u32,
    {
        ShaderStageFlags { bits: 0x2u32 }
    }

    #[allow(non_snake_case)]
    pub fn TESSELLATION_EVALUATION() -> (r: Self)
        ensures
            r@ == 0x4u32,
    {
        ShaderStageFlags { bits: 0x4u32 }
    }

    #[allow(non_snake_case)]
    pub fn GEOMETRY() -> (r: Self)
        ensures
            r@ == 0x8u32,
    {
        ShaderStageFlags { bits: 0x8u32 }
    }

    #[allow(non_snake_case)]
    pub fn FRAGMENT() -> (r: Self)
        ensures
            r@ == 0x10u32,
    {
        ShaderStageFlags { bits: 0x10u32 }
    }

    #[allow(non_snake_case)]
    pub fn COMPUTE() -> (r: Self)
        ensures
            r@ == 0x20u32,
    {
        ShaderStageFlags { bits: 0x20u32 }
    }

    /// Every graphics stage.
    #[allow(non_snake_case)]
    pub fn ALL_GRAPHICS() -> (r: Self)
        ensures
            r@ == 0x1fu32,
    {
        ShaderStageFlags { bits: 0x1fu32 }
    }

    #[allow(non_snake_case)]
    pub fn RAYGEN() -> (r: Self)
        ensures
            r@ == 0x100u32,
    {
        ShaderStageFlags { bits: 0x100u32 }
    }

    #[allow(non_snake_case)]
    pub fn ANY_HIT() -> (r: Self)
        ensures
            r@ == 0x200u32,
    {
        ShaderStageFlags { bits: 0x200u32 }
    }

    #[allow(non_snake_case)]
    pub fn CLOSEST_HIT() -> (r: Self)
        ensures
            r@ == 0x400u32,
    {
        ShaderStageFlags { bits: 0x400u32 }
    }

    #[allow(non_snake_case)]
    pub fn MISS() -> (r: Self)
        ensures
            r@ == 0x800u32,
    {
        ShaderStageFlags { bits: 0x800u32 }
    }

    #[allow(non_snake_case)]
    pub fn INTERSECTION() -> (r: Self)
        ensures
            r@ == 0x1000u32,
    {
        ShaderStageFlags { bits: 0x1000u32 }
    }

    /// The bits of every defined flag.
    pub open spec fn all_bits() -> u32 {
        0x1f3fu32
    }

    /// No flags.
    pub fn empty() -> (r: Self)
        ensures
            r@ == 0,
    {
        ShaderStageFlags { bits: 0 }
    }

    /// Every defined flag.
    pub fn all() -> (r: Self)
        ensures
            r@ == Self::all_bits(),
    {
        ShaderStageFlags { bits: 0x1f3fu32 }
    }

    /// The raw bits.
    pub fn bits(&self) -> (r: u32)
        ensures
            r == self@,
    {
        self.bits
    }

    /// Flags from raw bits; `None` when a bit matches no defined flag.
    pub fn from_bits(bits: u32) -> (r: Option<Self>)
        ensures
            r is Some <==> bits & !Self::all_bits() == 0,
            r matches Some(f) ==> f@ == bits,
    {
        if bits & !0x1f3fu32 == 0 {
            Some(ShaderStageFlags { bits })
        } else {
            None
        }
    }

    /// Flags from raw bits, dropping bits that match no defined flag.
    pub fn from_bits_truncate(bits: u32) -> (r: Self)
        ensures
            r@ == bits & Self::all_bits(),
    {
        ShaderStageFlags { bits: bits & 0x1f3fu32 }
    }

    /// `true` when no flag is set.
    pub fn is_empty(&self) -> (r: bool)
        ensures
            r == (self@ == 0),
    {
        self.bits == 0
    }

    /// `true` when every flag of `other` is set in `self`.
    pub fn contains(&self, other: Self) -> (r: bool)
        ensures
            r == (self@ & other@ == other@),
    {
        self.bits & other.bits == other.bits
    }

    /// `true` when `self` and `other` share a flag.
    pub fn intersects(&self, other: Self) -> (r: bool)
        ensures
            r == (self@ & other@ != 0),
    {
        self.bits & other.bits != 0
    }

    /// Flags set in either.
    pub fn union(self, other: Self) -> (r: Self)
        ensures
            r@ == self@ | other@,
    {
        ShaderStageFlags { bits: self.bits | other.bits }
    }

    /// Flags set in both.
    pub fn intersection(self, other: Self) -> (r: Self)
        ensures
            r@ == self@ & other@,
    {
        ShaderStageFlags { bits: self.bits & other.bits }
    }

    /// Flags of `self` that are not in `other`.
    pub fn difference(self, other: Self) -> (r: Self)
        ensures
            r@ == self@ & !other@,
    {
        ShaderStageFlags { bits: self.bits & !other.bits }
    }

    /// Sets the flags of `other`.
    pub fn insert(&mut self, other: Self)
        ensures
            final(self)@ == old(self)@ | other@,
    {
        self.bits = self.bits | other.bits;
    }

    /// Clears the flags of `other`.
    pub fn remove(&mut self, other: Self)
        ensures
            final(self)@ == old(self)@ & !other@,
    {
        self.bits = self.bits & !other.bits;
    }
}


/// Vulkan's mask that stands for every shader stage.
pub open spec fn vk_shader_stage_all() -> u32 {
    0x7fffffffu32
}

/// The Vulkan shader stage mask for the flags in `bits`: Vulkan's whole mask when every
/// stage is set, the defined bits otherwise (each flag has the bit of its Vulkan stage).
pub open spec fn spec_shader_stages_to_vk(bits: u32) -> u32 {
    if bits == ShaderStageFlags::all_bits() {
        vk_shader_stage_all()
    } else {
        bits & ShaderStageFlags::all_bits()
    }
}

impl ShaderStageFlags {
    /// The Vulkan shader stage mask that these flags stand for.
    pub fn to_vk_bits(self) -> (r: u32)
        ensures
            r == spec_shader_stages_to_vk(self@),
    {
        if self.bits == 0x1f3fu32 {
            0x7fffffffu32
        } else {
            self.bits & 0x1f3fu32
        }
    }
}

/// A single programmable stage of a pipeline.
#[derive(Clone, Copy, Debug, PartialEq, Eq, Structural, Hash)]
pub enum ShaderStage {
    Vertex,
    TessellationControl,
    TessellationEvaluation,
    Geometry,
    Fragment,
    Compute,
    Raygen,
    AnyHit,
    ClosestHit,
    Miss,
    Intersection,
}

/// The Vulkan bit of each stage, which is also the bit of its flag.
pub open spec fn spec_shader_stage_bit(stage: ShaderStage) -> u32 {
    match stage {
        ShaderStage::Vertex => 0x1,
        ShaderStage::TessellationControl => 0x2,
        ShaderStage::TessellationEvaluation => 0x4,
        ShaderStage::Geometry => 0x8,
        ShaderStage::Fragment => 0x10,
        ShaderStage::Compute => 0x20,
        ShaderStage::Raygen => 0x100,
        ShaderStage::AnyHit => 0x200,
        ShaderStage::ClosestHit => 0x400,
        ShaderStage::Miss => 0x800,
        ShaderStage::Intersection => 0x1000,
    }
}

impl ShaderStage {
    /// The Vulkan shader stage bit of this stage.
    pub fn vk_bit(self) -> (r: u32)
        ensures
            r == spec_shader_stage_bit(self),
    {
        match self {
            ShaderStage::Vertex => 0x1,
            ShaderStage::TessellationControl => 0x2,
            ShaderStage::TessellationEvaluation => 0x4,
            ShaderStage::Geometry => 0x8,
            ShaderStage::Fragment => 0x10,
            ShaderStage::Compute => 0x20,
            ShaderStage::Raygen => 0x100,
            ShaderStage::AnyHit => 0x200,
            ShaderStage::ClosestHit => 0x400,
            ShaderStage::Miss => 0x800,
            ShaderStage::Intersection => 0x1000,
        }
    }

    /// The flag set holding only this stage.
    pub fn flag(self) -> (r: ShaderStageFlags)
        ensures
            r@ == spec_shader_stage_bit(self),
    {
        ShaderStageFlags { bits: self.vk_bit() }
    }
}

} // verus!
