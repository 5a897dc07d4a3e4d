use vstd::prelude::*;
use crate::format::Format;
use crate::{DeviceAddress, IndexType};

verus! {

/// Bits specifying additional parameters for acceleration structure builds.
#[derive(Clone, Copy, Debug, PartialEq, Eq, Structural, Hash)]
pub struct AccelerationStructureBuildFlags {
    bits: u32,
}

impl View for AccelerationStructureBuildFlags {
    type V = u32;

    closed spec fn view(&self) -> u32 {
        self.bits
    }
}

impl AccelerationStructureBuildFlags {
    /// Allow acceleration structure update operation.
    #[allow(non_snake_case)]
    pub fn ALLOW_UPDATE() -> (r: Self)
        ensures
            r@ == 0x1u32,
    {
        AccelerationStructureBuildFlags { bits: 0x1u32 }
    }

    /// Allow acceleration structure compaction operation.
    #[allow(non_snake_case)]
    pub fn ALLOW_COMPACTION() -> (r: Self)
        ensures
            r@ == 0x2u32,
    {
        AccelerationStructureBuildFlags { bits: 0x2u32 }
    }

    /// Hint implementation to make the structure faster to trace.
    #[allow(non_snake_case)]
    pub fn PREFER_FAST_TRACE() -> (r: Self)
        ensures
            r@ == 0x4u32,
    {
        AccelerationStructureBuildFlags { bits: 0x4u32 }
    }

    /// Hint implementation to make the structure faster to build.
    #[allow(non_snake_case)]
    pub fn PREFER_FAST_BUILD() -> (r: Self)
        ensures
            r@ == 0x8u32,
    {
        AccelerationStructureBuildFlags { bits: 0x8u32 }
    }

    /// Hint implementation to use minimal amount of memory.
    #[allow(non_snake_case)]
    pub fn LOW_MEMORY() -> (r: Self)
        ensures
            r@ == 0x10u32,
    {
        AccelerationStructureBuildFlags { bits: 0x10u32 }
    }

    /// The bits of every defined flag.
    pub open spec fn all_bits() -> u32 {
        0x1fu32
    }

    /// No flags.
    pub fn empty() -> (r: Self)
        ensures
            r@ == 0,
    {
        AccelerationStructureBuildFlags { bits: 0 }
    }

    /// Every defined flag.
    pub fn all() -> (r: Self)
        ensures
            r@ == Self::all_bits(),
    {
        AccelerationStructureBuildFlags { bits: 0x1fu32 }
    }

    /// The raw bits.
    pub fn bits(&self) -> (r: u32)
        ensures
            r == self@,
    {
        self.bits
    }

    /// Flags from raw bits; `None` when a bit matches no defined flag.
    pub fn from_bits(bits: u32) -> (r: Option<Self>)
        ensures
            r is Some <==> bits & !Self::all_bits() == 0,
            r matches Some(f) ==> f@ == bits,
    {
        if bits & !0x1fu32 == 0 {
            Some(AccelerationStructureBuildFlags { bits })
        } else {
            None
        }
    }

    /// Flags from raw bits, dropping bits that match no defined flag.
    pub fn from_bits_truncate(bits: u32) -> (r: Self)
        ensures
            r@ == bits & Self::all_bits(),
    {
        AccelerationStructureBuildFlags { bits: bits & 0x1fu32 }
    }

    /// `true` when no flag is set.
    pub fn is_empty(&self) -> (r: bool)
        ensures
            r == (self@ == 0),
    {
        self.bits == 0
    }

    /// `true` when every flag of `other` is set in `self`.
    pub fn contains(&self, other: Self) -> (r: bool)
        ensures
            r == (self@ & other@ == other@),
    {
        self.bits & other.bits == other.bits
    }

    /// `true` when `self` and `other` share a flag.
    pub fn intersects(&self, other: Self) -> (r: bool)
        ensures
            r == (self@ & other@ != 0),
    {
        self.bits & other.bits != 0
    }

    /// Flags set in either.
    pub fn union(self, other: Self) -> (r: Self)
        ensures
            r@ == self@ | other@,
    {
        AccelerationStructureBuildFlags { bits: self.bits | other.bits }
    }

    /// Flags set in both.
    pub fn intersection(self, other: Self) -> (r: Self)
        ensures
            r@ == self@ & other@,
    {
        AccelerationStructureBuildFlags { bits: self.bits & other.bits }
    }

    /// Flags of `self` that are not in `other`.
    pub fn difference(self, other: Self) -> (r: Self)
        ensures
            r@ == self@ & !other@,
    {
        AccelerationStructureBuildFlags { bits: self.bits & !other.bits }
    }

    /// Sets the flags of `other`.
    pub fn insert(&mut self, other: Self)
        ensures
            final(self)@ == old(self)@ | other@,
    {
        self.bits = self.bits | other.bits;
    }

    /// Clears the flags of `other`.
    pub fn remove(&mut self, other: Self)
        ensures
            final(self)@ == old(self)@ & !other@,
    {
        self.bits = self.bits & !other.bits;
    }
}


/// Bits specifying additional parameters for geometries in acceleration structure builds.
#[derive(Clone, Copy, Debug, PartialEq, Eq, Structural, Hash)]
pub struct GeometryFlags {
    bits: u32,
}

impl View for GeometryFlags {
    type V = u32;

    closed spec fn view(&self) -> u32 {
        self.bits
    }
}

impl GeometryFlags {
    #[allow(non_snake_case)]
    pub fn OPAQUE() -> (r: Self)
        ensures
            r@ == 0x1u32,
    {
        GeometryFlags { bits: 0x1u32 }
    }

    #[allow(non_snake_case)]
    pub fn NO_DUPLICATE_ANY_HIT_INVOCATION() -> (r: Self)
        ensures
            r@ == 0x2u32,
    {
        GeometryFlags { bits: 0x2u32 }
    }

    /// The bits of every defined flag.
    pub open spec fn all_bits() -> u32 {
        0x3u32
    }

    /// No flags.
    pub fn empty() -> (r: Self)
        ensures
            r@ == 0,
    {
        GeometryFlags { bits: 0 }
    }

    /// Every defined flag.
    pub fn all() -> (r: Self)
        ensures
            r@ == Self::all_bits(),
    {
        GeometryFlags { bits: 0x3u32 }
    }

    /// The raw bits.
    pub fn bits(&self) -> (r: u32)
        ensures
            r == self@,
    {
        self.bits
    }

    /// Flags from raw bits; `None` when a bit matches no defined flag.
    pub fn from_bits(bits: u32) -> (r: Option<Self>)
        ensures
            r is Some <==> bits & !Self::all_bits() == 0,
            r matches Some(f) ==> f@ == bits,
    {
        if bits & !0x3u32 == 0 {
            Some(GeometryFlags { bits })
        } else {
            None
        }
    }

    /// Flags from raw bits, dropping bits that match no defined flag.
    pub fn from_bits_truncate(bits: u32) -> (r: Self)
        ensures
            r@ == bits & Self::all_bits(),
    {
        GeometryFlags { bits: bits & 0x3u32 }
    }

    /// `true` when no flag is set.
    pub fn is_empty(&self) -> (r: bool)
        ensures
            r == (self@ == 0),
    {
        self.bits == 0
    }

    /// `true` when every flag of `other` is set in `self`.
    pub fn contains(&self, other: Self) -> (r: bool)
        ensures
            r == (self@ & other@ == other@),
    {
        self.bits & other.bits == other.bits
    }

    /// `true` when `self` and `other` share a flag.
    pub fn intersects(&self, other: Self) -> (r: bool)
        ensures
            r == (self@ & other@ != 0),
    {
        self.bits & other.bits != 0
    }

    /// Flags set in either.
    pub fn union(self, other: Self) -> (r: Self)
        ensures
            r@ == self@ | other@,
    {
        GeometryFlags { bits: self.bits | other.bits }
    }

    /// Flags set in both.
    pub fn intersection(self, other: Self) -> (r: Self)
        ensures
            r@ == self@ & other@,
    {
        GeometryFlags { bits: self.bits & other.bits }
    }

    /// Flags of `self` that are not in `other`.
    pub fn difference(self, other: Self) -> (r: Self)
        ensures
            r@ == self@ & !other@,
    {
        GeometryFlags { bits: self.bits & !other.bits }
    }

    /// Sets the flags of `other`.
    pub fn insert(&mut self, other: Self)
        ensures
            final(self)@ == old(self)@ | other@,
    {
        self.bits = self.bits | other.bits;
    }

    /// Clears the flags of `other`.
    pub fn remove(&mut self, other: Self)
        ensures
            final(self)@ == old(self)@ & !other@,
    {
        self.bits = self.bits & !other.bits;
    }
}


/// Possible values of flags in the instance modifying the behavior of that instance.
#[derive(Clone, Copy, Debug, PartialEq, Eq, Structural, Hash)]
pub struct GeometryInstanceFlags {
    bits: u8,
}

impl View for GeometryInstanceFlags {
    type V = u8;

    closed spec fn view(&self) -> u8 {
        self.bits
    }
}

impl GeometryInstanceFlags {
    #[allow(non_snake_case)]
    pub fn TRIANGLE_FACING_CULL_DISABLE() -> (r: Self)
        ensures
            r@ == 0x1u8,
    {
        GeometryInstanceFlags { bits: 0x1u8 }
    }

    #[allow(non_snake_case)]
    pub fn TRIANGLE_FRONT_COUNTERCLOCKWISE() -> (r: Self)
        ensures
            r@ == 0x2u8,
    {
        GeometryInstanceFlags { bits: 0x2u8 }
    }

    #[allow(non_snake_case)]
    pub fn FORCE_OPAQUE() -> (r: Self)
        ensures
            r@ == 0x4u8,
    {
        GeometryInstanceFlags { bits: 0x4u8 }
    }

    #[allow(non_snake_case)]
    pub fn FORCE_NO_OPAQUE() -> (r: Self)
        ensures
            r@ == 0x8u8,
    {
        GeometryInstanceFlags { bits: 0x8u8 }
    }

    /// The bits of every defined flag.
    pub open spec fn all_bits() -> u8 {
        0xfu8
    }

    /// No flags.
    pub fn empty() -> (r: Self)
        ensures
            r@ == 0,
    {
        GeometryInstanceFlags { bits: 0 }
    }

    /// Every defined flag.
    pub fn all() -> (r: Self)
        ensures
            r@ == Self::all_bits(),
    {
        GeometryInstanceFlags { bits: 0xfu8 }
    }

    /// The raw bits.
    pub fn bits(&self) -> (r: u8)
        ensures
            r == self@,
    {
        self.bits
    }

    /// Flags from raw bits; `None` when a bit matches no defined flag.
    pub fn from_bits(bits: u8) -> (r: Option<Self>)
        ensures
            r is Some <==> bits & !Self::all_bits() == 0,
            r matches Some(f) ==> f@ == bits,
    {
        if bits & !0xfu8 == 0 {
            Some(GeometryInstanceFlags { bits })
        } else {
            None
        }
    }

    /// Flags from raw bits, dropping bits that match no defined flag.
    pub fn from_bits_truncate(bits: u8) -> (r: Self)
        ensures
            r@ == bits & Self::all_bits(),
    {
        GeometryInstanceFlags { bits: bits & 0xfu8 }
    }

    /// `true` when no flag is set.
    pub fn is_empty(&self) -> (r: bool)
        ensures
            r == (self@ == 0),
    {
        self.bits == 0
    }

    /// `true` when every flag of `other` is set in `self`.
    pub fn contains(&self, other: Self) -> (r: bool)
        ensures
            r == (self@ & other@ == other@),
    {
        self.bits & other.bits == other.bits
    }

    /// `true` when `self` and `other` share a flag.
    pub fn intersects(&self, other: Self) -> (r: bool)
        ensures
            r == (self@ & other@ != 0),
    {
        self.bits & other.bits != 0
    }

    /// Flags set in either.
    pub fn union(self, other: Self) -> (r: Self)
        ensures
            r@ == self@ | other@,
    {
        GeometryInstanceFlags { bits: self.bits | other.bits }
    }

    /// Flags set in both.
    pub fn intersection(self, other: Self) -> (r: Self)
        ensures
            r@ == self@ & other@,
    {
        GeometryInstanceFlags { bits: self.bits & other.bits }
    }

    /// Flags of `self` that are not in `other`.
    pub fn difference(self, other: Self) -> (r: Self)
        ensures
            r@ == self@ & !other@,
    {
        GeometryInstanceFlags { bits: self.bits & !other.bits }
    }

    /// Sets the flags of `other`.
    pub fn insert(&mut self, other: Self)
        ensures
            final(self)@ == old(self)@ | other@,
    {
        self.bits = self.bits | other.bits;
    }

    /// Clears the flags of `other`.
    pub fn remove(&mut self, other: Self)
        ensures
            final(self)@ == old(self)@ & !other@,
    {
        self.bits = self.bits & !other.bits;
    }
}


/// Sizes needed to build an acceleration structure.
#[derive(Clone, Copy, Debug, PartialEq, Eq)]
pub struct AccelerationStructureBuildSizesInfo {
    pub acceleration_structure_size: u64,
    pub update_scratch_size: u64,
    pub build_scratch_size: u64,
}

/// Acceleration structure level.
#[derive(Clone, Copy, Debug, PartialEq, Eq, Structural)]
pub enum AccelerationStructureLevel {
    Bottom,
    Top,
}

/// Specifies the shape of geometries that will be built into an acceleration
/// structure.
#[derive(Clone, Copy, Debug)]
pub enum AccelerationStructureGeometryInfo {
    Triangles {
        /// Maximum number of primitives that can be built into an acceleration
        /// structure geometry.
        max_primitive_count: u32,
        index_type: Option<IndexType>,
        max_vertex_count: u32,
        vertex_format: Format,
        allows_transforms: bool,
    },
    AABBs {
        /// Maximum number of primitives that can be built into an acceleration
        /// structure geometry.
        max_primitive_count: u32,
    },
    Instances {
        /// Maximum number of primitives that can be built into an acceleration
        /// structure geometry.
        max_primitive_count: u32,
    },
}

impl AccelerationStructureGeometryInfo {
    pub fn is_triangles(&self) -> (r: bool)
        ensures
            r == (*self is Triangles),
    {
        match self {
            AccelerationStructureGeometryInfo::Triangles { .. } => true,
            _ => false,
        }
    }

    pub fn is_aabbs(&self) -> (r: bool)
        ensures
            r == (*self is AABBs),
    {
        match self {
            AccelerationStructureGeometryInfo::AABBs { .. } => true,
            _ => false,
        }
    }

    pub fn is_instances(&self) -> (r: bool)
        ensures
            r == (*self is Instances),
    {
        match self {
            AccelerationStructureGeometryInfo::Instances { .. } => true,
            _ => false,
        }
    }
}

/// The level of acceleration structure that can hold geometry `info`: triangles and
/// boxes go into bottom-level structures, instances into top-level ones.
pub open spec fn spec_geometry_level(info: AccelerationStructureGeometryInfo) -> AccelerationStructureLevel {
    match info {
        AccelerationStructureGeometryInfo::Instances { .. } => AccelerationStructureLevel::Top,
        _ => AccelerationStructureLevel::Bottom,
    }
}

/// The most primitives that geometry `info` may hold.
pub open spec fn spec_max_primitive_count(info: AccelerationStructureGeometryInfo) -> u32 {
    match info {
        AccelerationStructureGeometryInfo::Triangles { max_primitive_count, .. } => max_primitive_count,
        AccelerationStructureGeometryInfo::AABBs { max_primitive_count } => max_primitive_count,
        AccelerationStructureGeometryInfo::Instances { max_primitive_count } => max_primitive_count,
    }
}

impl AccelerationStructureGeometryInfo {
    /// The level of acceleration structure that can hold this geometry.
    pub fn level(&self) -> (r: AccelerationStructureLevel)
        ensures
            r == spec_geometry_level(*self),
    {
        match self {
            AccelerationStructureGeometryInfo::Instances { .. } => AccelerationStructureLevel::Top,
            _ => AccelerationStructureLevel::Bottom,
        }
    }

    /// The most primitives this geometry may hold.
    pub fn max_primitive_count(&self) -> (r: u32)
        ensures
            r == spec_max_primitive_count(*self),
    {
        match self {
            AccelerationStructureGeometryInfo::Triangles { max_primitive_count, .. } => *max_primitive_count,
            AccelerationStructureGeometryInfo::AABBs { max_primitive_count } => *max_primitive_count,
            AccelerationStructureGeometryInfo::Instances { max_primitive_count } => *max_primitive_count,
        }
    }
}

/// The primitive counts to size an acceleration structure of `level` for `geometry`,
/// one per geometry; every geometry must fit the level, and their number must fit in `u32`.
pub fn max_primitive_counts(level: AccelerationStructureLevel, geometry: &[AccelerationStructureGeometryInfo]) -> (r:
    Vec<u32>)
    requires
        geometry@.len() <= u32::MAX,
        forall|i: int| 0 <= i < geometry@.len() ==> spec_geometry_level(#[trigger] geometry@[i]) == level,
    ensures
        r@.len() == geometry@.len(),
        forall|i: int| 0 <= i < geometry@.len() ==> #[trigger] r@[i] == spec_max_primitive_count(geometry@[i]),
{
    let mut counts: Vec<u32> = Vec::new();
    let mut i: usize = 0;
    while i < geometry.len()
        invariant
            i <= geometry@.len(),
            counts@.len() == i,
            forall|j: int| 0 <= j < i ==> #[trigger] counts@[j] == spec_max_primitive_count(geometry@[j]),
        decreases geometry@.len() - i,
    {
        counts.push(geometry[i].max_primitive_count());
        i = i + 1;
    }
    counts
}

/// Geometry data for one acceleration structure build.
#[derive(Clone, Copy, Debug)]
pub enum AccelerationStructureGeometry {
    Triangles {
        flags: GeometryFlags,
        vertex_format: Format,
        vertex_data: DeviceAddress,
        vertex_stride: u64,
        vertex_count: u32,
        first_vertex: u32,
        primitive_count: u32,
        index_data: Option<IndexData>,
        transform_data: Option<DeviceAddress>,
    },
    AABBs { flags: GeometryFlags, data: DeviceAddress, stride: u64, primitive_count: u32 },
    Instances { flags: GeometryFlags, data: DeviceAddress, primitive_count: u32 },
}

/// Index buffer of a triangle geometry.
#[derive(Clone, Copy, Debug)]
pub enum IndexData {
    U16(DeviceAddress),
    U32(DeviceAddress),
}

/// A 24-bit custom index packed with an 8-bit visibility mask.
#[derive(Clone, Copy, Debug)]
pub struct InstanceCustomIndexAndMask(pub u32);

/// Packs a 24-bit value with an 8-bit value in the top byte.
pub open spec fn pack_24_8(low: u32, high: u8) -> u32 {
    (low | ((high as u32) << 24u32)) as u32
}

/// Packing keeps both parts: the low 24 bits and the top byte come back unchanged.
pub proof fn lemma_pack_24_8_unpacks(low: u32, high: u8)
    requires
        low < 0x100_0000u32,
    ensures
        pack_24_8(low, high) & 0xff_ffffu32 == low,
        pack_24_8(low, high) >> 24u32 == high as u32,
{
    let h = high as u32;
    assert(h < 256u32);
    assert((low | (h << 24u32)) & 0xff_ffffu32 == low) by (bit_vector)
        requires
            low < 0x100_0000u32,
            h < 256u32;
    assert((low | (h << 24u32)) >> 24u32 == h) by (bit_vector)
        requires
            low < 0x100_0000u32,
            h < 256u32;
}

impl InstanceCustomIndexAndMask {
    /// Packs a custom index below `1 << 24` with a mask in the top byte.
    pub fn new(custom_index: u32, mask: u8) -> (r: Self)
        requires
            custom_index < 0x100_0000u32,
        ensures
            r.0 == pack_24_8(custom_index, mask),
    {
        InstanceCustomIndexAndMask(custom_index | ((mask as u32) << 24u32))
    }

    /// Custom index `index` visible to every ray (mask `0xff`).
    pub fn from_index(index: u32) -> (r: Self)
        requires
            index < 0x100_0000u32,
        ensures
            r.0 == pack_24_8(index, 0xffu8),
    {
        Self::new(index, 0xff)
    }
}

impl Default for InstanceCustomIndexAndMask {
    fn default() -> (r: Self)
        ensures
            r.0 == pack_24_8(0, 0xffu8),
    {
        Self::new(0, 0xff)
    }
}

/// A 24-bit shader binding table offset packed with 8 bits of instance flags.
#[derive(Clone, Copy, Debug)]
pub struct InstanceShaderBindingOffsetAndFlags(pub u32);

impl InstanceShaderBindingOffsetAndFlags {
    /// Packs a shader binding offset below `1 << 24` with instance flags in the top byte.
    pub fn new(instance_shader_binding_offset: u32, flags: GeometryInstanceFlags) -> (r: Self)
        requires
            instance_shader_binding_offset < 0x100_0000u32,
        ensures
            r.0 == pack_24_8(instance_shader_binding_offset, flags@),
    {
        InstanceShaderBindingOffsetAndFlags(
            instance_shader_binding_offset | ((flags.bits() as u32) << 24u32),
        )
    }

    /// Offset `offset` with no instance flags.
    pub fn from_offset(offset: u32) -> (r: Self)
        requires
            offset < 0x100_0000u32,
        ensures
            r.0 == pack_24_8(offset, 0u8),
    {
        Self::new(offset, GeometryInstanceFlags::empty())
    }

}

impl Default for InstanceShaderBindingOffsetAndFlags {
    fn default() -> (r: Self)
        ensures
            r.0 == pack_24_8(0, 0u8),
    {
        Self::new(0, GeometryInstanceFlags::empty())
    }
}

} // verus!
