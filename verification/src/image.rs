use vstd::prelude::*;
use crate::dimensions::{Extent, Extent2, Extent3, ImageSize};
use crate::format::{AspectFlags, Format};

verus! {

/// Flags to specify allowed usages for image; each flag has the bit of the matching Vulkan usage.
#[derive(Clone, Copy, Debug, PartialEq, Eq, Structural, Hash)]
pub struct ImageUsage {
    bits: u32,
}

impl View for ImageUsage {
    type V = u32;

    closed spec fn view(&self) -> u32 {
        self.bits
    }
}

impl ImageUsage {
    /// Image with this usage flag can be used as source for various transfer operations.
    #[allow(non_snake_case)]
    pub fn TRANSFER_SRC() -> (r: Self)
        ensures
            r@ == 0x1u32,
    {
        ImageUsage { bits: 0x1u32 }
    }

    /// Image with this usage flag can be used as destination for various transfer operations.
    #[allow(non_snake_case)]
    pub fn TRANSFER_DST() -> (r: Self)
        ensures
            r@ == 0x2u32,
    {
        ImageUsage { bits: 0x2u32 }
    }

    /// Image with this usage flag can be sampled in shaders.
    #[allow(non_snake_case)]
    pub fn SAMPLED() -> (r: Self)
        ensures
            r@ == 0x4u32,
    {
        ImageUsage { bits: 0x4u32 }
    }

    /// Image with this usage flag can be used as storage image.
    #[allow(non_snake_case)]
    pub fn STORAGE() -> (r: Self)
        ensures
            r@ == 0x8u32,
    {
        ImageUsage { bits: 0x8u32 }
    }

    /// Image with this usage flag can be used as color attachment in render passes.
    #[allow(non_snake_case)]
    pub fn COLOR_ATTACHMENT() -> (r: Self)
        ensures
            r@ == 0x10u32,
    {
        ImageUsage { bits: 0x10u32 }
    }

    /// Image with this usage flag can be used as depth-stencil attachment in render passes.
    #[allow(non_snake_case)]
    pub fn DEPTH_STENCIL_ATTACHMENT() -> (r: Self)
        ensures
            r@ == 0x20u32,
    {
        ImageUsage { bits: 0x20u32 }
    }

    /// Image with this usage flag can be used as transient attachment in render passes.
    #[allow(non_snake_case)]
    pub fn TRANSIENT_ATTACHMENT() -> (r: Self)
        ensures
            r@ == 0x40u32,
    {
        ImageUsage { bits: 0x40u32 }
    }

    /// Image with this usage flag can be used as input attachment in render passes.
    #[allow(non_snake_case)]
    pub fn INPUT_ATTACHMENT() -> (r: Self)
        ensures
            r@ == 0x80u32,
    {
        ImageUsage { bits: 0x80u32 }
    }

    /// The bits of every defined flag.
    pub open spec fn all_bits() -> u32 {
        0xffu32
    }

    /// No flags.
    pub fn empty() -> (r: Self)
        ensures
            r@ == 0,
    {
        ImageUsage { bits: 0 }
    }

    /// Every defined flag.
    pub fn all() -> (r: Self)
        ensures
            r@ == Self::all_bits(),
    {
        ImageUsage { bits: 0xffu32 }
    }

    /// The raw bits.
    pub fn bits(&self) -> (r: u32)
        ensures
            r == self@,
    {
        self.bits
    }

    /// Flags from raw bits; `None` when a bit matches no defined flag.
    pub fn from_bits(bits: u32) -> (r: Option<Self>)
        ensures
            r is Some <==> bits & !Self::all_bits() == 0,
            r matches Some(f) ==> f@ == bits,
    {
        if bits & !0xffu32 == 0 {
            Some(ImageUsage { bits })
        } else {
            None
        }
    }

    /// Flags from raw bits, dropping bits that match no defined flag.
    pub fn from_bits_truncate(bits: u32) -> (r: Self)
        ensures
            r@ == bits & Self::all_bits(),
    {
        ImageUsage { bits: bits & 0xffu32 }
    }

    /// `true` when no flag is set.
    pub fn is_empty(&self) -> (r: bool)
        ensures
            r == (self@ == 0),
    {
        self.bits == 0
    }

    /// `true` when every flag of `other` is set in `self`.
    pub fn contains(&self, other: Self) -> (r: bool)
        ensures
            r == (self@ & other@ == other@),
    {
        self.bits & other.bits == other.bits
    }

    /// `true` when `self` and `other` share a flag.
    pub fn intersects(&self, other: Self) -> (r: bool)
        ensures
            r == (self@ & other@ != 0),
    {
        self.bits & other.bits != 0
    }

    /// Flags set in either.
    pub fn union(self, other: Self) -> (r: Self)
        ensures
            r@ == self@ | other@,
    {
        ImageUsage { bits: self.bits | other.bits }
    }

    /// Flags set in both.
    pub fn intersection(self, other: Self) -> (r: Self)
        ensures
            r@ == self@ & other@,
    {
        ImageUsage { bits: self.bits & other.bits }
    }

    /// Flags of `self` that are not in `other`.
    pub fn difference(self, other: Self) -> (r: Self)
        ensures
            r@ == self@ & !other@,
    {
        ImageUsage { bits: self.bits & !other.bits }
    }

    /// Sets the flags of `other`.
    pub fn insert(&mut self, other: Self)
        ensures
            final(self)@ == old(self)@ | other@,
    {
        self.bits = self.bits | other.bits;
    }

    /// Clears the flags of `other`.
    pub fn remove(&mut self, other: Self)
        ensures
            final(self)@ == old(self)@ & !other@,
    {
        self.bits = self.bits & !other.bits;
    }
}



/// Number of samples per texel of an image.
#[derive(Clone, Copy, Debug, PartialEq, Eq, Structural, Hash)]
pub enum Samples {
    Samples1,
    Samples2,
    Samples4,
    Samples8,
    Samples16,
    Samples32,
    Samples64,
}

/// Sample count that each variant stands for, which is also its Vulkan bit.
pub open spec fn spec_sample_count(samples: Samples) -> u32 {
    match samples {
        Samples::Samples1 => 1,
        Samples::Samples2 => 2,
        Samples::Samples4 => 4,
        Samples::Samples8 => 8,
        Samples::Samples16 => 16,
        Samples::Samples32 => 32,
        Samples::Samples64 => 64,
    }
}

impl Samples {
    /// The number of samples, which is also the Vulkan sample count bit.
    pub fn count(self) -> (r: u32)
        ensures
            r == spec_sample_count(self),
    {
        match self {
            Samples::Samples1 => 1,
            Samples::Samples2 => 2,
            Samples::Samples4 => 4,
            Samples::Samples8 => 8,
            Samples::Samples16 => 16,
            Samples::Samples32 => 32,
            Samples::Samples64 => 64,
        }
    }
}

/// Extent of an image, with its number of dimensions.
#[derive(Clone, Copy, Debug, PartialEq, Eq, Structural, Hash)]
pub enum ImageExtent {
    D1 { width: ImageSize },
    D2 { width: ImageSize, height: ImageSize },
    D3 { width: ImageSize, height: ImageSize, depth: ImageSize },
}

/// Width, height and depth of an image extent; missing dimensions count as one.
pub open spec fn image_extent_dims(extent: ImageExtent) -> Seq<ImageSize> {
    match extent {
        ImageExtent::D1 { width } => seq![width, 1, 1],
        ImageExtent::D2 { width, height } => seq![width, height, 1],
        ImageExtent::D3 { width, height, depth } => seq![width, height, depth],
    }
}

impl ImageExtent {
    /// Width and height of the image; height is one for one-dimensional images.
    pub fn into_2d(self) -> (r: Extent2)
        ensures
            r@ == image_extent_dims(self).take(2),
    {
        let r = match self {
            ImageExtent::D1 { width } => Extent2::new(width, 1),
            ImageExtent::D2 { width, height } => Extent2::new(width, height),
            ImageExtent::D3 { width, height, .. } => Extent2::new(width, height),
        };
        assert(r@ =~= image_extent_dims(self).take(2));
        r
    }

    /// Width, height and depth of the image; missing dimensions are one.
    pub fn into_3d(self) -> (r: Extent3)
        ensures
            r@ == image_extent_dims(self),
    {
        let r = match self {
            ImageExtent::D1 { width } => Extent3::new(width, 1, 1),
            ImageExtent::D2 { width, height } => Extent3::new(width, height, 1),
            ImageExtent::D3 { width, height, depth } => Extent3::new(width, height, depth),
        };
        assert(r@ =~= image_extent_dims(self));
        r
    }
}

impl From<Extent2> for ImageExtent {
    fn from(extent: Extent2) -> (r: Self) {
        proof {
            extent.lemma_len();
        }
        ImageExtent::D2 { width: extent.width(), height: extent.height() }
    }
}

impl vstd::std_specs::convert::FromSpecImpl<Extent2> for ImageExtent {
    open spec fn obeys_from_spec() -> bool {
        true
    }

    open spec fn from_spec(extent: Extent2) -> Self {
        ImageExtent::D2 { width: extent@[0], height: extent@[1] }
    }
}

/// Information required to create an image.
#[derive(Clone, Copy, Debug, PartialEq, Eq, Hash)]
pub struct ImageInfo {
    /// Dimensionality and size of the image.
    pub extent: ImageExtent,
    /// Format of the image texels.
    pub format: Format,
    /// Number of mip levels.
    pub levels: u32,
    /// Number of array layers.
    pub layers: u32,
    /// Number of samples per texel.
    pub samples: Samples,
    /// Usages the image must support.
    pub usage: ImageUsage,
}

/// Mip level and array layers of some aspects of an image.
#[derive(Clone, Copy, Debug, PartialEq, Eq, Hash)]
pub struct SubresourceLayers {
    /// Aspects of the image.
    pub aspect: AspectFlags,
    /// Mip level.
    pub level: u32,
    /// First array layer.
    pub first_layer: u32,
    /// Number of array layers.
    pub layer_count: u32,
}

} // verus!
