use vstd::prelude::*;

verus! {

/// Texel format.
/// Images can have different texel formats.
/// Some of which are color or depth and/or stencil.
/// Format defines components, number of bits, layout and representation of
/// texels.
#[derive(Clone, Copy, Debug, PartialEq, Eq, Structural, Hash)]
pub enum Format {
    R8Unorm,
    R8Snorm,
    R8Uscaled,
    R8Sscaled,
    R8Uint,
    R8Sint,
    R8Srgb,
    RG8Unorm,
    RG8Snorm,
    RG8Uscaled,
    RG8Sscaled,
    RG8Uint,
    RG8Sint,
    RG8Srgb,
    RGB8Unorm,
    RGB8Snorm,
    RGB8Uscaled,
    RGB8Sscaled,
    RGB8Uint,
    RGB8Sint,
    RGB8Srgb,
    BGR8Unorm,
    BGR8Snorm,
    BGR8Uscaled,
    BGR8Sscaled,
    BGR8Uint,
    BGR8Sint,
    BGR8Srgb,
    RGBA8Unorm,
    RGBA8Snorm,
    RGBA8Uscaled,
    RGBA8Sscaled,
    RGBA8Uint,
    RGBA8Sint,
    RGBA8Srgb,
    BGRA8Unorm,
    BGRA8Snorm,
    BGRA8Uscaled,
    BGRA8Sscaled,
    BGRA8Uint,
    BGRA8Sint,
    BGRA8Srgb,
    R16Unorm,
    R16Snorm,
    R16Uscaled,
    R16Sscaled,
    R16Uint,
    R16Sint,
    R16Sfloat,
    RG16Unorm,
    RG16Snorm,
    RG16Uscaled,
    RG16Sscaled,
    RG16Uint,
    RG16Sint,
    RG16Sfloat,
    RGB16Unorm,
    RGB16Snorm,
    RGB16Uscaled,
    RGB16Sscaled,
    RGB16Uint,
    RGB16Sint,
    RGB16Sfloat,
    RGBA16Unorm,
    RGBA16Snorm,
    RGBA16Uscaled,
    RGBA16Sscaled,
    RGBA16Uint,
    RGBA16Sint,
    RGBA16Sfloat,
    R32Uint,
    R32Sint,
    R32Sfloat,
    RG32Uint,
    RG32Sint,
    RG32Sfloat,
    RGB32Uint,
    RGB32Sint,
    RGB32Sfloat,
    RGBA32Uint,
    RGBA32Sint,
    RGBA32Sfloat,
    R64Uint,
    R64Sint,
    R64Sfloat,
    RG64Uint,
    RG64Sint,
    RG64Sfloat,
    RGB64Uint,
    RGB64Sint,
    RGB64Sfloat,
    RGBA64Uint,
    RGBA64Sint,
    RGBA64Sfloat,
    D16Unorm,
    D32Sfloat,
    S8Uint,
    D16UnormS8Uint,
    D24UnormS8Uint,
    D32SfloatS8Uint,
}

/// Representation of the components of a format.
#[derive(Clone, Copy, Debug, PartialEq, Eq, Structural, Hash)]
pub enum Type {
    Uint,
    Sint,
    Srgb,
    Unorm,
    Snorm,
    Uscaled,
    Sscaled,
    Sfloat,
}

/// Components of a format and their order.
#[derive(Clone, Copy, Debug, PartialEq, Eq, Structural, Hash)]
pub enum Channels {
    R,
    RG,
    RGB,
    BGR,
    RGBA,
    BGRA,
    D,
    S,
    DS,
}

/// Channels, bits per component and representation of a format.
#[derive(Clone, Copy, Debug, PartialEq, Eq, Hash)]
pub struct FormatDescription<C, B, T> {
    pub channels: C,
    pub bits: B,
    pub ty: T,
}

/// Aspects of an image: color, depth and stencil.
#[derive(Clone, Copy, Debug, PartialEq, Eq, Structural, Hash)]
pub struct AspectFlags {
    bits: u8,
}

impl View for AspectFlags {
    type V = u8;

    closed spec fn view(&self) -> u8 {
        self.bits
    }
}

impl AspectFlags {
    #[allow(non_snake_case)]
    pub fn COLOR() -> (r: Self)
        ensures
            r@ == 0x1u8,
    {
        AspectFlags { bits: 0x1u8 }
    }

    #[allow(non_snake_case)]
    pub fn DEPTH() -> (r: Self)
        ensures
            r@ == 0x2u8,
    {
        AspectFlags { bits: 0x2u8 }
    }

    #[allow(non_snake_case)]
    pub fn STENCIL() -> (r: Self)
        ensures
            r@ == 0x4u8,
    {
        AspectFlags { bits: 0x4u8 }
    }

    /// The bits of every defined flag.
    pub open spec fn all_bits() -> u8 {
        0x7u8
    }

    /// No flags.
    pub fn empty() -> (r: Self)
        ensures
            r@ == 0,
    {
        AspectFlags { bits: 0 }
    }

    /// Every defined flag.
    pub fn all() -> (r: Self)
        ensures
            r@ == Self::all_bits(),
    {
        AspectFlags { bits: 0x7u8 }
    }

    /// The raw bits.
    pub fn bits(&self) -> (r: u8)
        ensures
            r == self@,
    {
        self.bits
    }

    /// Flags from raw bits; `None` when a bit matches no defined flag.
    pub fn from_bits(bits: u8) -> (r: Option<Self>)
        ensures
            r is Some <==> bits & !Self::all_bits() == 0,
            r matches Some(f) ==> f@ == bits,
    {
        if bits & !0x7u8 == 0 {
            Some(AspectFlags { bits })
        } else {
            None
        }
    }

    /// Flags from raw bits, dropping bits that match no defined flag.
    pub fn from_bits_truncate(bits: u8) -> (r: Self)
        ensures
            r@ == bits & Self::all_bits(),
    {
        AspectFlags { bits: bits & 0x7u8 }
    }

    /// `true` when no flag is set.
    pub fn is_empty(&self) -> (r: bool)
        ensures
            r == (self@ == 0),
    {
        self.bits == 0
    }

    /// `true` when every flag of `other` is set in `self`.
    pub fn contains(&self, other: Self) -> (r: bool)
        ensures
            r == (self@ & other@ == other@),
    {
        self.bits & other.bits == other.bits
    }

    /// `true` when `self` and `other` share a flag.
    pub fn intersects(&self, other: Self) -> (r: bool)
        ensures
            r == (self@ & other@ != 0),
    {
        self.bits & other.bits != 0
    }

    /// Flags set in either.
    pub fn union(self, other: Self) -> (r: Self)
        ensures
            r@ == self@ | other@,
    {
        AspectFlags { bits: self.bits | other.bits }
    }

    /// Flags set in both.
    pub fn intersection(self, other: Self) -> (r: Self)
        ensures
            r@ == self@ & other@,
    {
        AspectFlags { bits: self.bits & other.bits }
    }

    /// Flags of `self` that are not in `other`.
    pub fn difference(self, other: Self) -> (r: Self)
        ensures
            r@ == self@ & !other@,
    {
        AspectFlags { bits: self.bits & !other.bits }
    }

    /// Sets the flags of `other`.
    pub fn insert(&mut self, other: Self)
        ensures
            final(self)@ == old(self)@ | other@,
    {
        self.bits = self.bits | other.bits;
    }

    /// Clears the flags of `other`.
    pub fn remove(&mut self, other: Self)
        ensures
            final(self)@ == old(self)@ & !other@,
    {
        self.bits = self.bits & !other.bits;
    }
}


/// Channels, bits and representation of each format.
pub open spec fn format_description(f: Format) -> (Channels, u32, Type) {
    match f {
        Format::R8Unorm => (Channels::R, 8, Type::Unorm),
        Format::R8Snorm => (Channels::R, 8, Type::Snorm),
        Format::R8Uscaled => (Channels::R, 8, Type::Uscaled),
        Format::R8Sscaled => (Channels::R, 8, Type::Sscaled),
        Format::R8Uint => (Channels::R, 8, Type::Uint),
        Format::R8Sint => (Channels::R, 8, Type::Sint),
        Format::R8Srgb => (Channels::R, 8, Type::Srgb),
        Format::RG8Unorm => (Channels::RG, 8, Type::Unorm),
        Format::RG8Snorm => (Channels::RG, 8, Type::Snorm),
        Format::RG8Uscaled => (Channels::RG, 8, Type::Uscaled),
        Format::RG8Sscaled => (Channels::RG, 8, Type::Sscaled),
        Format::RG8Uint => (Channels::RG, 8, Type::Uint),
        Format::RG8Sint => (Channels::RG, 8, Type::Sint),
        Format::RG8Srgb => (Channels::RG, 8, Type::Srgb),
        Format::RGB8Unorm => (Channels::RGB, 8, Type::Unorm),
        Format::RGB8Snorm => (Channels::RGB, 8, Type::Snorm),
        Format::RGB8Uscaled => (Channels::RGB, 8, Type::Uscaled),
        Format::RGB8Sscaled => (Channels::RGB, 8, Type::Sscaled),
        Format::RGB8Uint => (Channels::RGB, 8, Type::Uint),
        Format::RGB8Sint => (Channels::RGB, 8, Type::Sint),
        Format::RGB8Srgb => (Channels::RGB, 8, Type::Srgb),
        Format::BGR8Unorm => (Channels::BGR, 8, Type::Unorm),
        Format::BGR8Snorm => (Channels::BGR, 8, Type::Snorm),
        Format::BGR8Uscaled => (Channels::BGR, 8, Type::Uscaled),
        Format::BGR8Sscaled => (Channels::BGR, 8, Type::Sscaled),
        Format::BGR8Uint => (Channels::BGR, 8, Type::Uint),
        Format::BGR8Sint => (Channels::BGR, 8, Type::Sint),
        Format::BGR8Srgb => (Channels::BGR, 8, Type::Srgb),
        Format::RGBA8Unorm => (Channels::RGBA, 8, Type::Unorm),
        Format::RGBA8Snorm => (Channels::RGBA, 8, Type::Snorm),
        Format::RGBA8Uscaled => (Channels::RGBA, 8, Type::Uscaled),
        Format::RGBA8Sscaled => (Channels::RGBA, 8, Type::Sscaled),
        Format::RGBA8Uint => (Channels::RGBA, 8, Type::Uint),
        Format::RGBA8Sint => (Channels::RGBA, 8, Type::Sint),
        Format::RGBA8Srgb => (Channels::RGBA, 8, Type::Srgb),
        Format::BGRA8Unorm => (Channels::BGRA, 8, Type::Unorm),
        Format::BGRA8Snorm => (Channels::BGRA, 8, Type::Snorm),
        Format::BGRA8Uscaled => (Channels::BGRA, 8, Type::Uscaled),
        Format::BGRA8Sscaled => (Channels::BGRA, 8, Type::Sscaled),
        Format::BGRA8Uint => (Channels::BGRA, 8, Type::Uint),
        Format::BGRA8Sint => (Channels::BGRA, 8, Type::Sint),
        Format::BGRA8Srgb => (Channels::BGRA, 8, Type::Srgb),
        Format::R16Unorm => (Channels::R, 16, Type::Unorm),
        Format::R16Snorm => (Channels::R, 16, Type::Snorm),
        Format::R16Uscaled => (Channels::R, 16, Type::Uscaled),
        Format::R16Sscaled => (Channels::R, 16, Type::Sscaled),
        Format::R16Uint => (Channels::R, 16, Type::Uint),
        Format::R16Sint => (Channels::R, 16, Type::Sint),
        Format::R16Sfloat => (Channels::R, 16, Type::Sfloat),
        Format::RG16Unorm => (Channels::RG, 16, Type::Unorm),
        Format::RG16Snorm => (Channels::RG, 16, Type::Snorm),
        Format::RG16Uscaled => (Channels::RG, 16, Type::Uscaled),
        Format::RG16Sscaled => (Channels::RG, 16, Type::Sscaled),
        Format::RG16Uint => (Channels::RG, 16, Type::Uint),
        Format::RG16Sint => (Channels::RG, 16, Type::Sint),
        Format::RG16Sfloat => (Channels::RG, 16, Type::Sfloat),
        Format::RGB16Unorm => (Channels::RGB, 16, Type::Unorm),
        Format::RGB16Snorm => (Channels::RGB, 16, Type::Snorm),
        Format::RGB16Uscaled => (Channels::RGB, 16, Type::Uscaled),
        Format::RGB16Sscaled => (Channels::RGB, 16, Type::Sscaled),
        Format::RGB16Uint => (Channels::RGB, 16, Type::Uint),
        Format::RGB16Sint => (Channels::RGB, 16, Type::Sint),
        Format::RGB16Sfloat => (Channels::RGB, 16, Type::Sfloat),
        Format::RGBA16Unorm => (Channels::RGBA, 16, Type::Unorm),
        Format::RGBA16Snorm => (Channels::RGBA, 16, Type::Snorm),
        Format::RGBA16Uscaled => (Channels::RGBA, 16, Type::Uscaled),
        Format::RGBA16Sscaled => (Channels::RGBA, 16, Type::Sscaled),
        Format::RGBA16Uint => (Channels::RGBA, 16, Type::Uint),
        Format::RGBA16Sint => (Channels::RGBA, 16, Type::Sint),
        Format::RGBA16Sfloat => (Channels::RGBA, 16, Type::Sfloat),
        Format::R32Uint => (Channels::R, 32, Type::Uint),
        Format::R32Sint => (Channels::R, 32, Type::Sint),
        Format::R32Sfloat => (Channels::R, 32, Type::Sfloat),
        Format::RG32Uint => (Channels::RG, 32, Type::Uint),
        Format::RG32Sint => (Channels::RG, 32, Type::Sint),
        Format::RG32Sfloat => (Channels::RG, 32, Type::Sfloat),
        Format::RGB32Uint => (Channels::RGB, 32, Type::Uint),
        Format::RGB32Sint => (Channels::RGB, 32, Type::Sint),
        Format::RGB32Sfloat => (Channels::RGB, 32, Type::Sfloat),
        Format::RGBA32Uint => (Channels::RGBA, 32, Type::Uint),
        Format::RGBA32Sint => (Channels::RGBA, 32, Type::Sint),
        Format::RGBA32Sfloat => (Channels::RGBA, 32, Type::Sfloat),
        Format::R64Uint => (Channels::R, 64, Type::Uint),
        Format::R64Sint => (Channels::R, 64, Type::Sint),
        Format::R64Sfloat => (Channels::R, 64, Type::Sfloat),
        Format::RG64Uint => (Channels::RG, 64, Type::Uint),
        Format::RG64Sint => (Channels::RG, 64, Type::Sint),
        Format::RG64Sfloat => (Channels::RG, 64, Type::Sfloat),
        Format::RGB64Uint => (Channels::RGB, 64, Type::Uint),
        Format::RGB64Sint => (Channels::RGB, 64, Type::Sint),
        Format::RGB64Sfloat => (Channels::RGB, 64, Type::Sfloat),
        Format::RGBA64Uint => (Channels::RGBA, 64, Type::Uint),
        Format::RGBA64Sint => (Channels::RGBA, 64, Type::Sint),
        Format::RGBA64Sfloat => (Channels::RGBA, 64, Type::Sfloat),
        Format::D16Unorm => (Channels::D, 16, Type::Unorm),
        Format::D32Sfloat => (Channels::D, 32, Type::Sfloat),
        Format::S8Uint => (Channels::S, 8, Type::Uint),
        Format::D16UnormS8Uint => (Channels::DS, 16, Type::Unorm),
        Format::D24UnormS8Uint => (Channels::DS, 24, Type::Unorm),
        Format::D32SfloatS8Uint => (Channels::DS, 32, Type::Sfloat),
    }
}

/// Formats without a color aspect: the depth and stencil formats.
pub open spec fn spec_is_color(f: Format) -> bool {
    !match f {
        Format::D16Unorm
        | Format::D32Sfloat
        | Format::S8Uint
        | Format::D16UnormS8Uint
        | Format::D24UnormS8Uint
        | Format::D32SfloatS8Uint => true,
        _ => false,
    }
}

/// Formats with a depth aspect.
pub open spec fn spec_is_depth(f: Format) -> bool {
    match f {
        Format::D16Unorm
        | Format::D32Sfloat
        | Format::D16UnormS8Uint
        | Format::D24UnormS8Uint
        | Format::D32SfloatS8Uint => true,
        _ => false,
    }
}

/// Formats with a stencil aspect.
pub open spec fn spec_is_stencil(f: Format) -> bool {
    match f {
        Format::S8Uint
        | Format::D16UnormS8Uint
        | Format::D24UnormS8Uint
        | Format::D32SfloatS8Uint => true,
        _ => false,
    }
}

/// The aspect bits of a format.
pub open spec fn spec_aspect_bits(f: Format) -> u8 {
    (if spec_is_color(f) { 1u8 } else { 0u8 }) | (if spec_is_depth(f) { 2u8 } else { 0u8 }) | (
    if spec_is_stencil(f) { 4u8 } else { 0u8 })
}

/// The code of each format in the Vulkan API.
pub open spec fn spec_vk_format_code(f: Format) -> i32 {
    match f {
        Format::R8Unorm => 9i32,
        Format::R8Snorm => 10i32,
        Format::R8Uscaled => 11i32,
        Format::R8Sscaled => 12i32,
        Format::R8Uint => 13i32,
        Format::R8Sint => 14i32,
        Format::R8Srgb => 15i32,
        Format::RG8Unorm => 16i32,
        Format::RG8Snorm => 17i32,
        Format::RG8Uscaled => 18i32,
        Format::RG8Sscaled => 19i32,
        Format::RG8Uint => 20i32,
        Format::RG8Sint => 21i32,
        Format::RG8Srgb => 22i32,
        Format::RGB8Unorm => 23i32,
        Format::RGB8Snorm => 24i32,
        Format::RGB8Uscaled => 25i32,
        Format::RGB8Sscaled => 26i32,
        Format::RGB8Uint => 27i32,
        Format::RGB8Sint => 28i32,
        Format::RGB8Srgb => 29i32,
        Format::BGR8Unorm => 30i32,
        Format::BGR8Snorm => 31i32,
        Format::BGR8Uscaled => 32i32,
        Format::BGR8Sscaled => 33i32,
        Format::BGR8Uint => 34i32,
        Format::BGR8Sint => 35i32,
        Format::BGR8Srgb => 36i32,
        Format::RGBA8Unorm => 37i32,
        Format::RGBA8Snorm => 38i32,
        Format::RGBA8Uscaled => 39i32,
        Format::RGBA8Sscaled => 40i32,
        Format::RGBA8Uint => 41i32,
        Format::RGBA8Sint => 42i32,
        Format::RGBA8Srgb => 43i32,
        Format::BGRA8Unorm => 44i32,
        Format::BGRA8Snorm => 45i32,
        Format::BGRA8Uscaled => 46i32,
        Format::BGRA8Sscaled => 47i32,
        Format::BGRA8Uint => 48i32,
        Format::BGRA8Sint => 49i32,
        Format::BGRA8Srgb => 50i32,
        Format::R16Unorm => 70i32,
        Format::R16Snorm => 71i32,
        Format::R16Uscaled => 72i32,
        Format::R16Sscaled => 73i32,
        Format::R16Uint => 74i32,
        Format::R16Sint => 75i32,
        Format::R16Sfloat => 76i32,
        Format::RG16Unorm => 77i32,
        Format::RG16Snorm => 78i32,
        Format::RG16Uscaled => 79i32,
        Format::RG16Sscaled => 80i32,
        Format::RG16Uint => 81i32,
        Format::RG16Sint => 82i32,
        Format::RG16Sfloat => 83i32,
        Format::RGB16Unorm => 84i32,
        Format::RGB16Snorm => 85i32,
        Format::RGB16Uscaled => 86i32,
        Format::RGB16Sscaled => 87i32,
        Format::RGB16Uint => 88i32,
        Format::RGB16Sint => 89i32,
        Format::RGB16Sfloat => 90i32,
        Format::RGBA16Unorm => 91i32,
        Format::RGBA16Snorm => 92i32,
        Format::RGBA16Uscaled => 93i32,
        Format::RGBA16Sscaled => 94i32,
        Format::RGBA16Uint => 95i32,
        Format::RGBA16Sint => 96i32,
        Format::RGBA16Sfloat => 97i32,
        Format::R32Uint => 98i32,
        Format::R32Sint => 99i32,
        Format::R32Sfloat => 100i32,
        Format::RG32Uint => 101i32,
        Format::RG32Sint => 102i32,
        Format::RG32Sfloat => 103i32,
        Format::RGB32Uint => 104i32,
        Format::RGB32Sint => 105i32,
        Format::RGB32Sfloat => 106i32,
        Format::RGBA32Uint => 107i32,
        Format::RGBA32Sint => 108i32,
        Format::RGBA32Sfloat => 109i32,
        Format::R64Uint => 110i32,
        Format::R64Sint => 111i32,
        Format::R64Sfloat => 112i32,
        Format::RG64Uint => 113i32,
        Format::RG64Sint => 114i32,
        Format::RG64Sfloat => 115i32,
        Format::RGB64Uint => 116i32,
        Format::RGB64Sint => 117i32,
        Format::RGB64Sfloat => 118i32,
        Format::RGBA64Uint => 119i32,
        Format::RGBA64Sint => 120i32,
        Format::RGBA64Sfloat => 121i32,
        Format::D16Unorm => 124i32,
        Format::D32Sfloat => 126i32,
        Format::S8Uint => 127i32,
        Format::D16UnormS8Uint => 128i32,
        Format::D24UnormS8Uint => 129i32,
        Format::D32SfloatS8Uint => 130i32,
    }
}

/// The format with the given Vulkan code, if any.
pub open spec fn spec_format_from_vk_code(code: i32) -> Option<Format> {
    match code {
        9i32 => Some(Format::R8Unorm),
        10i32 => Some(Format::R8Snorm),
        11i32 => Some(Format::R8Uscaled),
        12i32 => Some(Format::R8Sscaled),
        13i32 => Some(Format::R8Uint),
        14i32 => Some(Format::R8Sint),
        15i32 => Some(Format::R8Srgb),
        16i32 => Some(Format::RG8Unorm),
        17i32 => Some(Format::RG8Snorm),
        18i32 => Some(Format::RG8Uscaled),
        19i32 => Some(Format::RG8Sscaled),
        20i32 => Some(Format::RG8Uint),
        21i32 => Some(Format::RG8Sint),
        22i32 => Some(Format::RG8Srgb),
        23i32 => Some(Format::RGB8Unorm),
        24i32 => Some(Format::RGB8Snorm),
        25i32 => Some(Format::RGB8Uscaled),
        26i32 => Some(Format::RGB8Sscaled),
        27i32 => Some(Format::RGB8Uint),
        28i32 => Some(Format::RGB8Sint),
        29i32 => Some(Format::RGB8Srgb),
        30i32 => Some(Format::BGR8Unorm),
        31i32 => Some(Format::BGR8Snorm),
        32i32 => Some(Format::BGR8Uscaled),
        33i32 => Some(Format::BGR8Sscaled),
        34i32 => Some(Format::BGR8Uint),
        35i32 => Some(Format::BGR8Sint),
        36i32 => Some(Format::BGR8Srgb),
        37i32 => Some(Format::RGBA8Unorm),
        38i32 => Some(Format::RGBA8Snorm),
        39i32 => Some(Format::RGBA8Uscaled),
        40i32 => Some(Format::RGBA8Sscaled),
        41i32 => Some(Format::RGBA8Uint),
        42i32 => Some(Format::RGBA8Sint),
        43i32 => Some(Format::RGBA8Srgb),
        44i32 => Some(Format::BGRA8Unorm),
        45i32 => Some(Format::BGRA8Snorm),
        46i32 => Some(Format::BGRA8Uscaled),
        47i32 => Some(Format::BGRA8Sscaled),
        48i32 => Some(Format::BGRA8Uint),
        49i32 => Some(Format::BGRA8Sint),
        50i32 => Some(Format::BGRA8Srgb),
        70i32 => Some(Format::R16Unorm),
        71i32 => Some(Format::R16Snorm),
        72i32 => Some(Format::R16Uscaled),
        73i32 => Some(Format::R16Sscaled),
        74i32 => Some(Format::R16Uint),
        75i32 => Some(Format::R16Sint),
        76i32 => Some(Format::R16Sfloat),
        77i32 => Some(Format::RG16Unorm),
        78i32 => Some(Format::RG16Snorm),
        79i32 => Some(Format::RG16Uscaled),
        80i32 => Some(Format::RG16Sscaled),
        81i32 => Some(Format::RG16Uint),
        82i32 => Some(Format::RG16Sint),
        83i32 => Some(Format::RG16Sfloat),
        84i32 => Some(Format::RGB16Unorm),
        85i32 => Some(Format::RGB16Snorm),
        86i32 => Some(Format::RGB16Uscaled),
        87i32 => Some(Format::RGB16Sscaled),
        88i32 => Some(Format::RGB16Uint),
        89i32 => Some(Format::RGB16Sint),
        90i32 => Some(Format::RGB16Sfloat),
        91i32 => Some(Format::RGBA16Unorm),
        92i32 => Some(Format::RGBA16Snorm),
        93i32 => Some(Format::RGBA16Uscaled),
        94i32 => Some(Format::RGBA16Sscaled),
        95i32 => Some(Format::RGBA16Uint),
        96i32 => Some(Format::RGBA16Sint),
        97i32 => Some(Format::RGBA16Sfloat),
        98i32 => Some(Format::R32Uint),
        99i32 => Some(Format::R32Sint),
        100i32 => Some(Format::R32Sfloat),
        101i32 => Some(Format::RG32Uint),
        102i32 => Some(Format::RG32Sint),
        103i32 => Some(Format::RG32Sfloat),
        104i32 => Some(Format::RGB32Uint),
        105i32 => Some(Format::RGB32Sint),
        106i32 => Some(Format::RGB32Sfloat),
        107i32 => Some(Format::RGBA32Uint),
        108i32 => Some(Format::RGBA32Sint),
        109i32 => Some(Format::RGBA32Sfloat),
        110i32 => Some(Format::R64Uint),
        111i32 => Some(Format::R64Sint),
        112i32 => Some(Format::R64Sfloat),
        113i32 => Some(Format::RG64Uint),
        114i32 => Some(Format::RG64Sint),
        115i32 => Some(Format::RG64Sfloat),
        116i32 => Some(Format::RGB64Uint),
        117i32 => Some(Format::RGB64Sint),
        118i32 => Some(Format::RGB64Sfloat),
        119i32 => Some(Format::RGBA64Uint),
        120i32 => Some(Format::RGBA64Sint),
        121i32 => Some(Format::RGBA64Sfloat),
        124i32 => Some(Format::D16Unorm),
        126i32 => Some(Format::D32Sfloat),
        127i32 => Some(Format::S8Uint),
        128i32 => Some(Format::D16UnormS8Uint),
        129i32 => Some(Format::D24UnormS8Uint),
        130i32 => Some(Format::D32SfloatS8Uint),
        _ => None,
    }
}

impl Format {
    pub fn aspect_flags(&self) -> (r: AspectFlags)
        ensures
            r@ == spec_aspect_bits(*self),
    {
        let mut flags = AspectFlags::empty();
        if self.is_color() {
            flags.insert(AspectFlags::COLOR());
        }
        if self.is_depth() {
            flags.insert(AspectFlags::DEPTH());
        }
        if self.is_stencil() {
            flags.insert(AspectFlags::STENCIL());
        }
        assert(0u8 | 1u8 == 1u8 && 0u8 | 2u8 == 2u8 && 0u8 | 4u8 == 4u8 && 1u8 | 2u8 == 3u8 && 1u8 | 4u8 == 5u8
            && 2u8 | 4u8 == 6u8 && 3u8 | 4u8 == 7u8 && 0u8 | 0u8 == 0u8 && 1u8 | 0u8 == 1u8 && 2u8 | 0u8 == 2u8
            && 3u8 | 0u8 == 3u8 && 0u8 | 4u8 == 4u8 && 6u8 | 0u8 == 6u8) by (bit_vector);
        flags
    }

    pub fn is_color(&self) -> (r: bool)
        ensures
            r == spec_is_color(*self),
    {
        !matches!(
            self,
            Format::D16Unorm
            | Format::D32Sfloat
            | Format::S8Uint
            | Format::D16UnormS8Uint
            | Format::D24UnormS8Uint
            | Format::D32SfloatS8Uint
        )
    }

    pub fn is_depth(&self) -> (r: bool)
        ensures
            r == spec_is_depth(*self),
    {
        matches!(
            self,
            Format::D16Unorm
            | Format::D32Sfloat
            | Format::D16UnormS8Uint
            | Format::D24UnormS8Uint
            | Format::D32SfloatS8Uint
        )
    }

    pub fn is_stencil(&self) -> (r: bool)
        ensures
            r == spec_is_stencil(*self),
    {
        matches!(
            self,
            Format::S8Uint
            | Format::D16UnormS8Uint
            | Format::D24UnormS8Uint
            | Format::D32SfloatS8Uint
        )
    }

    pub fn description(&self) -> (r: FormatDescription<Channels, u32, Type>)
        ensures
            (r.channels, r.bits, r.ty) == format_description(*self),
    {
        match self {
            Format::R8Unorm => FormatDescription { channels: Channels::R, bits: 8, ty: Type::Unorm },
            Format::R8Snorm => FormatDescription { channels: Channels::R, bits: 8, ty: Type::Snorm },
            Format::R8Uscaled => FormatDescription { channels: Channels::R, bits: 8, ty: Type::Uscaled },
            Format::R8Sscaled => FormatDescription { channels: Channels::R, bits: 8, ty: Type::Sscaled },
            Format::R8Uint => FormatDescription { channels: Channels::R, bits: 8, ty: Type::Uint },
            Format::R8Sint => FormatDescription { channels: Channels::R, bits: 8, ty: Type::Sint },
            Format::R8Srgb => FormatDescription { channels: Channels::R, bits: 8, ty: Type::Srgb },
            Format::RG8Unorm => FormatDescription { channels: Channels::RG, bits: 8, ty: Type::Unorm },
            Format::RG8Snorm => FormatDescription { channels: Channels::RG, bits: 8, ty: Type::Snorm },
            Format::RG8Uscaled => FormatDescription { channels: Channels::RG, bits: 8, ty: Type::Uscaled },
            Format::RG8Sscaled => FormatDescription { channels: Channels::RG, bits: 8, ty: Type::Sscaled },
            Format::RG8Uint => FormatDescription { channels: Channels::RG, bits: 8, ty: Type::Uint },
            Format::RG8Sint => FormatDescription { channels: Channels::RG, bits: 8, ty: Type::Sint },
            Format::RG8Srgb => FormatDescription { channels: Channels::RG, bits: 8, ty: Type::Srgb },
            Format::RGB8Unorm => FormatDescription { channels: Channels::RGB, bits: 8, ty: Type::Unorm },
            Format::RGB8Snorm => FormatDescription { channels: Channels::RGB, bits: 8, ty: Type::Snorm },
            Format::RGB8Uscaled => FormatDescription { channels: Channels::RGB, bits: 8, ty: Type::Uscaled },
            Format::RGB8Sscaled => FormatDescription { channels: Channels::RGB, bits: 8, ty: Type::Sscaled },
            Format::RGB8Uint => FormatDescription { channels: Channels::RGB, bits: 8, ty: Type::Uint },
            Format::RGB8Sint => FormatDescription { channels: Channels::RGB, bits: 8, ty: Type::Sint },
            Format::RGB8Srgb => FormatDescription { channels: Channels::RGB, bits: 8, ty: Type::Srgb },
            Format::BGR8Unorm => FormatDescription { channels: Channels::BGR, bits: 8, ty: Type::Unorm },
            Format::BGR8Snorm => FormatDescription { channels: Channels::BGR, bits: 8, ty: Type::Snorm },
            Format::BGR8Uscaled => FormatDescription { channels: Channels::BGR, bits: 8, ty: Type::Uscaled },
            Format::BGR8Sscaled => FormatDescription { channels: Channels::BGR, bits: 8, ty: Type::Sscaled },
            Format::BGR8Uint => FormatDescription { channels: Channels::BGR, bits: 8, ty: Type::Uint },
            Format::BGR8Sint => FormatDescription { channels: Channels::BGR, bits: 8, ty: Type::Sint },
            Format::BGR8Srgb => FormatDescription { channels: Channels::BGR, bits: 8, ty: Type::Srgb },
            Format::RGBA8Unorm => FormatDescription { channels: Channels::RGBA, bits: 8, ty: Type::Unorm },
            Format::RGBA8Snorm => FormatDescription { channels: Channels::RGBA, bits: 8, ty: Type::Snorm },
            Format::RGBA8Uscaled => FormatDescription { channels: Channels::RGBA, bits: 8, ty: Type::Uscaled },
            Format::RGBA8Sscaled => FormatDescription { channels: Channels::RGBA, bits: 8, ty: Type::Sscaled },
            Format::RGBA8Uint => FormatDescription { channels: Channels::RGBA, bits: 8, ty: Type::Uint },
            Format::RGBA8Sint => FormatDescription { channels: Channels::RGBA, bits: 8, ty: Type::Sint },
            Format::RGBA8Srgb => FormatDescription { channels: Channels::RGBA, bits: 8, ty: Type::Srgb },
            Format::BGRA8Unorm => FormatDescription { channels: Channels::BGRA, bits: 8, ty: Type::Unorm },
            Format::BGRA8Snorm => FormatDescription { channels: Channels::BGRA, bits: 8, ty: Type::Snorm },
            Format::BGRA8Uscaled => FormatDescription { channels: Channels::BGRA, bits: 8, ty: Type::Uscaled },
            Format::BGRA8Sscaled => FormatDescription { channels: Channels::BGRA, bits: 8, ty: Type::Sscaled },
            Format::BGRA8Uint => FormatDescription { channels: Channels::BGRA, bits: 8, ty: Type::Uint },
            Format::BGRA8Sint => FormatDescription { channels: Channels::BGRA, bits: 8, ty: Type::Sint },
            Format::BGRA8Srgb => FormatDescription { channels: Channels::BGRA, bits: 8, ty: Type::Srgb },
            Format::R16Unorm => FormatDescription { channels: Channels::R, bits: 16, ty: Type::Unorm },
            Format::R16Snorm => FormatDescription { channels: Channels::R, bits: 16, ty: Type::Snorm },
            Format::R16Uscaled => FormatDescription { channels: Channels::R, bits: 16, ty: Type::Uscaled },
            Format::R16Sscaled => FormatDescription { channels: Channels::R, bits: 16, ty: Type::Sscaled },
            Format::R16Uint => FormatDescription { channels: Channels::R, bits: 16, ty: Type::Uint },
            Format::R16Sint => FormatDescription { channels: Channels::R, bits: 16, ty: Type::Sint },
            Format::R16Sfloat => FormatDescription { channels: Channels::R, bits: 16, ty: Type::Sfloat },
            Format::RG16Unorm => FormatDescription { channels: Channels::RG, bits: 16, ty: Type::Unorm },
            Format::RG16Snorm => FormatDescription { channels: Channels::RG, bits: 16, ty: Type::Snorm },
            Format::RG16Uscaled => FormatDescription { channels: Channels::RG, bits: 16, ty: Type::Uscaled },
            Format::RG16Sscaled => FormatDescription { channels: Channels::RG, bits: 16, ty: Type::Sscaled },
            Format::RG16Uint => FormatDescription { channels: Channels::RG, bits: 16, ty: Type::Uint },
            Format::RG16Sint => FormatDescription { channels: Channels::RG, bits: 16, ty: Type::Sint },
            Format::RG16Sfloat => FormatDescription { channels: Channels::RG, bits: 16, ty: Type::Sfloat },
            Format::RGB16Unorm => FormatDescription { channels: Channels::RGB, bits: 16, ty: Type::Unorm },
            Format::RGB16Snorm => FormatDescription { channels: Channels::RGB, bits: 16, ty: Type::Snorm },
            Format::RGB16Uscaled => FormatDescription { channels: Channels::RGB, bits: 16, ty: Type::Uscaled },
            Format::RGB16Sscaled => FormatDescription { channels: Channels::RGB, bits: 16, ty: Type::Sscaled },
            Format::RGB16Uint => FormatDescription { channels: Channels::RGB, bits: 16, ty: Type::Uint },
            Format::RGB16Sint => FormatDescription { channels: Channels::RGB, bits: 16, ty: Type::Sint },
            Format::RGB16Sfloat => FormatDescription { channels: Channels::RGB, bits: 16, ty: Type::Sfloat },
            Format::RGBA16Unorm => FormatDescription { channels: Channels::RGBA, bits: 16, ty: Type::Unorm },
            Format::RGBA16Snorm => FormatDescription { channels: Channels::RGBA, bits: 16, ty: Type::Snorm },
            Format::RGBA16Uscaled => FormatDescription { channels: Channels::RGBA, bits: 16, ty: Type::Uscaled },
            Format::RGBA16Sscaled => FormatDescription { channels: Channels::RGBA, bits: 16, ty: Type::Sscaled },
            Format::RGBA16Uint => FormatDescription { channels: Channels::RGBA, bits: 16, ty: Type::Uint },
            Format::RGBA16Sint => FormatDescription { channels: Channels::RGBA, bits: 16, ty: Type::Sint },
            Format::RGBA16Sfloat => FormatDescription { channels: Channels::RGBA, bits: 16, ty: Type::Sfloat },
            Format::R32Uint => FormatDescription { channels: Channels::R, bits: 32, ty: Type::Uint },
            Format::R32Sint => FormatDescription { channels: Channels::R, bits: 32, ty: Type::Sint },
            Format::R32Sfloat => FormatDescription { channels: Channels::R, bits: 32, ty: Type::Sfloat },
            Format::RG32Uint => FormatDescription { channels: Channels::RG, bits: 32, ty: Type::Uint },
            Format::RG32Sint => FormatDescription { channels: Channels::RG, bits: 32, ty: Type::Sint },
            Format::RG32Sfloat => FormatDescription { channels: Channels::RG, bits: 32, ty: Type::Sfloat },
            Format::RGB32Uint => FormatDescription { channels: Channels::RGB, bits: 32, ty: Type::Uint },
            Format::RGB32Sint => FormatDescription { channels: Channels::RGB, bits: 32, ty: Type::Sint },
            Format::RGB32Sfloat => FormatDescription { channels: Channels::RGB, bits: 32, ty: Type::Sfloat },
            Format::RGBA32Uint => FormatDescription { channels: Channels::RGBA, bits: 32, ty: Type::Uint },
            Format::RGBA32Sint => FormatDescription { channels: Channels::RGBA, bits: 32, ty: Type::Sint },
            Format::RGBA32Sfloat => FormatDescription { channels: Channels::RGBA, bits: 32, ty: Type::Sfloat },
            Format::R64Uint => FormatDescription { channels: Channels::R, bits: 64, ty: Type::Uint },
            Format::R64Sint => FormatDescription { channels: Channels::R, bits: 64, ty: Type::Sint },
            Format::R64Sfloat => FormatDescription { channels: Channels::R, bits: 64, ty: Type::Sfloat },
            Format::RG64Uint => FormatDescription { channels: Channels::RG, bits: 64, ty: Type::Uint },
            Format::RG64Sint => FormatDescription { channels: Channels::RG, bits: 64, ty: Type::Sint },
            Format::RG64Sfloat => FormatDescription { channels: Channels::RG, bits: 64, ty: Type::Sfloat },
            Format::RGB64Uint => FormatDescription { channels: Channels::RGB, bits: 64, ty: Type::Uint },
            Format::RGB64Sint => FormatDescription { channels: Channels::RGB, bits: 64, ty: Type::Sint },
            Format::RGB64Sfloat => FormatDescription { channels: Channels::RGB, bits: 64, ty: Type::Sfloat },
            Format::RGBA64Uint => FormatDescription { channels: Channels::RGBA, bits: 64, ty: Type::Uint },
            Format::RGBA64Sint => FormatDescription { channels: Channels::RGBA, bits: 64, ty: Type::Sint },
            Format::RGBA64Sfloat => FormatDescription { channels: Channels::RGBA, bits: 64, ty: Type::Sfloat },
            Format::D16Unorm => FormatDescription { channels: Channels::D, bits: 16, ty: Type::Unorm },
            Format::D32Sfloat => FormatDescription { channels: Channels::D, bits: 32, ty: Type::Sfloat },
            Format::S8Uint => FormatDescription { channels: Channels::S, bits: 8, ty: Type::Uint },
            Format::D16UnormS8Uint => FormatDescription { channels: Channels::DS, bits: 16, ty: Type::Unorm },
            Format::D24UnormS8Uint => FormatDescription { channels: Channels::DS, bits: 24, ty: Type::Unorm },
            Format::D32SfloatS8Uint => FormatDescription { channels: Channels::DS, bits: 32, ty: Type::Sfloat },
        }
    }

    /// The code of this format in the Vulkan API.
    pub fn vk_code(&self) -> (r: i32)
        ensures
            r == spec_vk_format_code(*self),
    {
        match self {
            Format::R8Unorm => 9i32,
            Format::R8Snorm => 10i32,
            Format::R8Uscaled => 11i32,
            Format::R8Sscaled => 12i32,
            Format::R8Uint => 13i32,
            Format::R8Sint => 14i32,
            Format::R8Srgb => 15i32,
            Format::RG8Unorm => 16i32,
            Format::RG8Snorm => 17i32,
            Format::RG8Uscaled => 18i32,
            Format::RG8Sscaled => 19i32,
            Format::RG8Uint => 20i32,
            Format::RG8Sint => 21i32,
            Format::RG8Srgb => 22i32,
            Format::RGB8Unorm => 23i32,
            Format::RGB8Snorm => 24i32,
            Format::RGB8Uscaled => 25i32,
            Format::RGB8Sscaled => 26i32,
            Format::RGB8Uint => 27i32,
            Format::RGB8Sint => 28i32,
            Format::RGB8Srgb => 29i32,
            Format::BGR8Unorm => 30i32,
            Format::BGR8Snorm => 31i32,
            Format::BGR8Uscaled => 32i32,
            Format::BGR8Sscaled => 33i32,
            Format::BGR8Uint => 34i32,
            Format::BGR8Sint => 35i32,
            Format::BGR8Srgb => 36i32,
            Format::RGBA8Unorm => 37i32,
            Format::RGBA8Snorm => 38i32,
            Format::RGBA8Uscaled => 39i32,
            Format::RGBA8Sscaled => 40i32,
            Format::RGBA8Uint => 41i32,
            Format::RGBA8Sint => 42i32,
            Format::RGBA8Srgb => 43i32,
            Format::BGRA8Unorm => 44i32,
            Format::BGRA8Snorm => 45i32,
            Format::BGRA8Uscaled => 46i32,
            Format::BGRA8Sscaled => 47i32,
            Format::BGRA8Uint => 48i32,
            Format::BGRA8Sint => 49i32,
            Format::BGRA8Srgb => 50i32,
            Format::R16Unorm => 70i32,
            Format::R16Snorm => 71i32,
            Format::R16Uscaled => 72i32,
            Format::R16Sscaled => 73i32,
            Format::R16Uint => 74i32,
            Format::R16Sint => 75i32,
            Format::R16Sfloat => 76i32,
            Format::RG16Unorm => 77i32,
            Format::RG16Snorm => 78i32,
            Format::RG16Uscaled => 79i32,
            Format::RG16Sscaled => 80i32,
            Format::RG16Uint => 81i32,
            Format::RG16Sint => 82i32,
            Format::RG16Sfloat => 83i32,
            Format::RGB16Unorm => 84i32,
            Format::RGB16Snorm => 85i32,
            Format::RGB16Uscaled => 86i32,
            Format::RGB16Sscaled => 87i32,
            Format::RGB16Uint => 88i32,
            Format::RGB16Sint => 89i32,
            Format::RGB16Sfloat => 90i32,
            Format::RGBA16Unorm => 91i32,
            Format::RGBA16Snorm => 92i32,
            Format::RGBA16Uscaled => 93i32,
            Format::RGBA16Sscaled => 94i32,
            Format::RGBA16Uint => 95i32,
            Format::RGBA16Sint => 96i32,
            Format::RGBA16Sfloat => 97i32,
            Format::R32Uint => 98i32,
            Format::R32Sint => 99i32,
            Format::R32Sfloat => 100i32,
            Format::RG32Uint => 101i32,
            Format::RG32Sint => 102i32,
            Format::RG32Sfloat => 103i32,
            Format::RGB32Uint => 104i32,
            Format::RGB32Sint => 105i32,
            Format::RGB32Sfloat => 106i32,
            Format::RGBA32Uint => 107i32,
            Format::RGBA32Sint => 108i32,
            Format::RGBA32Sfloat => 109i32,
            Format::R64Uint => 110i32,
            Format::R64Sint => 111i32,
            Format::R64Sfloat => 112i32,
            Format::RG64Uint => 113i32,
            Format::RG64Sint => 114i32,
            Format::RG64Sfloat => 115i32,
            Format::RGB64Uint => 116i32,
            Format::RGB64Sint => 117i32,
            Format::RGB64Sfloat => 118i32,
            Format::RGBA64Uint => 119i32,
            Format::RGBA64Sint => 120i32,
            Format::RGBA64Sfloat => 121i32,
            Format::D16Unorm => 124i32,
            Format::D32Sfloat => 126i32,
            Format::S8Uint => 127i32,
            Format::D16UnormS8Uint => 128i32,
            Format::D24UnormS8Uint => 129i32,
            Format::D32SfloatS8Uint => 130i32,
        }
    }

    /// The format with the given Vulkan code, if the library supports it.
    pub fn from_vk_code(code: i32) -> (r: Option<Format>)
        ensures
            r == spec_format_from_vk_code(code),
    {
        match code {
            9i32 => Some(Format::R8Unorm),
            10i32 => Some(Format::R8Snorm),
            11i32 => Some(Format::R8Uscaled),
            12i32 => Some(Format::R8Sscaled),
            13i32 => Some(Format::R8Uint),
            14i32 => Some(Format::R8Sint),
            15i32 => Some(Format::R8Srgb),
            16i32 => Some(Format::RG8Unorm),
            17i32 => Some(Format::RG8Snorm),
            18i32 => Some(Format::RG8Uscaled),
            19i32 => Some(Format::RG8Sscaled),
            20i32 => Some(Format::RG8Uint),
            21i32 => Some(Format::RG8Sint),
            22i32 => Some(Format::RG8Srgb),
            23i32 => Some(Format::RGB8Unorm),
            24i32 => Some(Format::RGB8Snorm),
            25i32 => Some(Format::RGB8Uscaled),
            26i32 => Some(Format::RGB8Sscaled),
            27i32 => Some(Format::RGB8Uint),
            28i32 => Some(Format::RGB8Sint),
            29i32 => Some(Format::RGB8Srgb),
            30i32 => Some(Format::BGR8Unorm),
            31i32 => Some(Format::BGR8Snorm),
            32i32 => Some(Format::BGR8Uscaled),
            33i32 => Some(Format::BGR8Sscaled),
            34i32 => Some(Format::BGR8Uint),
            35i32 => Some(Format::BGR8Sint),
            36i32 => Some(Format::BGR8Srgb),
            37i32 => Some(Format::RGBA8Unorm),
            38i32 => Some(Format::RGBA8Snorm),
            39i32 => Some(Format::RGBA8Uscaled),
            40i32 => Some(Format::RGBA8Sscaled),
            41i32 => Some(Format::RGBA8Uint),
            42i32 => Some(Format::RGBA8Sint),
            43i32 => Some(Format::RGBA8Srgb),
            44i32 => Some(Format::BGRA8Unorm),
            45i32 => Some(Format::BGRA8Snorm),
            46i32 => Some(Format::BGRA8Uscaled),
            47i32 => Some(Format::BGRA8Sscaled),
            48i32 => Some(Format::BGRA8Uint),
            49i32 => Some(Format::BGRA8Sint),
            50i32 => Some(Format::BGRA8Srgb),
            70i32 => Some(Format::R16Unorm),
            71i32 => Some(Format::R16Snorm),
            72i32 => Some(Format::R16Uscaled),
            73i32 => Some(Format::R16Sscaled),
            74i32 => Some(Format::R16Uint),
            75i32 => Some(Format::R16Sint),
            76i32 => Some(Format::R16Sfloat),
            77i32 => Some(Format::RG16Unorm),
            78i32 => Some(Format::RG16Snorm),
            79i32 => Some(Format::RG16Uscaled),
            80i32 => Some(Format::RG16Sscaled),
            81i32 => Some(Format::RG16Uint),
            82i32 => Some(Format::RG16Sint),
            83i32 => Some(Format::RG16Sfloat),
            84i32 => Some(Format::RGB16Unorm),
            85i32 => Some(Format::RGB16Snorm),
            86i32 => Some(Format::RGB16Uscaled),
            87i32 => Some(Format::RGB16Sscaled),
            88i32 => Some(Format::RGB16Uint),
            89i32 => Some(Format::RGB16Sint),
            90i32 => Some(Format::RGB16Sfloat),
            91i32 => Some(Format::RGBA16Unorm),
            92i32 => Some(Format::RGBA16Snorm),
            93i32 => Some(Format::RGBA16Uscaled),
            94i32 => Some(Format::RGBA16Sscaled),
            95i32 => Some(Format::RGBA16Uint),
            96i32 => Some(Format::RGBA16Sint),
            97i32 => Some(Format::RGBA16Sfloat),
            98i32 => Some(Format::R32Uint),
            99i32 => Some(Format::R32Sint),
            100i32 => Some(Format::R32Sfloat),
            101i32 => Some(Format::RG32Uint),
            102i32 => Some(Format::RG32Sint),
            103i32 => Some(Format::RG32Sfloat),
            104i32 => Some(Format::RGB32Uint),
            105i32 => Some(Format::RGB32Sint),
            106i32 => Some(Format::RGB32Sfloat),
            107i32 => Some(Format::RGBA32Uint),
            108i32 => Some(Format::RGBA32Sint),
            109i32 => Some(Format::RGBA32Sfloat),
            110i32 => Some(Format::R64Uint),
            111i32 => Some(Format::R64Sint),
            112i32 => Some(Format::R64Sfloat),
            113i32 => Some(Format::RG64Uint),
            114i32 => Some(Format::RG64Sint),
            115i32 => Some(Format::RG64Sfloat),
            116i32 => Some(Format::RGB64Uint),
            117i32 => Some(Format::RGB64Sint),
            118i32 => Some(Format::RGB64Sfloat),
            119i32 => Some(Format::RGBA64Uint),
            120i32 => Some(Format::RGBA64Sint),
            121i32 => Some(Format::RGBA64Sfloat),
            124i32 => Some(Format::D16Unorm),
            126i32 => Some(Format::D32Sfloat),
            127i32 => Some(Format::S8Uint),
            128i32 => Some(Format::D16UnormS8Uint),
            129i32 => Some(Format::D24UnormS8Uint),
            130i32 => Some(Format::D32SfloatS8Uint),
            _ => None,
        }
    }
}

/// Every format has a color aspect exactly when it has neither a depth nor a stencil aspect.
pub proof fn lemma_color_iff_not_depth_stencil(f: Format)
    ensures
        spec_is_color(f) <==> !(spec_is_depth(f) || spec_is_stencil(f)),
{
}

/// Distinct formats have distinct Vulkan codes.
pub proof fn lemma_vk_code_injective(f: Format, g: Format)
    ensures
        spec_vk_format_code(f) == spec_vk_format_code(g) ==> f == g,
{
}

/// Converting a format to its Vulkan code and back gives the format again.
pub proof fn lemma_vk_code_round_trip(f: Format)
    ensures
        spec_format_from_vk_code(spec_vk_format_code(f)) == Some(f),
{
}

/// A code that is read back as a format is that format's code.
pub proof fn lemma_vk_code_read_back(code: i32)
    ensures
        spec_format_from_vk_code(code) matches Some(f) ==> spec_vk_format_code(f) == code,
{
}

/// Distinct formats have distinct descriptions.
pub proof fn lemma_description_injective(f: Format, g: Format)
    ensures
        format_description(f) == format_description(g) ==> f == g,
{
}

/// Type-level tag; no value of it is made outside this crate.
#[derive(Clone, Copy, Debug)]
pub struct R(());

/// Type-level tag; no value of it is made outside this crate.
#[derive(Clone, Copy, Debug)]
pub struct RG(());

/// Type-level tag; no value of it is made outside this crate.
#[derive(Clone, Copy, Debug)]
pub struct RGB(());

/// Type-level tag; no value of it is made outside this crate.
#[derive(Clone, Copy, Debug)]
pub struct BGR(());

/// Type-level tag; no value of it is made outside this crate.
#[derive(Clone, Copy, Debug)]
pub struct RGBA(());

/// Type-level tag; no value of it is made outside this crate.
#[derive(Clone, Copy, Debug)]
pub struct BGRA(());

/// Type-level tag; no value of it is made outside this crate.
#[derive(Clone, Copy, Debug)]
pub struct D(());

/// Type-level tag; no value of it is made outside this crate.
#[derive(Clone, Copy, Debug)]
pub struct S(());

/// Type-level tag; no value of it is made outside this crate.
#[derive(Clone, Copy, Debug)]
pub struct DS(());

/// Type-level tag; no value of it is made outside this crate.
#[derive(Clone, Copy, Debug)]
pub struct Uint(());

/// Type-level tag; no value of it is made outside this crate.
#[derive(Clone, Copy, Debug)]
pub struct Sint(());

/// Type-level tag; no value of it is made outside this crate.
#[derive(Clone, Copy, Debug)]
pub struct Srgb(());

/// Type-level tag; no value of it is made outside this crate.
#[derive(Clone, Copy, Debug)]
pub struct Unorm(());

/// Type-level tag; no value of it is made outside this crate.
#[derive(Clone, Copy, Debug)]
pub struct Snorm(());

/// Type-level tag; no value of it is made outside this crate.
#[derive(Clone, Copy, Debug)]
pub struct Uscaled(());

/// Type-level tag; no value of it is made outside this crate.
#[derive(Clone, Copy, Debug)]
pub struct Sscaled(());

/// Type-level tag; no value of it is made outside this crate.
#[derive(Clone, Copy, Debug)]
pub struct Sfloat(());

/// Type-level bit count; no value of it is made outside this crate.
#[derive(Clone, Copy, Debug)]
pub struct ConstBits<const BITS: u32>(());

/// Type-level tags of channels.
pub trait ChannelsTag {
    /// The channels the tag names.
    spec fn channels() -> Channels;
}

/// Type-level tags of component representations.
pub trait TypeTag {
    /// The representation the tag names.
    spec fn ty() -> Type;
}

impl ChannelsTag for R {
    open spec fn channels() -> Channels {
        Channels::R
    }
}

impl ChannelsTag for RG {
    open spec fn channels() -> Channels {
        Channels::RG
    }
}

impl ChannelsTag for RGB {
    open spec fn channels() -> Channels {
        Channels::RGB
    }
}

impl ChannelsTag for BGR {
    open spec fn channels() -> Channels {
        Channels::BGR
    }
}

impl ChannelsTag for RGBA {
    open spec fn channels() -> Channels {
        Channels::RGBA
    }
}

impl ChannelsTag for BGRA {
    open spec fn channels() -> Channels {
        Channels::BGRA
    }
}

impl ChannelsTag for D {
    open spec fn channels() -> Channels {
        Channels::D
    }
}

impl ChannelsTag for S {
    open spec fn channels() -> Channels {
        Channels::S
    }
}

impl ChannelsTag for DS {
    open spec fn channels() -> Channels {
        Channels::DS
    }
}

impl TypeTag for Uint {
    open spec fn ty() -> Type {
        Type::Uint
    }
}

impl TypeTag for Sint {
    open spec fn ty() -> Type {
        Type::Sint
    }
}

impl TypeTag for Srgb {
    open spec fn ty() -> Type {
        Type::Srgb
    }
}

impl TypeTag for Unorm {
    open spec fn ty() -> Type {
        Type::Unorm
    }
}

impl TypeTag for Snorm {
    open spec fn ty() -> Type {
        Type::Snorm
    }
}

impl TypeTag for Uscaled {
    open spec fn ty() -> Type {
        Type::Uscaled
    }
}

impl TypeTag for Sscaled {
    open spec fn ty() -> Type {
        Type::Sscaled
    }
}

impl TypeTag for Sfloat {
    open spec fn ty() -> Type {
        Type::Sfloat
    }
}

/// The description that the type-level tags of a format description name.
pub trait FormatTags {
    spec fn tag_description() -> (Channels, u32, Type);
}

impl<C: ChannelsTag, const B: u32, T: TypeTag> FormatTags for FormatDescription<C, ConstBits<B>, T> {
    open spec fn tag_description() -> (Channels, u32, Type) {
        (C::channels(), B, T::ty())
    }
}

/// Types that name one format at compile time.
pub trait StaticFormat: FormatTags {
    const FORMAT: Format;

    /// The format has the channels, bits and representation that the tags name.
    proof fn lemma_format_matches_tags()
        ensures
            format_description(Self::FORMAT) == Self::tag_description(),
    ;
}

impl StaticFormat for FormatDescription<R, ConstBits<8>, Unorm> {
    const FORMAT: Format = Format::R8Unorm;

    proof fn lemma_format_matches_tags() {
    }
}

impl StaticFormat for FormatDescription<R, ConstBits<8>, Snorm> {
    const FORMAT: Format = Format::R8Snorm;

    proof fn lemma_format_matches_tags() {
    }
}

impl StaticFormat for FormatDescription<R, ConstBits<8>, Uscaled> {
    const FORMAT: Format = Format::R8Uscaled;

    proof fn lemma_format_matches_tags() {
    }
}

impl StaticFormat for FormatDescription<R, ConstBits<8>, Sscaled> {
    const FORMAT: Format = Format::R8Sscaled;

    proof fn lemma_format_matches_tags() {
    }
}

impl StaticFormat for FormatDescription<R, ConstBits<8>, Uint> {
    const FORMAT: Format = Format::R8Uint;

    proof fn lemma_format_matches_tags() {
    }
}

impl StaticFormat for FormatDescription<R, ConstBits<8>, Sint> {
    const FORMAT: Format = Format::R8Sint;

    proof fn lemma_format_matches_tags() {
    }
}

impl StaticFormat for FormatDescription<R, ConstBits<8>, Srgb> {
    const FORMAT: Format = Format::R8Srgb;

    proof fn lemma_format_matches_tags() {
    }
}

impl StaticFormat for FormatDescription<RG, ConstBits<8>, Unorm> {
    const FORMAT: Format = Format::RG8Unorm;

    proof fn lemma_format_matches_tags() {
    }
}

impl StaticFormat for FormatDescription<RG, ConstBits<8>, Snorm> {
    const FORMAT: Format = Format::RG8Snorm;

    proof fn lemma_format_matches_tags() {
    }
}

impl StaticFormat for FormatDescription<RG, ConstBits<8>, Uscaled> {
    const FORMAT: Format = Format::RG8Uscaled;

    proof fn lemma_format_matches_tags() {
    }
}

impl StaticFormat for FormatDescription<RG, ConstBits<8>, Sscaled> {
    const FORMAT: Format = Format::RG8Sscaled;

    proof fn lemma_format_matches_tags() {
    }
}

impl StaticFormat for FormatDescription<RG, ConstBits<8>, Uint> {
    const FORMAT: Format = Format::RG8Uint;

    proof fn lemma_format_matches_tags() {
    }
}

impl StaticFormat for FormatDescription<RG, ConstBits<8>, Sint> {
    const FORMAT: Format = Format::RG8Sint;

    proof fn lemma_format_matches_tags() {
    }
}

impl StaticFormat for FormatDescription<RG, ConstBits<8>, Srgb> {
    const FORMAT: Format = Format::RG8Srgb;

    proof fn lemma_format_matches_tags() {
    }
}

impl StaticFormat for FormatDescription<RGB, ConstBits<8>, Unorm> {
    const FORMAT: Format = Format::RGB8Unorm;

    proof fn lemma_format_matches_tags() {
    }
}

impl StaticFormat for FormatDescription<RGB, ConstBits<8>, Snorm> {
    const FORMAT: Format = Format::RGB8Snorm;

    proof fn lemma_format_matches_tags() {
    }
}

impl StaticFormat for FormatDescription<RGB, ConstBits<8>, Uscaled> {
    const FORMAT: Format = Format::RGB8Uscaled;

    proof fn lemma_format_matches_tags() {
    }
}

impl StaticFormat for FormatDescription<RGB, ConstBits<8>, Sscaled> {
    const FORMAT: Format = Format::RGB8Sscaled;

    proof fn lemma_format_matches_tags() {
    }
}

impl StaticFormat for FormatDescription<RGB, ConstBits<8>, Uint> {
    const FORMAT: Format = Format::RGB8Uint;

    proof fn lemma_format_matches_tags() {
    }
}

impl StaticFormat for FormatDescription<RGB, ConstBits<8>, Sint> {
    const FORMAT: Format = Format::RGB8Sint;

    proof fn lemma_format_matches_tags() {
    }
}

impl StaticFormat for FormatDescription<RGB, ConstBits<8>, Srgb> {
    const FORMAT: Format = Format::RGB8Srgb;

    proof fn lemma_format_matches_tags() {
    }
}

impl StaticFormat for FormatDescription<BGR, ConstBits<8>, Unorm> {
    const FORMAT: Format = Format::BGR8Unorm;

    proof fn lemma_format_matches_tags() {
    }
}

impl StaticFormat for FormatDescription<BGR, ConstBits<8>, Snorm> {
    const FORMAT: Format = Format::BGR8Snorm;

    proof fn lemma_format_matches_tags() {
    }
}

impl StaticFormat for FormatDescription<BGR, ConstBits<8>, Uscaled> {
    const FORMAT: Format = Format::BGR8Uscaled;

    proof fn lemma_format_matches_tags() {
    }
}

impl StaticFormat for FormatDescription<BGR, ConstBits<8>, Sscaled> {
    const FORMAT: Format = Format::BGR8Sscaled;

    proof fn lemma_format_matches_tags() {
    }
}

impl StaticFormat for FormatDescription<BGR, ConstBits<8>, Uint> {
    const FORMAT: Format = Format::BGR8Uint;

    proof fn lemma_format_matches_tags() {
    }
}

impl StaticFormat for FormatDescription<BGR, ConstBits<8>, Sint> {
    const FORMAT: Format = Format::BGR8Sint;

    proof fn lemma_format_matches_tags() {
    }
}

impl StaticFormat for FormatDescription<BGR, ConstBits<8>, Srgb> {
    const FORMAT: Format = Format::BGR8Srgb;

    proof fn lemma_format_matches_tags() {
    }
}

impl StaticFormat for FormatDescription<RGBA, ConstBits<8>, Unorm> {
    const FORMAT: Format = Format::RGBA8Unorm;

    proof fn lemma_format_matches_tags() {
    }
}

impl StaticFormat for FormatDescription<RGBA, ConstBits<8>, Snorm> {
    const FORMAT: Format = Format::RGBA8Snorm;

    proof fn lemma_format_matches_tags() {
    }
}

impl StaticFormat for FormatDescription<RGBA, ConstBits<8>, Uscaled> {
    const FORMAT: Format = Format::RGBA8Uscaled;

    proof fn lemma_format_matches_tags() {
    }
}

impl StaticFormat for FormatDescription<RGBA, ConstBits<8>, Sscaled> {
    const FORMAT: Format = Format::RGBA8Sscaled;

    proof fn lemma_format_matches_tags() {
    }
}

impl StaticFormat for FormatDescription<RGBA, ConstBits<8>, Uint> {
    const FORMAT: Format = Format::RGBA8Uint;

    proof fn lemma_format_matches_tags() {
    }
}

impl StaticFormat for FormatDescription<RGBA, ConstBits<8>, Sint> {
    const FORMAT: Format = Format::RGBA8Sint;

    proof fn lemma_format_matches_tags() {
    }
}

impl StaticFormat for FormatDescription<RGBA, ConstBits<8>, Srgb> {
    const FORMAT: Format = Format::RGBA8Srgb;

    proof fn lemma_format_matches_tags() {
    }
}

impl StaticFormat for FormatDescription<BGRA, ConstBits<8>, Unorm> {
    const FORMAT: Format = Format::BGRA8Unorm;

    proof fn lemma_format_matches_tags() {
    }
}

impl StaticFormat for FormatDescription<BGRA, ConstBits<8>, Snorm> {
    const FORMAT: Format = Format::BGRA8Snorm;

    proof fn lemma_format_matches_tags() {
    }
}

impl StaticFormat for FormatDescription<BGRA, ConstBits<8>, Uscaled> {
    const FORMAT: Format = Format::BGRA8Uscaled;

    proof fn lemma_format_matches_tags() {
    }
}

impl StaticFormat for FormatDescription<BGRA, ConstBits<8>, Sscaled> {
    const FORMAT: Format = Format::BGRA8Sscaled;

    proof fn lemma_format_matches_tags() {
    }
}

impl StaticFormat for FormatDescription<BGRA, ConstBits<8>, Uint> {
    const FORMAT: Format = Format::BGRA8Uint;

    proof fn lemma_format_matches_tags() {
    }
}

impl StaticFormat for FormatDescription<BGRA, ConstBits<8>, Sint> {
    const FORMAT: Format = Format::BGRA8Sint;

    proof fn lemma_format_matches_tags() {
    }
}

impl StaticFormat for FormatDescription<BGRA, ConstBits<8>, Srgb> {
    const FORMAT: Format = Format::BGRA8Srgb;

    proof fn lemma_format_matches_tags() {
    }
}

impl StaticFormat for FormatDescription<R, ConstBits<16>, Unorm> {
    const FORMAT: Format = Format::R16Unorm;

    proof fn lemma_format_matches_tags() {
    }
}

impl StaticFormat for FormatDescription<R, ConstBits<16>, Snorm> {
    const FORMAT: Format = Format::R16Snorm;

    proof fn lemma_format_matches_tags() {
    }
}

impl StaticFormat for FormatDescription<R, ConstBits<16>, Uscaled> {
    const FORMAT: Format = Format::R16Uscaled;

    proof fn lemma_format_matches_tags() {
    }
}

impl StaticFormat for FormatDescription<R, ConstBits<16>, Sscaled> {
    const FORMAT: Format = Format::R16Sscaled;

    proof fn lemma_format_matches_tags() {
    }
}

impl StaticFormat for FormatDescription<R, ConstBits<16>, Uint> {
    const FORMAT: Format = Format::R16Uint;

    proof fn lemma_format_matches_tags() {
    }
}

impl StaticFormat for FormatDescription<R, ConstBits<16>, Sint> {
    const FORMAT: Format = Format::R16Sint;

    proof fn lemma_format_matches_tags() {
    }
}

impl StaticFormat for FormatDescription<R, ConstBits<16>, Sfloat> {
    const FORMAT: Format = Format::R16Sfloat;

    proof fn lemma_format_matches_tags() {
    }
}

impl StaticFormat for FormatDescription<RG, ConstBits<16>, Unorm> {
    const FORMAT: Format = Format::RG16Unorm;

    proof fn lemma_format_matches_tags() {
    }
}

impl StaticFormat for FormatDescription<RG, ConstBits<16>, Snorm> {
    const FORMAT: Format = Format::RG16Snorm;

    proof fn lemma_format_matches_tags() {
    }
}

impl StaticFormat for FormatDescription<RG, ConstBits<16>, Uscaled> {
    const FORMAT: Format = Format::RG16Uscaled;

    proof fn lemma_format_matches_tags() {
    }
}

impl StaticFormat for FormatDescription<RG, ConstBits<16>, Sscaled> {
    const FORMAT: Format = Format::RG16Sscaled;

    proof fn lemma_format_matches_tags() {
    }
}

impl StaticFormat for FormatDescription<RG, ConstBits<16>, Uint> {
    const FORMAT: Format = Format::RG16Uint;

    proof fn lemma_format_matches_tags() {
    }
}

impl StaticFormat for FormatDescription<RG, ConstBits<16>, Sint> {
    const FORMAT: Format = Format::RG16Sint;

    proof fn lemma_format_matches_tags() {
    }
}

impl StaticFormat for FormatDescription<RG, ConstBits<16>, Sfloat> {
    const FORMAT: Format = Format::RG16Sfloat;

    proof fn lemma_format_matches_tags() {
    }
}

impl StaticFormat for FormatDescription<RGB, ConstBits<16>, Unorm> {
    const FORMAT: Format = Format::RGB16Unorm;

    proof fn lemma_format_matches_tags() {
    }
}

impl StaticFormat for FormatDescription<RGB, ConstBits<16>, Snorm> {
    const FORMAT: Format = Format::RGB16Snorm;

    proof fn lemma_format_matches_tags() {
    }
}

impl StaticFormat for FormatDescription<RGB, ConstBits<16>, Uscaled> {
    const FORMAT: Format = Format::RGB16Uscaled;

    proof fn lemma_format_matches_tags() {
    }
}

impl StaticFormat for FormatDescription<RGB, ConstBits<16>, Sscaled> {
    const FORMAT: Format = Format::RGB16Sscaled;

    proof fn lemma_format_matches_tags() {
    }
}

impl StaticFormat for FormatDescription<RGB, ConstBits<16>, Uint> {
    const FORMAT: Format = Format::RGB16Uint;

    proof fn lemma_format_matches_tags() {
    }
}

impl StaticFormat for FormatDescription<RGB, ConstBits<16>, Sint> {
    const FORMAT: Format = Format::RGB16Sint;

    proof fn lemma_format_matches_tags() {
    }
}

impl StaticFormat for FormatDescription<RGB, ConstBits<16>, Sfloat> {
    const FORMAT: Format = Format::RGB16Sfloat;

    proof fn lemma_format_matches_tags() {
    }
}

impl StaticFormat for FormatDescription<RGBA, ConstBits<16>, Unorm> {
    const FORMAT: Format = Format::RGBA16Unorm;

    proof fn lemma_format_matches_tags() {
    }
}

impl StaticFormat for FormatDescription<RGBA, ConstBits<16>, Snorm> {
    const FORMAT: Format = Format::RGBA16Snorm;

    proof fn lemma_format_matches_tags() {
    }
}

impl StaticFormat for FormatDescription<RGBA, ConstBits<16>, Uscaled> {
    const FORMAT: Format = Format::RGBA16Uscaled;

    proof fn lemma_format_matches_tags() {
    }
}

impl StaticFormat for FormatDescription<RGBA, ConstBits<16>, Sscaled> {
    const FORMAT: Format = Format::RGBA16Sscaled;

    proof fn lemma_format_matches_tags() {
    }
}

impl StaticFormat for FormatDescription<RGBA, ConstBits<16>, Uint> {
    const FORMAT: Format = Format::RGBA16Uint;

    proof fn lemma_format_matches_tags() {
    }
}

impl StaticFormat for FormatDescription<RGBA, ConstBits<16>, Sint> {
    const FORMAT: Format = Format::RGBA16Sint;

    proof fn lemma_format_matches_tags() {
    }
}

impl StaticFormat for FormatDescription<RGBA, ConstBits<16>, Sfloat> {
    const FORMAT: Format = Format::RGBA16Sfloat;

    proof fn lemma_format_matches_tags() {
    }
}

impl StaticFormat for FormatDescription<R, ConstBits<32>, Uint> {
    const FORMAT: Format = Format::R32Uint;

    proof fn lemma_format_matches_tags() {
    }
}

impl StaticFormat for FormatDescription<R, ConstBits<32>, Sint> {
    const FORMAT: Format = Format::R32Sint;

    proof fn lemma_format_matches_tags() {
    }
}

impl StaticFormat for FormatDescription<R, ConstBits<32>, Sfloat> {
    const FORMAT: Format = Format::R32Sfloat;

    proof fn lemma_format_matches_tags() {
    }
}

impl StaticFormat for FormatDescription<RG, ConstBits<32>, Uint> {
    const FORMAT: Format = Format::RG32Uint;

    proof fn lemma_format_matches_tags() {
    }
}

impl StaticFormat for FormatDescription<RG, ConstBits<32>, Sint> {
    const FORMAT: Format = Format::RG32Sint;

    proof fn lemma_format_matches_tags() {
    }
}

impl StaticFormat for FormatDescription<RG, ConstBits<32>, Sfloat> {
    const FORMAT: Format = Format::RG32Sfloat;

    proof fn lemma_format_matches_tags() {
    }
}

impl StaticFormat for FormatDescription<RGB, ConstBits<32>, Uint> {
    const FORMAT: Format = Format::RGB32Uint;

    proof fn lemma_format_matches_tags() {
    }
}

impl StaticFormat for FormatDescription<RGB, ConstBits<32>, Sint> {
    const FORMAT: Format = Format::RGB32Sint;

    proof fn lemma_format_matches_tags() {
    }
}

impl StaticFormat for FormatDescription<RGB, ConstBits<32>, Sfloat> {
    const FORMAT: Format = Format::RGB32Sfloat;

    proof fn lemma_format_matches_tags() {
    }
}

impl StaticFormat for FormatDescription<RGBA, ConstBits<32>, Uint> {
    const FORMAT: Format = Format::RGBA32Uint;

    proof fn lemma_format_matches_tags() {
    }
}

impl StaticFormat for FormatDescription<RGBA, ConstBits<32>, Sint> {
    const FORMAT: Format = Format::RGBA32Sint;

    proof fn lemma_format_matches_tags() {
    }
}

impl StaticFormat for FormatDescription<RGBA, ConstBits<32>, Sfloat> {
    const FORMAT: Format = Format::RGBA32Sfloat;

    proof fn lemma_format_matches_tags() {
    }
}

impl StaticFormat for FormatDescription<R, ConstBits<64>, Uint> {
    const FORMAT: Format = Format::R64Uint;

    proof fn lemma_format_matches_tags() {
    }
}

impl StaticFormat for FormatDescription<R, ConstBits<64>, Sint> {
    const FORMAT: Format = Format::R64Sint;

    proof fn lemma_format_matches_tags() {
    }
}

impl StaticFormat for FormatDescription<R, ConstBits<64>, Sfloat> {
    const FORMAT: Format = Format::R64Sfloat;

    proof fn lemma_format_matches_tags() {
    }
}

impl StaticFormat for FormatDescription<RG, ConstBits<64>, Uint> {
    const FORMAT: Format = Format::RG64Uint;

    proof fn lemma_format_matches_tags() {
    }
}

impl StaticFormat for FormatDescription<RG, ConstBits<64>, Sint> {
    const FORMAT: Format = Format::RG64Sint;

    proof fn lemma_format_matches_tags() {
    }
}

impl StaticFormat for FormatDescription<RG, ConstBits<64>, Sfloat> {
    const FORMAT: Format = Format::RG64Sfloat;

    proof fn lemma_format_matches_tags() {
    }
}

impl StaticFormat for FormatDescription<RGB, ConstBits<64>, Uint> {
    const FORMAT: Format = Format::RGB64Uint;

    proof fn lemma_format_matches_tags() {
    }
}

impl StaticFormat for FormatDescription<RGB, ConstBits<64>, Sint> {
    const FORMAT: Format = Format::RGB64Sint;

    proof fn lemma_format_matches_tags() {
    }
}

impl StaticFormat for FormatDescription<RGB, ConstBits<64>, Sfloat> {
    const FORMAT: Format = Format::RGB64Sfloat;

    proof fn lemma_format_matches_tags() {
    }
}

impl StaticFormat for FormatDescription<RGBA, ConstBits<64>, Uint> {
    const FORMAT: Format = Format::RGBA64Uint;

    proof fn lemma_format_matches_tags() {
    }
}

impl StaticFormat for FormatDescription<RGBA, ConstBits<64>, Sint> {
    const FORMAT: Format = Format::RGBA64Sint;

    proof fn lemma_format_matches_tags() {
    }
}

impl StaticFormat for FormatDescription<RGBA, ConstBits<64>, Sfloat> {
    const FORMAT: Format = Format::RGBA64Sfloat;

    proof fn lemma_format_matches_tags() {
    }
}

impl StaticFormat for FormatDescription<D, ConstBits<16>, Unorm> {
    const FORMAT: Format = Format::D16Unorm;

    proof fn lemma_format_matches_tags() {
    }
}

impl StaticFormat for FormatDescription<D, ConstBits<32>, Sfloat> {
    const FORMAT: Format = Format::D32Sfloat;

    proof fn lemma_format_matches_tags() {
    }
}

impl StaticFormat for FormatDescription<S, ConstBits<8>, Uint> {
    const FORMAT: Format = Format::S8Uint;

    proof fn lemma_format_matches_tags() {
    }
}

impl StaticFormat for FormatDescription<DS, ConstBits<16>, Unorm> {
    const FORMAT: Format = Format::D16UnormS8Uint;

    proof fn lemma_format_matches_tags() {
    }
}

impl StaticFormat for FormatDescription<DS, ConstBits<24>, Unorm> {
    const FORMAT: Format = Format::D24UnormS8Uint;

    proof fn lemma_format_matches_tags() {
    }
}

impl StaticFormat for FormatDescription<DS, ConstBits<32>, Sfloat> {
    const FORMAT: Format = Format::D32SfloatS8Uint;

    proof fn lemma_format_matches_tags() {
    }
}

} // verus!
