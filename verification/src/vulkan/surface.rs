use vstd::prelude::*;
use crate::format::Format;
use crate::image::ImageUsage;

verus! {

/// How presented images are queued for display.
#[derive(Clone, Copy, Debug, PartialEq, Eq, Structural, Hash)]
pub enum PresentMode {
    Immediate,
    Mailbox,
    Fifo,
    FifoRelaxed,
}

/// How the alpha channel of presented images is composited.
#[derive(Clone, Copy, Debug, PartialEq, Eq, Structural, Hash)]
pub enum CompositeAlpha {
    Opaque,
    PreMultiplied,
    PostMultiplied,
    Inherit,
}

/// The composite alpha modes a surface supports, in the order of their flag bits.
#[derive(Clone, Copy, Debug, PartialEq, Eq)]
pub struct CompositeAlphaSupport {
    pub opaque: bool,
    pub pre_multiplied: bool,
    pub post_multiplied: bool,
    pub inherit: bool,
}

/// What a surface reports of the swapchains it accepts.
#[derive(Clone, Copy, Debug, PartialEq, Eq)]
pub struct SurfaceCapabilitiesPlain {
    /// Fewest images of a swapchain, at least one.
    pub min_image_count: u32,
    /// Most images of a swapchain; `None` when there is no limit.
    pub max_image_count: Option<u32>,
    pub supported_usage: ImageUsage,
    pub supported_composite_alpha: CompositeAlphaSupport,
}

/// A format and color space pair that a surface supports.
#[derive(Clone, Copy, Debug, PartialEq, Eq)]
pub struct SurfaceFormatPlain {
    pub format: Format,
    pub color_space: i32,
}

/// Why a swapchain cannot be configured as asked.
#[derive(Clone, Copy, Debug, PartialEq, Eq)]
pub enum SurfaceError {
    UsageNotSupported { usage: ImageUsage },
    FormatUnsupported { format: Format },
    PresentModeUnsupported { mode: PresentMode },
}

/// The parameters of a swapchain to create.
#[derive(Clone, Copy, Debug, PartialEq, Eq)]
pub struct SwapchainPlan {
    pub image_count: u32,
    pub format: SurfaceFormatPlain,
    pub composite_alpha: CompositeAlpha,
    pub usage: ImageUsage,
    pub mode: PresentMode,
}

/// Most retired swapchains kept before waiting for the device to become idle.
pub const MAX_RETIRED_SWAPCHAINS: usize = 16;

/// Three images, within the limits of the surface (no upper limit when `max` is `None`).
pub open spec fn spec_image_count(min: u32, max: Option<u32>) -> u32 {
    let hi: u32 = match max {
        Some(m) => m,
        None => u32::MAX,
    };
    if 3 < min {
        min
    } else if 3 > hi {
        hi
    } else {
        3
    }
}

/// The composite alpha mode with the lowest flag bit among those supported, or opaque
/// when the surface reports none.
pub open spec fn spec_composite_alpha(s: CompositeAlphaSupport) -> CompositeAlpha {
    if s.opaque {
        CompositeAlpha::Opaque
    } else if s.pre_multiplied {
        CompositeAlpha::PreMultiplied
    } else if s.post_multiplied {
        CompositeAlpha::PostMultiplied
    } else if s.inherit {
        CompositeAlpha::Inherit
    } else {
        CompositeAlpha::Opaque
    }
}

/// Index of the first surface format whose format is `format`.
pub open spec fn is_first_format(formats: Seq<SurfaceFormatPlain>, format: Format, i: int) -> bool {
    &&& 0 <= i < formats.len()
    &&& formats[i].format == format
    &&& forall|j: int| 0 <= j < i ==> (#[trigger] formats[j]).format != format
}

/// Whether some surface format has the format `format`.
pub open spec fn has_format(formats: Seq<SurfaceFormatPlain>, format: Format) -> bool {
    exists|i: int| 0 <= i < formats.len() && (#[trigger] formats[i]).format == format
}

/// Number of images of a new swapchain: three, clamped to the surface's limits.
pub fn swapchain_image_count(min: u32, max: Option<u32>) -> (r: u32)
    requires
        max matches Some(m) ==> min <= m,
    ensures
        r == spec_image_count(min, max),
        min <= r,
        max matches Some(m) ==> r <= m,
{
    let hi: u32 = match max {
        Some(m) => m,
        None => u32::MAX,
    };
    if 3 < min {
        min
    } else if 3 > hi {
        hi
    } else {
        3
    }
}

/// The supported composite alpha mode with the lowest flag bit, or opaque when none is.
pub fn lowest_composite_alpha(s: &CompositeAlphaSupport) -> (r: CompositeAlpha)
    ensures
        r == spec_composite_alpha(*s),
{
    if s.opaque {
        CompositeAlpha::Opaque
    } else if s.pre_multiplied {
        CompositeAlpha::PreMultiplied
    } else if s.post_multiplied {
        CompositeAlpha::PostMultiplied
    } else if s.inherit {
        CompositeAlpha::Inherit
    } else {
        CompositeAlpha::Opaque
    }
}

/// Whether so many swapchains were retired that the device must be waited for before
/// configuring another one.
pub fn too_many_retired(retired: usize) -> (r: bool)
    ensures
        r == (retired > MAX_RETIRED_SWAPCHAINS),
{
    retired > MAX_RETIRED_SWAPCHAINS
}

fn find_format(formats: &[SurfaceFormatPlain], format: Format) -> (r: Option<usize>)
    ensures
        r is None <==> !has_format(formats@, format),
        r matches Some(i) ==> is_first_format(formats@, format, i as int),
{
    let mut i: usize = 0;
    while i < formats.len()
        invariant
            i <= formats@.len(),
            forall|j: int| 0 <= j < i ==> (#[trigger] formats@[j]).format != format,
        decreases formats@.len() - i,
    {
        if formats[i].format == format {
            return Some(i);
        }
        i = i + 1;
    }
    None
}

fn has_mode(modes: &[PresentMode], mode: PresentMode) -> (r: bool)
    ensures
        r == modes@.contains(mode),
{
    let mut i: usize = 0;
    while i < modes.len()
        invariant
            i <= modes@.len(),
            forall|j: int| 0 <= j < i ==> modes@[j] != mode,
        decreases modes@.len() - i,
    {
        if modes[i] == mode {
            return true;
        }
        i = i + 1;
    }
    false
}

/// Plans a swapchain for a surface with capabilities `caps`, formats `formats` and
/// present modes `modes`: fails when `usage` is not supported, then when no surface
/// format has `format`, then when `mode` is not supported. Otherwise the swapchain has
/// three images within the surface's limits, the first surface format with `format`,
/// and the supported composite alpha mode with the lowest flag bit.
pub fn plan_swapchain(
    caps: &SurfaceCapabilitiesPlain,
    formats: &[SurfaceFormatPlain],
    modes: &[PresentMode],
    usage: ImageUsage,
    format: Format,
    mode: PresentMode,
) -> (r: Result<SwapchainPlan, SurfaceError>)
    requires
        caps.max_image_count matches Some(m) ==> caps.min_image_count <= m,
    ensures
        r is Ok <==> (caps.supported_usage@ & usage@ == usage@) && has_format(formats@, format)
            && modes@.contains(mode),
        (caps.supported_usage@ & usage@ != usage@) ==> r == Err::<SwapchainPlan, SurfaceError>(
            SurfaceError::UsageNotSupported { usage },
        ),
        (caps.supported_usage@ & usage@ == usage@) && !has_format(formats@, format) ==> r == Err::<
            SwapchainPlan,
            SurfaceError,
        >(SurfaceError::FormatUnsupported { format }),
        (caps.supported_usage@ & usage@ == usage@) && has_format(formats@, format) && !modes@.contains(mode) ==> r
            == Err::<SwapchainPlan, SurfaceError>(SurfaceError::PresentModeUnsupported { mode }),
        r matches Ok(p) ==> {
            &&& p.image_count == spec_image_count(caps.min_image_count, caps.max_image_count)
            &&& exists|i: int| is_first_format(formats@, format, i) && p.format == formats@[i]
            &&& p.composite_alpha == spec_composite_alpha(caps.supported_composite_alpha)
            &&& p.usage == usage
            &&& p.mode == mode
        },
{
    if !caps.supported_usage.contains(usage) {
        return Err(SurfaceError::UsageNotSupported { usage });
    }
    let found = find_format(formats, format);
    let i = match found {
        None => {
            return Err(SurfaceError::FormatUnsupported { format });
        },
        Some(i) => i,
    };
    let composite_alpha = lowest_composite_alpha(&caps.supported_composite_alpha);
    if !has_mode(modes, mode) {
        return Err(SurfaceError::PresentModeUnsupported { mode });
    }
    let image_count = swapchain_image_count(caps.min_image_count, caps.max_image_count);
    Ok(SwapchainPlan { image_count, format: formats[i], composite_alpha, usage, mode })
}

/// Whether another image may be acquired from a swapchain of `images` images that has
/// `acquired` images acquired, when the surface needs at least `min_image_count`.
pub fn can_acquire_image(acquired: u32, images: u32, min_image_count: u32) -> (r: bool)
    requires
        min_image_count <= images,
    ensures
        r == (acquired <= images - min_image_count),
{
    acquired <= images - min_image_count
}


/// The Vulkan flag bit of a composite alpha mode.
pub open spec fn composite_alpha_bit(a: CompositeAlpha) -> u32 {
    match a {
        CompositeAlpha::Opaque => 0x1,
        CompositeAlpha::PreMultiplied => 0x2,
        CompositeAlpha::PostMultiplied => 0x4,
        CompositeAlpha::Inherit => 0x8,
    }
}

/// Whether the surface supports the composite alpha mode `a`.
pub open spec fn composite_alpha_supported(s: CompositeAlphaSupport, a: CompositeAlpha) -> bool {
    match a {
        CompositeAlpha::Opaque => s.opaque,
        CompositeAlpha::PreMultiplied => s.pre_multiplied,
        CompositeAlpha::PostMultiplied => s.post_multiplied,
        CompositeAlpha::Inherit => s.inherit,
    }
}

/// The chosen composite alpha mode is supported whenever some mode is, and its flag bit
/// is the lowest of the supported ones; when none is supported, opaque is chosen.
pub proof fn lemma_composite_alpha_lowest_supported(s: CompositeAlphaSupport)
    ensures
        (exists|m: CompositeAlpha| composite_alpha_supported(s, m)) ==> composite_alpha_supported(
            s,
            spec_composite_alpha(s),
        ),
        forall|m: CompositeAlpha|
            composite_alpha_supported(s, m) ==> composite_alpha_bit(spec_composite_alpha(s))
                <= #[trigger] composite_alpha_bit(m),
        (forall|m: CompositeAlpha| !composite_alpha_supported(s, m)) ==> spec_composite_alpha(s)
            == CompositeAlpha::Opaque,
{
    if exists|m: CompositeAlpha| composite_alpha_supported(s, m) {
        let m = choose|m: CompositeAlpha| composite_alpha_supported(s, m);
        assert(composite_alpha_supported(s, m));
    }
    if forall|m: CompositeAlpha| !composite_alpha_supported(s, m) {
        assert(!composite_alpha_supported(s, CompositeAlpha::Opaque));
        assert(!composite_alpha_supported(s, CompositeAlpha::PreMultiplied));
        assert(!composite_alpha_supported(s, CompositeAlpha::PostMultiplied));
        assert(!composite_alpha_supported(s, CompositeAlpha::Inherit));
    }
}

} // verus!
