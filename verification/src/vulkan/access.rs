use vstd::prelude::*;

verus! {

/// Pipeline stages, access types and image layout that a resource access needs,
/// as Vulkan bit masks and layout code.
#[derive(Clone, Copy, Debug, PartialEq, Eq)]
pub struct AccessInfo {
    /// Vulkan pipeline stage bits.
    pub stage_mask: u32,
    /// Vulkan access bits.
    pub access_mask: u32,
    /// Vulkan image layout code.
    pub image_layout: i32,
}

/// Ways a command may access a resource.
#[derive(Clone, Copy, Debug, PartialEq, Eq, Structural, Hash)]
pub enum Access {
    NoAccess,
    IndirectBuffer,
    IndexBuffer,
    VertexBuffer,
    VertexShaderReadUniformBuffer,
    VertexShaderReadSampledImageOrUniformTexelBuffer,
    VertexShaderReadOther,
    FragmentShaderReadUniformBuffer,
    FragmentShaderReadSampledImageOrUniformTexelBuffer,
    FragmentShaderReadColorInputAttachment,
    FragmentShaderReadDepthStencilInputAttachment,
    FragmentShaderReadOther,
    ColorAttachmentRead,
    DepthStencilAttachmentRead,
    ComputeShaderReadUniformBuffer,
    ComputeShaderReadSampledImageOrUniformTexelBuffer,
    ComputeShaderReadOther,
    AnyShaderReadUniformBuffer,
    AnyShaderReadUniformBufferOrVertexBuffer,
    AnyShaderReadSampledImageOrUniformTexelBuffer,
    AnyShaderReadOther,
    TransferRead,
    HostRead,
    Present,
    VertexShaderWrite,
    FragmentShaderWrite,
    ColorAttachmentWrite,
    DepthStencilAttachmentWrite,
    DepthAttachmentWriteStencilReadOnly,
    StencilAttachmentWriteDepthReadOnly,
    ComputeShaderWrite,
    AnyShaderWrite,
    TransferWrite,
    HostWrite,
    ColorAttachmentReadWrite,
    General,
}

/// Every access bit that Vulkan defines.
pub open spec fn vk_access_all() -> u32 {
    0xfffffffu32
}

/// Stages, access bits and layout of each access.
pub open spec fn spec_access_info(access: Access) -> AccessInfo {
    match access {
        Access::NoAccess => AccessInfo { stage_mask: 0x0, access_mask: 0x0, image_layout: 0 },
        Access::IndirectBuffer => AccessInfo { stage_mask: 0x2, access_mask: 0x1, image_layout: 0 },
        Access::IndexBuffer => AccessInfo { stage_mask: 0x4, access_mask: 0x2, image_layout: 0 },
        Access::VertexBuffer => AccessInfo { stage_mask: 0x4, access_mask: 0x4, image_layout: 0 },
        Access::VertexShaderReadUniformBuffer => AccessInfo { stage_mask: 0x8, access_mask: 0x20, image_layout: 0 },
        Access::VertexShaderReadSampledImageOrUniformTexelBuffer => AccessInfo { stage_mask: 0x8, access_mask: 0x20, image_layout: 5 },
        Access::VertexShaderReadOther => AccessInfo { stage_mask: 0x8, access_mask: 0x20, image_layout: 1 },
        Access::FragmentShaderReadUniformBuffer => AccessInfo { stage_mask: 0x80, access_mask: 0x8, image_layout: 0 },
        Access::FragmentShaderReadSampledImageOrUniformTexelBuffer => AccessInfo { stage_mask: 0x80, access_mask: 0x20, image_layout: 5 },
        Access::FragmentShaderReadColorInputAttachment => AccessInfo { stage_mask: 0x80, access_mask: 0x10, image_layout: 5 },
        Access::FragmentShaderReadDepthStencilInputAttachment => AccessInfo { stage_mask: 0x80, access_mask: 0x10, image_layout: 4 },
        Access::FragmentShaderReadOther => AccessInfo { stage_mask: 0x80, access_mask: 0x20, image_layout: 1 },
        Access::ColorAttachmentRead => AccessInfo { stage_mask: 0x400, access_mask: 0x80, image_layout: 2 },
        Access::DepthStencilAttachmentRead => AccessInfo { stage_mask: 0x300, access_mask: 0x200, image_layout: 4 },
        Access::ComputeShaderReadUniformBuffer => AccessInfo { stage_mask: 0x800, access_mask: 0x8, image_layout: 0 },
        Access::ComputeShaderReadSampledImageOrUniformTexelBuffer => AccessInfo { stage_mask: 0x800, access_mask: 0x20, image_layout: 5 },
        Access::ComputeShaderReadOther => AccessInfo { stage_mask: 0x800, access_mask: 0x20, image_layout: 1 },
        Access::AnyShaderReadUniformBuffer => AccessInfo { stage_mask: 0x10000, access_mask: 0x8, image_layout: 0 },
        Access::AnyShaderReadUniformBufferOrVertexBuffer => AccessInfo { stage_mask: 0x10000, access_mask: 0xc, image_layout: 0 },
        Access::AnyShaderReadSampledImageOrUniformTexelBuffer => AccessInfo { stage_mask: 0x10000, access_mask: 0x20, image_layout: 5 },
        Access::AnyShaderReadOther => AccessInfo { stage_mask: 0x10000, access_mask: 0x20, image_layout: 1 },
        Access::TransferRead => AccessInfo { stage_mask: 0x1000, access_mask: 0x800, image_layout: 6 },
        Access::HostRead => AccessInfo { stage_mask: 0x4000, access_mask: 0x2000, image_layout: 1 },
        Access::Present => AccessInfo { stage_mask: 0x0, access_mask: 0x0, image_layout: 1000001002 },
        Access::VertexShaderWrite => AccessInfo { stage_mask: 0x8, access_mask: 0x40, image_layout: 1 },
        Access::FragmentShaderWrite => AccessInfo { stage_mask: 0x80, access_mask: 0x40, image_layout: 1 },
        Access::ColorAttachmentWrite => AccessInfo { stage_mask: 0x400, access_mask: 0x100, image_layout: 2 },
        Access::DepthStencilAttachmentWrite => AccessInfo { stage_mask: 0x300, access_mask: 0x400, image_layout: 3 },
        Access::DepthAttachmentWriteStencilReadOnly => AccessInfo { stage_mask: 0x300, access_mask: 0x600, image_layout: 1000117001 },
        Access::StencilAttachmentWriteDepthReadOnly => AccessInfo { stage_mask: 0x300, access_mask: 0x600, image_layout: 1000117000 },
        Access::ComputeShaderWrite => AccessInfo { stage_mask: 0x800, access_mask: 0x40, image_layout: 1 },
        Access::AnyShaderWrite => AccessInfo { stage_mask: 0x10000, access_mask: 0x40, image_layout: 1 },
        Access::TransferWrite => AccessInfo { stage_mask: 0x1000, access_mask: 0x1000, image_layout: 7 },
        Access::HostWrite => AccessInfo { stage_mask: 0x4000, access_mask: 0x4000, image_layout: 1 },
        Access::ColorAttachmentReadWrite => AccessInfo { stage_mask: 0x400, access_mask: 0x180, image_layout: 2 },
        Access::General => AccessInfo { stage_mask: 0x10000, access_mask: 0x18000, image_layout: 1 },
    }
}

/// Returns the Vulkan stages, access bits and layout for an access.
pub fn access_info(access: Access) -> (r: AccessInfo)
    ensures
        r == spec_access_info(access),
{
    match access {
        Access::NoAccess => AccessInfo {
            stage_mask: 0x0,
            access_mask: 0x0,
            image_layout: 0,
        },
        Access::IndirectBuffer => AccessInfo {
            stage_mask: 0x2,
            access_mask: 0x1,
            image_layout: 0,
        },
        Access::IndexBuffer => AccessInfo {
            stage_mask: 0x4,
            access_mask: 0x2,
            image_layout: 0,
        },
        Access::VertexBuffer => AccessInfo {
            stage_mask: 0x4,
            access_mask: 0x4,
            image_layout: 0,
        },
        Access::VertexShaderReadUniformBuffer => AccessInfo {
            stage_mask: 0x8,
            access_mask: 0x20,
            image_layout: 0,
        },
        Access::VertexShaderReadSampledImageOrUniformTexelBuffer => AccessInfo {
            stage_mask: 0x8,
            access_mask: 0x20,
            image_layout: 5,
        },
        Access::VertexShaderReadOther => AccessInfo {
            stage_mask: 0x8,
            access_mask: 0x20,
            image_layout: 1,
        },
        Access::FragmentShaderReadUniformBuffer => AccessInfo {
            stage_mask: 0x80,
            access_mask: 0x8,
            image_layout: 0,
        },
        Access::FragmentShaderReadSampledImageOrUniformTexelBuffer => AccessInfo {
            stage_mask: 0x80,
            access_mask: 0x20,
            image_layout: 5,
        },
        Access::FragmentShaderReadColorInputAttachment => AccessInfo {
            stage_mask: 0x80,
            access_mask: 0x10,
            image_layout: 5,
        },
        Access::FragmentShaderReadDepthStencilInputAttachment => AccessInfo {
            stage_mask: 0x80,
            access_mask: 0x10,
            image_layout: 4,
        },
        Access::FragmentShaderReadOther => AccessInfo {
            stage_mask: 0x80,
            access_mask: 0x20,
            image_layout: 1,
        },
        Access::ColorAttachmentRead => AccessInfo {
            stage_mask: 0x400,
            access_mask: 0x80,
            image_layout: 2,
        },
        Access::DepthStencilAttachmentRead => AccessInfo {
            stage_mask: 0x300,
            access_mask: 0x200,
            image_layout: 4,
        },
        Access::ComputeShaderReadUniformBuffer => AccessInfo {
            stage_mask: 0x800,
            access_mask: 0x8,
            image_layout: 0,
        },
        Access::ComputeShaderReadSampledImageOrUniformTexelBuffer => AccessInfo {
            stage_mask: 0x800,
            access_mask: 0x20,
            image_layout: 5,
        },
        Access::ComputeShaderReadOther => AccessInfo {
            stage_mask: 0x800,
            access_mask: 0x20,
            image_layout: 1,
        },
        Access::AnyShaderReadUniformBuffer => AccessInfo {
            stage_mask: 0x10000,
            access_mask: 0x8,
            image_layout: 0,
        },
        Access::AnyShaderReadUniformBufferOrVertexBuffer => AccessInfo {
            stage_mask: 0x10000,
            access_mask: 0xc,
            image_layout: 0,
        },
        Access::AnyShaderReadSampledImageOrUniformTexelBuffer => AccessInfo {
            stage_mask: 0x10000,
            access_mask: 0x20,
            image_layout: 5,
        },
        Access::AnyShaderReadOther => AccessInfo {
            stage_mask: 0x10000,
            access_mask: 0x20,
            image_layout: 1,
        },
        Access::TransferRead => AccessInfo {
            stage_mask: 0x1000,
            access_mask: 0x800,
            image_layout: 6,
        },
        Access::HostRead => AccessInfo {
            stage_mask: 0x4000,
            access_mask: 0x2000,
            image_layout: 1,
        },
        Access::Present => AccessInfo {
            stage_mask: 0x0,
            access_mask: 0x0,
            image_layout: 1000001002,
        },
        Access::VertexShaderWrite => AccessInfo {
            stage_mask: 0x8,
            access_mask: 0x40,
            image_layout: 1,
        },
        Access::FragmentShaderWrite => AccessInfo {
            stage_mask: 0x80,
            access_mask: 0x40,
            image_layout: 1,
        },
        Access::ColorAttachmentWrite => AccessInfo {
            stage_mask: 0x400,
            access_mask: 0x100,
            image_layout: 2,
        },
        Access::DepthStencilAttachmentWrite => AccessInfo {
            stage_mask: 0x300,
            access_mask: 0x400,
            image_layout: 3,
        },
        Access::DepthAttachmentWriteStencilReadOnly => AccessInfo {
            stage_mask: 0x300,
            access_mask: 0x600,
            image_layout: 1000117001,
        },
        Access::StencilAttachmentWriteDepthReadOnly => AccessInfo {
            stage_mask: 0x300,
            access_mask: 0x600,
            image_layout: 1000117000,
        },
        Access::ComputeShaderWrite => AccessInfo {
            stage_mask: 0x800,
            access_mask: 0x40,
            image_layout: 1,
        },
        Access::AnyShaderWrite => AccessInfo {
            stage_mask: 0x10000,
            access_mask: 0x40,
            image_layout: 1,
        },
        Access::TransferWrite => AccessInfo {
            stage_mask: 0x1000,
            access_mask: 0x1000,
            image_layout: 7,
        },
        Access::HostWrite => AccessInfo {
            stage_mask: 0x4000,
            access_mask: 0x4000,
            image_layout: 1,
        },
        Access::ColorAttachmentReadWrite => AccessInfo {
            stage_mask: 0x400,
            access_mask: 0x180,
            image_layout: 2,
        },
        Access::General => AccessInfo {
            stage_mask: 0x10000,
            access_mask: 0x18000,
            image_layout: 1,
        },
    }
}

/// The stages in which a single access bit may be performed.
pub open spec fn spec_stages_for_access(access: u32) -> u32 {
    if access == 0x1 {
        0x2
    } else if access == 0x2 {
        0x4
    } else if access == 0x4 {
        0x4
    } else if access == 0x8 {
        0x3808f8
    } else if access == 0x20 {
        0x3808f8
    } else if access == 0x40 {
        0x3808f8
    } else if access == 0x10 {
        0x80
    } else if access == 0x80 {
        0x400
    } else if access == 0x100 {
        0x400
    } else if access == 0x200 {
        0x300
    } else if access == 0x400 {
        0x300
    } else if access == 0x800 {
        0x1000
    } else if access == 0x1000 {
        0x1000
    } else if access == 0x2000 {
        0x4000
    } else if access == 0x4000 {
        0x4000
    } else if access == 0x8000 {
        0x3ffffff
    } else if access == 0x10000 {
        0x3ffffff
    } else if access == 0x200000 {
        0x2000000
    } else if access == 0x400000 {
        0x2000000
    } else {
        0
    }
}

/// `access` has exactly one bit set.
pub open spec fn single_bit(access: u32) -> bool {
    access != 0 && access & ((access - 1) as u32) == 0
}

/// Stages that support one access bit.
fn supported_stages_inner(access: u32) -> (r: u32)
    requires
        single_bit(access),
    ensures
        r == spec_stages_for_access(access),
{
    if access == 0x1 {
        0x2
    } else if access == 0x2 {
        0x4
    } else if access == 0x4 {
        0x4
    } else if access == 0x8 {
        0x3808f8
    } else if access == 0x20 {
        0x3808f8
    } else if access == 0x40 {
        0x3808f8
    } else if access == 0x10 {
        0x80
    } else if access == 0x80 {
        0x400
    } else if access == 0x100 {
        0x400
    } else if access == 0x200 {
        0x300
    } else if access == 0x400 {
        0x300
    } else if access == 0x800 {
        0x1000
    } else if access == 0x1000 {
        0x1000
    } else if access == 0x2000 {
        0x4000
    } else if access == 0x4000 {
        0x4000
    } else if access == 0x8000 {
        0x3ffffff
    } else if access == 0x10000 {
        0x3ffffff
    } else if access == 0x200000 {
        0x2000000
    } else if access == 0x400000 {
        0x2000000
    } else {
        0
    }
}

/// The union of the defined access bits below bit `n` whose stages meet `stages`.
pub open spec fn supported_access_below(stages: u32, n: nat) -> u32
    decreases n,
{
    if n == 0 {
        0
    } else {
        let prev = supported_access_below(stages, (n - 1) as nat);
        let bit = (1u32 << ((n - 1) as u32)) as u32;
        if bit & vk_access_all() == bit && spec_stages_for_access(bit) & stages != 0 {
            prev | bit
        } else {
            prev
        }
    }
}

/// Access bits that can be performed in any of `stages`.
pub fn supported_access(stages: u32) -> (r: u32)
    ensures
        r == supported_access_below(stages, 32),
{
    let mut result: u32 = 0;
    let mut k: u32 = 0;
    while k < 32
        invariant
            k <= 32,
            result == supported_access_below(stages, k as nat),
        decreases 32 - k,
    {
        let bit: u32 = 1u32 << k;
        assert(single_bit(bit)) by (bit_vector)
            requires
                bit == 1u32 << k,
                k < 32;
        if bit & ALL_ACCESS_BITS == bit {
            if supported_stages_inner(bit) & stages != 0 {
                result = result | bit;
            }
        }
        k = k + 1;
    }
    result
}

/// `supported_access` only reports access bits that Vulkan defines.
pub proof fn lemma_supported_access_defined(stages: u32, n: nat)
    ensures
        supported_access_below(stages, n) & !vk_access_all() == 0,
    decreases n,
{
    if n > 0 {
        lemma_supported_access_defined(stages, (n - 1) as nat);
        let prev = supported_access_below(stages, (n - 1) as nat);
        let bit = (1u32 << ((n - 1) as u32)) as u32;
        let all = vk_access_all();
        let cur = supported_access_below(stages, n);
        if bit & all == bit && spec_stages_for_access(bit) & stages != 0 {
            assert(cur == prev | bit);
            assert((prev | bit) & !all == 0) by (bit_vector)
                requires
                    prev & !all == 0,
                    bit & all == bit;
        } else {
            assert(cur == prev);
        }
    } else {
        let all = vk_access_all();
        assert(0u32 & !all == 0) by (bit_vector);
    }
}

/// Allowing more stages never removes a supported access bit.
pub proof fn lemma_supported_access_monotonic(small: u32, large: u32, n: nat)
    requires
        small & large == small,
    ensures
        supported_access_below(small, n) & supported_access_below(large, n) == supported_access_below(small, n),
    decreases n,
{
    if n > 0 {
        lemma_supported_access_monotonic(small, large, (n - 1) as nat);
        let ps = supported_access_below(small, (n - 1) as nat);
        let pl = supported_access_below(large, (n - 1) as nat);
        let bit = (1u32 << ((n - 1) as u32)) as u32;
        let st = spec_stages_for_access(bit);
        assert(st & small != 0 ==> st & large != 0) by (bit_vector)
            requires
                small & large == small;
        if bit & vk_access_all() == bit && st & small != 0 {
            assert((ps | bit) & (pl | bit) == ps | bit) by (bit_vector)
                requires
                    ps & pl == ps;
        } else if bit & vk_access_all() == bit && st & large != 0 {
            assert(ps & (pl | bit) == ps) by (bit_vector)
                requires
                    ps & pl == ps;
        }
    } else {
        assert(0u32 & 0u32 == 0u32) by (bit_vector);
    }
}

/// Every access bit that Vulkan defines.
const ALL_ACCESS_BITS: u32 = 0xfffffff;


/// Whether `mask` has the bit `bit` (a power of two) set.
pub open spec fn has_bit(mask: u32, bit: u32) -> bool {
    (mask / bit) % 2 == 1
}

/// The access bits that write: shader, color attachment, depth-stencil attachment,
/// transfer, host and memory writes.
pub open spec fn writes(mask: u32) -> bool {
    has_bit(mask, 0x40) || has_bit(mask, 0x100) || has_bit(mask, 0x400) || has_bit(mask, 0x1000)
        || has_bit(mask, 0x4000) || has_bit(mask, 0x10000)
}

/// The image layout of an access follows from what the access does to the image: a
/// transfer write, and nothing else, is in the transfer destination layout (7); a
/// transfer read, and nothing else, is in the transfer source layout (6); color
/// attachment accesses, and nothing else, are in the color attachment layout (2); a
/// depth-stencil attachment write alone is in the depth-stencil attachment layout (3);
/// and the read-only layouts (shader read-only 5, depth-stencil read-only 4) are given
/// only to accesses that do not write. The stages follow the access bits: transfer bits
/// go with the transfer stage, host bits with the host stage, color attachment bits with
/// the color attachment output stage.
pub proof fn lemma_access_layout_follows_access(access: Access)
    ensures
        ({
            let info = spec_access_info(access);
            &&& has_bit(info.access_mask, 0x1000) <==> info.image_layout == 7
            &&& info.access_mask == 0x800 <==> info.image_layout == 6
            &&& (has_bit(info.access_mask, 0x80) || has_bit(info.access_mask, 0x100)) <==> info.image_layout == 2
            &&& info.image_layout == 3 <==> info.access_mask == 0x400
            &&& info.image_layout == 5 ==> !writes(info.access_mask)
            &&& info.image_layout == 4 ==> !writes(info.access_mask)
            &&& info.image_layout == 6 ==> !writes(info.access_mask)
            &&& (has_bit(info.access_mask, 0x800) || has_bit(info.access_mask, 0x1000)) ==> info.stage_mask == 0x1000
            &&& (has_bit(info.access_mask, 0x2000) || has_bit(info.access_mask, 0x4000)) ==> info.stage_mask == 0x4000
            &&& (has_bit(info.access_mask, 0x80) || has_bit(info.access_mask, 0x100)) ==> info.stage_mask == 0x400
        }),
{
}

} // verus!
