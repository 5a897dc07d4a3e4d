use vstd::prelude::*;
use std::ops::Range;
use crate::{align_up, OutOfMemory};
use crate::descriptor::layout::{DescriptorSetLayoutBinding, DescriptorType};
use crate::vulkan::descriptor::{descriptors_of_type, counts_fit, DescriptorSizesBuilder};

verus! {

/// Number of descriptors of each type that a set needs.
#[derive(Clone, Copy, Debug, Default, PartialEq, Eq)]
pub struct DescriptorTotalCount {
    pub sampler: u32,
    pub combined_image_sampler: u32,
    pub sampled_image: u32,
    pub storage_image: u32,
    pub uniform_texel_buffer: u32,
    pub storage_texel_buffer: u32,
    pub uniform_buffer: u32,
    pub storage_buffer: u32,
    pub uniform_buffer_dynamic: u32,
    pub storage_buffer_dynamic: u32,
    pub input_attachment: u32,
    pub acceleration_structure: u32,
    pub inline_uniform_block_bytes: u32,
    pub inline_uniform_block_bindings: u32,
}

/// The count of descriptor type index `t` in a total.
pub open spec fn total_count_of(c: DescriptorTotalCount, t: int) -> u32 {
    if t == 0 {
        c.sampler
    } else if t == 1 {
        c.combined_image_sampler
    } else if t == 2 {
        c.sampled_image
    } else if t == 3 {
        c.storage_image
    } else if t == 4 {
        c.uniform_texel_buffer
    } else if t == 5 {
        c.storage_texel_buffer
    } else if t == 6 {
        c.uniform_buffer
    } else if t == 7 {
        c.storage_buffer
    } else if t == 8 {
        c.uniform_buffer_dynamic
    } else if t == 9 {
        c.storage_buffer_dynamic
    } else if t == 10 {
        c.input_attachment
    } else {
        c.acceleration_structure
    }
}

/// Sums the descriptors of each type over `bindings`.
pub fn descriptor_count_from_bindings(bindings: &[DescriptorSetLayoutBinding]) -> (r: DescriptorTotalCount)
    requires
        counts_fit(bindings@),
    ensures
        forall|t: int| 0 <= t < 12 ==> #[trigger] total_count_of(r, t) == descriptors_of_type(bindings@, t),
        r.inline_uniform_block_bytes == 0,
        r.inline_uniform_block_bindings == 0,
{
    let sizes = DescriptorSizesBuilder::from_bindings(bindings);
    DescriptorTotalCount {
        sampler: sizes.size(0),
        combined_image_sampler: sizes.size(1),
        sampled_image: sizes.size(2),
        storage_image: sizes.size(3),
        uniform_texel_buffer: sizes.size(4),
        storage_texel_buffer: sizes.size(5),
        uniform_buffer: sizes.size(6),
        storage_buffer: sizes.size(7),
        uniform_buffer_dynamic: sizes.size(8),
        storage_buffer_dynamic: sizes.size(9),
        input_attachment: sizes.size(10),
        acceleration_structure: sizes.size(11),
        inline_uniform_block_bytes: 0,
        inline_uniform_block_bindings: 0,
    }
}

/// Sizes of a shader binding table: handle size, stride between handles and total size.
#[derive(Clone, Copy, Debug, PartialEq, Eq)]
pub struct ShaderBindingTableLayout {
    pub group_size: u64,
    pub group_stride: u64,
    pub total_size: u64,
}

/// The table layout for `group_count` shader group handles of `handle_size` bytes,
/// each aligned to `base_alignment`; `None` when a size does not fit.
pub open spec fn spec_shader_binding_table_layout(
    handle_size: u32,
    base_alignment: u32,
    group_count: usize,
) -> Option<ShaderBindingTableLayout> {
    let align_mask = (base_alignment - 1) as u64;
    let padded = handle_size + align_mask;
    if group_count > u32::MAX || padded > u64::MAX {
        None
    } else {
        let stride = (padded as u64 & !align_mask) as u64;
        if stride > usize::MAX || stride * group_count > u64::MAX {
            None
        } else {
            Some(
                ShaderBindingTableLayout {
                    group_size: handle_size as u64,
                    group_stride: stride,
                    total_size: (stride * group_count) as u64,
                },
            )
        }
    }
}

/// Computes the layout of a shader binding table holding `group_count` handles.
/// Fails with `OutOfMemory` when a size does not fit.
pub fn shader_binding_table_layout(handle_size: u32, base_alignment: u32, group_count: usize) -> (r:
    Result<ShaderBindingTableLayout, OutOfMemory>)
    requires
        base_alignment >= 1,
        spec_shader_binding_table_layout(handle_size, base_alignment, group_count) matches Some(
            l,
        ) ==> l.total_size <= usize::MAX,
    ensures
        r matches Ok(l) ==> spec_shader_binding_table_layout(handle_size, base_alignment, group_count)
            == Some(l),
        r is Err ==> spec_shader_binding_table_layout(handle_size, base_alignment, group_count) is None,
{
    let group_size = handle_size as u64;
    let group_align = (base_alignment - 1) as u64;
    if group_count > u32::MAX as usize {
        return Err(OutOfMemory);
    }
    let group_count_u32 = group_count as u32;
    let group_stride = match align_up(group_align, group_size) {
        Some(stride) => stride,
        None => return Err(OutOfMemory),
    };
    if group_stride > usize::MAX as u64 {
        return Err(OutOfMemory);
    }
    let total_size = match group_stride.checked_mul(group_count_u32 as u64) {
        Some(total) => total,
        None => return Err(OutOfMemory),
    };
    Ok(ShaderBindingTableLayout { group_size, group_stride, total_size })
}

/// `write` with `size` bytes at `dst` replaced by the bytes of `handlers` at `src`.
pub open spec fn copy_one(write: Seq<u8>, handlers: Seq<u8>, src: int, dst: int, size: int) -> Seq<u8> {
    Seq::new(
        write.len(),
        |i: int|
            if dst <= i < dst + size {
                handlers[src + (i - dst)]
            } else {
                write[i]
            },
    )
}

/// `write` after copying the handle of each group in `indices`, one after another,
/// to `offset`, `offset + stride`, and so on.
pub open spec fn copy_groups(
    write: Seq<u8>,
    handlers: Seq<u8>,
    indices: Seq<u32>,
    offset: int,
    size: int,
    stride: int,
) -> Seq<u8>
    decreases indices.len(),
{
    if indices.len() == 0 {
        write
    } else {
        let k = indices.len() - 1;
        copy_one(
            copy_groups(write, handlers, indices.drop_last(), offset, size, stride),
            handlers,
            indices[k] * size,
            offset + k * stride,
            size,
        )
    }
}

/// Every group handle read and every handle written lies inside its slice.
pub open spec fn group_copies_in_bounds(
    handlers_len: int,
    write_len: int,
    indices: Seq<u32>,
    offset: int,
    size: int,
    stride: int,
) -> bool {
    forall|k: int|
        0 <= k < indices.len() ==> #[trigger] indices[k] * size + size <= handlers_len && offset + k
            * stride + size <= write_len
}

/// The first of `count` groups after whose copy the write offset, starting at `offset`
/// and advancing by `stride`, no longer fits in `usize`; `None` if it always fits.
pub open spec fn first_offset_overflow(count: int, offset: int, stride: int) -> Option<int> {
    if stride > 0 && (usize::MAX - offset) / stride < count {
        Some((usize::MAX - offset) / stride)
    } else {
        None
    }
}

/// Copies the handles of the groups in `group_indices` out of `group_handlers` into
/// `write`, starting at `*write_offset` and advancing it by `group_stride` per group.
/// Returns the range of `write` that the handles span, or `None` when a size or offset
/// does not fit.
pub fn copy_group_handlers(
    group_handlers: &[u8],
    write: &mut [u8],
    group_indices: &[u32],
    write_offset: &mut usize,
    group_size: u64,
    group_stride: usize,
) -> (r: Option<Range<u64>>)
    requires
        group_size <= usize::MAX ==> group_copies_in_bounds(
            group_handlers@.len() as int,
            old(write)@.len() as int,
            group_indices@,
            *old(write_offset) as int,
            group_size as int,
            group_stride as int,
        ),
    ensures
        group_size > usize::MAX ==> (r is None) && final(write)@ == old(write)@ && *final(write_offset) == *old(write_offset),
        group_size <= usize::MAX ==> match first_offset_overflow(
            group_indices@.len() as int,
            *old(write_offset) as int,
            group_stride as int,
        ) {
            None => {
                &&& r == Some(
                    Range {
                        start: *old(write_offset) as u64,
                        end: (*old(write_offset) + group_indices@.len() * group_stride) as u64,
                    },
                )
                &&& *final(write_offset) == *old(write_offset) + group_indices@.len() * group_stride
                &&& final(write)@ == copy_groups(
                    old(write)@,
                    group_handlers@,
                    group_indices@,
                    *old(write_offset) as int,
                    group_size as int,
                    group_stride as int,
                )
            },
            Some(k) => {
                &&& (r is None)
                &&& *final(write_offset) == *old(write_offset) + k * group_stride
                &&& final(write)@ == copy_groups(
                    old(write)@,
                    group_handlers@,
                    group_indices@.take(k + 1),
                    *old(write_offset) as int,
                    group_size as int,
                    group_stride as int,
                )
            },
        },
{
    let ghost offset0 = *write_offset as int;
    let ghost write0 = write@;
    let result_start = *write_offset as u64;
    if group_size > usize::MAX as u64 {
        return None;
    }
    let group_size_usize = group_size as usize;
    let handlers_len = group_handlers.len();
    let write_len = write.len();
    let ghost size = group_size as int;
    let ghost stride = group_stride as int;
    let ghost indices = group_indices@;
    let mut i: usize = 0;
    while i < group_indices.len()
        invariant
            i <= indices.len(),
            indices == group_indices@,
            write@.len() == write0.len(),
            write_len == write0.len(),
            offset0 == *old(write_offset),
            write0 == old(write)@,
            handlers_len == group_handlers@.len(),
            group_size_usize == size,
            size == group_size,
            stride == group_stride,
            group_copies_in_bounds(
                group_handlers@.len() as int,
                write0.len() as int,
                indices,
                offset0,
                size,
                stride,
            ),
            *write_offset == offset0 + i * stride,
            write@ == copy_groups(write0, group_handlers@, indices.take(i as int), offset0, size, stride),
        decreases indices.len() - i,
    {
        let group_index = group_indices[i];
        proof {
            assert(indices[i as int] * size + size <= group_handlers@.len());
            assert(offset0 + i * stride + size <= write0.len());
            assert(0 <= indices[i as int] * size) by (nonlinear_arith)
                requires
                    size >= 0;
            assert(group_size_usize as int * group_index as int == indices[i as int] * size) by (nonlinear_arith)
                requires
                    group_index == indices[i as int],
                    size == group_size_usize;
        }
        assert(group_size_usize * (group_index as usize) + group_size_usize <= handlers_len);
        let group_offset = group_size_usize * (group_index as usize);
        let group_end = group_offset + group_size_usize;
        let write_end = *write_offset + group_size_usize;
        let ghost before = write@;
        let mut j: usize = 0;
        while j < group_size_usize
            invariant
                j <= group_size_usize,
                group_end == group_offset + group_size_usize,
                group_end <= group_handlers@.len(),
                write_end == *write_offset + group_size_usize,
                write_end <= write@.len(),
                write@.len() == before.len(),
                forall|x: int|
                    0 <= x < write@.len() ==> #[trigger] write@[x] == if *write_offset <= x
                        < *write_offset + j {
                        group_handlers@[group_offset + (x - *write_offset)]
                    } else {
                        before[x]
                    },
            decreases group_size_usize - j,
        {
            let b = group_handlers[group_offset + j];
            write[*write_offset + j] = b;
            j = j + 1;
        }
        proof {
            let next = indices.take(i + 1);
            assert(next.drop_last() =~= indices.take(i as int));
            assert(next[i as int] == group_index);
            assert(write@ =~= copy_one(before, group_handlers@, group_offset as int, *write_offset as int, size));
            assert(write@ == copy_groups(write0, group_handlers@, next, offset0, size, stride));
        }
        let advanced = (*write_offset).checked_add(group_stride);
        match advanced {
            Some(next_offset) => {
                proof {
                    assert(offset0 + (i + 1) * stride == offset0 + i * stride + stride) by (nonlinear_arith);
                }
                *write_offset = next_offset;
            },
            None => {
                proof {
                    assert(offset0 + (i + 1) * stride == offset0 + i * stride + stride) by (nonlinear_arith);
                    let m = usize::MAX - offset0;
                    assert(stride > 0);
                    assert(m / stride == i) by (nonlinear_arith)
                        requires
                            i * stride <= m,
                            m < (i + 1) * stride,
                            stride > 0;
                    assert(first_offset_overflow(indices.len() as int, offset0, stride) == Some(i as int));
                    assert(*write_offset == offset0 + i * stride);
                    assert(write@ == copy_groups(write0, group_handlers@, indices.take(i as int + 1), offset0, size, stride));
                }
                return None;
            },
        }
        i = i + 1;
    }
    proof {
        assert(indices.take(indices.len() as int) =~= indices);
        if stride > 0 && indices.len() > 0 {
            let n = indices.len() as int;
            let m = usize::MAX - offset0;
            assert(offset0 + n * stride <= usize::MAX);
            assert(m / stride >= n) by (nonlinear_arith)
                requires
                    n * stride <= m,
                    stride > 0;
        }
        assert(first_offset_overflow(indices.len() as int, offset0, stride) is None);
    }
    let result_end = *write_offset as u64;
    Some(Range { start: result_start, end: result_end })
}

/// The array of descriptor infos that a descriptor write of each type takes its infos from.
#[derive(Clone, Copy, Debug, PartialEq, Eq, Structural)]
pub enum DescriptorInfoArray {
    /// Image and sampler infos.
    Images,
    /// Buffer range infos.
    Buffers,
    /// Texel buffer views.
    BufferViews,
    /// Acceleration structure handles.
    AccelerationStructures,
}

/// The info array used by descriptors of type `ty`.
pub open spec fn spec_info_array(ty: DescriptorType) -> DescriptorInfoArray {
    match ty {
        DescriptorType::Sampler | DescriptorType::CombinedImageSampler | DescriptorType::SampledImage
        | DescriptorType::StorageImage | DescriptorType::InputAttachment => DescriptorInfoArray::Images,
        DescriptorType::UniformBuffer | DescriptorType::StorageBuffer | DescriptorType::UniformBufferDynamic
        | DescriptorType::StorageBufferDynamic => DescriptorInfoArray::Buffers,
        DescriptorType::UniformTexelBuffer | DescriptorType::StorageTexelBuffer => DescriptorInfoArray::BufferViews,
        DescriptorType::AccelerationStructure => DescriptorInfoArray::AccelerationStructures,
    }
}

/// The info array used by descriptors of type `ty`.
pub fn info_array(ty: DescriptorType) -> (r: DescriptorInfoArray)
    ensures
        r == spec_info_array(ty),
{
    match ty {
        DescriptorType::Sampler | DescriptorType::CombinedImageSampler | DescriptorType::SampledImage
        | DescriptorType::StorageImage | DescriptorType::InputAttachment => DescriptorInfoArray::Images,
        DescriptorType::UniformBuffer | DescriptorType::StorageBuffer | DescriptorType::UniformBufferDynamic
        | DescriptorType::StorageBufferDynamic => DescriptorInfoArray::Buffers,
        DescriptorType::UniformTexelBuffer | DescriptorType::StorageTexelBuffer => DescriptorInfoArray::BufferViews,
        DescriptorType::AccelerationStructure => DescriptorInfoArray::AccelerationStructures,
    }
}

/// Number of infos that the first `n` writes put into `array`.
pub open spec fn infos_before(writes: Seq<(DescriptorType, usize)>, n: int, array: DescriptorInfoArray) -> int
    decreases n,
{
    if n <= 0 {
        0
    } else if spec_info_array(writes[n - 1].0) == array {
        infos_before(writes, n - 1, array) + writes[n - 1].1
    } else {
        infos_before(writes, n - 1, array)
    }
}

/// Total number of descriptors of the first `n` writes.
pub open spec fn descriptors_before(writes: Seq<(DescriptorType, usize)>, n: int) -> int
    decreases n,
{
    if n <= 0 {
        0
    } else {
        descriptors_before(writes, n - 1) + writes[n - 1].1
    }
}

proof fn lemma_infos_before_bounded(writes: Seq<(DescriptorType, usize)>, n: int, array: DescriptorInfoArray)
    requires
        0 <= n <= writes.len(),
    ensures
        0 <= infos_before(writes, n, array) <= descriptors_before(writes, n),
    decreases n,
{
    if n > 0 {
        lemma_infos_before_bounded(writes, n - 1, array);
    }
}

proof fn lemma_descriptors_before_monotonic(writes: Seq<(DescriptorType, usize)>, m: int, n: int)
    requires
        0 <= m <= n <= writes.len(),
    ensures
        descriptors_before(writes, m) <= descriptors_before(writes, n),
    decreases n - m,
{
    if m < n {
        lemma_descriptors_before_monotonic(writes, m, n - 1);
    }
}

/// For descriptor writes given by type and number of descriptors, the range of its info
/// array that each write's infos occupy when the infos of all writes are laid out in
/// order, each in the array of its type.
pub fn descriptor_write_ranges(writes: &[(DescriptorType, usize)]) -> (r: Vec<Range<usize>>)
    requires
        descriptors_before(writes@, writes@.len() as int) <= usize::MAX,
    ensures
        r@.len() == writes@.len(),
        forall|i: int|
            0 <= i < writes@.len() ==> {
                &&& (#[trigger] r@[i]).start == infos_before(writes@, i, spec_info_array(writes@[i].0))
                &&& r@[i].end == r@[i].start + writes@[i].1
            },
{
    let mut images: usize = 0;
    let mut buffers: usize = 0;
    let mut views: usize = 0;
    let mut accels: usize = 0;
    let mut ranges: Vec<Range<usize>> = Vec::new();
    let mut i: usize = 0;
    while i < writes.len()
        invariant
            i <= writes@.len(),
            descriptors_before(writes@, writes@.len() as int) <= usize::MAX,
            images == infos_before(writes@, i as int, DescriptorInfoArray::Images),
            buffers == infos_before(writes@, i as int, DescriptorInfoArray::Buffers),
            views == infos_before(writes@, i as int, DescriptorInfoArray::BufferViews),
            accels == infos_before(writes@, i as int, DescriptorInfoArray::AccelerationStructures),
            ranges@.len() == i,
            forall|j: int|
                0 <= j < i ==> {
                    &&& (#[trigger] ranges@[j]).start == infos_before(writes@, j, spec_info_array(writes@[j].0))
                    &&& ranges@[j].end == ranges@[j].start + writes@[j].1
                },
        decreases writes@.len() - i,
    {
        let (ty, count) = writes[i];
        proof {
            lemma_descriptors_before_monotonic(writes@, i + 1, writes@.len() as int);
            lemma_infos_before_bounded(writes@, i as int, spec_info_array(ty));
        }
        let start = match info_array(ty) {
            DescriptorInfoArray::Images => {
                let start = images;
                images = images + count;
                start
            },
            DescriptorInfoArray::Buffers => {
                let start = buffers;
                buffers = buffers + count;
                start
            },
            DescriptorInfoArray::BufferViews => {
                let start = views;
                views = views + count;
                start
            },
            DescriptorInfoArray::AccelerationStructures => {
                let start = accels;
                accels = accels + count;
                start
            },
        };
        ranges.push(start..start + count);
        i = i + 1;
    }
    ranges
}

} // verus!
