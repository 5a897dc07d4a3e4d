use erupt::vk1_0;
use sierra::descriptor::layout::{DescriptorBindingFlags, DescriptorSetLayoutBinding, DescriptorType};
use sierra::shader::ShaderStageFlags;
use sierra::vulkan::access::{access_info, supported_access, Access};
use sierra::vulkan::descriptor::{DescriptorPoolSize, DescriptorSizes, DescriptorSizesBuilder};
use sierra::vulkan::device::{
    copy_group_handlers, descriptor_count_from_bindings, shader_binding_table_layout, ShaderBindingTableLayout,
};

fn binding(ty: DescriptorType, count: u32) -> DescriptorSetLayoutBinding {
    DescriptorSetLayoutBinding {
        binding: 0,
        ty,
        count,
        stages: ShaderStageFlags::all(),
        flags: DescriptorBindingFlags::empty(),
    }
}

#[test]
fn access_info_matches_vulkan() {
    let info = access_info(Access::TransferWrite);
    assert_eq!(info.stage_mask, vk1_0::PipelineStageFlags::TRANSFER.bits());
    assert_eq!(info.access_mask, vk1_0::AccessFlags::TRANSFER_WRITE.bits());
    assert_eq!(info.image_layout, vk1_0::ImageLayout::TRANSFER_DST_OPTIMAL.0);

    let info = access_info(Access::FragmentShaderReadSampledImageOrUniformTexelBuffer);
    assert_eq!(info.stage_mask, vk1_0::PipelineStageFlags::FRAGMENT_SHADER.bits());
    assert_eq!(info.access_mask, vk1_0::AccessFlags::SHADER_READ.bits());
    assert_eq!(info.image_layout, vk1_0::ImageLayout::SHADER_READ_ONLY_OPTIMAL.0);

    let info = access_info(Access::DepthStencilAttachmentWrite);
    assert_eq!(
        info.stage_mask,
        (vk1_0::PipelineStageFlags::EARLY_FRAGMENT_TESTS | vk1_0::PipelineStageFlags::LATE_FRAGMENT_TESTS).bits()
    );
    assert_eq!(info.access_mask, vk1_0::AccessFlags::DEPTH_STENCIL_ATTACHMENT_WRITE.bits());
    assert_eq!(info.image_layout, vk1_0::ImageLayout::DEPTH_STENCIL_ATTACHMENT_OPTIMAL.0);

    let info = access_info(Access::Present);
    assert_eq!(info.stage_mask, 0);
    assert_eq!(info.access_mask, 0);
    assert_eq!(info.image_layout, vk1_0::ImageLayout::PRESENT_SRC_KHR.0);

    let info = access_info(Access::General);
    assert_eq!(info.stage_mask, vk1_0::PipelineStageFlags::ALL_COMMANDS.bits());
    assert_eq!(
        info.access_mask,
        (vk1_0::AccessFlags::MEMORY_READ | vk1_0::AccessFlags::MEMORY_WRITE).bits()
    );
    assert_eq!(info.image_layout, vk1_0::ImageLayout::GENERAL.0);

    let info = access_info(Access::NoAccess);
    assert_eq!((info.stage_mask, info.access_mask, info.image_layout), (0, 0, 0));
}

#[test]
fn supported_access_for_stages() {
    let transfer = vk1_0::PipelineStageFlags::TRANSFER.bits();
    let expected = (vk1_0::AccessFlags::TRANSFER_READ
        | vk1_0::AccessFlags::TRANSFER_WRITE
        | vk1_0::AccessFlags::MEMORY_READ
        | vk1_0::AccessFlags::MEMORY_WRITE)
        .bits();
    assert_eq!(supported_access(transfer), expected);
    assert_eq!(supported_access(0x80), 0x18078);
    assert_eq!(supported_access(0x4000), 0x1e000);
    assert_eq!(supported_access(0), 0);
}

#[test]
fn supported_access_grows_with_stages() {
    let a = supported_access(0x1000);
    let b = supported_access(0x1000 | 0x80);
    assert_eq!(a & b, a);
}

#[test]
fn descriptor_type_codes_match_vulkan() {
    let cases = [
        (DescriptorType::Sampler, vk1_0::DescriptorType::SAMPLER),
        (DescriptorType::CombinedImageSampler, vk1_0::DescriptorType::COMBINED_IMAGE_SAMPLER),
        (DescriptorType::SampledImage, vk1_0::DescriptorType::SAMPLED_IMAGE),
        (DescriptorType::StorageImage, vk1_0::DescriptorType::STORAGE_IMAGE),
        (DescriptorType::UniformTexelBuffer, vk1_0::DescriptorType::UNIFORM_TEXEL_BUFFER),
        (DescriptorType::StorageTexelBuffer, vk1_0::DescriptorType::STORAGE_TEXEL_BUFFER),
        (DescriptorType::UniformBuffer, vk1_0::DescriptorType::UNIFORM_BUFFER),
        (DescriptorType::StorageBuffer, vk1_0::DescriptorType::STORAGE_BUFFER),
        (DescriptorType::UniformBufferDynamic, vk1_0::DescriptorType::UNIFORM_BUFFER_DYNAMIC),
        (DescriptorType::StorageBufferDynamic, vk1_0::DescriptorType::STORAGE_BUFFER_DYNAMIC),
        (DescriptorType::InputAttachment, vk1_0::DescriptorType::INPUT_ATTACHMENT),
        (DescriptorType::AccelerationStructure, vk1_0::DescriptorType::ACCELERATION_STRUCTURE_KHR),
    ];
    for (index, (ty, vk)) in cases.iter().enumerate() {
        assert_eq!(ty.vk_code(), vk.0);
        assert_eq!(ty.index(), index);
    }
}

#[test]
fn descriptor_sizes_builder_counts_per_type() {
    let bindings = [
        binding(DescriptorType::UniformBuffer, 2),
        binding(DescriptorType::Sampler, 1),
        binding(DescriptorType::UniformBuffer, 3),
        binding(DescriptorType::AccelerationStructure, 4),
    ];
    let builder = DescriptorSizesBuilder::from_bindings(&bindings);
    assert_eq!(builder.size(0), 1);
    assert_eq!(builder.size(6), 5);
    assert_eq!(builder.size(11), 4);
    assert_eq!(builder.size(3), 0);

    let mut manual = DescriptorSizesBuilder::zero();
    manual.add_binding(&bindings[0]);
    manual.add_binding(&bindings[2]);
    assert_eq!(manual.size(6), 5);
}

#[test]
fn descriptor_sizes_list_nonzero_types_in_order() {
    let bindings = [
        binding(DescriptorType::StorageImage, 2),
        binding(DescriptorType::Sampler, 1),
        binding(DescriptorType::StorageImage, 1),
        binding(DescriptorType::InputAttachment, 0),
    ];
    let sizes = DescriptorSizes::from_bindings(&bindings);
    assert_eq!(
        sizes.as_slice(),
        &[
            DescriptorPoolSize { ty: DescriptorType::Sampler, descriptor_count: 1 },
            DescriptorPoolSize { ty: DescriptorType::StorageImage, descriptor_count: 3 },
        ]
    );
    assert!(DescriptorSizes::from_bindings(&[]).as_slice().is_empty());
}

#[test]
fn descriptor_count_totals() {
    let bindings = [
        binding(DescriptorType::StorageBuffer, 7),
        binding(DescriptorType::CombinedImageSampler, 2),
        binding(DescriptorType::StorageBuffer, 1),
    ];
    let total = descriptor_count_from_bindings(&bindings);
    assert_eq!(total.storage_buffer, 8);
    assert_eq!(total.combined_image_sampler, 2);
    assert_eq!(total.sampler, 0);
    assert_eq!(total.inline_uniform_block_bytes, 0);
    let builder = DescriptorSizesBuilder::from_bindings(&bindings);
    assert_eq!(total.storage_buffer, builder.size(7));
}

#[test]
fn shader_binding_table_layout_aligns_handles() {
    assert_eq!(
        shader_binding_table_layout(32, 64, 3),
        Ok(ShaderBindingTableLayout { group_size: 32, group_stride: 64, total_size: 192 })
    );
    assert_eq!(
        shader_binding_table_layout(64, 64, 2),
        Ok(ShaderBindingTableLayout { group_size: 64, group_stride: 64, total_size: 128 })
    );
    assert_eq!(
        shader_binding_table_layout(1, 1, 0),
        Ok(ShaderBindingTableLayout { group_size: 1, group_stride: 1, total_size: 0 })
    );
}

#[test]
fn shader_binding_table_layout_too_many_groups() {
    if usize::MAX as u64 > u32::MAX as u64 {
        assert!(shader_binding_table_layout(32, 32, u32::MAX as usize + 1).is_err());
    }
}

#[test]
fn copy_group_handlers_copies_selected_groups() {
    let handlers: Vec<u8> = (0u8..12).collect();
    let mut write = vec![0xffu8; 16];
    let mut offset = 2usize;
    let range = copy_group_handlers(&handlers, &mut write, &[2, 0], &mut offset, 4, 6);
    assert_eq!(range, Some(2..14));
    assert_eq!(offset, 14);
    assert_eq!(
        write,
        vec![0xff, 0xff, 8, 9, 10, 11, 0xff, 0xff, 0, 1, 2, 3, 0xff, 0xff, 0xff, 0xff]
    );
}

#[test]
fn copy_group_handlers_without_groups() {
    let handlers = [1u8, 2];
    let mut write = [0u8; 2];
    let mut offset = 1usize;
    assert_eq!(copy_group_handlers(&handlers, &mut write, &[], &mut offset, 2, 2), Some(1..1));
    assert_eq!(write, [0, 0]);
    assert_eq!(offset, 1);
}

#[test]
fn descriptor_sizes_ignore_binding_order() {
    let a = [
        binding(DescriptorType::UniformBuffer, 2),
        binding(DescriptorType::Sampler, 1),
        binding(DescriptorType::UniformBuffer, 3),
    ];
    let b = [a[2], a[0], a[1]];
    let sa = DescriptorSizes::from_bindings(&a);
    let sb = DescriptorSizes::from_bindings(&b);
    assert_eq!(sa.as_slice(), sb.as_slice());
}
