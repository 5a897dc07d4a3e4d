use erupt::vk1_0;
use sierra::accel::{
    AccelerationStructureBuildFlags, GeometryFlags, GeometryInstanceFlags, InstanceCustomIndexAndMask,
    InstanceShaderBindingOffsetAndFlags,
};
use sierra::buffer::BufferUsage;
use sierra::descriptor::binding::with_partially_bound;
use sierra::descriptor::layout::DescriptorBindingFlags;
use sierra::image::{ImageUsage, Samples};
use sierra::shader::ShaderStageFlags;

#[test]
fn buffer_usage_set_operations() {
    let a = BufferUsage::TRANSFER_SRC().union(BufferUsage::UNIFORM());
    assert_eq!(a.bits(), 0x11);
    assert!(a.contains(BufferUsage::UNIFORM()));
    assert!(!a.contains(BufferUsage::STORAGE()));
    assert!(a.intersects(BufferUsage::TRANSFER_SRC()));
    assert_eq!(a.intersection(BufferUsage::UNIFORM()).bits(), 0x10);
    assert_eq!(a.difference(BufferUsage::UNIFORM()).bits(), 0x1);
    let mut b = BufferUsage::empty();
    assert!(b.is_empty());
    b.insert(BufferUsage::INDEX());
    b.insert(BufferUsage::VERTEX());
    assert_eq!(b.bits(), 0xc0);
    b.remove(BufferUsage::INDEX());
    assert_eq!(b.bits(), 0x80);
    assert_eq!(BufferUsage::all().bits(), 0xffff);
    assert_eq!(BufferUsage::from_bits(0x1_0000), None);
    assert_eq!(BufferUsage::from_bits(0x8001).map(|f| f.bits()), Some(0x8001));
    assert_eq!(BufferUsage::from_bits_truncate(0x3_0001).bits(), 0x1);
}

#[test]
fn buffer_usage_to_vk_matches_vulkan_flags() {
    let cases = [
        (BufferUsage::TRANSFER_SRC(), vk1_0::BufferUsageFlags::TRANSFER_SRC),
        (BufferUsage::TRANSFER_DST(), vk1_0::BufferUsageFlags::TRANSFER_DST),
        (BufferUsage::UNIFORM_TEXEL(), vk1_0::BufferUsageFlags::UNIFORM_TEXEL_BUFFER),
        (BufferUsage::STORAGE_TEXEL(), vk1_0::BufferUsageFlags::STORAGE_TEXEL_BUFFER),
        (BufferUsage::UNIFORM(), vk1_0::BufferUsageFlags::UNIFORM_BUFFER),
        (BufferUsage::STORAGE(), vk1_0::BufferUsageFlags::STORAGE_BUFFER),
        (BufferUsage::INDEX(), vk1_0::BufferUsageFlags::INDEX_BUFFER),
        (BufferUsage::VERTEX(), vk1_0::BufferUsageFlags::VERTEX_BUFFER),
        (BufferUsage::INDIRECT(), vk1_0::BufferUsageFlags::INDIRECT_BUFFER),
        (BufferUsage::CONDITIONAL_RENDERING(), vk1_0::BufferUsageFlags::CONDITIONAL_RENDERING_EXT),
        (
            BufferUsage::ACCELERATION_STRUCTURE_BUILD_INPUT(),
            vk1_0::BufferUsageFlags::ACCELERATION_STRUCTURE_BUILD_INPUT_READ_ONLY_KHR,
        ),
        (
            BufferUsage::ACCELERATION_STRUCTURE_STORAGE(),
            vk1_0::BufferUsageFlags::ACCELERATION_STRUCTURE_STORAGE_KHR,
        ),
        (BufferUsage::SHADER_BINDING_TABLE(), vk1_0::BufferUsageFlags::SHADER_BINDING_TABLE_KHR),
        (BufferUsage::TRANSFORM_FEEDBACK(), vk1_0::BufferUsageFlags::TRANSFORM_FEEDBACK_BUFFER_EXT),
        (
            BufferUsage::TRANSFORM_FEEDBACK_COUNTER(),
            vk1_0::BufferUsageFlags::TRANSFORM_FEEDBACK_COUNTER_BUFFER_EXT,
        ),
        (BufferUsage::DEVICE_ADDRESS(), vk1_0::BufferUsageFlags::SHADER_DEVICE_ADDRESS),
    ];
    let mut all_vk = 0;
    for (usage, vk) in cases {
        assert_eq!(usage.to_vk_bits(), vk.bits());
        assert_eq!(BufferUsage::from_vk_bits(vk.bits()), usage);
        all_vk |= vk.bits();
    }
    assert_eq!(BufferUsage::all().to_vk_bits(), all_vk);
    assert_eq!(BufferUsage::empty().to_vk_bits(), 0);
}

#[test]
fn buffer_usage_vk_round_trip() {
    for bits in [0u32, 0x1, 0x400, 0x8000, 0x1234, 0xffff, 0xdead_beef] {
        let usage = BufferUsage::from_bits_truncate(bits);
        assert_eq!(BufferUsage::from_vk_bits(usage.to_vk_bits()), usage);
    }
    let unknown_vk = 0x4000_0000;
    assert_eq!(BufferUsage::from_vk_bits(unknown_vk | 0x2).bits(), 0x2);
    let usage = BufferUsage::UNIFORM().union(BufferUsage::DEVICE_ADDRESS());
    assert_eq!(usage.to_vk_bits(), 0x10 | 0x20000);
}

#[test]
fn shader_stage_flags_to_vk() {
    assert_eq!(ShaderStageFlags::VERTEX().bits(), vk1_0::ShaderStageFlags::VERTEX.bits());
    assert_eq!(ShaderStageFlags::FRAGMENT().bits(), vk1_0::ShaderStageFlags::FRAGMENT.bits());
    assert_eq!(ShaderStageFlags::COMPUTE().bits(), vk1_0::ShaderStageFlags::COMPUTE.bits());
    assert_eq!(ShaderStageFlags::RAYGEN().bits(), vk1_0::ShaderStageFlags::RAYGEN_KHR.bits());
    assert_eq!(ShaderStageFlags::MISS().bits(), vk1_0::ShaderStageFlags::MISS_KHR.bits());
    assert_eq!(ShaderStageFlags::ALL_GRAPHICS().bits(), vk1_0::ShaderStageFlags::ALL_GRAPHICS.bits());
    assert_eq!(ShaderStageFlags::all().to_vk_bits(), vk1_0::ShaderStageFlags::ALL.bits());
    let vf = ShaderStageFlags::VERTEX().union(ShaderStageFlags::FRAGMENT());
    assert_eq!(vf.to_vk_bits(), 0x11);
}

#[test]
fn image_usage_and_samples_match_vulkan() {
    assert_eq!(ImageUsage::TRANSFER_SRC().bits(), vk1_0::ImageUsageFlags::TRANSFER_SRC.bits());
    assert_eq!(ImageUsage::SAMPLED().bits(), vk1_0::ImageUsageFlags::SAMPLED.bits());
    assert_eq!(ImageUsage::COLOR_ATTACHMENT().bits(), vk1_0::ImageUsageFlags::COLOR_ATTACHMENT.bits());
    assert_eq!(
        ImageUsage::DEPTH_STENCIL_ATTACHMENT().bits(),
        vk1_0::ImageUsageFlags::DEPTH_STENCIL_ATTACHMENT.bits()
    );
    assert_eq!(ImageUsage::INPUT_ATTACHMENT().bits(), vk1_0::ImageUsageFlags::INPUT_ATTACHMENT.bits());
    assert_eq!(Samples::Samples1.count(), vk1_0::SampleCountFlags::_1.bits());
    assert_eq!(Samples::Samples8.count(), vk1_0::SampleCountFlags::_8.bits());
    assert_eq!(Samples::Samples64.count(), vk1_0::SampleCountFlags::_64.bits());
}

#[test]
fn descriptor_binding_flags() {
    let flags = with_partially_bound(DescriptorBindingFlags::UPDATE_AFTER_BIND());
    assert!(flags.contains(DescriptorBindingFlags::PARTIALLY_BOUND()));
    assert!(flags.contains(DescriptorBindingFlags::UPDATE_AFTER_BIND()));
    let again = with_partially_bound(flags);
    assert_eq!(again, flags);
}

#[test]
fn accel_flags() {
    let f = AccelerationStructureBuildFlags::PREFER_FAST_TRACE().union(AccelerationStructureBuildFlags::ALLOW_UPDATE());
    assert!(f.contains(AccelerationStructureBuildFlags::ALLOW_UPDATE()));
    assert!(!f.contains(AccelerationStructureBuildFlags::LOW_MEMORY()));
    assert_eq!(GeometryFlags::OPAQUE().bits(), 1);
    assert_eq!(GeometryInstanceFlags::FORCE_OPAQUE().bits(), 4);
}

#[test]
fn instance_custom_index_and_mask_packing() {
    assert_eq!(InstanceCustomIndexAndMask::new(0x12_3456, 0xab).0, 0xab12_3456);
    assert_eq!(InstanceCustomIndexAndMask::from_index(7).0, 0xff00_0007);
    assert_eq!(InstanceCustomIndexAndMask::default().0, 0xff00_0000);
    assert_eq!(InstanceCustomIndexAndMask::new(0xff_ffff, 0).0 & 0xff_ffff, 0xff_ffff);
}

#[test]
fn instance_shader_binding_offset_and_flags_packing() {
    let flags = GeometryInstanceFlags::TRIANGLE_FACING_CULL_DISABLE().union(GeometryInstanceFlags::FORCE_NO_OPAQUE());
    let packed = InstanceShaderBindingOffsetAndFlags::new(0x10, flags);
    assert_eq!(packed.0, 0x0900_0010);
    assert_eq!(packed.0 >> 24, flags.bits() as u32);
    assert_eq!(InstanceShaderBindingOffsetAndFlags::from_offset(3).0, 3);
    assert_eq!(InstanceShaderBindingOffsetAndFlags::default().0, 0);
}
