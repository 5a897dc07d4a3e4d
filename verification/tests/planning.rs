use sierra::descriptor::sparse::SparseDescriptorsInstance;
use sierra::format::Format;
use sierra::glsl::{GlslType, GlslTypeContext};
use sierra::image::ImageUsage;
use sierra::shader::ShaderStage;
use sierra::vulkan::physical::{
    available_extensions, feature_query_plan, merge_feature_support, ApiVersions, DescriptorIndexingFlags,
    DeviceExtension, RawFeatureFlags,
};
use sierra::vulkan::ray_tracing::{
    ray_tracing_groups, shader_group_valid, RayTracingGroupPlan, RayTracingShaderGroupInfo,
    RayTracingShaderGroupType, SHADER_UNUSED,
};
use sierra::vulkan::surface::{
    can_acquire_image, lowest_composite_alpha, plan_swapchain, swapchain_image_count, too_many_retired,
    CompositeAlpha, CompositeAlphaSupport, PresentMode, SurfaceCapabilitiesPlain, SurfaceError,
    SurfaceFormatPlain,
};

#[test]
fn glsl_scalar_added_once_is_a_line_feed() {
    let mut c = GlslTypeContext::new();
    c.add::<i32, i32>();
    c.add::<u32, u32>();
    c.add::<i32, i32>();
    assert_eq!(c.code(), "\n\n");
}

#[test]
fn glsl_array_suffix_digits() {
    assert_eq!(<[u32; 7] as GlslType>::suffix(), "[7]");
    assert_eq!(<[u32; 10] as GlslType>::suffix(), "[10]");
    assert_eq!(<[u32; 4096] as GlslType>::suffix(), "[4096]");
}

fn no_indexing() -> DescriptorIndexingFlags {
    DescriptorIndexingFlags {
        runtime_descriptor_array: false,
        uniform_buffer_update_after_bind: false,
        sampled_image_update_after_bind: false,
        storage_image_update_after_bind: false,
        storage_buffer_update_after_bind: false,
        uniform_texel_buffer_update_after_bind: false,
        storage_texel_buffer_update_after_bind: false,
        update_unused_while_pending: false,
        partially_bound: false,
        sampled_image_non_uniform_indexing: false,
        storage_image_non_uniform_indexing: false,
        uniform_buffer_non_uniform_indexing: false,
        storage_buffer_non_uniform_indexing: false,
    }
}

fn no_raw() -> RawFeatureFlags {
    RawFeatureFlags {
        shader_sampled_image_array_dynamic_indexing: false,
        shader_storage_image_array_dynamic_indexing: false,
        shader_uniform_buffer_array_dynamic_indexing: false,
        shader_storage_buffer_array_dynamic_indexing: false,
        v12_scalar_block_layout: false,
        v12_buffer_device_address: false,
        v12_descriptor_indexing: no_indexing(),
        v13_dynamic_rendering: false,
        scalar_block_layout: false,
        descriptor_indexing: no_indexing(),
        buffer_device_address: false,
        dynamic_rendering: false,
        acceleration_structure: false,
        ray_tracing_pipeline: false,
    }
}

#[test]
fn available_extensions_from_list() {
    let e = available_extensions(&[DeviceExtension::KhrSwapchain, DeviceExtension::KhrAccelerationStructure]);
    assert!(e.khr_swapchain && e.khr_acceleration_structure);
    assert!(!e.google_display_timing && !e.khr_ray_tracing_pipeline && !e.ext_descriptor_indexing);
    assert!(!available_extensions(&[]).khr_swapchain);
}

#[test]
fn feature_query_plan_follows_versions_and_extensions() {
    let ext = available_extensions(&[
        DeviceExtension::ExtScalarBlockLayout,
        DeviceExtension::KhrDynamicRendering,
        DeviceExtension::KhrAccelerationStructure,
    ]);
    let v11 = ApiVersions { vk1_1: true, vk1_2: false, vk1_3: false };
    let p = feature_query_plan(v11, false, &ext);
    assert!(p.features2 && p.vulkan11 && !p.vulkan12 && !p.vulkan13);
    assert!(p.scalar_block_layout && p.dynamic_rendering && p.acceleration_structure);
    assert!(!p.descriptor_indexing && !p.buffer_device_address && !p.ray_tracing_pipeline);

    let v13 = ApiVersions { vk1_1: true, vk1_2: true, vk1_3: true };
    let p = feature_query_plan(v13, false, &ext);
    assert!(p.vulkan12 && p.vulkan13 && !p.scalar_block_layout && !p.dynamic_rendering);

    let v10 = ApiVersions { vk1_1: false, vk1_2: false, vk1_3: false };
    let p = feature_query_plan(v10, false, &ext);
    assert!(!p.features2 && !p.scalar_block_layout && !p.acceleration_structure);
    assert!(feature_query_plan(v10, true, &ext).scalar_block_layout);
}

#[test]
fn merge_takes_features_from_queried_structures() {
    let ext = available_extensions(&[DeviceExtension::ExtScalarBlockLayout, DeviceExtension::KhrSwapchain]);
    let v11 = ApiVersions { vk1_1: true, vk1_2: false, vk1_3: false };
    let plan = feature_query_plan(v11, false, &ext);
    let mut raw = no_raw();
    raw.scalar_block_layout = true;
    raw.v12_buffer_device_address = true;
    raw.acceleration_structure = true;
    raw.shader_sampled_image_array_dynamic_indexing = true;
    let s = merge_feature_support(&plan, &raw, true, &ext);
    assert!(s.scalar_block_layout);
    assert!(!s.buffer_device_address, "the core structure was not queried");
    assert!(!s.acceleration_structure, "the extension is not reported");
    assert!(s.shader_sampled_image_array_dynamic_indexing);
    assert!(s.instance_surface && s.extensions.khr_swapchain);

    let v12 = ApiVersions { vk1_1: true, vk1_2: true, vk1_3: false };
    let plan = feature_query_plan(v12, false, &ext);
    let s = merge_feature_support(&plan, &raw, false, &ext);
    assert!(!s.scalar_block_layout && s.buffer_device_address);
}

fn caps(min: u32, max: Option<u32>) -> SurfaceCapabilitiesPlain {
    SurfaceCapabilitiesPlain {
        min_image_count: min,
        max_image_count: max,
        supported_usage: ImageUsage::from_bits_truncate(0x10 | 0x2),
        supported_composite_alpha: CompositeAlphaSupport {
            opaque: false,
            pre_multiplied: true,
            post_multiplied: true,
            inherit: false,
        },
    }
}

#[test]
fn swapchain_image_count_clamps_three() {
    assert_eq!(swapchain_image_count(2, None), 3);
    assert_eq!(swapchain_image_count(4, None), 4);
    assert_eq!(swapchain_image_count(1, Some(2)), 2);
    assert_eq!(swapchain_image_count(1, Some(8)), 3);
}

#[test]
fn composite_alpha_lowest_bit() {
    let mut s = CompositeAlphaSupport { opaque: false, pre_multiplied: false, post_multiplied: false, inherit: true };
    assert_eq!(lowest_composite_alpha(&s), CompositeAlpha::Inherit);
    s.post_multiplied = true;
    assert_eq!(lowest_composite_alpha(&s), CompositeAlpha::PostMultiplied);
    s.opaque = true;
    assert_eq!(lowest_composite_alpha(&s), CompositeAlpha::Opaque);
    s = CompositeAlphaSupport { opaque: false, pre_multiplied: false, post_multiplied: false, inherit: false };
    assert_eq!(lowest_composite_alpha(&s), CompositeAlpha::Opaque);
}

#[test]
fn plan_swapchain_errors_and_plan() {
    let formats = [
        SurfaceFormatPlain { format: Format::R8Unorm, color_space: 0 },
        SurfaceFormatPlain { format: Format::RG8Unorm, color_space: 0 },
        SurfaceFormatPlain { format: Format::RG8Unorm, color_space: 7 },
    ];
    let modes = [PresentMode::Fifo, PresentMode::Mailbox];
    let color = ImageUsage::from_bits_truncate(0x10);
    let storage = ImageUsage::from_bits_truncate(0x8);
    let c = caps(2, Some(8));
    assert_eq!(
        plan_swapchain(&c, &formats, &modes, storage, Format::RGB8Unorm, PresentMode::Immediate),
        Err(SurfaceError::UsageNotSupported { usage: storage })
    );
    assert_eq!(
        plan_swapchain(&c, &formats, &modes, color, Format::RGB8Unorm, PresentMode::Immediate),
        Err(SurfaceError::FormatUnsupported { format: Format::RGB8Unorm })
    );
    assert_eq!(
        plan_swapchain(&c, &formats, &modes, color, Format::RG8Unorm, PresentMode::Immediate),
        Err(SurfaceError::PresentModeUnsupported { mode: PresentMode::Immediate })
    );
    let plan = plan_swapchain(&c, &formats, &modes, color, Format::RG8Unorm, PresentMode::Mailbox).unwrap();
    assert_eq!(plan.image_count, 3);
    assert_eq!(plan.format, formats[1]);
    assert_eq!(plan.composite_alpha, CompositeAlpha::PreMultiplied);
    assert_eq!(plan.usage, color);
    assert_eq!(plan.mode, PresentMode::Mailbox);
}

#[test]
fn retired_and_acquire_limits() {
    assert!(!too_many_retired(16));
    assert!(too_many_retired(17));
    assert!(can_acquire_image(1, 3, 2));
    assert!(!can_acquire_image(2, 3, 2));
}

#[test]
fn ray_tracing_groups_codes() {
    let stages = [ShaderStage::Raygen, ShaderStage::Miss, ShaderStage::ClosestHit, ShaderStage::AnyHit];
    let groups = [
        RayTracingShaderGroupInfo::Raygen { raygen: 0 },
        RayTracingShaderGroupInfo::Miss { miss: 1 },
        RayTracingShaderGroupInfo::Triangles { any_hit: None, closest_hit: Some(2) },
        RayTracingShaderGroupInfo::Triangles { any_hit: Some(3), closest_hit: Some(2) },
    ];
    for g in &groups {
        assert!(shader_group_valid(&stages, g));
    }
    let plans = ray_tracing_groups(&stages, &groups);
    assert_eq!(plans.len(), 4);
    assert_eq!(
        plans[0],
        RayTracingGroupPlan {
            ty: RayTracingShaderGroupType::General,
            general_shader: 0,
            any_hit_shader: SHADER_UNUSED,
            closest_hit_shader: SHADER_UNUSED,
            intersection_shader: SHADER_UNUSED,
        }
    );
    assert_eq!(plans[1].general_shader, 1);
    assert_eq!(plans[2].ty, RayTracingShaderGroupType::TrianglesHitGroup);
    assert_eq!(plans[2].general_shader, SHADER_UNUSED);
    assert_eq!(plans[2].any_hit_shader, SHADER_UNUSED);
    assert_eq!(plans[2].closest_hit_shader, 2);
    assert_eq!(plans[3].any_hit_shader, 3);
}

#[test]
fn ray_tracing_group_validation() {
    let stages = [ShaderStage::Raygen, ShaderStage::Miss];
    assert!(!shader_group_valid(&stages, &RayTracingShaderGroupInfo::Raygen { raygen: 1 }));
    assert!(!shader_group_valid(&stages, &RayTracingShaderGroupInfo::Miss { miss: 2 }));
    assert!(!shader_group_valid(&stages, &RayTracingShaderGroupInfo::Miss { miss: SHADER_UNUSED }));
    assert!(!shader_group_valid(&stages, &RayTracingShaderGroupInfo::Triangles { any_hit: Some(0), closest_hit: None }));
    assert!(shader_group_valid(&stages, &RayTracingShaderGroupInfo::Triangles { any_hit: None, closest_hit: None }));
}

#[test]
fn sparse_slots_are_kept_and_fresh_ones_wait() {
    let mut s = SparseDescriptorsInstance::new(8);
    assert_eq!(s.get_or_insert(100), 0);
    assert_eq!(s.get_or_insert(200), 1);
    assert_eq!(s.get_or_insert(100), 0);
    assert_eq!(s.get_or_insert(300), 2);
    assert!(s.can_insert(400));
    assert!(s.remove(200));
    assert!(!s.remove(999));
    assert_eq!(s.get_or_insert(200), 1);
    assert_eq!(s.take_pending_writes(), vec![(100, 0), (200, 1), (300, 2)]);
    assert!(s.take_pending_writes().is_empty());
    assert_eq!(s.get_or_insert(400), 3);
    assert_eq!(s.take_pending_writes(), vec![(400, 3)]);
}
