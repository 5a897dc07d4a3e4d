use std::collections::HashMap;
use sierra::vulkan::physical::{
    queue_family_totals, ApiVersions, AvailableExtensions, DeviceExtension, DeviceFeatureSupport, Feature, FeatureChain,
    RequestedFeatures,
};

fn no_support() -> DeviceFeatureSupport {
    DeviceFeatureSupport {
        scalar_block_layout: false,
        runtime_descriptor_array: false,
        descriptor_binding_uniform_buffer_update_after_bind: false,
        descriptor_binding_sampled_image_update_after_bind: false,
        descriptor_binding_storage_image_update_after_bind: false,
        descriptor_binding_storage_buffer_update_after_bind: false,
        descriptor_binding_uniform_texel_buffer_update_after_bind: false,
        descriptor_binding_storage_texel_buffer_update_after_bind: false,
        descriptor_binding_update_unused_while_pending: false,
        descriptor_binding_partially_bound: false,
        buffer_device_address: false,
        dynamic_rendering: false,
        acceleration_structure: false,
        ray_tracing_pipeline: false,
        shader_sampled_image_array_non_uniform_indexing: false,
        shader_storage_image_array_non_uniform_indexing: false,
        shader_uniform_buffer_array_non_uniform_indexing: false,
        shader_storage_buffer_array_non_uniform_indexing: false,
        shader_sampled_image_array_dynamic_indexing: false,
        shader_storage_image_array_dynamic_indexing: false,
        shader_uniform_buffer_array_dynamic_indexing: false,
        shader_storage_buffer_array_dynamic_indexing: false,
        instance_surface: false,
        extensions: no_extensions(),
    }
}

fn no_extensions() -> AvailableExtensions {
    AvailableExtensions {
        khr_swapchain: false,
        google_display_timing: false,
        ext_scalar_block_layout: false,
        ext_descriptor_indexing: false,
        khr_buffer_device_address: false,
        khr_deferred_host_operations: false,
        khr_acceleration_structure: false,
        khr_ray_tracing_pipeline: false,
        khr_dynamic_rendering: false,
    }
}

#[test]
fn supported_features_in_listing_order() {
    let mut s = no_support();
    s.buffer_device_address = true;
    s.acceleration_structure = true;
    s.scalar_block_layout = true;
    s.instance_surface = true;
    s.extensions.khr_swapchain = true;
    s.extensions.google_display_timing = true;
    s.shader_sampled_image_array_dynamic_indexing = true;
    assert_eq!(
        s.supported_features(),
        vec![
            Feature::ScalarBlockLayout,
            Feature::BufferDeviceAddress,
            Feature::AccelerationStructure,
            Feature::SurfacePresentation,
            Feature::DisplayTiming,
        ]
    );
    s.instance_surface = false;
    assert_eq!(s.supported_features().len(), 3);
    s.instance_surface = true;
    s.extensions.khr_swapchain = false;
    assert_eq!(s.supported_features().len(), 3);
    assert!(no_support().supported_features().is_empty());
}

#[test]
fn can_enable_follows_support() {
    let mut s = no_support();
    assert!(!s.can_enable(Feature::SurfacePresentation));
    assert!(!s.can_enable(Feature::DisplayTiming));
    s.extensions.khr_swapchain = true;
    assert!(s.can_enable(Feature::SurfacePresentation));
    assert!(!s.can_enable(Feature::DisplayTiming));
    s.extensions.google_display_timing = true;
    assert!(s.can_enable(Feature::DisplayTiming));
    assert!(s.has_extension(DeviceExtension::GoogleDisplayTiming));
    assert!(!s.has_extension(DeviceExtension::KhrDynamicRendering));
    assert!(!s.can_enable(Feature::DynamicRendering));
    s.dynamic_rendering = true;
    assert!(s.can_enable(Feature::DynamicRendering));
    s.shader_storage_buffer_array_dynamic_indexing = true;
    assert!(s.can_enable(Feature::ShaderStorageBufferDynamicIndexing));
    assert!(!s.can_enable(Feature::ShaderStorageBufferNonUniformIndexing));
}

#[test]
fn plan_on_vulkan_1_1_chains_extension_structures() {
    let mut s = no_support();
    s.scalar_block_layout = true;
    s.buffer_device_address = true;
    s.acceleration_structure = true;
    s.descriptor_binding_partially_bound = true;
    s.instance_surface = true;
    s.extensions.khr_swapchain = true;
    s.extensions.ext_descriptor_indexing = true;
    s.extensions.khr_buffer_device_address = true;
    s.extensions.khr_deferred_host_operations = true;
    s.extensions.khr_acceleration_structure = true;
    let mut requested = RequestedFeatures::new(&[
        Feature::AccelerationStructure,
        Feature::DescriptorBindingPartiallyBound,
        Feature::BufferDeviceAddress,
        Feature::SurfacePresentation,
    ]);
    let api = ApiVersions { vk1_1: true, vk1_2: false, vk1_3: false };
    let plan = sierra::vulkan::physical::plan_device_features(&mut requested, &s, api);
    assert_eq!(
        plan.enabled,
        vec![
            Feature::SurfacePresentation,
            Feature::BufferDeviceAddress,
            Feature::AccelerationStructure,
            Feature::DescriptorBindingPartiallyBound,
        ]
    );
    assert_eq!(
        plan.chain,
        FeatureChain {
            vulkan12: false,
            vulkan13: false,
            scalar_block_layout: false,
            descriptor_indexing: true,
            buffer_device_address: true,
            acceleration_structure: true,
            ray_tracing_pipeline: false,
            dynamic_rendering: false,
        }
    );
    assert_eq!(
        plan.extensions,
        vec![
            DeviceExtension::KhrSwapchain,
            DeviceExtension::ExtDescriptorIndexing,
            DeviceExtension::KhrBufferDeviceAddress,
            DeviceExtension::KhrDeferredHostOperations,
            DeviceExtension::KhrAccelerationStructure,
        ]
    );
    assert_eq!(requested.len(), 0);
    requested.assert_empty();
}

#[test]
fn plan_on_vulkan_1_3_uses_core_structures() {
    let mut s = no_support();
    s.scalar_block_layout = true;
    s.dynamic_rendering = true;
    let mut requested = RequestedFeatures::new(&[
        Feature::DynamicRendering,
        Feature::ScalarBlockLayout,
        Feature::ScalarBlockLayout,
    ]);
    let api = ApiVersions { vk1_1: true, vk1_2: true, vk1_3: true };
    let plan = sierra::vulkan::physical::plan_device_features(&mut requested, &s, api);
    assert_eq!(
        plan.enabled,
        vec![Feature::ScalarBlockLayout, Feature::DynamicRendering]
    );
    assert!(plan.chain.vulkan12 && plan.chain.vulkan13);
    assert!(!plan.chain.scalar_block_layout && !plan.chain.dynamic_rendering);
    assert!(plan.extensions.is_empty());
    assert_eq!(requested.len(), 1);
    assert!(requested.check(Feature::ScalarBlockLayout));
}

#[test]
fn plan_without_requests() {
    let mut requested = RequestedFeatures::new(&[]);
    let api = ApiVersions { vk1_1: false, vk1_2: false, vk1_3: false };
    let plan = sierra::vulkan::physical::plan_device_features(&mut requested, &no_support(), api);
    assert!(plan.enabled.is_empty() && plan.extensions.is_empty());
    assert!(!plan.chain.vulkan12 && !plan.chain.acceleration_structure);
}

#[test]
fn queue_family_totals_sum_per_family() {
    assert_eq!(queue_family_totals(&[(1, 1), (0, 2), (1, 2)], &[2, 4]), Some(HashMap::from([(1, 3), (0, 2)])));
    assert_eq!(queue_family_totals(&[], &[2]), Some(HashMap::new()));
    assert_eq!(queue_family_totals(&[(0, 0)], &[0]), Some(HashMap::from([(0, 0)])));
}

#[test]
fn queue_family_totals_rejects_bad_requests() {
    assert_eq!(queue_family_totals(&[(2, 1)], &[2, 4]), None);
    assert_eq!(queue_family_totals(&[(0, 1), (0, 2)], &[2, 4]), None);
    assert_eq!(queue_family_totals(&[(1, 5)], &[2, 4]), None);
}

#[test]
fn planned_extensions_match_plan() {
    let api = ApiVersions { vk1_1: true, vk1_2: false, vk1_3: false };
    let features = [Feature::DisplayTiming, Feature::ScalarBlockLayout, Feature::SurfacePresentation];
    assert_eq!(
        sierra::vulkan::physical::planned_extensions(&features, api),
        vec![DeviceExtension::KhrSwapchain, DeviceExtension::GoogleDisplayTiming, DeviceExtension::ExtScalarBlockLayout]
    );
    assert!(sierra::vulkan::physical::planned_extensions(&[], api).is_empty());
}

#[test]
fn presentation_listed_only_with_instance_surfaces() {
    let mut s = no_support();
    s.extensions.khr_swapchain = true;
    s.extensions.google_display_timing = true;
    s.shader_storage_buffer_array_dynamic_indexing = true;
    assert!(s.supported_features().is_empty());
    s.instance_surface = true;
    assert_eq!(s.supported_features(), vec![Feature::SurfacePresentation, Feature::DisplayTiming]);
}
