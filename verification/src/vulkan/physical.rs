use vstd::prelude::*;
use std::collections::HashMap;

verus! {

/// Optional device features that can be requested when a device is created.
#[derive(Clone, Copy, Debug, PartialEq, Eq, Structural, Hash)]
pub enum Feature {
    AccelerationStructure,
    BufferDeviceAddress,
    DescriptorBindingPartiallyBound,
    DescriptorBindingSampledImageUpdateAfterBind,
    DescriptorBindingStorageBufferUpdateAfterBind,
    DescriptorBindingStorageImageUpdateAfterBind,
    DescriptorBindingStorageTexelBufferUpdateAfterBind,
    DescriptorBindingUniformBufferUpdateAfterBind,
    DescriptorBindingUniformTexelBufferUpdateAfterBind,
    DescriptorBindingUpdateUnusedWhilePending,
    DisplayTiming,
    DynamicRendering,
    RayTracingPipeline,
    RuntimeDescriptorArray,
    ScalarBlockLayout,
    ShaderSampledImageDynamicIndexing,
    ShaderSampledImageNonUniformIndexing,
    ShaderStorageBufferDynamicIndexing,
    ShaderStorageBufferNonUniformIndexing,
    ShaderStorageImageDynamicIndexing,
    ShaderStorageImageNonUniformIndexing,
    ShaderUniformBufferDynamicIndexing,
    ShaderUniformBufferNonUniformIndexing,
    SurfacePresentation,
}

/// The requested features that device creation has not enabled yet.
pub struct RequestedFeatures {
    array: Vec<Feature>,
}

/// Index of the first occurrence of `feature` in `s`.
pub open spec fn is_first_occurrence(s: Seq<Feature>, feature: Feature, i: int) -> bool {
    &&& 0 <= i < s.len()
    &&& s[i] == feature
    &&& forall|j: int| 0 <= j < i ==> s[j] != feature
}

/// `s` without its element at `i`, whose place the last element takes.
pub open spec fn swap_removed(s: Seq<Feature>, i: int) -> Seq<Feature> {
    s.update(i, s.last()).drop_last()
}

impl View for RequestedFeatures {
    type V = Seq<Feature>;

    closed spec fn view(&self) -> Seq<Feature> {
        self.array@
    }
}

impl RequestedFeatures {
    /// Features requested, in the order given.
    pub fn new(features: &[Feature]) -> (r: Self)
        ensures
            r@ == features@,
    {
        let mut array: Vec<Feature> = Vec::new();
        let mut i: usize = 0;
        while i < features.len()
            invariant
                i <= features@.len(),
                array@ == features@.take(i as int),
            decreases features@.len() - i,
        {
            array.push(features[i]);
            i = i + 1;
            assert(array@ =~= features@.take(i as int));
        }
        assert(features@.take(i as int) =~= features@);
        RequestedFeatures { array }
    }

    /// Marks `feature` as enabled: `true` when it was requested, and then one request of it
    /// is removed (the last request takes its place).
    pub fn take(&mut self, feature: Feature) -> (r: bool)
        ensures
            r == old(self)@.contains(feature),
            r ==> exists|i: int|
                is_first_occurrence(old(self)@, feature, i) && final(self)@ == swap_removed(
                    old(self)@,
                    i,
                ),
            !r ==> final(self)@ == old(self)@,
    {
        let mut i: usize = 0;
        while i < self.array.len()
            invariant
                i <= self.array@.len(),
                self.array@ == old(self).array@,
                forall|j: int| 0 <= j < i ==> self.array@[j] != feature,
            decreases self.array@.len() - i,
        {
            if self.array[i] == feature {
                let ghost before = self.array@;
                self.array.swap_remove(i);
                assert(is_first_occurrence(before, feature, i as int));
                assert(self.array@ =~= swap_removed(before, i as int));
                assert(is_first_occurrence(old(self)@, feature, i as int) && self@ == swap_removed(
                    old(self)@,
                    i as int,
                ));
                return true;
            }
            i = i + 1;
        }
        proof {
            if old(self)@.contains(feature) {
                let k = choose|k: int| 0 <= k < old(self)@.len() && old(self)@[k] == feature;
                assert(self.array@[k] != feature);
            }
        }
        false
    }

    /// `true` when `feature` is requested and not enabled yet.
    pub fn check(&self, feature: Feature) -> (r: bool)
        ensures
            r == self@.contains(feature),
    {
        let mut i: usize = 0;
        while i < self.array.len()
            invariant
                i <= self.array@.len(),
                forall|j: int| 0 <= j < i ==> self.array@[j] != feature,
            decreases self.array@.len() - i,
        {
            if self.array[i] == feature {
                return true;
            }
            i = i + 1;
        }
        proof {
            if self@.contains(feature) {
                let k = choose|k: int| 0 <= k < self@.len() && self@[k] == feature;
                assert(self.array@[k] != feature);
            }
        }
        false
    }

    /// Number of requests not enabled yet.
    pub fn len(&self) -> (r: usize)
        ensures
            r == self@.len(),
    {
        self.array.len()
    }

    /// Ends device creation; every requested feature must have been enabled.
    pub fn assert_empty(self)
        requires
            self@.len() == 0,
    {
    }
}

/// What a physical device supports, as read from its feature structures and extensions.
#[derive(Clone, Copy, Debug, PartialEq, Eq)]
pub struct DeviceFeatureSupport {
    pub scalar_block_layout: bool,
    pub runtime_descriptor_array: bool,
    pub descriptor_binding_uniform_buffer_update_after_bind: bool,
    pub descriptor_binding_sampled_image_update_after_bind: bool,
    pub descriptor_binding_storage_image_update_after_bind: bool,
    pub descriptor_binding_storage_buffer_update_after_bind: bool,
    pub descriptor_binding_uniform_texel_buffer_update_after_bind: bool,
    pub descriptor_binding_storage_texel_buffer_update_after_bind: bool,
    pub descriptor_binding_update_unused_while_pending: bool,
    pub descriptor_binding_partially_bound: bool,
    pub buffer_device_address: bool,
    pub dynamic_rendering: bool,
    pub acceleration_structure: bool,
    pub ray_tracing_pipeline: bool,
    pub shader_sampled_image_array_non_uniform_indexing: bool,
    pub shader_storage_image_array_non_uniform_indexing: bool,
    pub shader_uniform_buffer_array_non_uniform_indexing: bool,
    pub shader_storage_buffer_array_non_uniform_indexing: bool,
    pub shader_sampled_image_array_dynamic_indexing: bool,
    pub shader_storage_image_array_dynamic_indexing: bool,
    pub shader_uniform_buffer_array_dynamic_indexing: bool,
    pub shader_storage_buffer_array_dynamic_indexing: bool,
    /// The instance enabled the surface extension.
    pub instance_surface: bool,
    /// Device extensions that the device reports.
    pub extensions: AvailableExtensions,
}

/// Which of the device extensions that device creation may enable a device reports.
#[derive(Clone, Copy, Debug, PartialEq, Eq)]
pub struct AvailableExtensions {
    pub khr_swapchain: bool,
    pub google_display_timing: bool,
    pub ext_scalar_block_layout: bool,
    pub ext_descriptor_indexing: bool,
    pub khr_buffer_device_address: bool,
    pub khr_deferred_host_operations: bool,
    pub khr_acceleration_structure: bool,
    pub khr_ray_tracing_pipeline: bool,
    pub khr_dynamic_rendering: bool,
}

/// Whether a device with support `s` reports the extension `e`.
pub open spec fn spec_has_extension(s: DeviceFeatureSupport, e: DeviceExtension) -> bool {
    match e {
        DeviceExtension::KhrSwapchain => s.extensions.khr_swapchain,
        DeviceExtension::GoogleDisplayTiming => s.extensions.google_display_timing,
        DeviceExtension::ExtScalarBlockLayout => s.extensions.ext_scalar_block_layout,
        DeviceExtension::ExtDescriptorIndexing => s.extensions.ext_descriptor_indexing,
        DeviceExtension::KhrBufferDeviceAddress => s.extensions.khr_buffer_device_address,
        DeviceExtension::KhrDeferredHostOperations => s.extensions.khr_deferred_host_operations,
        DeviceExtension::KhrAccelerationStructure => s.extensions.khr_acceleration_structure,
        DeviceExtension::KhrRayTracingPipeline => s.extensions.khr_ray_tracing_pipeline,
        DeviceExtension::KhrDynamicRendering => s.extensions.khr_dynamic_rendering,
    }
}

/// Whether the feature structures and extensions of a device with support `s` provide
/// `feature`. Device creation accepts only the features the device lists (see
/// `spec_supported_features`), which provide what they need.
pub open spec fn spec_feature_enablable(s: DeviceFeatureSupport, feature: Feature) -> bool {
    match feature {
        Feature::SurfacePresentation => s.extensions.khr_swapchain,
        Feature::ScalarBlockLayout => s.scalar_block_layout,
        Feature::BufferDeviceAddress => s.buffer_device_address,
        Feature::AccelerationStructure => s.acceleration_structure,
        Feature::RayTracingPipeline => s.ray_tracing_pipeline,
        Feature::RuntimeDescriptorArray => s.runtime_descriptor_array,
        Feature::DescriptorBindingUniformBufferUpdateAfterBind => s.descriptor_binding_uniform_buffer_update_after_bind,
        Feature::DescriptorBindingSampledImageUpdateAfterBind => s.descriptor_binding_sampled_image_update_after_bind,
        Feature::DescriptorBindingStorageImageUpdateAfterBind => s.descriptor_binding_storage_image_update_after_bind,
        Feature::DescriptorBindingStorageBufferUpdateAfterBind => s.descriptor_binding_storage_buffer_update_after_bind,
        Feature::DescriptorBindingUniformTexelBufferUpdateAfterBind => s.descriptor_binding_uniform_texel_buffer_update_after_bind,
        Feature::DescriptorBindingStorageTexelBufferUpdateAfterBind => s.descriptor_binding_storage_texel_buffer_update_after_bind,
        Feature::DescriptorBindingUpdateUnusedWhilePending => s.descriptor_binding_update_unused_while_pending,
        Feature::DescriptorBindingPartiallyBound => s.descriptor_binding_partially_bound,
        Feature::ShaderSampledImageNonUniformIndexing => s.shader_sampled_image_array_non_uniform_indexing,
        Feature::ShaderSampledImageDynamicIndexing => s.shader_sampled_image_array_dynamic_indexing,
        Feature::ShaderStorageImageNonUniformIndexing => s.shader_storage_image_array_non_uniform_indexing,
        Feature::ShaderStorageImageDynamicIndexing => s.shader_storage_image_array_dynamic_indexing,
        Feature::ShaderUniformBufferNonUniformIndexing => s.shader_uniform_buffer_array_non_uniform_indexing,
        Feature::ShaderUniformBufferDynamicIndexing => s.shader_uniform_buffer_array_dynamic_indexing,
        Feature::ShaderStorageBufferNonUniformIndexing => s.shader_storage_buffer_array_non_uniform_indexing,
        Feature::ShaderStorageBufferDynamicIndexing => s.shader_storage_buffer_array_dynamic_indexing,
        Feature::DisplayTiming => s.extensions.google_display_timing,
        Feature::DynamicRendering => s.dynamic_rendering,
    }
}

/// The feature that device creation considers at step `i`, for `0 <= i < 24`.
pub open spec fn feature_at(i: int) -> Feature {
    if i == 0 {
        Feature::SurfacePresentation
    } else if i == 1 {
        Feature::ScalarBlockLayout
    } else if i == 2 {
        Feature::BufferDeviceAddress
    } else if i == 3 {
        Feature::AccelerationStructure
    } else if i == 4 {
        Feature::RayTracingPipeline
    } else if i == 5 {
        Feature::RuntimeDescriptorArray
    } else if i == 6 {
        Feature::DescriptorBindingUniformBufferUpdateAfterBind
    } else if i == 7 {
        Feature::DescriptorBindingSampledImageUpdateAfterBind
    } else if i == 8 {
        Feature::DescriptorBindingStorageImageUpdateAfterBind
    } else if i == 9 {
        Feature::DescriptorBindingStorageBufferUpdateAfterBind
    } else if i == 10 {
        Feature::DescriptorBindingUniformTexelBufferUpdateAfterBind
    } else if i == 11 {
        Feature::DescriptorBindingStorageTexelBufferUpdateAfterBind
    } else if i == 12 {
        Feature::DescriptorBindingUpdateUnusedWhilePending
    } else if i == 13 {
        Feature::DescriptorBindingPartiallyBound
    } else if i == 14 {
        Feature::ShaderSampledImageNonUniformIndexing
    } else if i == 15 {
        Feature::ShaderSampledImageDynamicIndexing
    } else if i == 16 {
        Feature::ShaderStorageImageNonUniformIndexing
    } else if i == 17 {
        Feature::ShaderStorageImageDynamicIndexing
    } else if i == 18 {
        Feature::ShaderUniformBufferNonUniformIndexing
    } else if i == 19 {
        Feature::ShaderUniformBufferDynamicIndexing
    } else if i == 20 {
        Feature::ShaderStorageBufferNonUniformIndexing
    } else if i == 21 {
        Feature::ShaderStorageBufferDynamicIndexing
    } else if i == 22 {
        Feature::DisplayTiming
    } else {
        Feature::DynamicRendering
    }
}

/// The step at which device creation considers `feature`.
pub open spec fn feature_step(feature: Feature) -> int {
    match feature {
        Feature::SurfacePresentation => 0,
        Feature::ScalarBlockLayout => 1,
        Feature::BufferDeviceAddress => 2,
        Feature::AccelerationStructure => 3,
        Feature::RayTracingPipeline => 4,
        Feature::RuntimeDescriptorArray => 5,
        Feature::DescriptorBindingUniformBufferUpdateAfterBind => 6,
        Feature::DescriptorBindingSampledImageUpdateAfterBind => 7,
        Feature::DescriptorBindingStorageImageUpdateAfterBind => 8,
        Feature::DescriptorBindingStorageBufferUpdateAfterBind => 9,
        Feature::DescriptorBindingUniformTexelBufferUpdateAfterBind => 10,
        Feature::DescriptorBindingStorageTexelBufferUpdateAfterBind => 11,
        Feature::DescriptorBindingUpdateUnusedWhilePending => 12,
        Feature::DescriptorBindingPartiallyBound => 13,
        Feature::ShaderSampledImageNonUniformIndexing => 14,
        Feature::ShaderSampledImageDynamicIndexing => 15,
        Feature::ShaderStorageImageNonUniformIndexing => 16,
        Feature::ShaderStorageImageDynamicIndexing => 17,
        Feature::ShaderUniformBufferNonUniformIndexing => 18,
        Feature::ShaderUniformBufferDynamicIndexing => 19,
        Feature::ShaderStorageBufferNonUniformIndexing => 20,
        Feature::ShaderStorageBufferDynamicIndexing => 21,
        Feature::DisplayTiming => 22,
        Feature::DynamicRendering => 23,
    }
}

/// Every feature is considered at exactly one step.
proof fn lemma_feature_steps(i: int, feature: Feature)
    ensures
        0 <= feature_step(feature) < 24,
        feature_at(feature_step(feature)) == feature,
        0 <= i < 24 ==> feature_step(feature_at(i)) == i,
{
}

/// The order in which device creation considers requested features.
pub open spec fn spec_feature_order() -> Seq<Feature> {
    Seq::new(24, |i: int| feature_at(i))
}

fn feature_order() -> (r: Vec<Feature>)
    ensures
        r@ == spec_feature_order(),
{
    let r = vec![
        Feature::SurfacePresentation,
        Feature::ScalarBlockLayout,
        Feature::BufferDeviceAddress,
        Feature::AccelerationStructure,
        Feature::RayTracingPipeline,
        Feature::RuntimeDescriptorArray,
        Feature::DescriptorBindingUniformBufferUpdateAfterBind,
        Feature::DescriptorBindingSampledImageUpdateAfterBind,
        Feature::DescriptorBindingStorageImageUpdateAfterBind,
        Feature::DescriptorBindingStorageBufferUpdateAfterBind,
        Feature::DescriptorBindingUniformTexelBufferUpdateAfterBind,
        Feature::DescriptorBindingStorageTexelBufferUpdateAfterBind,
        Feature::DescriptorBindingUpdateUnusedWhilePending,
        Feature::DescriptorBindingPartiallyBound,
        Feature::ShaderSampledImageNonUniformIndexing,
        Feature::ShaderSampledImageDynamicIndexing,
        Feature::ShaderStorageImageNonUniformIndexing,
        Feature::ShaderStorageImageDynamicIndexing,
        Feature::ShaderUniformBufferNonUniformIndexing,
        Feature::ShaderUniformBufferDynamicIndexing,
        Feature::ShaderStorageBufferNonUniformIndexing,
        Feature::ShaderStorageBufferDynamicIndexing,
        Feature::DisplayTiming,
        Feature::DynamicRendering,
    ];
    assert(r@ =~= spec_feature_order());
    r
}

/// The features that a device with support `s` offers, in the order they are listed.
pub open spec fn spec_supported_features(s: DeviceFeatureSupport) -> Seq<Feature> {
    listed_if(s.scalar_block_layout, Feature::ScalarBlockLayout)
        + listed_if(s.runtime_descriptor_array, Feature::RuntimeDescriptorArray)
        + listed_if(s.descriptor_binding_uniform_buffer_update_after_bind, Feature::DescriptorBindingUniformBufferUpdateAfterBind)
        + listed_if(s.descriptor_binding_sampled_image_update_after_bind, Feature::DescriptorBindingSampledImageUpdateAfterBind)
        + listed_if(s.descriptor_binding_storage_image_update_after_bind, Feature::DescriptorBindingStorageImageUpdateAfterBind)
        + listed_if(s.descriptor_binding_storage_buffer_update_after_bind, Feature::DescriptorBindingStorageBufferUpdateAfterBind)
        + listed_if(s.descriptor_binding_uniform_texel_buffer_update_after_bind, Feature::DescriptorBindingUniformTexelBufferUpdateAfterBind)
        + listed_if(s.descriptor_binding_storage_texel_buffer_update_after_bind, Feature::DescriptorBindingStorageTexelBufferUpdateAfterBind)
        + listed_if(s.descriptor_binding_update_unused_while_pending, Feature::DescriptorBindingUpdateUnusedWhilePending)
        + listed_if(s.descriptor_binding_partially_bound, Feature::DescriptorBindingPartiallyBound)
        + listed_if(s.buffer_device_address, Feature::BufferDeviceAddress)
        + listed_if(s.dynamic_rendering, Feature::DynamicRendering)
        + listed_if(s.acceleration_structure, Feature::AccelerationStructure)
        + listed_if(s.ray_tracing_pipeline, Feature::RayTracingPipeline)
        + listed_if(s.instance_surface && s.extensions.khr_swapchain, Feature::SurfacePresentation)
        + listed_if(
            s.instance_surface && s.extensions.khr_swapchain && s.extensions.google_display_timing,
            Feature::DisplayTiming,
        )
}

/// `x` alone when `cond` holds, nothing otherwise.
pub open spec fn listed_if<T>(cond: bool, x: T) -> Seq<T> {
    if cond {
        seq![x]
    } else {
        Seq::empty()
    }
}

fn push_if<T>(items: &mut Vec<T>, cond: bool, x: T)
    ensures
        final(items)@ == old(items)@ + listed_if(cond, x),
{
    if cond {
        items.push(x);
    }
    assert(items@ =~= old(items)@ + listed_if(cond, x));
}

impl DeviceFeatureSupport {
    /// Whether device creation can enable `feature` on this device.
    pub fn can_enable(&self, feature: Feature) -> (r: bool)
        ensures
            r == spec_feature_enablable(*self, feature),
    {
        match feature {
            Feature::SurfacePresentation => self.extensions.khr_swapchain,
            Feature::ScalarBlockLayout => self.scalar_block_layout,
            Feature::BufferDeviceAddress => self.buffer_device_address,
            Feature::AccelerationStructure => self.acceleration_structure,
            Feature::RayTracingPipeline => self.ray_tracing_pipeline,
            Feature::RuntimeDescriptorArray => self.runtime_descriptor_array,
            Feature::DescriptorBindingUniformBufferUpdateAfterBind => self.descriptor_binding_uniform_buffer_update_after_bind,
            Feature::DescriptorBindingSampledImageUpdateAfterBind => self.descriptor_binding_sampled_image_update_after_bind,
            Feature::DescriptorBindingStorageImageUpdateAfterBind => self.descriptor_binding_storage_image_update_after_bind,
            Feature::DescriptorBindingStorageBufferUpdateAfterBind => self.descriptor_binding_storage_buffer_update_after_bind,
            Feature::DescriptorBindingUniformTexelBufferUpdateAfterBind => self.descriptor_binding_uniform_texel_buffer_update_after_bind,
            Feature::DescriptorBindingStorageTexelBufferUpdateAfterBind => self.descriptor_binding_storage_texel_buffer_update_after_bind,
            Feature::DescriptorBindingUpdateUnusedWhilePending => self.descriptor_binding_update_unused_while_pending,
            Feature::DescriptorBindingPartiallyBound => self.descriptor_binding_partially_bound,
            Feature::ShaderSampledImageNonUniformIndexing => self.shader_sampled_image_array_non_uniform_indexing,
            Feature::ShaderSampledImageDynamicIndexing => self.shader_sampled_image_array_dynamic_indexing,
            Feature::ShaderStorageImageNonUniformIndexing => self.shader_storage_image_array_non_uniform_indexing,
            Feature::ShaderStorageImageDynamicIndexing => self.shader_storage_image_array_dynamic_indexing,
            Feature::ShaderUniformBufferNonUniformIndexing => self.shader_uniform_buffer_array_non_uniform_indexing,
            Feature::ShaderUniformBufferDynamicIndexing => self.shader_uniform_buffer_array_dynamic_indexing,
            Feature::ShaderStorageBufferNonUniformIndexing => self.shader_storage_buffer_array_non_uniform_indexing,
            Feature::ShaderStorageBufferDynamicIndexing => self.shader_storage_buffer_array_dynamic_indexing,
            Feature::DisplayTiming => self.extensions.google_display_timing,
            Feature::DynamicRendering => self.dynamic_rendering,
        }
    }

    /// Whether this device reports the extension `e`.
    pub fn has_extension(&self, e: DeviceExtension) -> (r: bool)
        ensures
            r == spec_has_extension(*self, e),
    {
        match e {
            DeviceExtension::KhrSwapchain => self.extensions.khr_swapchain,
            DeviceExtension::GoogleDisplayTiming => self.extensions.google_display_timing,
            DeviceExtension::ExtScalarBlockLayout => self.extensions.ext_scalar_block_layout,
            DeviceExtension::ExtDescriptorIndexing => self.extensions.ext_descriptor_indexing,
            DeviceExtension::KhrBufferDeviceAddress => self.extensions.khr_buffer_device_address,
            DeviceExtension::KhrDeferredHostOperations => self.extensions.khr_deferred_host_operations,
            DeviceExtension::KhrAccelerationStructure => self.extensions.khr_acceleration_structure,
            DeviceExtension::KhrRayTracingPipeline => self.extensions.khr_ray_tracing_pipeline,
            DeviceExtension::KhrDynamicRendering => self.extensions.khr_dynamic_rendering,
        }
    }

    /// The features this device offers. Acceleration structures need buffer device
    /// addresses, and ray tracing pipelines need acceleration structures.
    pub fn supported_features(&self) -> (r: Vec<Feature>)
        requires
            self.acceleration_structure ==> self.buffer_device_address,
            self.ray_tracing_pipeline ==> self.acceleration_structure,
        ensures
            r@ == spec_supported_features(*self),
    {
        let mut features: Vec<Feature> = Vec::new();
        push_if(&mut features, self.scalar_block_layout, Feature::ScalarBlockLayout);
        assert(features@ =~= listed_if(self.scalar_block_layout, Feature::ScalarBlockLayout));
        push_if(&mut features, self.runtime_descriptor_array, Feature::RuntimeDescriptorArray);
        push_if(&mut features, self.descriptor_binding_uniform_buffer_update_after_bind, Feature::DescriptorBindingUniformBufferUpdateAfterBind);
        push_if(&mut features, self.descriptor_binding_sampled_image_update_after_bind, Feature::DescriptorBindingSampledImageUpdateAfterBind);
        push_if(&mut features, self.descriptor_binding_storage_image_update_after_bind, Feature::DescriptorBindingStorageImageUpdateAfterBind);
        push_if(&mut features, self.descriptor_binding_storage_buffer_update_after_bind, Feature::DescriptorBindingStorageBufferUpdateAfterBind);
        push_if(&mut features, self.descriptor_binding_uniform_texel_buffer_update_after_bind, Feature::DescriptorBindingUniformTexelBufferUpdateAfterBind);
        push_if(&mut features, self.descriptor_binding_storage_texel_buffer_update_after_bind, Feature::DescriptorBindingStorageTexelBufferUpdateAfterBind);
        push_if(&mut features, self.descriptor_binding_update_unused_while_pending, Feature::DescriptorBindingUpdateUnusedWhilePending);
        push_if(&mut features, self.descriptor_binding_partially_bound, Feature::DescriptorBindingPartiallyBound);
        push_if(&mut features, self.buffer_device_address, Feature::BufferDeviceAddress);
        push_if(&mut features, self.dynamic_rendering, Feature::DynamicRendering);
        push_if(&mut features, self.acceleration_structure, Feature::AccelerationStructure);
        push_if(&mut features, self.ray_tracing_pipeline, Feature::RayTracingPipeline);
        let presentation = self.instance_surface && self.extensions.khr_swapchain;
        push_if(&mut features, presentation, Feature::SurfacePresentation);
        push_if(
            &mut features,
            presentation && self.extensions.google_display_timing,
            Feature::DisplayTiming,
        );
        features
    }
}

/// Vulkan API versions that the instance enabled.
#[derive(Clone, Copy, Debug, PartialEq, Eq)]
pub struct ApiVersions {
    pub vk1_1: bool,
    pub vk1_2: bool,
    pub vk1_3: bool,
}

/// Device extensions that device creation may enable.
#[derive(Clone, Copy, Debug, PartialEq, Eq, Structural, Hash)]
pub enum DeviceExtension {
    KhrSwapchain,
    GoogleDisplayTiming,
    ExtScalarBlockLayout,
    ExtDescriptorIndexing,
    KhrBufferDeviceAddress,
    KhrDeferredHostOperations,
    KhrAccelerationStructure,
    KhrRayTracingPipeline,
    KhrDynamicRendering,
}

/// Which device extensions, among those device creation may enable, `reported` lists.
pub open spec fn spec_available_extensions(reported: Seq<DeviceExtension>) -> AvailableExtensions {
    AvailableExtensions {
        khr_swapchain: reported.contains(DeviceExtension::KhrSwapchain),
        google_display_timing: reported.contains(DeviceExtension::GoogleDisplayTiming),
        ext_scalar_block_layout: reported.contains(DeviceExtension::ExtScalarBlockLayout),
        ext_descriptor_indexing: reported.contains(DeviceExtension::ExtDescriptorIndexing),
        khr_buffer_device_address: reported.contains(DeviceExtension::KhrBufferDeviceAddress),
        khr_deferred_host_operations: reported.contains(DeviceExtension::KhrDeferredHostOperations),
        khr_acceleration_structure: reported.contains(DeviceExtension::KhrAccelerationStructure),
        khr_ray_tracing_pipeline: reported.contains(DeviceExtension::KhrRayTracingPipeline),
        khr_dynamic_rendering: reported.contains(DeviceExtension::KhrDynamicRendering),
    }
}

fn reports(reported: &[DeviceExtension], e: DeviceExtension) -> (r: bool)
    ensures
        r == reported@.contains(e),
{
    let mut i: usize = 0;
    while i < reported.len()
        invariant
            i <= reported@.len(),
            forall|j: int| 0 <= j < i ==> reported@[j] != e,
        decreases reported@.len() - i,
    {
        if reported[i] == e {
            return true;
        }
        i = i + 1;
    }
    false
}

/// The extensions that a device reporting `reported` offers to device creation.
pub fn available_extensions(reported: &[DeviceExtension]) -> (r: AvailableExtensions)
    ensures
        r == spec_available_extensions(reported@),
{
    AvailableExtensions {
        khr_swapchain: reports(reported, DeviceExtension::KhrSwapchain),
        google_display_timing: reports(reported, DeviceExtension::GoogleDisplayTiming),
        ext_scalar_block_layout: reports(reported, DeviceExtension::ExtScalarBlockLayout),
        ext_descriptor_indexing: reports(reported, DeviceExtension::ExtDescriptorIndexing),
        khr_buffer_device_address: reports(reported, DeviceExtension::KhrBufferDeviceAddress),
        khr_deferred_host_operations: reports(reported, DeviceExtension::KhrDeferredHostOperations),
        khr_acceleration_structure: reports(reported, DeviceExtension::KhrAccelerationStructure),
        khr_ray_tracing_pipeline: reports(reported, DeviceExtension::KhrRayTracingPipeline),
        khr_dynamic_rendering: reports(reported, DeviceExtension::KhrDynamicRendering),
    }
}

/// The feature structures that the features query of a physical device fills. Without
/// Vulkan 1.1 or the instance extension for the second query, only the core structure
/// is read.
#[derive(Clone, Copy, Debug, PartialEq, Eq)]
pub struct FeatureQueryPlan {
    pub features2: bool,
    pub vulkan11: bool,
    pub vulkan12: bool,
    pub vulkan13: bool,
    pub scalar_block_layout: bool,
    pub descriptor_indexing: bool,
    pub buffer_device_address: bool,
    pub dynamic_rendering: bool,
    pub acceleration_structure: bool,
    pub ray_tracing_pipeline: bool,
}

/// The structures to query: core versions the instance enabled, and for features that
/// a later core version would hold, the extension structure when the device reports it.
pub open spec fn spec_feature_query_plan(
    api: ApiVersions,
    properties2: bool,
    ext: AvailableExtensions,
) -> FeatureQueryPlan {
    let q = api.vk1_1 || properties2;
    FeatureQueryPlan {
        features2: q,
        vulkan11: q && api.vk1_1,
        vulkan12: q && api.vk1_2,
        vulkan13: q && api.vk1_3,
        scalar_block_layout: q && !api.vk1_2 && ext.ext_scalar_block_layout,
        descriptor_indexing: q && !api.vk1_2 && ext.ext_descriptor_indexing,
        buffer_device_address: q && !api.vk1_2 && ext.khr_buffer_device_address,
        dynamic_rendering: q && !api.vk1_3 && ext.khr_dynamic_rendering,
        acceleration_structure: q && ext.khr_acceleration_structure,
        ray_tracing_pipeline: q && ext.khr_ray_tracing_pipeline,
    }
}

/// Chooses the feature structures to query on a device with extensions `ext`, when the
/// instance enabled the versions `api` and, when `properties2`, the instance extension
/// for the second query.
pub fn feature_query_plan(api: ApiVersions, properties2: bool, ext: &AvailableExtensions) -> (r:
    FeatureQueryPlan)
    ensures
        r == spec_feature_query_plan(api, properties2, *ext),
{
    let q = api.vk1_1 || properties2;
    FeatureQueryPlan {
        features2: q,
        vulkan11: q && api.vk1_1,
        vulkan12: q && api.vk1_2,
        vulkan13: q && api.vk1_3,
        scalar_block_layout: q && !api.vk1_2 && ext.ext_scalar_block_layout,
        descriptor_indexing: q && !api.vk1_2 && ext.ext_descriptor_indexing,
        buffer_device_address: q && !api.vk1_2 && ext.khr_buffer_device_address,
        dynamic_rendering: q && !api.vk1_3 && ext.khr_dynamic_rendering,
        acceleration_structure: q && ext.khr_acceleration_structure,
        ray_tracing_pipeline: q && ext.khr_ray_tracing_pipeline,
    }
}

/// The descriptor indexing features of one feature structure.
#[derive(Clone, Copy, Debug, PartialEq, Eq)]
pub struct DescriptorIndexingFlags {
    pub runtime_descriptor_array: bool,
    pub uniform_buffer_update_after_bind: bool,
    pub sampled_image_update_after_bind: bool,
    pub storage_image_update_after_bind: bool,
    pub storage_buffer_update_after_bind: bool,
    pub uniform_texel_buffer_update_after_bind: bool,
    pub storage_texel_buffer_update_after_bind: bool,
    pub update_unused_while_pending: bool,
    pub partially_bound: bool,
    pub sampled_image_non_uniform_indexing: bool,
    pub storage_image_non_uniform_indexing: bool,
    pub uniform_buffer_non_uniform_indexing: bool,
    pub storage_buffer_non_uniform_indexing: bool,
}

/// What each feature structure reported, as read back after the query; a structure that
/// was not queried reads as all features absent.
#[derive(Clone, Copy, Debug, PartialEq, Eq)]
pub struct RawFeatureFlags {
    pub shader_sampled_image_array_dynamic_indexing: bool,
    pub shader_storage_image_array_dynamic_indexing: bool,
    pub shader_uniform_buffer_array_dynamic_indexing: bool,
    pub shader_storage_buffer_array_dynamic_indexing: bool,
    pub v12_scalar_block_layout: bool,
    pub v12_buffer_device_address: bool,
    pub v12_descriptor_indexing: DescriptorIndexingFlags,
    pub v13_dynamic_rendering: bool,
    pub scalar_block_layout: bool,
    pub descriptor_indexing: DescriptorIndexingFlags,
    pub buffer_device_address: bool,
    pub dynamic_rendering: bool,
    pub acceleration_structure: bool,
    pub ray_tracing_pipeline: bool,
}

/// A feature read from the core structure when `core` was queried, else from the
/// extension structure when `fallback` was queried.
pub open spec fn from_queried(core: bool, core_value: bool, fallback: bool, fallback_value: bool) -> bool {
    (core && core_value) || (fallback && fallback_value)
}

/// The support of a device whose queried structures, chosen by `plan`, reported `raw`.
pub open spec fn spec_merge_feature_support(
    plan: FeatureQueryPlan,
    raw: RawFeatureFlags,
    instance_surface: bool,
    ext: AvailableExtensions,
) -> DeviceFeatureSupport {
    let c = plan.vulkan12;
    let e = plan.descriptor_indexing;
    let a = raw.v12_descriptor_indexing;
    let b = raw.descriptor_indexing;
    DeviceFeatureSupport {
        scalar_block_layout: from_queried(c, raw.v12_scalar_block_layout, plan.scalar_block_layout, raw.scalar_block_layout),
        runtime_descriptor_array: from_queried(c, a.runtime_descriptor_array, e, b.runtime_descriptor_array),
        descriptor_binding_uniform_buffer_update_after_bind: from_queried(c, a.uniform_buffer_update_after_bind, e, b.uniform_buffer_update_after_bind),
        descriptor_binding_sampled_image_update_after_bind: from_queried(c, a.sampled_image_update_after_bind, e, b.sampled_image_update_after_bind),
        descriptor_binding_storage_image_update_after_bind: from_queried(c, a.storage_image_update_after_bind, e, b.storage_image_update_after_bind),
        descriptor_binding_storage_buffer_update_after_bind: from_queried(c, a.storage_buffer_update_after_bind, e, b.storage_buffer_update_after_bind),
        descriptor_binding_uniform_texel_buffer_update_after_bind: from_queried(c, a.uniform_texel_buffer_update_after_bind, e, b.uniform_texel_buffer_update_after_bind),
        descriptor_binding_storage_texel_buffer_update_after_bind: from_queried(c, a.storage_texel_buffer_update_after_bind, e, b.storage_texel_buffer_update_after_bind),
        descriptor_binding_update_unused_while_pending: from_queried(c, a.update_unused_while_pending, e, b.update_unused_while_pending),
        descriptor_binding_partially_bound: from_queried(c, a.partially_bound, e, b.partially_bound),
        buffer_device_address: from_queried(c, raw.v12_buffer_device_address, plan.buffer_device_address, raw.buffer_device_address),
        dynamic_rendering: from_queried(plan.vulkan13, raw.v13_dynamic_rendering, plan.dynamic_rendering, raw.dynamic_rendering),
        acceleration_structure: plan.acceleration_structure && raw.acceleration_structure,
        ray_tracing_pipeline: plan.ray_tracing_pipeline && raw.ray_tracing_pipeline,
        shader_sampled_image_array_non_uniform_indexing: from_queried(c, a.sampled_image_non_uniform_indexing, e, b.sampled_image_non_uniform_indexing),
        shader_storage_image_array_non_uniform_indexing: from_queried(c, a.storage_image_non_uniform_indexing, e, b.storage_image_non_uniform_indexing),
        shader_uniform_buffer_array_non_uniform_indexing: from_queried(c, a.uniform_buffer_non_uniform_indexing, e, b.uniform_buffer_non_uniform_indexing),
        shader_storage_buffer_array_non_uniform_indexing: from_queried(c, a.storage_buffer_non_uniform_indexing, e, b.storage_buffer_non_uniform_indexing),
        shader_sampled_image_array_dynamic_indexing: raw.shader_sampled_image_array_dynamic_indexing,
        shader_storage_image_array_dynamic_indexing: raw.shader_storage_image_array_dynamic_indexing,
        shader_uniform_buffer_array_dynamic_indexing: raw.shader_uniform_buffer_array_dynamic_indexing,
        shader_storage_buffer_array_dynamic_indexing: raw.shader_storage_buffer_array_dynamic_indexing,
        instance_surface,
        extensions: ext,
    }
}

fn pick(core: bool, core_value: bool, fallback: bool, fallback_value: bool) -> (r: bool)
    ensures
        r == from_queried(core, core_value, fallback, fallback_value),
{
    (core && core_value) || (fallback && fallback_value)
}

/// Merges what the queried structures reported into the device's feature support: a
/// feature of a later core version comes from the core structure when it was queried,
/// else from its extension structure.
pub fn merge_feature_support(
    plan: &FeatureQueryPlan,
    raw: &RawFeatureFlags,
    instance_surface: bool,
    ext: &AvailableExtensions,
) -> (r: DeviceFeatureSupport)
    ensures
        r == spec_merge_feature_support(*plan, *raw, instance_surface, *ext),
{
    let c = plan.vulkan12;
    let e = plan.descriptor_indexing;
    let a = raw.v12_descriptor_indexing;
    let b = raw.descriptor_indexing;
    DeviceFeatureSupport {
        scalar_block_layout: pick(c, raw.v12_scalar_block_layout, plan.scalar_block_layout, raw.scalar_block_layout),
        runtime_descriptor_array: pick(c, a.runtime_descriptor_array, e, b.runtime_descriptor_array),
        descriptor_binding_uniform_buffer_update_after_bind: pick(c, a.uniform_buffer_update_after_bind, e, b.uniform_buffer_update_after_bind),
        descriptor_binding_sampled_image_update_after_bind: pick(c, a.sampled_image_update_after_bind, e, b.sampled_image_update_after_bind),
        descriptor_binding_storage_image_update_after_bind: pick(c, a.storage_image_update_after_bind, e, b.storage_image_update_after_bind),
        descriptor_binding_storage_buffer_update_after_bind: pick(c, a.storage_buffer_update_after_bind, e, b.storage_buffer_update_after_bind),
        descriptor_binding_uniform_texel_buffer_update_after_bind: pick(c, a.uniform_texel_buffer_update_after_bind, e, b.uniform_texel_buffer_update_after_bind),
        descriptor_binding_storage_texel_buffer_update_after_bind: pick(c, a.storage_texel_buffer_update_after_bind, e, b.storage_texel_buffer_update_after_bind),
        descriptor_binding_update_unused_while_pending: pick(c, a.update_unused_while_pending, e, b.update_unused_while_pending),
        descriptor_binding_partially_bound: pick(c, a.partially_bound, e, b.partially_bound),
        buffer_device_address: pick(c, raw.v12_buffer_device_address, plan.buffer_device_address, raw.buffer_device_address),
        dynamic_rendering: pick(plan.vulkan13, raw.v13_dynamic_rendering, plan.dynamic_rendering, raw.dynamic_rendering),
        acceleration_structure: plan.acceleration_structure && raw.acceleration_structure,
        ray_tracing_pipeline: plan.ray_tracing_pipeline && raw.ray_tracing_pipeline,
        shader_sampled_image_array_non_uniform_indexing: pick(c, a.sampled_image_non_uniform_indexing, e, b.sampled_image_non_uniform_indexing),
        shader_storage_image_array_non_uniform_indexing: pick(c, a.storage_image_non_uniform_indexing, e, b.storage_image_non_uniform_indexing),
        shader_uniform_buffer_array_non_uniform_indexing: pick(c, a.uniform_buffer_non_uniform_indexing, e, b.uniform_buffer_non_uniform_indexing),
        shader_storage_buffer_array_non_uniform_indexing: pick(c, a.storage_buffer_non_uniform_indexing, e, b.storage_buffer_non_uniform_indexing),
        shader_sampled_image_array_dynamic_indexing: raw.shader_sampled_image_array_dynamic_indexing,
        shader_storage_image_array_dynamic_indexing: raw.shader_storage_image_array_dynamic_indexing,
        shader_uniform_buffer_array_dynamic_indexing: raw.shader_uniform_buffer_array_dynamic_indexing,
        shader_storage_buffer_array_dynamic_indexing: raw.shader_storage_buffer_array_dynamic_indexing,
        instance_surface,
        extensions: *ext,
    }
}

/// Each feature of the merged support is read from the structure that the query filled
/// for it: on Vulkan 1.2 the core structure (and on Vulkan 1.3 the core one for dynamic
/// rendering), else the extension structure when it was queried; a feature whose
/// structures were not queried is unsupported. Core and extension structures holding the
/// same feature are never both queried.
pub proof fn lemma_merged_features_come_from_queried_structures(
    api: ApiVersions,
    properties2: bool,
    ext: AvailableExtensions,
    raw: RawFeatureFlags,
    instance_surface: bool,
)
    ensures
        ({
            let plan = spec_feature_query_plan(api, properties2, ext);
            let s = spec_merge_feature_support(plan, raw, instance_surface, ext);
            &&& plan.vulkan12 ==> s.runtime_descriptor_array == raw.v12_descriptor_indexing.runtime_descriptor_array
            &&& plan.descriptor_indexing ==> s.runtime_descriptor_array == raw.descriptor_indexing.runtime_descriptor_array
            &&& !plan.vulkan12 && !plan.descriptor_indexing ==> !s.runtime_descriptor_array
            &&& plan.vulkan12 ==> s.descriptor_binding_uniform_buffer_update_after_bind == raw.v12_descriptor_indexing.uniform_buffer_update_after_bind
            &&& plan.descriptor_indexing ==> s.descriptor_binding_uniform_buffer_update_after_bind == raw.descriptor_indexing.uniform_buffer_update_after_bind
            &&& !plan.vulkan12 && !plan.descriptor_indexing ==> !s.descriptor_binding_uniform_buffer_update_after_bind
            &&& plan.vulkan12 ==> s.descriptor_binding_sampled_image_update_after_bind == raw.v12_descriptor_indexing.sampled_image_update_after_bind
            &&& plan.descriptor_indexing ==> s.descriptor_binding_sampled_image_update_after_bind == raw.descriptor_indexing.sampled_image_update_after_bind
            &&& !plan.vulkan12 && !plan.descriptor_indexing ==> !s.descriptor_binding_sampled_image_update_after_bind
            &&& plan.vulkan12 ==> s.descriptor_binding_storage_image_update_after_bind == raw.v12_descriptor_indexing.storage_image_update_after_bind
            &&& plan.descriptor_indexing ==> s.descriptor_binding_storage_image_update_after_bind == raw.descriptor_indexing.storage_image_update_after_bind
            &&& !plan.vulkan12 && !plan.descriptor_indexing ==> !s.descriptor_binding_storage_image_update_after_bind
            &&& plan.vulkan12 ==> s.descriptor_binding_storage_buffer_update_after_bind == raw.v12_descriptor_indexing.storage_buffer_update_after_bind
            &&& plan.descriptor_indexing ==> s.descriptor_binding_storage_buffer_update_after_bind == raw.descriptor_indexing.storage_buffer_update_after_bind
            &&& !plan.vulkan12 && !plan.descriptor_indexing ==> !s.descriptor_binding_storage_buffer_update_after_bind
            &&& plan.vulkan12 ==> s.descriptor_binding_uniform_texel_buffer_update_after_bind == raw.v12_descriptor_indexing.uniform_texel_buffer_update_after_bind
            &&& plan.descriptor_indexing ==> s.descriptor_binding_uniform_texel_buffer_update_after_bind == raw.descriptor_indexing.uniform_texel_buffer_update_after_bind
            &&& !plan.vulkan12 && !plan.descriptor_indexing ==> !s.descriptor_binding_uniform_texel_buffer_update_after_bind
            &&& plan.vulkan12 ==> s.descriptor_binding_storage_texel_buffer_update_after_bind == raw.v12_descriptor_indexing.storage_texel_buffer_update_after_bind
            &&& plan.descriptor_indexing ==> s.descriptor_binding_storage_texel_buffer_update_after_bind == raw.descriptor_indexing.storage_texel_buffer_update_after_bind
            &&& !plan.vulkan12 && !plan.descriptor_indexing ==> !s.descriptor_binding_storage_texel_buffer_update_after_bind
            &&& plan.vulkan12 ==> s.descriptor_binding_update_unused_while_pending == raw.v12_descriptor_indexing.update_unused_while_pending
            &&& plan.descriptor_indexing ==> s.descriptor_binding_update_unused_while_pending == raw.descriptor_indexing.update_unused_while_pending
            &&& !plan.vulkan12 && !plan.descriptor_indexing ==> !s.descriptor_binding_update_unused_while_pending
            &&& plan.vulkan12 ==> s.descriptor_binding_partially_bound == raw.v12_descriptor_indexing.partially_bound
            &&& plan.descriptor_indexing ==> s.descriptor_binding_partially_bound == raw.descriptor_indexing.partially_bound
            &&& !plan.vulkan12 && !plan.descriptor_indexing ==> !s.descriptor_binding_partially_bound
            &&& plan.vulkan12 ==> s.shader_sampled_image_array_non_uniform_indexing == raw.v12_descriptor_indexing.sampled_image_non_uniform_indexing
            &&& plan.descriptor_indexing ==> s.shader_sampled_image_array_non_uniform_indexing == raw.descriptor_indexing.sampled_image_non_uniform_indexing
            &&& !plan.vulkan12 && !plan.descriptor_indexing ==> !s.shader_sampled_image_array_non_uniform_indexing
            &&& plan.vulkan12 ==> s.shader_storage_image_array_non_uniform_indexing == raw.v12_descriptor_indexing.storage_image_non_uniform_indexing
            &&& plan.descriptor_indexing ==> s.shader_storage_image_array_non_uniform_indexing == raw.descriptor_indexing.storage_image_non_uniform_indexing
            &&& !plan.vulkan12 && !plan.descriptor_indexing ==> !s.shader_storage_image_array_non_uniform_indexing
            &&& plan.vulkan12 ==> s.shader_uniform_buffer_array_non_uniform_indexing == raw.v12_descriptor_indexing.uniform_buffer_non_uniform_indexing
            &&& plan.descriptor_indexing ==> s.shader_uniform_buffer_array_non_uniform_indexing == raw.descriptor_indexing.uniform_buffer_non_uniform_indexing
            &&& !plan.vulkan12 && !plan.descriptor_indexing ==> !s.shader_uniform_buffer_array_non_uniform_indexing
            &&& plan.vulkan12 ==> s.shader_storage_buffer_array_non_uniform_indexing == raw.v12_descriptor_indexing.storage_buffer_non_uniform_indexing
            &&& plan.descriptor_indexing ==> s.shader_storage_buffer_array_non_uniform_indexing == raw.descriptor_indexing.storage_buffer_non_uniform_indexing
            &&& !plan.vulkan12 && !plan.descriptor_indexing ==> !s.shader_storage_buffer_array_non_uniform_indexing
            &&& plan.vulkan12 ==> s.scalar_block_layout == raw.v12_scalar_block_layout
            &&& plan.scalar_block_layout ==> s.scalar_block_layout == raw.scalar_block_layout
            &&& !plan.vulkan12 && !plan.scalar_block_layout ==> !s.scalar_block_layout
            &&& plan.vulkan12 ==> s.buffer_device_address == raw.v12_buffer_device_address
            &&& plan.buffer_device_address ==> s.buffer_device_address == raw.buffer_device_address
            &&& !plan.vulkan12 && !plan.buffer_device_address ==> !s.buffer_device_address
            &&& plan.vulkan13 ==> s.dynamic_rendering == raw.v13_dynamic_rendering
            &&& plan.dynamic_rendering ==> s.dynamic_rendering == raw.dynamic_rendering
            &&& !plan.vulkan13 && !plan.dynamic_rendering ==> !s.dynamic_rendering
            &&& s.acceleration_structure == (plan.acceleration_structure && raw.acceleration_structure)
            &&& s.ray_tracing_pipeline == (plan.ray_tracing_pipeline && raw.ray_tracing_pipeline)
            &&& s.shader_sampled_image_array_dynamic_indexing == raw.shader_sampled_image_array_dynamic_indexing
            &&& s.shader_storage_image_array_dynamic_indexing == raw.shader_storage_image_array_dynamic_indexing
            &&& s.shader_uniform_buffer_array_dynamic_indexing == raw.shader_uniform_buffer_array_dynamic_indexing
            &&& s.shader_storage_buffer_array_dynamic_indexing == raw.shader_storage_buffer_array_dynamic_indexing
            &&& s.instance_surface == instance_surface
            &&& s.extensions == ext
            &&& !(plan.vulkan12 && (plan.scalar_block_layout || plan.descriptor_indexing || plan.buffer_device_address))
            &&& !(plan.vulkan13 && plan.dynamic_rendering)
        }),
{
}

/// A feature is supported only when the structure that holds it was queried, and the
/// structures of device extensions are queried only when the device reports them.
pub proof fn lemma_merged_support_needs_queried_structures(
    api: ApiVersions,
    properties2: bool,
    ext: AvailableExtensions,
    raw: RawFeatureFlags,
    instance_surface: bool,
)
    ensures
        ({
            let plan = spec_feature_query_plan(api, properties2, ext);
            let s = spec_merge_feature_support(plan, raw, instance_surface, ext);
            &&& s.acceleration_structure ==> ext.khr_acceleration_structure
            &&& s.ray_tracing_pipeline ==> ext.khr_ray_tracing_pipeline
            &&& s.scalar_block_layout ==> api.vk1_2 || ext.ext_scalar_block_layout
            &&& s.buffer_device_address ==> api.vk1_2 || ext.khr_buffer_device_address
            &&& s.runtime_descriptor_array ==> api.vk1_2 || ext.ext_descriptor_indexing
            &&& s.dynamic_rendering ==> api.vk1_3 || ext.khr_dynamic_rendering
            &&& !(api.vk1_1 || properties2) ==> !s.scalar_block_layout && !s.dynamic_rendering
                && !s.acceleration_structure && !s.buffer_device_address
        }),
{
}

/// Feature structures chained to the device create info.
#[derive(Clone, Copy, Debug, PartialEq, Eq)]
pub struct FeatureChain {
    pub vulkan12: bool,
    pub vulkan13: bool,
    pub scalar_block_layout: bool,
    pub descriptor_indexing: bool,
    pub buffer_device_address: bool,
    pub acceleration_structure: bool,
    pub ray_tracing_pipeline: bool,
    pub dynamic_rendering: bool,
}

/// What device creation enables: the features, the feature structures to chain, and
/// the extensions, in the order they are enabled.
#[derive(Clone, Debug)]
pub struct DeviceFeaturePlan {
    pub enabled: Vec<Feature>,
    pub chain: FeatureChain,
    pub extensions: Vec<DeviceExtension>,
}

/// Features enabled through the Vulkan 1.2 feature structure.
pub open spec fn is_vulkan12_feature(feature: Feature) -> bool {
    feature == Feature::ScalarBlockLayout || feature == Feature::BufferDeviceAddress
        || is_descriptor_indexing_feature(feature)
}

/// Features enabled through the descriptor indexing feature structure.
pub open spec fn is_descriptor_indexing_feature(feature: Feature) -> bool {
    match feature {
        Feature::RuntimeDescriptorArray
        | Feature::DescriptorBindingUniformBufferUpdateAfterBind
        | Feature::DescriptorBindingSampledImageUpdateAfterBind
        | Feature::DescriptorBindingStorageImageUpdateAfterBind
        | Feature::DescriptorBindingStorageBufferUpdateAfterBind
        | Feature::DescriptorBindingUniformTexelBufferUpdateAfterBind
        | Feature::DescriptorBindingStorageTexelBufferUpdateAfterBind
        | Feature::DescriptorBindingUpdateUnusedWhilePending
        | Feature::DescriptorBindingPartiallyBound
        | Feature::ShaderSampledImageNonUniformIndexing
        | Feature::ShaderStorageImageNonUniformIndexing
        | Feature::ShaderUniformBufferNonUniformIndexing
        | Feature::ShaderStorageBufferNonUniformIndexing => true,
        _ => false,
    }
}

/// The feature structures to chain for the `requested` features.
pub open spec fn spec_feature_chain(requested: Seq<Feature>, api: ApiVersions) -> FeatureChain {
    let v12 = exists|f: Feature| requested.contains(f) && is_vulkan12_feature(f);
    let di = exists|f: Feature| requested.contains(f) && is_descriptor_indexing_feature(f);
    FeatureChain {
        vulkan12: api.vk1_2 && v12,
        vulkan13: api.vk1_3 && requested.contains(Feature::DynamicRendering),
        scalar_block_layout: !api.vk1_2 && requested.contains(Feature::ScalarBlockLayout),
        descriptor_indexing: !api.vk1_2 && di,
        buffer_device_address: !api.vk1_2 && requested.contains(Feature::BufferDeviceAddress),
        acceleration_structure: requested.contains(Feature::AccelerationStructure),
        ray_tracing_pipeline: requested.contains(Feature::RayTracingPipeline),
        dynamic_rendering: !api.vk1_3 && requested.contains(Feature::DynamicRendering),
    }
}

/// The extensions to enable, in order.
pub open spec fn spec_device_extensions(requested: Seq<Feature>, chain: FeatureChain) -> Seq<
    DeviceExtension,
> {
    listed_if(requested.contains(Feature::SurfacePresentation), DeviceExtension::KhrSwapchain)
        + listed_if(requested.contains(Feature::DisplayTiming), DeviceExtension::GoogleDisplayTiming)
        + listed_if(chain.scalar_block_layout, DeviceExtension::ExtScalarBlockLayout)
        + listed_if(chain.descriptor_indexing, DeviceExtension::ExtDescriptorIndexing)
        + listed_if(chain.buffer_device_address, DeviceExtension::KhrBufferDeviceAddress)
        + listed_if(chain.acceleration_structure, DeviceExtension::KhrDeferredHostOperations)
        + listed_if(chain.acceleration_structure, DeviceExtension::KhrAccelerationStructure)
        + listed_if(chain.ray_tracing_pipeline, DeviceExtension::KhrRayTracingPipeline)
        + listed_if(chain.dynamic_rendering, DeviceExtension::KhrDynamicRendering)
}

/// `count` less one, but not below zero.
pub open spec fn one_fewer(count: nat) -> nat {
    if count > 0 {
        (count - 1) as nat
    } else {
        0
    }
}

/// A feature that device creation may be asked for on a device with support `s`: its
/// structures and extensions provide it, it is no shader indexing feature, and the
/// presentation features also need the instance's surface extension.
pub open spec fn admissible(s: DeviceFeatureSupport, f: Feature) -> bool {
    &&& spec_feature_enablable(s, f)
    &&& f != Feature::ShaderSampledImageDynamicIndexing
    &&& f != Feature::ShaderSampledImageNonUniformIndexing
    &&& f != Feature::ShaderStorageImageDynamicIndexing
    &&& f != Feature::ShaderStorageImageNonUniformIndexing
    &&& f != Feature::ShaderUniformBufferDynamicIndexing
    &&& f != Feature::ShaderUniformBufferNonUniformIndexing
    &&& f != Feature::ShaderStorageBufferDynamicIndexing
    &&& f != Feature::ShaderStorageBufferNonUniformIndexing
    &&& (f == Feature::SurfacePresentation || f == Feature::DisplayTiming) ==> s.instance_surface
}

#[verifier::opaque]
spec fn all_admissible(s: DeviceFeatureSupport, l: Seq<Feature>) -> bool {
    forall|k: int| 0 <= k < l.len() ==> admissible(s, #[trigger] l[k])
}

proof fn lemma_listed_if_admissible(s: DeviceFeatureSupport, acc: Seq<Feature>, cond: bool, f: Feature)
    requires
        all_admissible(s, acc),
        cond ==> admissible(s, f),
    ensures
        all_admissible(s, acc + listed_if(cond, f)),
{
    reveal(all_admissible);
    let r = acc + listed_if(cond, f);
    assert forall|k: int| 0 <= k < r.len() implies admissible(s, #[trigger] r[k]) by {
        if k < acc.len() {
            assert(r[k] == acc[k]);
        }
    }
}

/// A feature that a device lists is admissible: its feature structures and extensions
/// provide it, the shader indexing features are never listed, and the presentation
/// features are listed only when the instance enabled surfaces.
pub proof fn lemma_listed_features_admissible(s: DeviceFeatureSupport, f: Feature)
    ensures
        spec_supported_features(s).contains(f) ==> admissible(s, f),
{
    lemma_listing_admissible(s);
    if spec_supported_features(s).contains(f) {
        lemma_admissible_member(s, spec_supported_features(s), f);
    }
}

proof fn lemma_admissible_member(s: DeviceFeatureSupport, l: Seq<Feature>, f: Feature)
    requires
        all_admissible(s, l),
        l.contains(f),
    ensures
        admissible(s, f),
{
    reveal(all_admissible);
    let i = choose|i: int| 0 <= i < l.len() && l[i] == f;
    assert(admissible(s, l[i]));
}

/// Every feature of the listing is admissible.
#[verifier::spinoff_prover]
#[verifier::rlimit(100)]
proof fn lemma_listing_admissible(s: DeviceFeatureSupport)
    ensures
        all_admissible(s, spec_supported_features(s)),
{
    let a0 = listed_if(s.scalar_block_layout, Feature::ScalarBlockLayout);
    assert(all_admissible(s, a0)) by {
        reveal(all_admissible);
    }
    let a1 = a0 + listed_if(s.runtime_descriptor_array, Feature::RuntimeDescriptorArray);
    lemma_listed_if_admissible(s, a0, s.runtime_descriptor_array, Feature::RuntimeDescriptorArray);
    let a2 = a1 + listed_if(s.descriptor_binding_uniform_buffer_update_after_bind, Feature::DescriptorBindingUniformBufferUpdateAfterBind);
    lemma_listed_if_admissible(s, a1, s.descriptor_binding_uniform_buffer_update_after_bind, Feature::DescriptorBindingUniformBufferUpdateAfterBind);
    let a3 = a2 + listed_if(s.descriptor_binding_sampled_image_update_after_bind, Feature::DescriptorBindingSampledImageUpdateAfterBind);
    lemma_listed_if_admissible(s, a2, s.descriptor_binding_sampled_image_update_after_bind, Feature::DescriptorBindingSampledImageUpdateAfterBind);
    let a4 = a3 + listed_if(s.descriptor_binding_storage_image_update_after_bind, Feature::DescriptorBindingStorageImageUpdateAfterBind);
    lemma_listed_if_admissible(s, a3, s.descriptor_binding_storage_image_update_after_bind, Feature::DescriptorBindingStorageImageUpdateAfterBind);
    let a5 = a4 + listed_if(s.descriptor_binding_storage_buffer_update_after_bind, Feature::DescriptorBindingStorageBufferUpdateAfterBind);
    lemma_listed_if_admissible(s, a4, s.descriptor_binding_storage_buffer_update_after_bind, Feature::DescriptorBindingStorageBufferUpdateAfterBind);
    let a6 = a5 + listed_if(s.descriptor_binding_uniform_texel_buffer_update_after_bind, Feature::DescriptorBindingUniformTexelBufferUpdateAfterBind);
    lemma_listed_if_admissible(s, a5, s.descriptor_binding_uniform_texel_buffer_update_after_bind, Feature::DescriptorBindingUniformTexelBufferUpdateAfterBind);
    let a7 = a6 + listed_if(s.descriptor_binding_storage_texel_buffer_update_after_bind, Feature::DescriptorBindingStorageTexelBufferUpdateAfterBind);
    lemma_listed_if_admissible(s, a6, s.descriptor_binding_storage_texel_buffer_update_after_bind, Feature::DescriptorBindingStorageTexelBufferUpdateAfterBind);
    let a8 = a7 + listed_if(s.descriptor_binding_update_unused_while_pending, Feature::DescriptorBindingUpdateUnusedWhilePending);
    lemma_listed_if_admissible(s, a7, s.descriptor_binding_update_unused_while_pending, Feature::DescriptorBindingUpdateUnusedWhilePending);
    let a9 = a8 + listed_if(s.descriptor_binding_partially_bound, Feature::DescriptorBindingPartiallyBound);
    lemma_listed_if_admissible(s, a8, s.descriptor_binding_partially_bound, Feature::DescriptorBindingPartiallyBound);
    let a10 = a9 + listed_if(s.buffer_device_address, Feature::BufferDeviceAddress);
    lemma_listed_if_admissible(s, a9, s.buffer_device_address, Feature::BufferDeviceAddress);
    let a11 = a10 + listed_if(s.dynamic_rendering, Feature::DynamicRendering);
    lemma_listed_if_admissible(s, a10, s.dynamic_rendering, Feature::DynamicRendering);
    let a12 = a11 + listed_if(s.acceleration_structure, Feature::AccelerationStructure);
    lemma_listed_if_admissible(s, a11, s.acceleration_structure, Feature::AccelerationStructure);
    let a13 = a12 + listed_if(s.ray_tracing_pipeline, Feature::RayTracingPipeline);
    lemma_listed_if_admissible(s, a12, s.ray_tracing_pipeline, Feature::RayTracingPipeline);
    let a14 = a13 + listed_if(s.instance_surface && s.extensions.khr_swapchain, Feature::SurfacePresentation);
    lemma_listed_if_admissible(s, a13, s.instance_surface && s.extensions.khr_swapchain, Feature::SurfacePresentation);
    let c = s.instance_surface && s.extensions.khr_swapchain && s.extensions.google_display_timing;
    let a15 = a14 + listed_if(c, Feature::DisplayTiming);
    lemma_listed_if_admissible(s, a14, c, Feature::DisplayTiming);
    assert(all_admissible(s, spec_supported_features(s)));

}

/// Plans device creation for the `requested` features: takes one request of each
/// feature, lists the features enabled in the order they are considered, and chooses
/// the feature structures and extensions. Every requested feature must be one that the
/// device lists among its features, acceleration structures need buffer device addresses, ray tracing pipelines need
/// acceleration structures and Vulkan 1.1, non-uniform indexing of a kind of
/// descriptor needs its dynamic indexing, and the device must report every extension
/// the plan enables.
pub fn plan_device_features(
    requested: &mut RequestedFeatures,
    support: &DeviceFeatureSupport,
    api: ApiVersions,
) -> (r: DeviceFeaturePlan)
    requires
        forall|f: Feature|
            old(requested)@.contains(f) ==> #[trigger] spec_supported_features(*support).contains(f),
        old(requested)@.contains(Feature::AccelerationStructure) ==> old(requested)@.contains(
            Feature::BufferDeviceAddress,
        ),
        old(requested)@.contains(Feature::RayTracingPipeline) ==> old(requested)@.contains(
            Feature::AccelerationStructure,
        ) && api.vk1_1,
        old(requested)@.contains(Feature::ShaderSampledImageNonUniformIndexing) ==> old(
            requested,
        )@.contains(Feature::ShaderSampledImageDynamicIndexing),
        old(requested)@.contains(Feature::ShaderStorageImageNonUniformIndexing) ==> old(
            requested,
        )@.contains(Feature::ShaderStorageImageDynamicIndexing),
        old(requested)@.contains(Feature::ShaderUniformBufferNonUniformIndexing) ==> old(
            requested,
        )@.contains(Feature::ShaderUniformBufferDynamicIndexing),
        old(requested)@.contains(Feature::ShaderStorageBufferNonUniformIndexing) ==> old(
            requested,
        )@.contains(Feature::ShaderStorageBufferDynamicIndexing),
        forall|e: DeviceExtension|
            #[trigger] spec_device_extensions(old(requested)@, spec_feature_chain(old(requested)@, api)).contains(e)
                ==> spec_has_extension(*support, e),
    ensures
        forall|i: int|
            0 <= i < r.extensions@.len() ==> spec_has_extension(*support, #[trigger] r.extensions@[i]),
        r.enabled@ == spec_feature_order().filter(|f: Feature| old(requested)@.contains(f)),
        r.chain == spec_feature_chain(old(requested)@, api),
        r.extensions@ == spec_device_extensions(old(requested)@, r.chain),
        forall|f: Feature|
            #[trigger] final(requested)@.to_multiset().count(f) == one_fewer(
                old(requested)@.to_multiset().count(f),
            ),
{
    broadcast use {
        vstd::seq_lib::to_multiset_contains,
        vstd::multiset::group_multiset_axioms,
    };

    let ghost orig = requested@;
    let order = feature_order();
    let mut enabled: Vec<Feature> = Vec::new();
    let mut taken_at: Vec<bool> = Vec::new();
    let mut i: usize = 0;
    while i < order.len()
        invariant
            i <= 24,
            order@ == spec_feature_order(),
            orig == old(requested)@,
            forall|g: Feature|
                #[trigger] requested@.to_multiset().count(g) == if feature_step(g) < i {
                    one_fewer(orig.to_multiset().count(g))
                } else {
                    orig.to_multiset().count(g)
                },
            enabled@ == spec_feature_order().take(i as int).filter(|f: Feature| orig.contains(f)),
            taken_at@.len() == i,
            forall|k: int| 0 <= k < i ==> #[trigger] taken_at@[k] == orig.contains(feature_at(k)),
        decreases 24 - i,
    {
        let f = order[i];
        proof {
            lemma_feature_steps(i as int, f);
        }
        let ghost before = requested@;
        let taken = requested.take(f);
        proof {
            if taken {
                let j = choose|j: int| is_first_occurrence(before, f, j) && requested@ == swap_removed(before, j);
                lemma_take_removes_one_request(before, f, j);
            }
            assert forall|g: Feature| #[trigger] requested@.to_multiset().count(g) == if feature_step(g) < i + 1 {
                one_fewer(orig.to_multiset().count(g))
            } else {
                orig.to_multiset().count(g)
            } by {
                lemma_feature_steps(i as int, g);
                assert(before.to_multiset().count(g) == if feature_step(g) < i {
                    one_fewer(orig.to_multiset().count(g))
                } else {
                    orig.to_multiset().count(g)
                });
                assert(before.to_multiset().count(f) == orig.to_multiset().count(f));
                if g != f {
                    assert(feature_step(g) != i);
                }
                vstd::seq_lib::to_multiset_contains(before, f);
            }
            assert(taken == orig.contains(f)) by {
                assert(before.to_multiset().count(f) == orig.to_multiset().count(f));
                vstd::seq_lib::to_multiset_contains(before, f);
                vstd::seq_lib::to_multiset_contains(orig, f);
            }
            let next = spec_feature_order().take(i + 1);
            assert(next.drop_last() =~= spec_feature_order().take(i as int));
            assert(next.last() == f);
            reveal(Seq::filter);
        }
        if taken {
            enabled.push(f);
        }
        taken_at.push(taken);
        i = i + 1;
    }
    assert(spec_feature_order().take(24) =~= spec_feature_order());
    let chain = feature_chain(&taken_at, api);
    proof {
        lemma_feature_chain(orig, taken_at@, api);
    }
    let mut extensions: Vec<DeviceExtension> = Vec::new();
    push_if(&mut extensions, taken_at[0], DeviceExtension::KhrSwapchain);
    assert(extensions@ =~= listed_if(taken_at@[0], DeviceExtension::KhrSwapchain));
    push_if(&mut extensions, taken_at[22], DeviceExtension::GoogleDisplayTiming);
    push_if(&mut extensions, chain.scalar_block_layout, DeviceExtension::ExtScalarBlockLayout);
    push_if(&mut extensions, chain.descriptor_indexing, DeviceExtension::ExtDescriptorIndexing);
    push_if(&mut extensions, chain.buffer_device_address, DeviceExtension::KhrBufferDeviceAddress);
    push_if(&mut extensions, chain.acceleration_structure, DeviceExtension::KhrDeferredHostOperations);
    push_if(&mut extensions, chain.acceleration_structure, DeviceExtension::KhrAccelerationStructure);
    push_if(&mut extensions, chain.ray_tracing_pipeline, DeviceExtension::KhrRayTracingPipeline);
    push_if(&mut extensions, chain.dynamic_rendering, DeviceExtension::KhrDynamicRendering);
    proof {
        let planned = spec_device_extensions(orig, spec_feature_chain(orig, api));
        assert(extensions@ =~= planned);
        assert forall|k: int| 0 <= k < extensions@.len() implies spec_has_extension(
            *support,
            #[trigger] extensions@[k],
        ) by {
            assert(planned.contains(planned[k]));
        }
    }
    DeviceFeaturePlan { enabled, chain, extensions }
}

/// The extensions that device creation enables for `features`, in order; the device must
/// report each of them.
pub fn planned_extensions(features: &[Feature], api: ApiVersions) -> (r: Vec<DeviceExtension>)
    ensures
        r@ == spec_device_extensions(features@, spec_feature_chain(features@, api)),
{
    let requested = RequestedFeatures::new(features);
    let order = feature_order();
    let mut taken_at: Vec<bool> = Vec::new();
    let mut i: usize = 0;
    while i < order.len()
        invariant
            i <= 24,
            order@ == spec_feature_order(),
            requested@ == features@,
            taken_at@.len() == i,
            forall|k: int| 0 <= k < i ==> #[trigger] taken_at@[k] == features@.contains(feature_at(k)),
        decreases 24 - i,
    {
        taken_at.push(requested.check(order[i]));
        i = i + 1;
    }
    let chain = feature_chain(&taken_at, api);
    proof {
        lemma_feature_chain(features@, taken_at@, api);
    }
    let mut extensions: Vec<DeviceExtension> = Vec::new();
    push_if(&mut extensions, taken_at[0], DeviceExtension::KhrSwapchain);
    assert(extensions@ =~= listed_if(taken_at@[0], DeviceExtension::KhrSwapchain));
    push_if(&mut extensions, taken_at[22], DeviceExtension::GoogleDisplayTiming);
    push_if(&mut extensions, chain.scalar_block_layout, DeviceExtension::ExtScalarBlockLayout);
    push_if(&mut extensions, chain.descriptor_indexing, DeviceExtension::ExtDescriptorIndexing);
    push_if(&mut extensions, chain.buffer_device_address, DeviceExtension::KhrBufferDeviceAddress);
    push_if(&mut extensions, chain.acceleration_structure, DeviceExtension::KhrDeferredHostOperations);
    push_if(&mut extensions, chain.acceleration_structure, DeviceExtension::KhrAccelerationStructure);
    push_if(&mut extensions, chain.ray_tracing_pipeline, DeviceExtension::KhrRayTracingPipeline);
    push_if(&mut extensions, chain.dynamic_rendering, DeviceExtension::KhrDynamicRendering);
    extensions
}

/// The chain for the features taken at each step.
fn feature_chain(taken_at: &Vec<bool>, api: ApiVersions) -> (r: FeatureChain)
    requires
        taken_at@.len() == 24,
    ensures
        r == chain_of_steps(taken_at@, api),
{
    let di = taken_at[5] || taken_at[6] || taken_at[7] || taken_at[8] || taken_at[9] || taken_at[10]
        || taken_at[11] || taken_at[12] || taken_at[13] || taken_at[14] || taken_at[16]
        || taken_at[18] || taken_at[20];
    let v12 = taken_at[1] || taken_at[2] || di;
    FeatureChain {
        vulkan12: api.vk1_2 && v12,
        vulkan13: api.vk1_3 && taken_at[23],
        scalar_block_layout: !api.vk1_2 && taken_at[1],
        descriptor_indexing: !api.vk1_2 && di,
        buffer_device_address: !api.vk1_2 && taken_at[2],
        acceleration_structure: taken_at[3],
        ray_tracing_pipeline: taken_at[4],
        dynamic_rendering: !api.vk1_3 && taken_at[23],
    }
}

/// The chain for the features taken at each step, by step.
spec fn chain_of_steps(t: Seq<bool>, api: ApiVersions) -> FeatureChain {
    let di = t[5] || t[6] || t[7] || t[8] || t[9] || t[10] || t[11] || t[12] || t[13] || t[14]
        || t[16] || t[18] || t[20];
    let v12 = t[1] || t[2] || di;
    FeatureChain {
        vulkan12: api.vk1_2 && v12,
        vulkan13: api.vk1_3 && t[23],
        scalar_block_layout: !api.vk1_2 && t[1],
        descriptor_indexing: !api.vk1_2 && di,
        buffer_device_address: !api.vk1_2 && t[2],
        acceleration_structure: t[3],
        ray_tracing_pipeline: t[4],
        dynamic_rendering: !api.vk1_3 && t[23],
    }
}

proof fn lemma_feature_chain(requested: Seq<Feature>, t: Seq<bool>, api: ApiVersions)
    requires
        t.len() == 24,
        forall|k: int| 0 <= k < 24 ==> #[trigger] t[k] == requested.contains(feature_at(k)),
    ensures
        chain_of_steps(t, api) == spec_feature_chain(requested, api),
        t[0] == requested.contains(Feature::SurfacePresentation),
        t[22] == requested.contains(Feature::DisplayTiming),
{
    let di = exists|f: Feature| requested.contains(f) && is_descriptor_indexing_feature(f);
    let v12 = exists|f: Feature| requested.contains(f) && is_vulkan12_feature(f);
    assert(t[1] == requested.contains(feature_at(1)));
    assert(t[2] == requested.contains(feature_at(2)));
    assert(t[3] == requested.contains(feature_at(3)));
    assert(t[4] == requested.contains(feature_at(4)));
    assert(t[23] == requested.contains(feature_at(23)));
    assert(t[0] == requested.contains(feature_at(0)));
    assert(t[22] == requested.contains(feature_at(22)));
    let t_di = t[5] || t[6] || t[7] || t[8] || t[9] || t[10] || t[11] || t[12] || t[13] || t[14]
        || t[16] || t[18] || t[20];
    if di {
        let f = choose|f: Feature| requested.contains(f) && is_descriptor_indexing_feature(f);
        lemma_feature_steps(0, f);
        let k = feature_step(f);
        assert(t[k] == requested.contains(feature_at(k)));
        assert(t_di);
    }
    if t_di {
        assert(exists|k: int| 0 <= k < 24 && t[k] && is_descriptor_indexing_feature(feature_at(k))) by {
            if t[5] { assert(t[5] && is_descriptor_indexing_feature(feature_at(5))); }
            else if t[6] { assert(t[6] && is_descriptor_indexing_feature(feature_at(6))); }
            else if t[7] { assert(t[7] && is_descriptor_indexing_feature(feature_at(7))); }
            else if t[8] { assert(t[8] && is_descriptor_indexing_feature(feature_at(8))); }
            else if t[9] { assert(t[9] && is_descriptor_indexing_feature(feature_at(9))); }
            else if t[10] { assert(t[10] && is_descriptor_indexing_feature(feature_at(10))); }
            else if t[11] { assert(t[11] && is_descriptor_indexing_feature(feature_at(11))); }
            else if t[12] { assert(t[12] && is_descriptor_indexing_feature(feature_at(12))); }
            else if t[13] { assert(t[13] && is_descriptor_indexing_feature(feature_at(13))); }
            else if t[14] { assert(t[14] && is_descriptor_indexing_feature(feature_at(14))); }
            else if t[16] { assert(t[16] && is_descriptor_indexing_feature(feature_at(16))); }
            else if t[18] { assert(t[18] && is_descriptor_indexing_feature(feature_at(18))); }
            else { assert(t[20] && is_descriptor_indexing_feature(feature_at(20))); }
        }
        let k = choose|k: int| 0 <= k < 24 && t[k] && is_descriptor_indexing_feature(feature_at(k));
        assert(requested.contains(feature_at(k)));
        assert(di);
    }
    if v12 {
        let f = choose|f: Feature| requested.contains(f) && is_vulkan12_feature(f);
        if !is_descriptor_indexing_feature(f) {
            lemma_feature_steps(0, f);
        }
    }
    if t[1] {
        assert(requested.contains(Feature::ScalarBlockLayout) && is_vulkan12_feature(Feature::ScalarBlockLayout));
    }
    if t[2] {
        assert(requested.contains(Feature::BufferDeviceAddress) && is_vulkan12_feature(Feature::BufferDeviceAddress));
    }
    if di {
        let f = choose|f: Feature| requested.contains(f) && is_descriptor_indexing_feature(f);
        assert(is_vulkan12_feature(f));
    }
}

/// Number of queues that `requests` ask of family `family`.
pub open spec fn requested_queues(requests: Seq<(usize, usize)>, family: usize) -> int
    decreases requests.len(),
{
    if requests.len() == 0 {
        0
    } else {
        requested_queues(requests.drop_last(), family) + if requests.last().0 == family {
            requests.last().1 as int
        } else {
            0
        }
    }
}

/// Number of queues that `requests` ask for in all.
pub open spec fn total_requested(requests: Seq<(usize, usize)>) -> int
    decreases requests.len(),
{
    if requests.len() == 0 {
        0
    } else {
        total_requested(requests.drop_last()) + requests.last().1
    }
}

/// Every request names a family of the device, and no family is asked for more queues
/// than it has.
pub open spec fn queue_requests_valid(requests: Seq<(usize, usize)>, queue_counts: Seq<u32>) -> bool {
    &&& forall|k: int| 0 <= k < requests.len() ==> (#[trigger] requests[k]).0 < queue_counts.len()
    &&& forall|f: usize| f < queue_counts.len() ==> #[trigger] requested_queues(requests, f) <= queue_counts[f as int]
}

proof fn lemma_requested_queues_bounded(requests: Seq<(usize, usize)>, family: usize)
    ensures
        0 <= requested_queues(requests, family) <= total_requested(requests),
    decreases requests.len(),
{
    if requests.len() > 0 {
        lemma_requested_queues_bounded(requests.drop_last(), family);
    }
}

proof fn lemma_requested_queues_absent(requests: Seq<(usize, usize)>, family: usize)
    requires
        forall|k: int| 0 <= k < requests.len() ==> (#[trigger] requests[k]).0 != family,
    ensures
        requested_queues(requests, family) == 0,
    decreases requests.len(),
{
    if requests.len() > 0 {
        let rest = requests.drop_last();
        assert forall|k: int| 0 <= k < rest.len() implies (#[trigger] rest[k]).0 != family by {
            assert(rest[k] == requests[k]);
        }
        lemma_requested_queues_absent(rest, family);
        assert(requests.last() == requests[requests.len() - 1]);
    }
}

proof fn lemma_requested_queues_monotonic(requests: Seq<(usize, usize)>, m: int, n: int, family: usize)
    requires
        0 <= m <= n <= requests.len(),
    ensures
        requested_queues(requests.take(m), family) <= requested_queues(requests.take(n), family),
        total_requested(requests.take(m)) <= total_requested(requests.take(n)),
    decreases n - m,
{
    if m < n {
        lemma_requested_queues_monotonic(requests, m, n - 1, family);
        assert(requests.take(n).drop_last() =~= requests.take(n - 1));
    }
}

/// The queues asked of each family that some request names.
pub open spec fn family_totals(requests: Seq<(usize, usize)>) -> Map<usize, usize> {
    Map::new(
        |f: usize| exists|k: int| 0 <= k < requests.len() && (#[trigger] requests[k]).0 == f,
        |f: usize| requested_queues(requests, f) as usize,
    )
}

/// The first `n` requests name families of the device and stay within their queue counts.
#[verifier::opaque]
spec fn requests_checked(requests: Seq<(usize, usize)>, n: int, queue_counts: Seq<u32>) -> bool {
    forall|k: int|
        0 <= k < n ==> (#[trigger] requests[k]).0 < queue_counts.len() && requested_queues(
            requests.take(n),
            requests[k].0,
        ) <= queue_counts[requests[k].0 as int]
}

proof fn lemma_checks_start(requests: Seq<(usize, usize)>, queue_counts: Seq<u32>)
    ensures
        requests_checked(requests, 0, queue_counts),
{
    reveal(requests_checked);
}

/// What request `n` changes: only the queues asked of its own family.
proof fn lemma_requested_queues_step(requests: Seq<(usize, usize)>, n: int, g: usize)
    requires
        0 <= n < requests.len(),
    ensures
        requested_queues(requests.take(n + 1), g) == requested_queues(requests.take(n), g) + if g
            == requests[n].0 {
            requests[n].1 as int
        } else {
            0
        },
{
    let next = requests.take(n + 1);
    assert(next.drop_last() =~= requests.take(n));
    assert(next.last() == requests[n]);
}

/// Recording request `n` keeps the checks up to date.
proof fn lemma_checked_step(requests: Seq<(usize, usize)>, n: int, queue_counts: Seq<u32>)
    requires
        0 <= n < requests.len(),
        requests_checked(requests, n, queue_counts),
        requests[n].0 < queue_counts.len(),
        requested_queues(requests.take(n + 1), requests[n].0) <= queue_counts[requests[n].0 as int],
    ensures
        requests_checked(requests, n + 1, queue_counts),
{
    reveal(requests_checked);
    assert forall|k: int| 0 <= k < n + 1 implies (#[trigger] requests[k]).0 < queue_counts.len()
        && requested_queues(requests.take(n + 1), requests[k].0) <= queue_counts[requests[k].0 as int] by {
        lemma_requested_queues_step(requests, n, requests[k].0);
    }
}

/// Recording request `n` adds its queues to the total of its family.
proof fn lemma_family_totals_step(requests: Seq<(usize, usize)>, n: int)
    requires
        0 <= n < requests.len(),
        0 <= requested_queues(requests.take(n + 1), requests[n].0) <= usize::MAX,
    ensures
        family_totals(requests.take(n + 1)) == family_totals(requests.take(n)).insert(
            requests[n].0,
            requested_queues(requests.take(n + 1), requests[n].0) as usize,
        ),
{
    let cur = requests.take(n);
    let next = requests.take(n + 1);
    let family = requests[n].0;
    let lhs = family_totals(next);
    let rhs = family_totals(cur).insert(family, requested_queues(next, family) as usize);
    assert forall|f: usize| lhs.dom().contains(f) <==> rhs.dom().contains(f) by {
        if lhs.dom().contains(f) && f != family {
            let k = choose|k: int| 0 <= k < next.len() && (#[trigger] next[k]).0 == f;
            assert(k != n);
            assert(cur[k] == next[k]);
        }
        if cur.len() > 0 && family_totals(cur).dom().contains(f) {
            let k = choose|k: int| 0 <= k < cur.len() && (#[trigger] cur[k]).0 == f;
            assert(next[k] == cur[k]);
        }
        if f == family {
            assert(next[n].0 == f);
        }
    }
    assert forall|f: usize| lhs.dom().contains(f) implies lhs[f] == rhs[f] by {
        lemma_requested_queues_step(requests, n, f);
    }
    assert(lhs =~= rhs);
}

/// Once every request is recorded, the checks are exactly the validity of the requests.
proof fn lemma_checks_done(requests: Seq<(usize, usize)>, queue_counts: Seq<u32>)
    requires
        requests_checked(requests, requests.len() as int, queue_counts),
    ensures
        queue_requests_valid(requests, queue_counts),
{
    reveal(requests_checked);
    assert(requests.take(requests.len() as int) =~= requests);
    assert forall|f: usize| f < queue_counts.len() implies #[trigger] requested_queues(requests, f) <= queue_counts[f as int] by {
        if exists|k: int| 0 <= k < requests.len() && requests[k].0 == f {
            let k = choose|k: int| 0 <= k < requests.len() && requests[k].0 == f;
        } else {
            lemma_requested_queues_absent(requests, f);
        }
    }
}

/// A request that names a family the device lacks, or that takes a family past its
/// queue count, makes the requests invalid.
proof fn lemma_request_rejected(requests: Seq<(usize, usize)>, queue_counts: Seq<u32>, n: int)
    requires
        0 <= n < requests.len(),
        requests[n].0 >= queue_counts.len() || requested_queues(requests.take(n + 1), requests[n].0)
            > queue_counts[requests[n].0 as int],
    ensures
        !queue_requests_valid(requests, queue_counts),
{
    let family = requests[n].0;
    if family < queue_counts.len() {
        lemma_requested_queues_monotonic(requests, n + 1, requests.len() as int, family);
        assert(requests.take(requests.len() as int) =~= requests);
        assert(requested_queues(requests, family) > queue_counts[family as int]);
    }
}

/// Sums the queues asked of each family by `requests`; `None` when a request names a
/// family the device does not have, or asks a family for more queues than
/// `queue_counts` gives it.
pub fn queue_family_totals(requests: &[(usize, usize)], queue_counts: &[u32]) -> (r: Option<
    HashMap<usize, usize>,
>)
    requires
        total_requested(requests@) <= usize::MAX,
    ensures
        r is Some <==> queue_requests_valid(requests@, queue_counts@),
        r matches Some(totals) ==> totals@ == family_totals(requests@),
{
    broadcast use vstd::std_specs::hash::group_hash_axioms;

    let mut totals: HashMap<usize, usize> = HashMap::new();
    let mut i: usize = 0;
    proof {
        lemma_checks_start(requests@, queue_counts@);
        assert(family_totals(requests@.take(0)) =~= Map::<usize, usize>::empty());
    }
    while i < requests.len()
        invariant
            i <= requests@.len(),
            total_requested(requests@) <= usize::MAX,
            totals@ == family_totals(requests@.take(i as int)),
            requests_checked(requests@, i as int, queue_counts@),
        decreases requests@.len() - i,
    {
        let (family, count) = requests[i];
        proof {
            let next = requests@.take(i + 1);
            assert(next.drop_last() =~= requests@.take(i as int));
            assert(next.last() == requests@[i as int]);
            assert(requests@.take(requests@.len() as int) =~= requests@);
            lemma_requested_queues_monotonic(requests@, i + 1, requests@.len() as int, family);
            lemma_requested_queues_bounded(next, family);
            lemma_requested_queues_bounded(requests@, family);
            lemma_requested_queues_step(requests@, i as int, family);
        }
        if family >= queue_counts.len() {
            proof {
                lemma_request_rejected(requests@, queue_counts@, i as int);
            }
            return None;
        }
        let prev = match totals.get(&family) {
            Some(t) => *t,
            None => {
                proof {
                    let cur = requests@.take(i as int);
                    assert forall|k: int| 0 <= k < cur.len() implies (#[trigger] cur[k]).0 != family by {
                        if cur[k].0 == family {
                            assert(family_totals(cur).dom().contains(family));
                        }
                    }
                    lemma_requested_queues_absent(cur, family);
                }
                0
            },
        };
        proof {
            lemma_requested_queues_bounded(requests@.take(i as int), family);
            lemma_requested_queues_monotonic(requests@, i as int, i + 1, family);
        }
        let new_total = prev + count;
        if new_total as u64 > queue_counts[family] as u64 {
            proof {
                lemma_request_rejected(requests@, queue_counts@, i as int);
            }
            return None;
        }
        totals.insert(family, new_total);
        proof {
            lemma_checked_step(requests@, i as int, queue_counts@);
            lemma_family_totals_step(requests@, i as int);
        }
        i = i + 1;
    }
    proof {
        lemma_checks_done(requests@, queue_counts@);
        assert(requests@.take(requests@.len() as int) =~= requests@);
    }
    Some(totals)
}

/// Taking a feature removes exactly one request of it, and leaves the other requests.
pub proof fn lemma_take_removes_one_request(s: Seq<Feature>, feature: Feature, i: int)
    requires
        is_first_occurrence(s, feature, i),
    ensures
        swap_removed(s, i).to_multiset() == s.to_multiset().remove(feature),
        swap_removed(s, i).len() == s.len() - 1,
{
    broadcast use {
        vstd::seq_lib::to_multiset_build,
        vstd::seq_lib::to_multiset_update,
        vstd::multiset::group_multiset_properties,
        vstd::multiset::group_multiset_axioms,
    };

    let rest = s.drop_last();
    let last = s.last();
    assert(s =~= rest.push(last));
    if i == s.len() - 1 {
        assert(swap_removed(s, i) =~= rest);
        assert(s.to_multiset().remove(feature) =~= rest.to_multiset());
    } else {
        assert(swap_removed(s, i) =~= rest.update(i, last));
        assert(rest[i] == feature);
    }
}

} // verus!
