use sierra::descriptor::binding::{array_is_compatible, DescriptorBinding};
use sierra::vulkan::epochs::References;
use sierra::encode::{
    check_builds_collision_free, pick_staging, upload_plan, AccelerationBuildTargets, BufferCopy, Command,
    Encoder, StagingCandidate, UploadPlan,
};
use sierra::IndexType;

#[test]
fn upload_plan_by_size() {
    assert_eq!(upload_plan(0), UploadPlan::Nothing);
    assert_eq!(upload_plan(4), UploadPlan::Update);
    assert_eq!(upload_plan(16384), UploadPlan::Update);
    assert_eq!(upload_plan(16388), UploadPlan::Staging);
}

#[test]
fn pick_staging_first_fitting_mappable() {
    let c = [
        StagingCandidate { size: 100, mappable: true },
        StagingCandidate { size: 4096, mappable: false },
        StagingCandidate { size: 4096, mappable: true },
        StagingCandidate { size: 8192, mappable: true },
    ];
    assert_eq!(pick_staging(&c, 64), Some(0));
    assert_eq!(pick_staging(&c, 4000), Some(2));
    assert_eq!(pick_staging(&c, 10000), None);
    assert_eq!(pick_staging(&[], 4), None);
}

#[test]
fn build_collisions_detected() {
    let a = AccelerationBuildTargets { src: None, dst: 1 };
    let b = AccelerationBuildTargets { src: Some(1), dst: 2 };
    let c = AccelerationBuildTargets { src: Some(5), dst: 3 };
    let d = AccelerationBuildTargets { src: None, dst: 5 };
    assert!(check_builds_collision_free(&[a, c]));
    assert!(!check_builds_collision_free(&[a, b]));
    assert!(!check_builds_collision_free(&[c, d]));
    assert!(check_builds_collision_free(&[]));
}

#[test]
fn encoder_records_in_order() {
    let mut e = Encoder::new(true, true);
    e.update_buffer(7, 0, &[]);
    e.update_buffer(7, 16, &[1, 2, 3, 4]);
    e.copy_buffer(1, 2, &[BufferCopy { src_offset: 0, dst_offset: 8, size: 32 }]);
    e.begin_render_pass(9, 2);
    e.bind_graphics_pipeline(4);
    e.bind_vertex_buffers(0, &[(10, 0)]);
    e.bind_index_buffer(11, 0, IndexType::U16);
    e.draw(0, 3, 0, 1);
    e.draw_indexed(0, 6, -1, 0, 2);
    e.end_render_pass();
    e.build_acceleration_structure(&[]);
    e.dispatch(1, 2, 3);
    e.trace_rays(5, 8, 8, 1);
    assert_eq!(
        e.finish(),
        vec![
            Command::UpdateBuffer { buffer: 7, offset: 16, data: vec![1, 2, 3, 4] },
            Command::CopyBuffer {
                src_buffer: 1,
                dst_buffer: 2,
                regions: vec![BufferCopy { src_offset: 0, dst_offset: 8, size: 32 }],
            },
            Command::BeginRenderPass { framebuffer: 9, clears: 2 },
            Command::BindGraphicsPipeline { pipeline: 4 },
            Command::BindVertexBuffers { first: 0, buffers: vec![(10, 0)] },
            Command::BindIndexBuffer { buffer: 11, offset: 0, index_type: IndexType::U16 },
            Command::Draw { first_vertex: 0, end_vertex: 3, first_instance: 0, end_instance: 1 },
            Command::DrawIndexed { first_index: 0, end_index: 6, vertex_offset: -1, first_instance: 0, end_instance: 2 },
            Command::EndRenderPass,
            Command::Dispatch { x: 1, y: 2, z: 3 },
            Command::TraceRays { shader_binding_table: 5, width: 8, height: 8, depth: 1 },
        ]
    );
}

#[test]
fn references_kept_until_cleared() {
    let mut r = References::new();
    assert!(r.is_empty());
    r.add_buffer(3);
    r.add_descriptor_set(9);
    assert!(!r.is_empty());
    r.clear();
    assert!(r.is_empty());
    r.add_acceleration_strucutre(1);
    assert!(!r.is_empty());
}

struct Slot(u32);

impl DescriptorBinding<u32> for Slot {
    fn is_compatible(&self, descriptor: &u32) -> bool {
        self.0 == *descriptor
    }
}

#[test]
fn descriptor_array_compatibility() {
    assert!(array_is_compatible(&[Slot(1), Slot(2)], &[1, 2]));
    assert!(!array_is_compatible(&[Slot(1), Slot(2)], &[1, 3]));
    assert!(!array_is_compatible(&[Slot(1)], &[1, 2]));
    assert!(array_is_compatible::<u32, Slot>(&[], &[]));
}
