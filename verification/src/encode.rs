use vstd::prelude::*;
use crate::dimensions::{Extent3d, Offset3d};
use crate::image::SubresourceLayers;
use crate::IndexType;
use crate::shader::ShaderStageFlags;

verus! {

/// Region of a buffer-to-buffer copy.
#[derive(Clone, Copy, Debug, Hash, PartialEq, Eq)]
pub struct BufferCopy {
    /// Offset of the region in the source buffer.
    pub src_offset: u64,
    /// Offset of the region in the destination buffer.
    pub dst_offset: u64,
    /// Size of the region in bytes.
    pub size: u64,
}

/// Region of an image-to-image copy.
#[derive(Clone, Copy, Debug, Hash, PartialEq, Eq)]
pub struct ImageCopy {
    /// Subresource of the source image.
    pub src_subresource: SubresourceLayers,
    /// Offset of the region in the source image.
    pub src_offset: Offset3d,
    /// Subresource of the destination image.
    pub dst_subresource: SubresourceLayers,
    /// Offset of the region in the destination image.
    pub dst_offset: Offset3d,
    /// Size of the region in texels.
    pub extent: Extent3d,
}

/// Region of a copy between a buffer and an image.
#[derive(Clone, Copy, Debug, Hash, PartialEq, Eq)]
pub struct BufferImageCopy {
    /// Offset of the data in the buffer.
    pub buffer_offset: u64,
    /// Row length of the data in the buffer, in texels; zero for tightly packed rows.
    pub buffer_row_length: u32,
    /// Image height of the data in the buffer, in texels; zero for tightly packed images.
    pub buffer_image_height: u32,
    /// Subresource of the image.
    pub image_subresource: SubresourceLayers,
    /// Offset of the region in the image.
    pub image_offset: Offset3d,
    /// Size of the region in texels.
    pub image_extent: Extent3d,
}


/// Largest data that an encoder writes into a buffer inline.
pub const UPDATE_BUFFER_LIMIT: usize = 65536;

/// Largest upload that goes inline; larger ones go through a staging buffer.
pub const UPLOAD_INLINE_LIMIT: usize = 16384;

/// How an upload of data into a buffer is recorded.
#[derive(Clone, Copy, Debug, PartialEq, Eq, Structural)]
pub enum UploadPlan {
    /// No data: nothing is recorded.
    Nothing,
    /// The data is written inline by an update command.
    Update,
    /// The data is placed in a staging buffer and copied from it.
    Staging,
}

/// The way an upload of `size` bytes is recorded.
pub open spec fn spec_upload_plan(size: usize) -> UploadPlan {
    if size == 0 {
        UploadPlan::Nothing
    } else if size <= UPLOAD_INLINE_LIMIT {
        UploadPlan::Update
    } else {
        UploadPlan::Staging
    }
}

/// Chooses how to upload `size` bytes, a multiple of four.
pub fn upload_plan(size: usize) -> (r: UploadPlan)
    requires
        size % 4 == 0,
    ensures
        r == spec_upload_plan(size),
{
    if size == 0 {
        UploadPlan::Nothing
    } else if size <= UPLOAD_INLINE_LIMIT {
        UploadPlan::Update
    } else {
        UploadPlan::Staging
    }
}

/// A staging buffer that can be reused: its size and whether the host can map it.
#[derive(Clone, Copy, Debug, PartialEq, Eq)]
pub struct StagingCandidate {
    pub size: u64,
    pub mappable: bool,
}

/// `candidate` can take `size` bytes.
pub open spec fn staging_fits(candidate: StagingCandidate, size: usize) -> bool {
    candidate.size >= size && candidate.mappable
}

/// Index of the first cached staging buffer that can take `size` bytes; `None` when a
/// new staging buffer must be created.
pub fn pick_staging(candidates: &[StagingCandidate], size: usize) -> (r: Option<usize>)
    ensures
        r is None ==> forall|i: int| 0 <= i < candidates@.len() ==> !staging_fits(#[trigger] candidates@[i], size),
        r matches Some(i) ==> i < candidates@.len() && staging_fits(candidates@[i as int], size)
            && forall|j: int| 0 <= j < i ==> !staging_fits(#[trigger] candidates@[j], size),
{
    let mut i: usize = 0;
    while i < candidates.len()
        invariant
            i <= candidates@.len(),
            forall|j: int| 0 <= j < i ==> !staging_fits(#[trigger] candidates@[j], size),
        decreases candidates@.len() - i,
    {
        let c = candidates[i];
        if c.size >= size as u64 && c.mappable {
            return Some(i);
        }
        i = i + 1;
    }
    None
}

/// The acceleration structures one build reads and writes, by raw handle.
#[derive(Clone, Copy, Debug, PartialEq, Eq, Structural)]
pub struct AccelerationBuildTargets {
    pub src: Option<u64>,
    pub dst: u64,
}

/// The build `later` reads what the earlier build `earlier` writes, or writes what it reads.
pub open spec fn builds_clash(later: AccelerationBuildTargets, earlier: AccelerationBuildTargets) -> bool {
    later.src == Some(earlier.dst) || earlier.src == Some(later.dst)
}

/// No build of the batch reads what an earlier one writes, or writes what an earlier
/// one reads.
pub open spec fn builds_collision_free(infos: Seq<AccelerationBuildTargets>) -> bool {
    forall|i: int, j: int| 0 <= j < i < infos.len() ==> !#[trigger] builds_clash(infos[i], infos[j])
}

fn clash(later: &AccelerationBuildTargets, earlier: &AccelerationBuildTargets) -> (r: bool)
    ensures
        r == builds_clash(*later, *earlier),
{
    let a = match later.src {
        Some(s) => s == earlier.dst,
        None => false,
    };
    let b = match earlier.src {
        Some(s) => s == later.dst,
        None => false,
    };
    a || b
}

/// Whether a batch of builds is free of collisions.
pub fn check_builds_collision_free(infos: &[AccelerationBuildTargets]) -> (r: bool)
    ensures
        r == builds_collision_free(infos@),
{
    let mut i: usize = 0;
    while i < infos.len()
        invariant
            i <= infos@.len(),
            forall|x: int, y: int| 0 <= y < x < i ==> !#[trigger] builds_clash(infos@[x], infos@[y]),
        decreases infos@.len() - i,
    {
        let mut j: usize = 0;
        while j < i
            invariant
                i < infos@.len(),
                j <= i,
                forall|x: int, y: int| 0 <= y < x < i ==> !#[trigger] builds_clash(infos@[x], infos@[y]),
                forall|k: int| 0 <= k < j ==> !#[trigger] builds_clash(infos@[i as int], infos@[k]),
            decreases i - j,
        {
            if clash(&infos[i], &infos[j]) {
                assert(builds_clash(infos@[i as int], infos@[j as int]));
                return false;
            }
            j = j + 1;
        }
        i = i + 1;
    }
    true
}

/// A command recorded by an encoder, resources named by their raw handles.
#[derive(Clone, Debug, PartialEq, Eq)]
pub enum Command {
    BeginRenderPass { framebuffer: u64, clears: usize },
    EndRenderPass,
    BindGraphicsPipeline { pipeline: u64 },
    BindComputePipeline { pipeline: u64 },
    BindRayTracingPipeline { pipeline: u64 },
    BindVertexBuffers { first: u32, buffers: Vec<(u64, u64)> },
    BindIndexBuffer { buffer: u64, offset: u64, index_type: IndexType },
    Draw { first_vertex: u32, end_vertex: u32, first_instance: u32, end_instance: u32 },
    DrawIndexed {
        first_index: u32,
        end_index: u32,
        vertex_offset: i32,
        first_instance: u32,
        end_instance: u32,
    },
    UpdateBuffer { buffer: u64, offset: u64, data: Vec<u8> },
    CopyBuffer { src_buffer: u64, dst_buffer: u64, regions: Vec<BufferCopy> },
    BuildAccelerationStructure { infos: Vec<AccelerationBuildTargets> },
    TraceRays { shader_binding_table: u64, width: u32, height: u32, depth: u32 },
    SetScissor { x: i32, y: i32, width: u32, height: u32 },
    BindGraphicsDescriptorSets { layout: u64, first_set: u32, sets: Vec<u64>, dynamic_offsets: Vec<u32> },
    BindComputeDescriptorSets { layout: u64, first_set: u32, sets: Vec<u64>, dynamic_offsets: Vec<u32> },
    BindRayTracingDescriptorSets { layout: u64, first_set: u32, sets: Vec<u64>, dynamic_offsets: Vec<u32> },
    PushConstants { layout: u64, stages: ShaderStageFlags, offset: u32, data: Vec<u8> },
    CopyImage {
        src_image: u64,
        src_layout: i32,
        dst_image: u64,
        dst_layout: i32,
        regions: Vec<ImageCopy>,
    },
    CopyBufferImage { src_buffer: u64, dst_image: u64, dst_layout: i32, regions: Vec<BufferImageCopy> },
    Dispatch { x: u32, y: u32, z: u32 },
}

/// A command as the specification sees it, with its lists as sequences.
pub enum CommandView {
    BeginRenderPass { framebuffer: u64, clears: usize },
    EndRenderPass,
    BindGraphicsPipeline { pipeline: u64 },
    BindComputePipeline { pipeline: u64 },
    BindRayTracingPipeline { pipeline: u64 },
    BindVertexBuffers { first: u32, buffers: Seq<(u64, u64)> },
    BindIndexBuffer { buffer: u64, offset: u64, index_type: IndexType },
    Draw { first_vertex: u32, end_vertex: u32, first_instance: u32, end_instance: u32 },
    DrawIndexed {
        first_index: u32,
        end_index: u32,
        vertex_offset: i32,
        first_instance: u32,
        end_instance: u32,
    },
    UpdateBuffer { buffer: u64, offset: u64, data: Seq<u8> },
    CopyBuffer { src_buffer: u64, dst_buffer: u64, regions: Seq<BufferCopy> },
    BuildAccelerationStructure { infos: Seq<AccelerationBuildTargets> },
    TraceRays { shader_binding_table: u64, width: u32, height: u32, depth: u32 },
    SetScissor { x: i32, y: i32, width: u32, height: u32 },
    BindGraphicsDescriptorSets { layout: u64, first_set: u32, sets: Seq<u64>, dynamic_offsets: Seq<u32> },
    BindComputeDescriptorSets { layout: u64, first_set: u32, sets: Seq<u64>, dynamic_offsets: Seq<u32> },
    BindRayTracingDescriptorSets { layout: u64, first_set: u32, sets: Seq<u64>, dynamic_offsets: Seq<u32> },
    PushConstants { layout: u64, stages: ShaderStageFlags, offset: u32, data: Seq<u8> },
    CopyImage {
        src_image: u64,
        src_layout: i32,
        dst_image: u64,
        dst_layout: i32,
        regions: Seq<ImageCopy>,
    },
    CopyBufferImage { src_buffer: u64, dst_image: u64, dst_layout: i32, regions: Seq<BufferImageCopy> },
    Dispatch { x: u32, y: u32, z: u32 },
}

impl View for Command {
    type V = CommandView;

    open spec fn view(&self) -> CommandView {
        match self {
            Command::BeginRenderPass { framebuffer, clears } => CommandView::BeginRenderPass {
                framebuffer: *framebuffer,
                clears: *clears,
            },
            Command::EndRenderPass => CommandView::EndRenderPass,
            Command::BindGraphicsPipeline { pipeline } => CommandView::BindGraphicsPipeline { pipeline: *pipeline },
            Command::BindComputePipeline { pipeline } => CommandView::BindComputePipeline { pipeline: *pipeline },
            Command::BindRayTracingPipeline { pipeline } => CommandView::BindRayTracingPipeline { pipeline: *pipeline },
            Command::BindVertexBuffers { first, buffers } => CommandView::BindVertexBuffers {
                first: *first,
                buffers: buffers@,
            },
            Command::BindIndexBuffer { buffer, offset, index_type } => CommandView::BindIndexBuffer {
                buffer: *buffer,
                offset: *offset,
                index_type: *index_type,
            },
            Command::Draw { first_vertex, end_vertex, first_instance, end_instance } => CommandView::Draw {
                first_vertex: *first_vertex,
                end_vertex: *end_vertex,
                first_instance: *first_instance,
                end_instance: *end_instance,
            },
            Command::DrawIndexed { first_index, end_index, vertex_offset, first_instance, end_instance } =>
                CommandView::DrawIndexed {
                first_index: *first_index,
                end_index: *end_index,
                vertex_offset: *vertex_offset,
                first_instance: *first_instance,
                end_instance: *end_instance,
            },
            Command::UpdateBuffer { buffer, offset, data } => CommandView::UpdateBuffer {
                buffer: *buffer,
                offset: *offset,
                data: data@,
            },
            Command::CopyBuffer { src_buffer, dst_buffer, regions } => CommandView::CopyBuffer {
                src_buffer: *src_buffer,
                dst_buffer: *dst_buffer,
                regions: regions@,
            },
            Command::BuildAccelerationStructure { infos } => CommandView::BuildAccelerationStructure {
                infos: infos@,
            },
            Command::TraceRays { shader_binding_table, width, height, depth } => CommandView::TraceRays {
                shader_binding_table: *shader_binding_table,
                width: *width,
                height: *height,
                depth: *depth,
            },
            Command::SetScissor { x, y, width, height } => CommandView::SetScissor {
                x: *x,
                y: *y,
                width: *width,
                height: *height,
            },
            Command::BindGraphicsDescriptorSets { layout, first_set, sets, dynamic_offsets } =>
                CommandView::BindGraphicsDescriptorSets {
                layout: *layout,
                first_set: *first_set,
                sets: sets@,
                dynamic_offsets: dynamic_offsets@,
            },
            Command::BindComputeDescriptorSets { layout, first_set, sets, dynamic_offsets } =>
                CommandView::BindComputeDescriptorSets {
                layout: *layout,
                first_set: *first_set,
                sets: sets@,
                dynamic_offsets: dynamic_offsets@,
            },
            Command::BindRayTracingDescriptorSets { layout, first_set, sets, dynamic_offsets } =>
                CommandView::BindRayTracingDescriptorSets {
                layout: *layout,
                first_set: *first_set,
                sets: sets@,
                dynamic_offsets: dynamic_offsets@,
            },
            Command::PushConstants { layout, stages, offset, data } => CommandView::PushConstants {
                layout: *layout,
                stages: *stages,
                offset: *offset,
                data: data@,
            },
            Command::CopyImage { src_image, src_layout, dst_image, dst_layout, regions } =>
                CommandView::CopyImage {
                src_image: *src_image,
                src_layout: *src_layout,
                dst_image: *dst_image,
                dst_layout: *dst_layout,
                regions: regions@,
            },
            Command::CopyBufferImage { src_buffer, dst_image, dst_layout, regions } =>
                CommandView::CopyBufferImage {
                src_buffer: *src_buffer,
                dst_image: *dst_image,
                dst_layout: *dst_layout,
                regions: regions@,
            },
            Command::Dispatch { x, y, z } => CommandView::Dispatch { x: *x, y: *y, z: *z },
        }
    }
}

/// Every render pass begun in `commands` is ended before the next one begins; `open`
/// tells whether the last one is still open.
pub open spec fn render_passes_bracketed(commands: Seq<CommandView>, open: bool) -> bool
    decreases commands.len(),
{
    if commands.len() == 0 {
        !open
    } else {
        let last = commands.last();
        let rest = commands.drop_last();
        match last {
            CommandView::BeginRenderPass { .. } => open && render_passes_bracketed(rest, false),
            CommandView::EndRenderPass => !open && render_passes_bracketed(rest, true),
            _ => render_passes_bracketed(rest, open),
        }
    }
}

/// Records commands for a queue that supports graphics and/or compute work. Draws are
/// recorded inside a render pass; transfers, builds, ray tracing and dispatches outside
/// one; bindings anywhere.
pub struct Encoder {
    graphics: bool,
    compute: bool,
    in_render_pass: bool,
    commands: Vec<Command>,
}

impl Encoder {
    /// The commands recorded so far, in order.
    pub closed spec fn commands(&self) -> Seq<CommandView> {
        self.commands@.map_values(|c: Command| c@)
    }

    /// The queue supports graphics work.
    pub closed spec fn graphics(&self) -> bool {
        self.graphics
    }

    /// The queue supports compute work.
    pub closed spec fn compute(&self) -> bool {
        self.compute
    }

    /// A render pass is open.
    pub closed spec fn in_render_pass(&self) -> bool {
        self.in_render_pass
    }

    /// The recorded render passes are well bracketed.
    #[verifier::type_invariant]
    closed spec fn bracketed(&self) -> bool {
        render_passes_bracketed(self.commands(), self.in_render_pass)
    }

    /// An encoder without commands for a queue with the given capabilities.
    pub fn new(graphics: bool, compute: bool) -> (r: Self)
        ensures
            r.commands() == Seq::<CommandView>::empty(),
            r.graphics() == graphics,
            r.compute() == compute,
            !r.in_render_pass(),
    {
        let r = Encoder { graphics, compute, in_render_pass: false, commands: Vec::new() };
        assert(r.commands() =~= Seq::<CommandView>::empty());
        r
    }

    fn record(&mut self, command: Command, opens: bool)
        requires
            render_passes_bracketed(old(self).commands().push(command@), opens),
        ensures
            final(self).commands() == old(self).commands().push(command@),
            final(self).in_render_pass() == opens,
            final(self).graphics() == old(self).graphics(),
            final(self).compute() == old(self).compute(),
    {
        let ghost c = command@;
        let mut taken = Encoder::new(false, false);
        std::mem::swap(self, &mut taken);
        let Encoder { graphics, compute, in_render_pass: _, mut commands } = taken;
        let ghost before = commands@;
        commands.push(command);
        assert(commands@.map_values(|x: Command| x@) =~= before.map_values(|x: Command| x@).push(c));
        *self = Encoder { graphics, compute, in_render_pass: opens, commands };
    }

    /// Begins a render pass on `framebuffer` with `clears` clear values.
    pub fn begin_render_pass(&mut self, framebuffer: u64, clears: usize)
        requires
            old(self).graphics(),
            !old(self).in_render_pass(),
        ensures
            final(self).commands() == old(self).commands().push(
                CommandView::BeginRenderPass { framebuffer, clears },
            ),
            final(self).in_render_pass(),
            final(self).graphics() == old(self).graphics(),
            final(self).compute() == old(self).compute(),
    {
        proof {
            use_type_invariant(&*self);
        }
        let c = Command::BeginRenderPass { framebuffer, clears };
        proof {
            let s = self.commands().push(c@);
            assert(s.drop_last() =~= self.commands());
        }
        self.record(c, true);
    }

    /// Ends the open render pass.
    pub fn end_render_pass(&mut self)
        requires
            old(self).in_render_pass(),
        ensures
            final(self).commands() == old(self).commands().push(CommandView::EndRenderPass),
            !final(self).in_render_pass(),
            final(self).graphics() == old(self).graphics(),
            final(self).compute() == old(self).compute(),
    {
        proof {
            use_type_invariant(&*self);
        }
        let c = Command::EndRenderPass;
        proof {
            let s = self.commands().push(c@);
            assert(s.drop_last() =~= self.commands());
        }
        self.record(c, false);
    }

    fn record_same(&mut self, command: Command)
        requires
            match command@ {
                CommandView::BeginRenderPass { .. } | CommandView::EndRenderPass => false,
                _ => true,
            },
        ensures
            final(self).commands() == old(self).commands().push(command@),
            final(self).in_render_pass() == old(self).in_render_pass(),
            final(self).graphics() == old(self).graphics(),
            final(self).compute() == old(self).compute(),
    {
        proof {
            use_type_invariant(&*self);
            let s = self.commands().push(command@);
            assert(s.drop_last() =~= self.commands());
        }
        let open = self.in_render_pass;
        self.record(command, open);
    }

    /// Draws `first_vertex..end_vertex` for instances `first_instance..end_instance`.
    pub fn draw(&mut self, first_vertex: u32, end_vertex: u32, first_instance: u32, end_instance: u32)
        requires
            old(self).in_render_pass(),
        ensures
            final(self).commands() == old(self).commands().push(
                CommandView::Draw { first_vertex, end_vertex, first_instance, end_instance },
            ),
            final(self).in_render_pass(),
            final(self).graphics() == old(self).graphics(),
            final(self).compute() == old(self).compute(),
    {
        self.record_same(Command::Draw { first_vertex, end_vertex, first_instance, end_instance });
    }

    /// Draws indices `first_index..end_index` for instances `first_instance..end_instance`.
    pub fn draw_indexed(
        &mut self,
        first_index: u32,
        end_index: u32,
        vertex_offset: i32,
        first_instance: u32,
        end_instance: u32,
    )
        requires
            old(self).in_render_pass(),
        ensures
            final(self).commands() == old(self).commands().push(
                CommandView::DrawIndexed { first_index, end_index, vertex_offset, first_instance, end_instance },
            ),
            final(self).in_render_pass(),
            final(self).graphics() == old(self).graphics(),
            final(self).compute() == old(self).compute(),
    {
        self.record_same(
            Command::DrawIndexed { first_index, end_index, vertex_offset, first_instance, end_instance },
        );
    }

    /// Binds a graphics pipeline.
    pub fn bind_graphics_pipeline(&mut self, pipeline: u64)
        requires
            old(self).graphics(),
        ensures
            final(self).commands() == old(self).commands().push(CommandView::BindGraphicsPipeline { pipeline }),
            final(self).in_render_pass() == old(self).in_render_pass(),
            final(self).graphics() == old(self).graphics(),
            final(self).compute() == old(self).compute(),
    {
        self.record_same(Command::BindGraphicsPipeline { pipeline });
    }

    /// Binds a compute pipeline.
    pub fn bind_compute_pipeline(&mut self, pipeline: u64)
        requires
            old(self).compute(),
        ensures
            final(self).commands() == old(self).commands().push(CommandView::BindComputePipeline { pipeline }),
            final(self).in_render_pass() == old(self).in_render_pass(),
            final(self).graphics() == old(self).graphics(),
            final(self).compute() == old(self).compute(),
    {
        self.record_same(Command::BindComputePipeline { pipeline });
    }

    /// Binds a ray tracing pipeline.
    pub fn bind_ray_tracing_pipeline(&mut self, pipeline: u64)
        requires
            old(self).compute(),
        ensures
            final(self).commands() == old(self).commands().push(CommandView::BindRayTracingPipeline { pipeline }),
            final(self).in_render_pass() == old(self).in_render_pass(),
            final(self).graphics() == old(self).graphics(),
            final(self).compute() == old(self).compute(),
    {
        self.record_same(Command::BindRayTracingPipeline { pipeline });
    }

    /// Binds `buffers`, each with its offset, as vertex buffers from binding `first` on.
    pub fn bind_vertex_buffers(&mut self, first: u32, buffers: &[(u64, u64)])
        requires
            old(self).graphics(),
        ensures
            final(self).commands() == old(self).commands().push(
                CommandView::BindVertexBuffers { first, buffers: buffers@ },
            ),
            final(self).in_render_pass() == old(self).in_render_pass(),
            final(self).graphics() == old(self).graphics(),
            final(self).compute() == old(self).compute(),
    {
        let buffers = vstd::slice::slice_to_vec(buffers);
        self.record_same(Command::BindVertexBuffers { first, buffers });
    }

    /// Binds `buffer` from `offset` on as the index buffer, with indices of `index_type`.
    pub fn bind_index_buffer(&mut self, buffer: u64, offset: u64, index_type: IndexType)
        requires
            old(self).graphics(),
        ensures
            final(self).commands() == old(self).commands().push(
                CommandView::BindIndexBuffer { buffer, offset, index_type },
            ),
            final(self).in_render_pass() == old(self).in_render_pass(),
            final(self).graphics() == old(self).graphics(),
            final(self).compute() == old(self).compute(),
    {
        self.record_same(Command::BindIndexBuffer { buffer, offset, index_type });
    }

    /// Writes `data` at `offset` into `buffer`; nothing is recorded for no data. The
    /// offset must be a multiple of four and the data at most 65536 bytes.
    pub fn update_buffer(&mut self, buffer: u64, offset: u64, data: &[u8])
        requires
            offset % 4 == 0,
            data@.len() <= UPDATE_BUFFER_LIMIT,
            !old(self).in_render_pass(),
        ensures
            final(self).commands() == if data@.len() == 0 {
                old(self).commands()
            } else {
                old(self).commands().push(CommandView::UpdateBuffer { buffer, offset, data: data@ })
            },
            !final(self).in_render_pass(),
            final(self).graphics() == old(self).graphics(),
            final(self).compute() == old(self).compute(),
    {
        if data.len() == 0 {
            return;
        }
        let data = vstd::slice::slice_to_vec(data);
        self.record_same(Command::UpdateBuffer { buffer, offset, data });
    }

    /// Copies `regions` from `src_buffer` to `dst_buffer`.
    pub fn copy_buffer(&mut self, src_buffer: u64, dst_buffer: u64, regions: &[BufferCopy])
        requires
            !old(self).in_render_pass(),
        ensures
            final(self).commands() == old(self).commands().push(
                CommandView::CopyBuffer { src_buffer, dst_buffer, regions: regions@ },
            ),
            !final(self).in_render_pass(),
            final(self).graphics() == old(self).graphics(),
            final(self).compute() == old(self).compute(),
    {
        let regions = vstd::slice::slice_to_vec(regions);
        self.record_same(Command::CopyBuffer { src_buffer, dst_buffer, regions });
    }

    /// Builds acceleration structures; nothing is recorded for no builds. No build of the
    /// batch may read or update what another writes.
    pub fn build_acceleration_structure(&mut self, infos: &[AccelerationBuildTargets])
        requires
            old(self).compute(),
            !old(self).in_render_pass(),
            builds_collision_free(infos@),
        ensures
            final(self).commands() == if infos@.len() == 0 {
                old(self).commands()
            } else {
                old(self).commands().push(CommandView::BuildAccelerationStructure { infos: infos@ })
            },
            !final(self).in_render_pass(),
            final(self).graphics() == old(self).graphics(),
            final(self).compute() == old(self).compute(),
    {
        if infos.len() == 0 {
            return;
        }
        let infos = vstd::slice::slice_to_vec(infos);
        self.record_same(Command::BuildAccelerationStructure { infos });
    }

    /// Traces rays over a `width` by `height` by `depth` grid.
    pub fn trace_rays(&mut self, shader_binding_table: u64, width: u32, height: u32, depth: u32)
        requires
            old(self).compute(),
            !old(self).in_render_pass(),
        ensures
            final(self).commands() == old(self).commands().push(
                CommandView::TraceRays { shader_binding_table, width, height, depth },
            ),
            !final(self).in_render_pass(),
            final(self).graphics() == old(self).graphics(),
            final(self).compute() == old(self).compute(),
    {
        self.record_same(Command::TraceRays { shader_binding_table, width, height, depth });
    }

    /// Dispatches `x` by `y` by `z` compute work groups.
    pub fn dispatch(&mut self, x: u32, y: u32, z: u32)
        requires
            old(self).compute(),
            !old(self).in_render_pass(),
        ensures
            final(self).commands() == old(self).commands().push(CommandView::Dispatch { x, y, z }),
            !final(self).in_render_pass(),
            final(self).graphics() == old(self).graphics(),
            final(self).compute() == old(self).compute(),
    {
        self.record_same(Command::Dispatch { x, y, z });
    }

    /// Sets the scissor rectangle.
    pub fn set_scissor(&mut self, x: i32, y: i32, width: u32, height: u32)
        requires
            old(self).graphics(),
        ensures
            final(self).commands() == old(self).commands().push(CommandView::SetScissor { x, y, width, height }),
            final(self).in_render_pass() == old(self).in_render_pass(),
            final(self).graphics() == old(self).graphics(),
            final(self).compute() == old(self).compute(),
    {
        self.record_same(Command::SetScissor { x, y, width, height });
    }

    /// Binds descriptor sets `sets` from set `first_set` on for graphics pipelines of `layout`.
    pub fn bind_graphics_descriptor_sets(&mut self, layout: u64, first_set: u32, sets: &[u64], dynamic_offsets: &[u32])
        requires
            old(self).graphics(),
        ensures
            final(self).commands() == old(self).commands().push(
                CommandView::BindGraphicsDescriptorSets { layout, first_set, sets: sets@, dynamic_offsets: dynamic_offsets@ },
            ),
            final(self).in_render_pass() == old(self).in_render_pass(),
            final(self).graphics() == old(self).graphics(),
            final(self).compute() == old(self).compute(),
    {
        let sets = vstd::slice::slice_to_vec(sets);
        let dynamic_offsets = vstd::slice::slice_to_vec(dynamic_offsets);
        self.record_same(Command::BindGraphicsDescriptorSets { layout, first_set, sets, dynamic_offsets });
    }

    /// Binds descriptor sets `sets` from set `first_set` on for compute pipelines of `layout`.
    pub fn bind_compute_descriptor_sets(&mut self, layout: u64, first_set: u32, sets: &[u64], dynamic_offsets: &[u32])
        requires
            old(self).compute(),
        ensures
            final(self).commands() == old(self).commands().push(
                CommandView::BindComputeDescriptorSets { layout, first_set, sets: sets@, dynamic_offsets: dynamic_offsets@ },
            ),
            final(self).in_render_pass() == old(self).in_render_pass(),
            final(self).graphics() == old(self).graphics(),
            final(self).compute() == old(self).compute(),
    {
        let sets = vstd::slice::slice_to_vec(sets);
        let dynamic_offsets = vstd::slice::slice_to_vec(dynamic_offsets);
        self.record_same(Command::BindComputeDescriptorSets { layout, first_set, sets, dynamic_offsets });
    }

    /// Binds descriptor sets `sets` from set `first_set` on for ray tracing pipelines of `layout`.
    pub fn bind_ray_tracing_descriptor_sets(&mut self, layout: u64, first_set: u32, sets: &[u64], dynamic_offsets: &[u32])
        requires
            old(self).compute(),
        ensures
            final(self).commands() == old(self).commands().push(
                CommandView::BindRayTracingDescriptorSets { layout, first_set, sets: sets@, dynamic_offsets: dynamic_offsets@ },
            ),
            final(self).in_render_pass() == old(self).in_render_pass(),
            final(self).graphics() == old(self).graphics(),
            final(self).compute() == old(self).compute(),
    {
        let sets = vstd::slice::slice_to_vec(sets);
        let dynamic_offsets = vstd::slice::slice_to_vec(dynamic_offsets);
        self.record_same(Command::BindRayTracingDescriptorSets { layout, first_set, sets, dynamic_offsets });
    }

    /// Sets push constants `data` from byte `offset` on for the stages `stages` of pipelines
    /// of `layout`. The data must fit in a `u32` count of bytes.
    pub fn push_constants(&mut self, layout: u64, stages: ShaderStageFlags, offset: u32, data: &[u8])
        requires
            data@.len() <= u32::MAX,
        ensures
            final(self).commands() == old(self).commands().push(
                CommandView::PushConstants { layout, stages, offset, data: data@ },
            ),
            final(self).in_render_pass() == old(self).in_render_pass(),
            final(self).graphics() == old(self).graphics(),
            final(self).compute() == old(self).compute(),
    {
        let data = vstd::slice::slice_to_vec(data);
        self.record_same(Command::PushConstants { layout, stages, offset, data });
    }

    /// Copies `regions` from `src_image` to `dst_image`, images given with their layouts'
    /// Vulkan codes.
    pub fn copy_image(&mut self, src_image: u64, src_layout: i32, dst_image: u64, dst_layout: i32, regions: &[ImageCopy])
        requires
            !old(self).in_render_pass(),
        ensures
            final(self).commands() == old(self).commands().push(
                CommandView::CopyImage { src_image, src_layout, dst_image, dst_layout, regions: regions@ },
            ),
            !final(self).in_render_pass(),
            final(self).graphics() == old(self).graphics(),
            final(self).compute() == old(self).compute(),
    {
        let regions = vstd::slice::slice_to_vec(regions);
        self.record_same(Command::CopyImage { src_image, src_layout, dst_image, dst_layout, regions });
    }

    /// Copies `regions` from `src_buffer` into `dst_image`, given with its layout's Vulkan code.
    pub fn copy_buffer_to_image(&mut self, src_buffer: u64, dst_image: u64, dst_layout: i32, regions: &[BufferImageCopy])
        requires
            !old(self).in_render_pass(),
        ensures
            final(self).commands() == old(self).commands().push(
                CommandView::CopyBufferImage { src_buffer, dst_image, dst_layout, regions: regions@ },
            ),
            !final(self).in_render_pass(),
            final(self).graphics() == old(self).graphics(),
            final(self).compute() == old(self).compute(),
    {
        let regions = vstd::slice::slice_to_vec(regions);
        self.record_same(Command::CopyBufferImage { src_buffer, dst_image, dst_layout, regions });
    }

    /// The recorded commands; every render pass must have been ended.
    pub fn finish(self) -> (r: Vec<Command>)
        requires
            !self.in_render_pass(),
        ensures
            r@.map_values(|c: Command| c@) == self.commands(),
            render_passes_bracketed(self.commands(), false),
    {
        proof {
            use_type_invariant(&self);
        }
        self.commands
    }
}

} // verus!
