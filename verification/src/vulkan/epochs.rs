use std::collections::VecDeque;
use vstd::prelude::*;
use crate::encode::{AccelerationBuildTargets, Command, CommandView};

verus! {

/// Command buffers submitted during one epoch of a queue.
struct Epoch<C> {
    cbufs: Vec<C>,
}

/// The command buffers of each epoch, in the order of `epochs`.
pub open spec fn epoch_contents<C>(epochs: Seq<Seq<C>>) -> Seq<C>
    decreases epochs.len(),
{
    if epochs.len() == 0 {
        Seq::empty()
    } else {
        epochs[0] + epoch_contents(epochs.drop_first())
    }
}

/// The contents of `a + b` are the contents of `a` followed by those of `b`.
pub proof fn lemma_epoch_contents_concat<C>(a: Seq<Seq<C>>, b: Seq<Seq<C>>)
    ensures
        epoch_contents(a + b) == epoch_contents(a) + epoch_contents(b),
    decreases a.len(),
{
    if a.len() == 0 {
        assert(a + b =~= b);
    } else {
        assert((a + b).drop_first() =~= a.drop_first() + b);
        lemma_epoch_contents_concat(a.drop_first(), b);
    }
}

/// Appending one epoch appends its command buffers.
proof fn lemma_epoch_contents_push<C>(a: Seq<Seq<C>>, x: Seq<C>)
    ensures
        epoch_contents(a.push(x)) == epoch_contents(a) + x,
{
    lemma_epoch_contents_concat(a, seq![x]);
    assert(a.push(x) =~= a + seq![x]);
    assert(seq![x].drop_first() =~= Seq::<Seq<C>>::empty());
    assert(epoch_contents(Seq::<Seq<C>>::empty()) == Seq::<C>::empty());
    assert(epoch_contents(seq![x]) == seq![x][0] + epoch_contents(seq![x].drop_first()));
    assert(epoch_contents(seq![x]) =~= x);
}

/// The command buffers of each epoch.
spec fn epoch_views<C>(epochs: Seq<Epoch<C>>) -> Seq<Seq<C>> {
    Seq::new(epochs.len(), |i: int| epochs[i].cbufs@)
}

/// Epoch bookkeeping of one queue.
///
/// Epochs are numbered: the open epoch, into which command buffers are submitted, is
/// `current`; each older epoch that has not been closed yet follows it, the one at
/// position `i` being epoch `current - i`. Command buffers of closed epochs are handed
/// back for reuse, and the emptied epochs are kept for the next ones.
pub struct QueueEpochs<C> {
    current: u64,
    cbufs: Vec<C>,
    cache: VecDeque<Epoch<C>>,
    epochs: VecDeque<Epoch<C>>,
}

impl<C> QueueEpochs<C> {
    /// Number of the open epoch.
    pub closed spec fn current(&self) -> u64 {
        self.current
    }

    /// Command buffers that are free for reuse.
    pub closed spec fn free_cbufs(&self) -> Seq<C> {
        self.cbufs@
    }

    /// Command buffers of the epochs that are not closed, newest epoch first.
    pub closed spec fn epochs(&self) -> Seq<Seq<C>> {
        epoch_views(self.epochs@)
    }

    /// Number of emptied epochs kept for reuse.
    pub closed spec fn spare_epochs(&self) -> nat {
        self.cache@.len()
    }

    /// There is always an open epoch, no epoch number is negative, and kept epochs are empty.
    #[verifier::type_invariant]
    closed spec fn wf(&self) -> bool {
        &&& self.epochs@.len() >= 1
        &&& self.epochs@.len() <= self.current + 1
        &&& forall|i: int| 0 <= i < self.cache@.len() ==> (#[trigger] self.cache@[i]).cbufs@.len() == 0
    }

    /// Number of the open epoch.
    pub fn current_epoch(&self) -> (r: u64)
        ensures
            r == self.current(),
    {
        self.current
    }

    /// Bookkeeping with epoch `0` open and nothing submitted.
    pub fn new() -> (r: Self)
        ensures
            r.current() == 0,
            r.free_cbufs() == Seq::<C>::empty(),
            r.epochs() == seq![Seq::<C>::empty()],
            r.spare_epochs() == 0,
    {
        let mut epochs = VecDeque::new();
        epochs.push_back(Epoch { cbufs: Vec::new() });
        let r = QueueEpochs { current: 0, cbufs: Vec::new(), cache: VecDeque::new(), epochs };
        assert(r.epochs() =~= seq![Seq::<C>::empty()]);
        r
    }

    /// Opens the next epoch and returns the number of the one it replaces.
    pub fn next_epoch(&mut self) -> (r: u64)
        requires
            old(self).current() < u64::MAX,
        ensures
            r == old(self).current(),
            final(self).current() == old(self).current() + 1,
            final(self).epochs() == seq![Seq::<C>::empty()] + old(self).epochs(),
            final(self).free_cbufs() == old(self).free_cbufs(),
            final(self).spare_epochs() == if old(self).spare_epochs() > 0 {
                old(self).spare_epochs() - 1
            } else {
                0
            },
    {
        let mut taken = QueueEpochs::new();
        std::mem::swap(self, &mut taken);
        proof {
            use_type_invariant(&taken);
        }
        let ghost before = taken.epochs();
        let QueueEpochs { current, cbufs, mut cache, mut epochs } = taken;
        let ghost cache_before = cache@;
        let epoch = match cache.pop_front() {
            Some(epoch) => epoch,
            None => Epoch { cbufs: Vec::new() },
        };
        assert(epoch.cbufs@ =~= Seq::<C>::empty());
        epochs.push_front(epoch);
        assert forall|i: int| 0 <= i < cache@.len() implies (#[trigger] cache@[i]).cbufs@.len() == 0 by {
            assert(cache@[i] == cache_before[i + 1]);
        }
        *self = QueueEpochs { current: current + 1, cbufs, cache, epochs };
        assert(self.epochs() =~= seq![Seq::<C>::empty()] + before);
        current
    }

    /// Closes epoch `epoch` and every older one: their command buffers are returned,
    /// newest epoch first and in submission order, and the emptied epochs are kept.
    pub fn close_epoch(&mut self, epoch: u64) -> (released: Vec<C>)
        requires
            epoch < old(self).current(),
        ensures
            final(self).current() == old(self).current(),
            final(self).free_cbufs() == old(self).free_cbufs(),
            final(self).epochs().len() == if old(self).epochs().len() <= old(self).current() - epoch {
                old(self).epochs().len() as int
            } else {
                old(self).current() - epoch
            },
            final(self).epochs() == old(self).epochs().take(final(self).epochs().len() as int),
            released@ == epoch_contents(old(self).epochs().skip(final(self).epochs().len() as int)),
            final(self).spare_epochs() == old(self).spare_epochs() + old(self).epochs().len()
                - final(self).epochs().len(),
    {
        let mut taken = QueueEpochs::new();
        std::mem::swap(self, &mut taken);
        proof {
            use_type_invariant(&taken);
        }
        let ghost before = taken.epochs();
        let QueueEpochs { current, cbufs, mut cache, mut epochs } = taken;
        let mut released: Vec<C> = Vec::new();
        let distance: u64 = current - epoch;
        if distance < epochs.len() as u64 {
            let len = distance as usize;
            let ghost cache_before = cache@;
            let mut drained = epochs.split_off(len);
            let total: usize = drained.len();
            let ghost all = drained@;
            assert(epoch_views(epochs@) =~= before.take(len as int));
            let ghost tail = before.skip(len as int);
            assert forall|i: int| 0 <= i < all.len() implies #[trigger] all[i].cbufs@ == tail[i] by {
                assert(all[i] == old(self).epochs@[len + i]);
            }
            let mut k: usize = 0;
            while drained.len() > 0
                invariant
                    0 <= k <= all.len(),
                    all.len() == total,
                    drained@ == all.subrange(k as int, all.len() as int),
                    tail.len() == all.len(),
                    forall|i: int| 0 <= i < all.len() ==> #[trigger] all[i].cbufs@ == tail[i],
                    released@ == epoch_contents(tail.take(k as int)),
                    cache@.len() == cache_before.len() + k,
                    cache@.subrange(0, cache_before.len() as int) == cache_before,
                    forall|i: int| 0 <= i < cache@.len() ==> (#[trigger] cache@[i]).cbufs@.len() == 0,
                decreases drained@.len(),
            {
                let mut item = drained.pop_front().unwrap();
                proof {
                    assert(item == all[k as int]);
                    lemma_epoch_contents_push(tail.take(k as int), tail[k as int]);
                    assert(tail.take(k as int).push(tail[k as int]) =~= tail.take(k + 1));
                }
                released.append(&mut item.cbufs);
                let ghost cache_mid = cache@;
                cache.push_back(item);
                k = k + 1;
                assert(cache@.subrange(0, cache_before.len() as int) =~= cache_mid.subrange(
                    0,
                    cache_before.len() as int,
                ));
                assert forall|i: int| 0 <= i < cache@.len() implies (#[trigger] cache@[i]).cbufs@.len()
                    == 0 by {
                    if i < cache_mid.len() {
                        assert(cache@[i] == cache_mid[i]);
                    }
                }
            }
            assert(tail.take(k as int) =~= tail);
        } else {
            assert(before.skip(before.len() as int) =~= Seq::<Seq<C>>::empty());
            assert(before.take(before.len() as int) =~= before);
        }
        *self = QueueEpochs { current, cbufs, cache, epochs };
        released
    }

    /// Moves the free command buffers to the end of `cbufs`.
    pub fn drain_cbuf(&mut self, cbufs: &mut Vec<C>)
        ensures
            final(cbufs)@ == old(cbufs)@ + old(self).free_cbufs(),
            final(self).free_cbufs() == Seq::<C>::empty(),
            final(self).current() == old(self).current(),
            final(self).epochs() == old(self).epochs(),
            final(self).spare_epochs() == old(self).spare_epochs(),
    {
        let mut taken = QueueEpochs::new();
        std::mem::swap(self, &mut taken);
        proof {
            use_type_invariant(&taken);
        }
        let QueueEpochs { current, cbufs: mut own, cache, epochs } = taken;
        cbufs.append(&mut own);
        *self = QueueEpochs { current, cbufs: own, cache, epochs };
    }

    /// Hands command buffers back as free for reuse, after the last one.
    pub fn recycle(&mut self, mut cbufs: Vec<C>)
        ensures
            final(self).free_cbufs() == old(self).free_cbufs() + cbufs@,
            final(self).current() == old(self).current(),
            final(self).epochs() == old(self).epochs(),
            final(self).spare_epochs() == old(self).spare_epochs(),
    {
        let mut taken = QueueEpochs::new();
        std::mem::swap(self, &mut taken);
        proof {
            use_type_invariant(&taken);
        }
        let QueueEpochs { current, cbufs: mut own, cache, epochs } = taken;
        own.append(&mut cbufs);
        *self = QueueEpochs { current, cbufs: own, cache, epochs };
    }

    /// Records command buffers as submitted during the open epoch.
    pub fn submit(&mut self, mut cbufs: Vec<C>)
        ensures
            final(self).epochs() == old(self).epochs().update(0, old(self).epochs()[0] + cbufs@),
            final(self).free_cbufs() == old(self).free_cbufs(),
            final(self).current() == old(self).current(),
            final(self).spare_epochs() == old(self).spare_epochs(),
    {
        let mut taken = QueueEpochs::new();
        std::mem::swap(self, &mut taken);
        proof {
            use_type_invariant(&taken);
        }
        let ghost before = taken.epochs();
        let ghost added = cbufs@;
        let QueueEpochs { current, cbufs: free, cache, mut epochs } = taken;
        let mut front = epochs.pop_front().unwrap();
        assert(front.cbufs@ == before[0]);
        front.cbufs.append(&mut cbufs);
        assert(front.cbufs@ == before[0] + added);
        epochs.push_front(front);
        *self = QueueEpochs { current, cbufs: free, cache, epochs };
        assert(self.epochs() =~= before.update(0, before[0] + added));
    }
}

/// Command buffers are neither lost nor duplicated by closing epochs: those of the
/// epochs that stay open, followed by those released, are those of the epochs before.
pub proof fn lemma_close_epoch_keeps_cbufs<C>(before: Seq<Seq<C>>, kept: nat)
    requires
        kept <= before.len(),
    ensures
        epoch_contents(before) == epoch_contents(before.take(kept as int)) + epoch_contents(
            before.skip(kept as int),
        ),
{
    assert(before =~= before.take(kept as int) + before.skip(kept as int));
    lemma_epoch_contents_concat(before.take(kept as int), before.skip(kept as int));
}


/// Epoch numbers of a queue count the epochs opened: when a queue starts at epoch `0`
/// (as `QueueEpochs::new` leaves it) and each step opens the next epoch, returning the
/// number of the one it replaces and adding one (as `QueueEpochs::next_epoch` does),
/// the `k`-th step returns `k` and the queue ends at the number of steps. Numbers are
/// thus never repeated.
pub proof fn lemma_epoch_numbers_count_steps<C>(states: Seq<QueueEpochs<C>>, returned: Seq<u64>)
    requires
        states.len() == returned.len() + 1,
        states[0].current() == 0,
        forall|k: int|
            0 <= k < returned.len() ==> #[trigger] returned[k] == states[k].current() && states[k
                + 1].current() == states[k].current() + 1,
    ensures
        forall|k: int| 0 <= k < returned.len() ==> #[trigger] returned[k] == k,
        states.last().current() == returned.len(),
        forall|j: int, k: int| 0 <= j < k < returned.len() ==> returned[j] < returned[k],
    decreases returned.len(),
{
    if returned.len() > 0 {
        let n = returned.len() - 1;
        lemma_epoch_numbers_count_steps(states.drop_last(), returned.drop_last());
        assert(states.drop_last().last() == states[n]);
        assert forall|k: int| 0 <= k < returned.len() implies #[trigger] returned[k] == k by {
            if k < n {
                assert(returned.drop_last()[k] == returned[k]);
            } else {
                assert(returned[n] == states[n].current());
            }
        }
        assert(states.last() == states[n + 1]);
    }
}


/// The kinds of resources that a command buffer keeps alive.
#[derive(Clone, Copy, Debug, PartialEq, Eq, Structural)]
pub enum ReferenceKind {
    Buffer,
    Image,
    ImageView,
    GraphicsPipeline,
    ComputePipeline,
    RayTracingPipeline,
    PipelineLayout,
    Framebuffer,
    AccelerationStructure,
    Sampler,
    DescriptorSet,
}

/// Resources that recorded commands use, by raw handle, kept until the command buffer
/// is reset.
pub struct References {
    buffers: Vec<u64>,
    images: Vec<u64>,
    image_views: Vec<u64>,
    graphics_pipelines: Vec<u64>,
    compute_pipelines: Vec<u64>,
    ray_tracing_pipelines: Vec<u64>,
    pipeline_layouts: Vec<u64>,
    framebuffers: Vec<u64>,
    acceleration_strucutres: Vec<u64>,
    samplers: Vec<u64>,
    descriptor_sets: Vec<u64>,
}

impl References {
    /// The resources of kind `kind`, in the order they were added.
    pub closed spec fn list(&self, kind: ReferenceKind) -> Seq<u64> {
        match kind {
            ReferenceKind::Buffer => self.buffers@,
            ReferenceKind::Image => self.images@,
            ReferenceKind::ImageView => self.image_views@,
            ReferenceKind::GraphicsPipeline => self.graphics_pipelines@,
            ReferenceKind::ComputePipeline => self.compute_pipelines@,
            ReferenceKind::RayTracingPipeline => self.ray_tracing_pipelines@,
            ReferenceKind::PipelineLayout => self.pipeline_layouts@,
            ReferenceKind::Framebuffer => self.framebuffers@,
            ReferenceKind::AccelerationStructure => self.acceleration_strucutres@,
            ReferenceKind::Sampler => self.samplers@,
            ReferenceKind::DescriptorSet => self.descriptor_sets@,
        }
    }

    /// No resources.
    pub fn new() -> (r: Self)
        ensures
            forall|k: ReferenceKind| #[trigger] r.list(k) == Seq::<u64>::empty(),
    {
        References {
            buffers: Vec::new(),
            images: Vec::new(),
            image_views: Vec::new(),
            graphics_pipelines: Vec::new(),
            compute_pipelines: Vec::new(),
            ray_tracing_pipelines: Vec::new(),
            pipeline_layouts: Vec::new(),
            framebuffers: Vec::new(),
            acceleration_strucutres: Vec::new(),
            samplers: Vec::new(),
            descriptor_sets: Vec::new(),
        }
    }

    /// Keeps the buffer `buffer` alive.
    pub fn add_buffer(&mut self, buffer: u64)
        ensures
            final(self).list(ReferenceKind::Buffer) == old(self).list(ReferenceKind::Buffer).push(buffer),
            forall|other: ReferenceKind|
                other != ReferenceKind::Buffer ==> #[trigger] final(self).list(other) == old(self).list(other),
    {
        self.buffers.push(buffer);
    }

    /// Keeps the image `image` alive.
    pub fn add_image(&mut self, image: u64)
        ensures
            final(self).list(ReferenceKind::Image) == old(self).list(ReferenceKind::Image).push(image),
            forall|other: ReferenceKind|
                other != ReferenceKind::Image ==> #[trigger] final(self).list(other) == old(self).list(other),
    {
        self.images.push(image);
    }

    /// Keeps the graphics pipeline `graphics_pipeline` alive.
    pub fn add_graphics_pipeline(&mut self, graphics_pipeline: u64)
        ensures
            final(self).list(ReferenceKind::GraphicsPipeline) == old(self).list(ReferenceKind::GraphicsPipeline).push(graphics_pipeline),
            forall|other: ReferenceKind|
                other != ReferenceKind::GraphicsPipeline ==> #[trigger] final(self).list(other) == old(self).list(other),
    {
        self.graphics_pipelines.push(graphics_pipeline);
    }

    /// Keeps the compute pipeline `compute_pipeline` alive.
    pub fn add_compute_pipeline(&mut self, compute_pipeline: u64)
        ensures
            final(self).list(ReferenceKind::ComputePipeline) == old(self).list(ReferenceKind::ComputePipeline).push(compute_pipeline),
            forall|other: ReferenceKind|
                other != ReferenceKind::ComputePipeline ==> #[trigger] final(self).list(other) == old(self).list(other),
    {
        self.compute_pipelines.push(compute_pipeline);
    }

    /// Keeps the ray tracing pipeline `ray_tracing_pipeline` alive.
    pub fn add_ray_tracing_pipeline(&mut self, ray_tracing_pipeline: u64)
        ensures
            final(self).list(ReferenceKind::RayTracingPipeline) == old(self).list(ReferenceKind::RayTracingPipeline).push(ray_tracing_pipeline),
            forall|other: ReferenceKind|
                other != ReferenceKind::RayTracingPipeline ==> #[trigger] final(self).list(other) == old(self).list(other),
    {
        self.ray_tracing_pipelines.push(ray_tracing_pipeline);
    }

    /// Keeps the pipeline layout `pipeline_layout` alive.
    pub fn add_pipeline_layout(&mut self, pipeline_layout: u64)
        ensures
            final(self).list(ReferenceKind::PipelineLayout) == old(self).list(ReferenceKind::PipelineLayout).push(pipeline_layout),
            forall|other: ReferenceKind|
                other != ReferenceKind::PipelineLayout ==> #[trigger] final(self).list(other) == old(self).list(other),
    {
        self.pipeline_layouts.push(pipeline_layout);
    }

    /// Keeps the framebuffer `framebuffer` alive.
    pub fn add_framebuffer(&mut self, framebuffer: u64)
        ensures
            final(self).list(ReferenceKind::Framebuffer) == old(self).list(ReferenceKind::Framebuffer).push(framebuffer),
            forall|other: ReferenceKind|
                other != ReferenceKind::Framebuffer ==> #[trigger] final(self).list(other) == old(self).list(other),
    {
        self.framebuffers.push(framebuffer);
    }

    /// Keeps the acceleration strucutre `acceleration_strucutre` alive.
    pub fn add_acceleration_strucutre(&mut self, acceleration_strucutre: u64)
        ensures
            final(self).list(ReferenceKind::AccelerationStructure) == old(self).list(ReferenceKind::AccelerationStructure).push(acceleration_strucutre),
            forall|other: ReferenceKind|
                other != ReferenceKind::AccelerationStructure ==> #[trigger] final(self).list(other) == old(self).list(other),
    {
        self.acceleration_strucutres.push(acceleration_strucutre);
    }

    /// Keeps the descriptor set `descriptor_set` alive.
    pub fn add_descriptor_set(&mut self, descriptor_set: u64)
        ensures
            final(self).list(ReferenceKind::DescriptorSet) == old(self).list(ReferenceKind::DescriptorSet).push(descriptor_set),
            forall|other: ReferenceKind|
                other != ReferenceKind::DescriptorSet ==> #[trigger] final(self).list(other) == old(self).list(other),
    {
        self.descriptor_sets.push(descriptor_set);
    }

    /// Whether no resource is kept.
    pub fn is_empty(&self) -> (r: bool)
        ensures
            r == forall|k: ReferenceKind| #[trigger] self.list(k).len() == 0,
    {
        let r = self.buffers.len() == 0 && self.images.len() == 0 && self.image_views.len() == 0 && self.graphics_pipelines.len() == 0 && self.compute_pipelines.len() == 0 && self.ray_tracing_pipelines.len() == 0 && self.pipeline_layouts.len() == 0 && self.framebuffers.len() == 0 && self.acceleration_strucutres.len() == 0 && self.samplers.len() == 0 && self.descriptor_sets.len() == 0;
        proof {
            if !r {
                if self.buffers@.len() != 0 { assert(self.list(ReferenceKind::Buffer).len() != 0); }
                if self.images@.len() != 0 { assert(self.list(ReferenceKind::Image).len() != 0); }
                if self.image_views@.len() != 0 { assert(self.list(ReferenceKind::ImageView).len() != 0); }
                if self.graphics_pipelines@.len() != 0 { assert(self.list(ReferenceKind::GraphicsPipeline).len() != 0); }
                if self.compute_pipelines@.len() != 0 { assert(self.list(ReferenceKind::ComputePipeline).len() != 0); }
                if self.ray_tracing_pipelines@.len() != 0 { assert(self.list(ReferenceKind::RayTracingPipeline).len() != 0); }
                if self.pipeline_layouts@.len() != 0 { assert(self.list(ReferenceKind::PipelineLayout).len() != 0); }
                if self.framebuffers@.len() != 0 { assert(self.list(ReferenceKind::Framebuffer).len() != 0); }
                if self.acceleration_strucutres@.len() != 0 { assert(self.list(ReferenceKind::AccelerationStructure).len() != 0); }
                if self.samplers@.len() != 0 { assert(self.list(ReferenceKind::Sampler).len() != 0); }
                if self.descriptor_sets@.len() != 0 { assert(self.list(ReferenceKind::DescriptorSet).len() != 0); }
            }
        }
        r
    }

    /// Drops every kept resource.
    pub fn clear(&mut self)
        ensures
            forall|k: ReferenceKind| #[trigger] final(self).list(k) == Seq::<u64>::empty(),
    {
        self.buffers.clear();
        self.images.clear();
        self.image_views.clear();
        self.graphics_pipelines.clear();
        self.compute_pipelines.clear();
        self.ray_tracing_pipelines.clear();
        self.pipeline_layouts.clear();
        self.framebuffers.clear();
        self.acceleration_strucutres.clear();
        self.samplers.clear();
        self.descriptor_sets.clear();
    }
}


/// The acceleration structures a batch of builds uses: for each build, what it reads (if
/// it updates one) and then what it writes.
pub open spec fn build_references(infos: Seq<AccelerationBuildTargets>) -> Seq<u64>
    decreases infos.len(),
{
    if infos.len() == 0 {
        Seq::empty()
    } else {
        build_references(infos.drop_last()) + match infos.last().src {
            Some(src) => seq![src, infos.last().dst],
            None => seq![infos.last().dst],
        }
    }
}

/// The resources of kind `kind` that the command `c` uses, in the order it uses them.
pub open spec fn command_references(c: CommandView, kind: ReferenceKind) -> Seq<u64> {
    match c {
        CommandView::BeginRenderPass { framebuffer, .. } => if kind == ReferenceKind::Framebuffer {
            seq![framebuffer]
        } else {
            Seq::empty()
        },
        CommandView::BindGraphicsPipeline { pipeline } => if kind == ReferenceKind::GraphicsPipeline {
            seq![pipeline]
        } else {
            Seq::empty()
        },
        CommandView::BindComputePipeline { pipeline } => if kind == ReferenceKind::ComputePipeline {
            seq![pipeline]
        } else {
            Seq::empty()
        },
        CommandView::BindRayTracingPipeline { pipeline } => if kind == ReferenceKind::RayTracingPipeline {
            seq![pipeline]
        } else {
            Seq::empty()
        },
        CommandView::BindVertexBuffers { buffers, .. } => if kind == ReferenceKind::Buffer {
            Seq::new(buffers.len(), |i: int| buffers[i].0)
        } else {
            Seq::empty()
        },
        CommandView::BindIndexBuffer { buffer, .. } => if kind == ReferenceKind::Buffer {
            seq![buffer]
        } else {
            Seq::empty()
        },
        CommandView::UpdateBuffer { buffer, .. } => if kind == ReferenceKind::Buffer {
            seq![buffer]
        } else {
            Seq::empty()
        },
        CommandView::CopyBuffer { src_buffer, dst_buffer, .. } => if kind == ReferenceKind::Buffer {
            seq![src_buffer, dst_buffer]
        } else {
            Seq::empty()
        },
        CommandView::BuildAccelerationStructure { infos } => if kind
            == ReferenceKind::AccelerationStructure {
            build_references(infos)
        } else {
            Seq::empty()
        },
        CommandView::BindGraphicsDescriptorSets { layout, sets, .. }
        | CommandView::BindComputeDescriptorSets { layout, sets, .. }
        | CommandView::BindRayTracingDescriptorSets { layout, sets, .. } => if kind
            == ReferenceKind::PipelineLayout {
            seq![layout]
        } else if kind == ReferenceKind::DescriptorSet {
            sets
        } else {
            Seq::empty()
        },
        CommandView::PushConstants { layout, .. } => if kind == ReferenceKind::PipelineLayout {
            seq![layout]
        } else {
            Seq::empty()
        },
        CommandView::CopyImage { src_image, dst_image, .. } => if kind == ReferenceKind::Image {
            seq![src_image, dst_image]
        } else {
            Seq::empty()
        },
        CommandView::CopyBufferImage { src_buffer, dst_image, .. } => if kind == ReferenceKind::Buffer {
            seq![src_buffer]
        } else if kind == ReferenceKind::Image {
            seq![dst_image]
        } else {
            Seq::empty()
        },
        _ => Seq::empty(),
    }
}

impl References {
    /// Keeps alive every resource that `command` uses.
    pub fn record_command(&mut self, command: &Command)
        ensures
            forall|k: ReferenceKind|
                #[trigger] final(self).list(k) == old(self).list(k) + command_references(command@, k),
    {
        match command {
            Command::BeginRenderPass { framebuffer, .. } => self.add_framebuffer(*framebuffer),
            Command::BindGraphicsPipeline { pipeline } => self.add_graphics_pipeline(*pipeline),
            Command::BindComputePipeline { pipeline } => self.add_compute_pipeline(*pipeline),
            Command::BindRayTracingPipeline { pipeline } => self.add_ray_tracing_pipeline(*pipeline),
            Command::BindVertexBuffers { buffers, .. } => {
                let mut i: usize = 0;
                while i < buffers.len()
                    invariant
                        i <= buffers@.len(),
                        self.list(ReferenceKind::Buffer) == old(self).list(ReferenceKind::Buffer) + Seq::new(
                            i as nat,
                            |j: int| buffers@[j].0,
                        ),
                        forall|k: ReferenceKind|
                            k != ReferenceKind::Buffer ==> #[trigger] self.list(k) == old(self).list(k),
                    decreases buffers@.len() - i,
                {
                    self.add_buffer(buffers[i].0);
                    assert(self.list(ReferenceKind::Buffer) =~= old(self).list(ReferenceKind::Buffer)
                        + Seq::new((i + 1) as nat, |j: int| buffers@[j].0));
                    i = i + 1;
                }
            },
            Command::BindIndexBuffer { buffer, .. } => self.add_buffer(*buffer),
            Command::UpdateBuffer { buffer, .. } => self.add_buffer(*buffer),
            Command::CopyBuffer { src_buffer, dst_buffer, .. } => {
                self.add_buffer(*src_buffer);
                self.add_buffer(*dst_buffer);
            },
            Command::BuildAccelerationStructure { infos } => {
                let mut i: usize = 0;
                while i < infos.len()
                    invariant
                        i <= infos@.len(),
                        self.list(ReferenceKind::AccelerationStructure) == old(self).list(
                            ReferenceKind::AccelerationStructure,
                        ) + build_references(infos@.take(i as int)),
                        forall|k: ReferenceKind|
                            k != ReferenceKind::AccelerationStructure ==> #[trigger] self.list(k)
                                == old(self).list(k),
                    decreases infos@.len() - i,
                {
                    let info = infos[i];
                    proof {
                        let next = infos@.take(i + 1);
                        assert(next.drop_last() =~= infos@.take(i as int));
                        assert(next.last() == info);
                    }
                    match info.src {
                        Some(src) => self.add_acceleration_strucutre(src),
                        None => {},
                    }
                    self.add_acceleration_strucutre(info.dst);
                    i = i + 1;
                }
                assert(infos@.take(i as int) =~= infos@);
            },
            Command::BindGraphicsDescriptorSets { layout, sets, .. }
            | Command::BindComputeDescriptorSets { layout, sets, .. }
            | Command::BindRayTracingDescriptorSets { layout, sets, .. } => {
                self.add_pipeline_layout(*layout);
                let mut i: usize = 0;
                while i < sets.len()
                    invariant
                        i <= sets@.len(),
                        self.list(ReferenceKind::DescriptorSet) == old(self).list(ReferenceKind::DescriptorSet)
                            + sets@.take(i as int),
                        self.list(ReferenceKind::PipelineLayout) == old(self).list(ReferenceKind::PipelineLayout).push(*layout),
                        forall|k: ReferenceKind|
                            k != ReferenceKind::DescriptorSet && k != ReferenceKind::PipelineLayout ==> #[trigger] self.list(k)
                                == old(self).list(k),
                    decreases sets@.len() - i,
                {
                    self.add_descriptor_set(sets[i]);
                    assert(sets@.take(i + 1) =~= sets@.take(i as int).push(sets@[i as int]));
                    i = i + 1;
                }
                assert(sets@.take(i as int) =~= sets@);
            },
            Command::PushConstants { layout, .. } => self.add_pipeline_layout(*layout),
            Command::CopyImage { src_image, dst_image, .. } => {
                self.add_image(*src_image);
                self.add_image(*dst_image);
            },
            Command::CopyBufferImage { src_buffer, dst_image, .. } => {
                self.add_buffer(*src_buffer);
                self.add_image(*dst_image);
            },
            _ => {},
        }
        assert forall|k: ReferenceKind| #[trigger] self.list(k) == old(self).list(k) + command_references(command@, k) by {
            if command_references(command@, k).len() == 0 {
                assert(old(self).list(k) + command_references(command@, k) =~= old(self).list(k));
            }
        }
    }
}


/// Recording a command keeps alive every resource the command names, each under its own
/// kind, and nothing else: `after` is what `References::record_command` leaves from
/// `before`. A copy keeps both its source and its destination, a binding its pipeline,
/// layout and sets, a build every structure it reads or writes.
pub proof fn lemma_record_keeps_named_resources(before: References, after: References, c: CommandView)
    requires
        forall|k: ReferenceKind| #[trigger] after.list(k) == before.list(k) + command_references(c, k),
    ensures
        forall|k: ReferenceKind| before.list(k).is_prefix_of(#[trigger] after.list(k)),
        c matches CommandView::BeginRenderPass { framebuffer, .. } ==> after.list(ReferenceKind::Framebuffer).contains(framebuffer),
        c matches CommandView::BindGraphicsPipeline { pipeline } ==> after.list(ReferenceKind::GraphicsPipeline).contains(pipeline),
        c matches CommandView::BindComputePipeline { pipeline } ==> after.list(ReferenceKind::ComputePipeline).contains(pipeline),
        c matches CommandView::BindRayTracingPipeline { pipeline } ==> after.list(ReferenceKind::RayTracingPipeline).contains(pipeline),
        c matches CommandView::BindVertexBuffers { buffers, .. } ==> forall|i: int|
            0 <= i < buffers.len() ==> after.list(ReferenceKind::Buffer).contains(#[trigger] buffers[i].0),
        c matches CommandView::BindIndexBuffer { buffer, .. } ==> after.list(ReferenceKind::Buffer).contains(buffer),
        c matches CommandView::UpdateBuffer { buffer, .. } ==> after.list(ReferenceKind::Buffer).contains(buffer),
        c matches CommandView::CopyBuffer { src_buffer, dst_buffer, .. } ==> after.list(ReferenceKind::Buffer).contains(src_buffer)
            && after.list(ReferenceKind::Buffer).contains(dst_buffer)
            && after.list(ReferenceKind::Buffer).len() == before.list(ReferenceKind::Buffer).len() + 2,
        c matches CommandView::CopyImage { src_image, dst_image, .. } ==> after.list(ReferenceKind::Image).contains(src_image)
            && after.list(ReferenceKind::Image).contains(dst_image)
            && after.list(ReferenceKind::Image).len() == before.list(ReferenceKind::Image).len() + 2,
        c matches CommandView::CopyBufferImage { src_buffer, dst_image, .. } ==> after.list(ReferenceKind::Buffer).contains(src_buffer)
            && after.list(ReferenceKind::Image).contains(dst_image),
        c matches CommandView::PushConstants { layout, .. } ==> after.list(ReferenceKind::PipelineLayout).contains(layout),
        c matches CommandView::BindGraphicsDescriptorSets { layout, sets, .. }
            ==> after.list(ReferenceKind::PipelineLayout).contains(layout) && forall|i: int|
            0 <= i < sets.len() ==> after.list(ReferenceKind::DescriptorSet).contains(#[trigger] sets[i]),
        c matches CommandView::BindComputeDescriptorSets { layout, sets, .. }
            ==> after.list(ReferenceKind::PipelineLayout).contains(layout) && forall|i: int|
            0 <= i < sets.len() ==> after.list(ReferenceKind::DescriptorSet).contains(#[trigger] sets[i]),
        c matches CommandView::BindRayTracingDescriptorSets { layout, sets, .. }
            ==> after.list(ReferenceKind::PipelineLayout).contains(layout) && forall|i: int|
            0 <= i < sets.len() ==> after.list(ReferenceKind::DescriptorSet).contains(#[trigger] sets[i]),
        c matches CommandView::BuildAccelerationStructure { infos } ==> forall|i: int|
            0 <= i < infos.len() ==> after.list(ReferenceKind::AccelerationStructure).contains(#[trigger] infos[i].dst)
                && (infos[i].src matches Some(src) ==> after.list(ReferenceKind::AccelerationStructure).contains(src)),
{
    assert forall|k: ReferenceKind| before.list(k).is_prefix_of(#[trigger] after.list(k)) by {
        assert(after.list(k).subrange(0, before.list(k).len() as int) =~= before.list(k));
    }
    let n = |k: ReferenceKind| before.list(k).len() as int;
    match c {
        CommandView::BeginRenderPass { framebuffer, .. } => {
            assert(after.list(ReferenceKind::Framebuffer)[n(ReferenceKind::Framebuffer)] == framebuffer);
        },
        CommandView::BindGraphicsPipeline { pipeline } => {
            assert(after.list(ReferenceKind::GraphicsPipeline)[n(ReferenceKind::GraphicsPipeline)] == pipeline);
        },
        CommandView::BindComputePipeline { pipeline } => {
            assert(after.list(ReferenceKind::ComputePipeline)[n(ReferenceKind::ComputePipeline)] == pipeline);
        },
        CommandView::BindRayTracingPipeline { pipeline } => {
            assert(after.list(ReferenceKind::RayTracingPipeline)[n(ReferenceKind::RayTracingPipeline)] == pipeline);
        },
        CommandView::BindVertexBuffers { buffers, .. } => {
            assert forall|i: int| 0 <= i < buffers.len() implies after.list(ReferenceKind::Buffer).contains(
                #[trigger] buffers[i].0,
            ) by {
                assert(after.list(ReferenceKind::Buffer)[n(ReferenceKind::Buffer) + i] == buffers[i].0);
            }
        },
        CommandView::BindIndexBuffer { buffer, .. } => {
            assert(after.list(ReferenceKind::Buffer)[n(ReferenceKind::Buffer)] == buffer);
        },
        CommandView::UpdateBuffer { buffer, .. } => {
            assert(after.list(ReferenceKind::Buffer)[n(ReferenceKind::Buffer)] == buffer);
        },
        CommandView::CopyBuffer { src_buffer, dst_buffer, .. } => {
            assert(after.list(ReferenceKind::Buffer)[n(ReferenceKind::Buffer)] == src_buffer);
            assert(after.list(ReferenceKind::Buffer)[n(ReferenceKind::Buffer) + 1] == dst_buffer);
        },
        CommandView::CopyImage { src_image, dst_image, .. } => {
            assert(after.list(ReferenceKind::Image)[n(ReferenceKind::Image)] == src_image);
            assert(after.list(ReferenceKind::Image)[n(ReferenceKind::Image) + 1] == dst_image);
        },
        CommandView::CopyBufferImage { src_buffer, dst_image, .. } => {
            assert(after.list(ReferenceKind::Buffer)[n(ReferenceKind::Buffer)] == src_buffer);
            assert(after.list(ReferenceKind::Image)[n(ReferenceKind::Image)] == dst_image);
        },
        CommandView::PushConstants { layout, .. } => {
            assert(after.list(ReferenceKind::PipelineLayout)[n(ReferenceKind::PipelineLayout)] == layout);
        },
        CommandView::BindGraphicsDescriptorSets { layout, sets, .. }
        | CommandView::BindComputeDescriptorSets { layout, sets, .. }
        | CommandView::BindRayTracingDescriptorSets { layout, sets, .. } => {
            assert(after.list(ReferenceKind::PipelineLayout)[n(ReferenceKind::PipelineLayout)] == layout);
            assert forall|i: int| 0 <= i < sets.len() implies after.list(ReferenceKind::DescriptorSet).contains(
                #[trigger] sets[i],
            ) by {
                assert(after.list(ReferenceKind::DescriptorSet)[n(ReferenceKind::DescriptorSet) + i] == sets[i]);
            }
        },
        CommandView::BuildAccelerationStructure { infos } => {
            assert forall|i: int| 0 <= i < infos.len() implies after.list(ReferenceKind::AccelerationStructure).contains(
                #[trigger] infos[i].dst,
            ) && (infos[i].src matches Some(src) ==> after.list(ReferenceKind::AccelerationStructure).contains(src)) by {
                lemma_build_references_contain(infos, i);
                let r = build_references(infos);
                let base = n(ReferenceKind::AccelerationStructure);
                let j = choose|j: int| 0 <= j < r.len() && r[j] == infos[i].dst;
                assert(after.list(ReferenceKind::AccelerationStructure)[base + j] == infos[i].dst);
                if let Some(src) = infos[i].src {
                    let j2 = choose|j: int| 0 <= j < r.len() && r[j] == src;
                    assert(after.list(ReferenceKind::AccelerationStructure)[base + j2] == src);
                }
            }
        },
        _ => {},
    }
}

/// The references of a batch of builds hold every structure each build writes and reads.
proof fn lemma_build_references_contain(infos: Seq<AccelerationBuildTargets>, i: int)
    requires
        0 <= i < infos.len(),
    ensures
        build_references(infos).contains(infos[i].dst),
        infos[i].src matches Some(src) ==> build_references(infos).contains(src),
    decreases infos.len(),
{
    let rest = infos.drop_last();
    let last = infos.last();
    let tail: Seq<u64> = match last.src {
        Some(src) => seq![src, last.dst],
        None => seq![last.dst],
    };
    let r = build_references(infos);
    assert(r == build_references(rest) + tail);
    if i == infos.len() - 1 {
        assert(infos[i] == last);
        match last.src {
            Some(src) => {
                assert(r[build_references(rest).len() as int] == src);
                assert(r[build_references(rest).len() as int + 1] == last.dst);
            },
            None => {
                assert(r[build_references(rest).len() as int] == last.dst);
            },
        }
    } else {
        assert(rest[i] == infos[i]);
        lemma_build_references_contain(rest, i);
        let p = build_references(rest);
        let j = choose|j: int| 0 <= j < p.len() && p[j] == infos[i].dst;
        assert(r[j] == infos[i].dst);
        if let Some(src) = infos[i].src {
            let j2 = choose|j: int| 0 <= j < p.len() && p[j] == src;
            assert(r[j2] == src);
        }
    }
}

} // verus!
