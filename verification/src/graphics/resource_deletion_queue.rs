//! Deferred destruction: a resource that is retired is not destroyed at once
//! but queued with the frame of the request, and destroyed by the sweep of a
//! later frame, once no frame in flight can still use it.
//!
//! The sweep is meant to run once per frame, after the frame counter has
//! advanced. Until the sweep hands an entry out, the slot of its handle stays
//! handed out in its pool, so the handle is not given to anyone else.

use super::gpu_enum::resource_deletion_type;
use super::gpu_resources::ResourceHandle;
use super::gpu_resources::ResourceUpdate;
use crate::fundamental::structures::PoolView;
use crate::fundamental::structures::ResourcePool;
use vstd::prelude::*;

verus! {

/// Whether a request made in frame `entry.current_frame` is to be carried out
/// in frame `current_frame`: at least `buffering_depth` frames have passed.
pub open spec fn is_due(entry: ResourceUpdate, current_frame: u32, buffering_depth: u32) -> bool {
    current_frame - entry.current_frame >= buffering_depth
}

/// The pending requests, oldest first.
pub struct ResourceDeletionQueue {
    entries: Vec<ResourceUpdate>,
}

impl View for ResourceDeletionQueue {
    type V = Seq<ResourceUpdate>;

    closed spec fn view(&self) -> Seq<ResourceUpdate> {
        self.entries@
    }
}

impl ResourceDeletionQueue {
    pub fn new() -> (queue: Self)
        ensures
            queue@ == Seq::<ResourceUpdate>::empty(),
    {
        ResourceDeletionQueue { entries: Vec::new() }
    }

    /// How many requests are pending.
    pub fn len(&self) -> (n: usize)
        ensures
            n == self@.len(),
    {
        self.entries.len()
    }

    /// Whether a request for the resource of kind `ty` named `handle` is
    /// pending: such a resource counts as dead though its slot is not free yet.
    pub fn is_queued(
        &self,
        ty: resource_deletion_type::Enum,
        handle: ResourceHandle,
    ) -> (queued: bool)
        ensures
            queued == exists|k: int|
                0 <= k < self@.len() && (#[trigger] self@[k]).ty == ty && self@[k].handle == handle,
    {
        let mut k: usize = 0;
        while k < self.entries.len()
            invariant
                k <= self.entries@.len(),
                forall|j: int|
                    0 <= j < k ==> !((#[trigger] self.entries@[j]).ty == ty
                        && self.entries@[j].handle == handle),
            decreases self.entries@.len() - k,
        {
            if self.entries[k].ty == ty && self.entries[k].handle == handle {
                return true;
            }
            k += 1;
        }
        false
    }

    /// Appends the request to destroy the resource of kind `ty` named
    /// `handle`, made in frame `current_frame`.
    pub fn enqueue(
        &mut self,
        ty: resource_deletion_type::Enum,
        handle: ResourceHandle,
        current_frame: u32,
    )
        ensures
            final(self)@ == old(self)@.push(ResourceUpdate { ty, handle, current_frame }),
    {
        self.entries.push(ResourceUpdate { ty, handle, current_frame });
    }

    /// Takes out the requests that are due in frame `current_frame` and
    /// returns them for destruction; the others stay. Both keep the order in
    /// which the requests were made.
    pub fn sweep(
        &mut self,
        current_frame: u32,
        buffering_depth: u32,
    ) -> (destroyed: Vec<ResourceUpdate>)
        ensures
            destroyed@ == old(self)@.filter(
                |entry: ResourceUpdate| is_due(entry, current_frame, buffering_depth),
            ),
            final(self)@ == old(self)@.filter(
                |entry: ResourceUpdate| !is_due(entry, current_frame, buffering_depth),
            ),
    {
        let ghost due = |entry: ResourceUpdate| is_due(entry, current_frame, buffering_depth);
        let ghost not_due = |entry: ResourceUpdate| !is_due(entry, current_frame, buffering_depth);
        let mut destroyed: Vec<ResourceUpdate> = Vec::new();
        let mut kept: Vec<ResourceUpdate> = Vec::new();
        let mut k: usize = 0;
        proof {
            assert(self.entries@.take(0) =~= Seq::<ResourceUpdate>::empty());
            reveal(Seq::filter);
        }
        while k < self.entries.len()
            invariant
                k <= self.entries@.len(),
                self.entries@ == old(self)@,
                due == |entry: ResourceUpdate| is_due(entry, current_frame, buffering_depth),
                not_due == |entry: ResourceUpdate| !is_due(entry, current_frame, buffering_depth),
                destroyed@ == self.entries@.take(k as int).filter(due),
                kept@ == self.entries@.take(k as int).filter(not_due),
            decreases self.entries@.len() - k,
        {
            let entry: ResourceUpdate = self.entries[k];
            proof {
                let longer = self.entries@.take(k + 1);
                assert(longer.drop_last() =~= self.entries@.take(k as int));
                assert(longer.last() == entry);
                reveal(Seq::filter);
            }
            if current_frame >= entry.current_frame && current_frame - entry.current_frame
                >= buffering_depth {
                destroyed.push(entry);
            } else {
                kept.push(entry);
            }
            k += 1;
        }
        proof {
            assert(self.entries@.take(k as int) =~= self.entries@);
        }
        self.entries = kept;
        destroyed
    }
}

/// The pool of the resources of kind `ty` after the slots of `destroyed` were
/// given back to it, first entry first; entries of another kind are left to
/// their own pools.
pub open spec fn after_releases(
    pool: PoolView,
    destroyed: Seq<ResourceUpdate>,
    ty: resource_deletion_type::Enum,
) -> PoolView
    decreases destroyed.len(),
{
    if destroyed.len() == 0 {
        pool
    } else {
        let before = after_releases(pool, destroyed.drop_last(), ty);
        if destroyed.last().ty == ty {
            before.after_release(destroyed.last().handle)
        } else {
            before
        }
    }
}

/// Carries out the destructions that a sweep returned as far as the slots go:
/// gives the slot of every entry of kind `ty` back to `pool`, the pool of that
/// kind.
pub fn release_destroyed(
    pool: &mut ResourcePool,
    ty: resource_deletion_type::Enum,
    destroyed: &Vec<ResourceUpdate>,
)
    requires
        old(pool).wf(),
    ensures
        final(pool).wf(),
        final(pool)@ == after_releases(old(pool)@, destroyed@, ty),
        final(pool).memory() == old(pool).memory(),
{
    let mut k: usize = 0;
    proof {
        assert(destroyed@.take(0) =~= Seq::<ResourceUpdate>::empty());
    }
    while k < destroyed.len()
        invariant
            k <= destroyed@.len(),
            pool.wf(),
            pool@ == after_releases(old(pool)@, destroyed@.take(k as int), ty),
            pool.memory() == old(pool).memory(),
        decreases destroyed@.len() - k,
    {
        proof {
            let longer = destroyed@.take(k + 1);
            assert(longer.drop_last() =~= destroyed@.take(k as int));
            assert(longer.last() == destroyed@[k as int]);
        }
        if destroyed[k].ty == ty {
            pool.release_resource(destroyed[k].handle);
        }
        k += 1;
    }
    proof {
        assert(destroyed@.take(k as int) =~= destroyed@);
    }
}

/// The slot pools of a device, one for each kind of resource that lives in a
/// pool.
pub struct ResourcePools {
    pub buffers: ResourcePool,
    pub textures: ResourcePool,
    pub pipelines: ResourcePool,
    pub samplers: ResourcePool,
    pub descriptor_set_layouts: ResourcePool,
    pub descriptor_sets: ResourcePool,
    pub shaders: ResourcePool,
}

impl ResourcePools {
    /// Whether every pool is well-formed.
    pub open spec fn wf(&self) -> bool {
        &&& self.buffers.wf()
        &&& self.textures.wf()
        &&& self.pipelines.wf()
        &&& self.samplers.wf()
        &&& self.descriptor_set_layouts.wf()
        &&& self.descriptor_sets.wf()
        &&& self.shaders.wf()
    }

    /// The pools after the slots of `destroyed` were given back, each to the
    /// pool of its kind. Render passes live in no pool and change none.
    pub open spec fn released(&self, after: &ResourcePools, destroyed: Seq<ResourceUpdate>) -> bool {
        &&& after.buffers@ == after_releases(
            self.buffers@,
            destroyed,
            resource_deletion_type::Enum::Buffer,
        )
        &&& after.textures@ == after_releases(
            self.textures@,
            destroyed,
            resource_deletion_type::Enum::Texture,
        )
        &&& after.pipelines@ == after_releases(
            self.pipelines@,
            destroyed,
            resource_deletion_type::Enum::Pipeline,
        )
        &&& after.samplers@ == after_releases(
            self.samplers@,
            destroyed,
            resource_deletion_type::Enum::Sampler,
        )
        &&& after.descriptor_set_layouts@ == after_releases(
            self.descriptor_set_layouts@,
            destroyed,
            resource_deletion_type::Enum::DescriptorSetLayout,
        )
        &&& after.descriptor_sets@ == after_releases(
            self.descriptor_sets@,
            destroyed,
            resource_deletion_type::Enum::DescriptorSet,
        )
        &&& after.shaders@ == after_releases(
            self.shaders@,
            destroyed,
            resource_deletion_type::Enum::ShaderState,
        )
    }

    /// Pools without slots.
    pub fn new() -> (pools: Self)
        ensures
            pools.wf(),
            pools.buffers@ == PoolView::fresh(0, 0),
            pools.textures@ == PoolView::fresh(0, 0),
            pools.pipelines@ == PoolView::fresh(0, 0),
            pools.samplers@ == PoolView::fresh(0, 0),
            pools.descriptor_set_layouts@ == PoolView::fresh(0, 0),
            pools.descriptor_sets@ == PoolView::fresh(0, 0),
            pools.shaders@ == PoolView::fresh(0, 0),
    {
        ResourcePools {
            buffers: ResourcePool::new(),
            textures: ResourcePool::new(),
            pipelines: ResourcePool::new(),
            samplers: ResourcePool::new(),
            descriptor_set_layouts: ResourcePool::new(),
            descriptor_sets: ResourcePool::new(),
            shaders: ResourcePool::new(),
        }
    }

    /// The sweep of one frame: takes the requests that are due in frame
    /// `current_frame` out of `queue`, gives the slot of each back to the pool
    /// of its kind, and returns the requests, so that the caller can destroy
    /// what the handles stood for. Requests that are not due stay queued, and
    /// their slots stay handed out.
    pub fn sweep(
        &mut self,
        queue: &mut ResourceDeletionQueue,
        current_frame: u32,
        buffering_depth: u32,
    ) -> (destroyed: Vec<ResourceUpdate>)
        requires
            old(self).wf(),
        ensures
            final(self).wf(),
            destroyed@ == old(queue)@.filter(
                |entry: ResourceUpdate| is_due(entry, current_frame, buffering_depth),
            ),
            final(queue)@ == old(queue)@.filter(
                |entry: ResourceUpdate| !is_due(entry, current_frame, buffering_depth),
            ),
            old(self).released(final(self), destroyed@),
    {
        let destroyed = queue.sweep(current_frame, buffering_depth);
        release_destroyed(&mut self.buffers, resource_deletion_type::Enum::Buffer, &destroyed);
        release_destroyed(&mut self.textures, resource_deletion_type::Enum::Texture, &destroyed);
        release_destroyed(&mut self.pipelines, resource_deletion_type::Enum::Pipeline, &destroyed);
        release_destroyed(&mut self.samplers, resource_deletion_type::Enum::Sampler, &destroyed);
        release_destroyed(
            &mut self.descriptor_set_layouts,
            resource_deletion_type::Enum::DescriptorSetLayout,
            &destroyed,
        );
        release_destroyed(
            &mut self.descriptor_sets,
            resource_deletion_type::Enum::DescriptorSet,
            &destroyed,
        );
        release_destroyed(&mut self.shaders, resource_deletion_type::Enum::ShaderState, &destroyed);
        destroyed
    }
}

/// Where nothing of kind `ty` is among the destroyed, the pool of that kind
/// is left as it was.
pub proof fn lemma_other_kinds_leave_pool(
    pool: PoolView,
    destroyed: Seq<ResourceUpdate>,
    ty: resource_deletion_type::Enum,
)
    requires
        forall|k: int| 0 <= k < destroyed.len() ==> (#[trigger] destroyed[k]).ty != ty,
    ensures
        after_releases(pool, destroyed, ty) == pool,
    decreases destroyed.len(),
{
    if destroyed.len() > 0 {
        assert(destroyed.last() == destroyed[destroyed.len() - 1]);
        assert forall|k: int| 0 <= k < destroyed.drop_last().len() implies (
        #[trigger] destroyed.drop_last()[k]).ty != ty by {
            assert(destroyed.drop_last()[k] == destroyed[k]);
        }
        lemma_other_kinds_leave_pool(pool, destroyed.drop_last(), ty);
    }
}

/// A sweep carries out a request exactly from the frame on that lies
/// `buffering_depth` frames after the request: not in any frame before, and
/// in every frame from there on.
pub proof fn lemma_due_from_depth_on(
    entry: ResourceUpdate,
    current_frame: u32,
    buffering_depth: u32,
)
    ensures
        is_due(entry, current_frame, buffering_depth) <==> current_frame >= entry.current_frame
            + buffering_depth,
{
}

/// A sweep hands out exactly the pending requests that are due, and keeps
/// exactly the others: no request is lost and none is made up.
pub proof fn lemma_sweep_partitions(
    pending: Seq<ResourceUpdate>,
    current_frame: u32,
    buffering_depth: u32,
    entry: ResourceUpdate,
)
    ensures
        pending.filter(
            |e: ResourceUpdate| is_due(e, current_frame, buffering_depth),
        ).contains(entry) <==> pending.contains(entry) && is_due(
            entry,
            current_frame,
            buffering_depth,
        ),
        pending.filter(
            |e: ResourceUpdate| !is_due(e, current_frame, buffering_depth),
        ).contains(entry) <==> pending.contains(entry) && !is_due(
            entry,
            current_frame,
            buffering_depth,
        ),
{
    let due = |e: ResourceUpdate| is_due(e, current_frame, buffering_depth);
    let not_due = |e: ResourceUpdate| !is_due(e, current_frame, buffering_depth);
    lemma_filter_holds_what_passes(pending, due, entry);
    lemma_filter_holds_what_passes(pending, not_due, entry);
}

/// A filtered sequence holds exactly the elements of the sequence that pass.
proof fn lemma_filter_holds_what_passes(
    pending: Seq<ResourceUpdate>,
    pred: spec_fn(ResourceUpdate) -> bool,
    entry: ResourceUpdate,
)
    ensures
        pending.filter(pred).contains(entry) <==> pending.contains(entry) && pred(entry),
{
    let passed = pending.filter(pred);
    if passed.contains(entry) {
        pending.lemma_filter_contains_rev(pred, entry);
        let k = choose|k: int| 0 <= k < passed.len() && passed[k] == entry;
        pending.lemma_filter_pred(pred, k);
    }
    if pending.contains(entry) && pred(entry) {
        let k = choose|k: int| 0 <= k < pending.len() && pending[k] == entry;
        pending.lemma_filter_contains(pred, k);
    }
}

} // verus!
