//! The verified render backend: the handle-level interface over a raw
//! driver.  It owns the resource registry (one pool per resource kind) and
//! the structural caches for render passes and framebuffers, resolves
//! handles to raw identities, and forwards work to the [`RenderDriver`] it
//! is generic over.

use crate::cache::{StructuralCache, StructuralKey};
use crate::define::{
    CommandBufferBeginDesc, Fence, Image, ImageCreateDesc, ImageMemoryBarrier, ImageView,
    ImageViewCreateDesc, Queue, QueueSubmitDesc, RenderPassOutput, Surface, Swapchain,
    SwapchainCreateDesc, QueuePresentDesc, FramebufferCreateDesc,
};
use crate::driver::{clone_flag_list, AcquireOutcome, DriverOp, FramebufferDesc, RawImageBarrier, RenderDriver};
use crate::enums::{CommandBufferLevel, Format, ImageTiling, QueueType};
use crate::flag::{FormatFeatureFlags, PipelineStageFlags};
use crate::error::RenderError;
use crate::pool::{Handle, Handled};
use crate::registry::{
    lemma_alloc_discipline, lemma_free_discipline, live, FenceEntry, FramebufferEntry,
    ImageEntry, RenderPassEntry,
    lemma_live_from_slot, CommandBufferEntry, CommandPoolEntry, ImageViewEntry, QueueEntry,
    ResourceRegistry,
    SemaphoreEntry, SurfaceEntry, SwapchainEntry,
};
use vstd::prelude::*;

verus! {

/// An operation that touches neither per-frame synchronization nor the
/// device-wide idle wait: anything a backend method may issue while
/// creating or destroying resources.
pub open spec fn sync_free_op(op: DriverOp) -> bool {
    &&& !(op is WaitFences)
    &&& !(op is ResetFences)
    &&& !(op is AcquireImage)
    &&& !(op is Present)
    &&& !(op is DeviceWaitIdle)
}

/// `post` extends `pre` by operations that are all `sync_free_op`.
pub open spec fn sync_free_extension(pre: Seq<DriverOp>, post: Seq<DriverOp>) -> bool {
    &&& pre.len() <= post.len()
    &&& forall|k: int| 0 <= k < pre.len() ==> pre[k] == post[k]
    &&& forall|k: int| pre.len() <= k < post.len() ==> sync_free_op(#[trigger] post[k])
}

/// The shape of the log across a swapchain recreation: one device-wide
/// idle wait first, then only sync-free work — so the idle wait precedes
/// every destruction, and no second idle wait occurs.
pub open spec fn recreation_extension(pre: Seq<DriverOp>, post: Seq<DriverOp>) -> bool {
    &&& pre.len() < post.len()
    &&& forall|k: int| 0 <= k < pre.len() ==> pre[k] == post[k]
    &&& post[pre.len() as int] is DeviceWaitIdle
    &&& forall|k: int| pre.len() + 1 <= k < post.len() ==> sync_free_op(#[trigger] post[k])
}



/// The handle-level render backend over a raw driver `D`.
pub struct RenderBackend<D: RenderDriver> {
    driver: D,
    res: ResourceRegistry,
    graphics_queue: Handle<Queue>,
    render_pass_cache: StructuralCache<RenderPassOutput>,
    framebuffer_cache: StructuralCache<FramebufferDesc>,
}

impl<D: RenderDriver> RenderBackend<D> {
    /// The driver's operation log.
    pub closed spec fn log(&self) -> Seq<DriverOp> {
        self.driver.log()
    }

    /// The raw render-pass and framebuffer identities the driver has handed
    /// out.
    pub closed spec fn created(&self) -> Set<u64> {
        self.driver.created()
    }

    /// The resource registry.
    pub closed spec fn registry(&self) -> ResourceRegistry {
        self.res
    }

    /// The driver value itself, for callers that own the concrete type.
    pub closed spec fn spec_driver(&self) -> D {
        self.driver
    }

    /// The render-pass cache entries.
    pub closed spec fn rp_cache(&self) -> StructuralCache<RenderPassOutput> {
        self.render_pass_cache
    }

    /// The framebuffer cache entries.
    pub closed spec fn fb_cache(&self) -> StructuralCache<FramebufferDesc> {
        self.framebuffer_cache
    }

    /// The handle of the graphics queue.
    pub closed spec fn spec_graphics_queue(&self) -> Handle<Queue> {
        self.graphics_queue
    }

    pub open spec fn fence_live(&self, h: Handle<Fence>) -> bool {
        live(&self.registry().fences, h)
    }

    pub open spec fn fence_raw(&self, h: Handle<Fence>) -> u64 {
        self.registry().fences.item_at(h.index as int).raw
    }

    pub open spec fn semaphore_live(&self, h: Handle<crate::define::Semaphore>) -> bool {
        live(&self.registry().semaphores, h)
    }

    pub open spec fn semaphore_raw(&self, h: Handle<crate::define::Semaphore>) -> u64 {
        self.registry().semaphores.item_at(h.index as int).raw
    }

    pub open spec fn surface_live(&self, h: Handle<Surface>) -> bool {
        live(&self.registry().surfaces, h)
    }

    pub open spec fn surface_raw(&self, h: Handle<Surface>) -> u64 {
        self.registry().surfaces.item_at(h.index as int).raw
    }

    pub open spec fn queue_live(&self, h: Handle<Queue>) -> bool {
        live(&self.registry().queues, h)
    }

    pub open spec fn queue_raw(&self, h: Handle<Queue>) -> u64 {
        self.registry().queues.item_at(h.index as int).raw
    }

    pub open spec fn image_live(&self, h: Handle<Image>) -> bool {
        live(&self.registry().images, h)
    }

    pub open spec fn image_entry(&self, h: Handle<Image>) -> ImageEntry {
        self.registry().images.item_at(h.index as int)
    }

    pub open spec fn image_raw(&self, h: Handle<Image>) -> u64 {
        self.image_entry(h).raw
    }

    pub open spec fn image_view_live(&self, h: Handle<ImageView>) -> bool {
        live(&self.registry().image_views, h)
    }

    pub open spec fn image_view_entry(&self, h: Handle<ImageView>) -> ImageViewEntry {
        self.registry().image_views.item_at(h.index as int)
    }

    pub open spec fn image_view_raw(&self, h: Handle<ImageView>) -> u64 {
        self.image_view_entry(h).raw
    }

    pub open spec fn render_pass_live(&self, h: Handle<crate::define::RenderPass>) -> bool {
        live(&self.registry().render_passes, h)
    }

    pub open spec fn render_pass_raw(&self, h: Handle<crate::define::RenderPass>) -> u64 {
        self.registry().render_passes.item_at(h.index as int).raw
    }

    pub open spec fn framebuffer_live(&self, h: Handle<crate::define::Framebuffer>) -> bool {
        live(&self.registry().framebuffers, h)
    }

    pub open spec fn framebuffer_raw(&self, h: Handle<crate::define::Framebuffer>) -> u64 {
        self.registry().framebuffers.item_at(h.index as int).raw
    }

    pub open spec fn swapchain_live(&self, h: Handle<Swapchain>) -> bool {
        live(&self.registry().swapchains, h)
    }

    pub open spec fn swapchain_entry(&self, h: Handle<Swapchain>) -> SwapchainEntry {
        self.registry().swapchains.item_at(h.index as int)
    }

    pub open spec fn swapchain_raw(&self, h: Handle<Swapchain>) -> u64 {
        self.swapchain_entry(h).raw
    }

    /// The back-buffer image handles of a swapchain, in image-index order.
    pub open spec fn swapchain_back_buffers(&self, h: Handle<Swapchain>) -> Seq<
        Handle<Image>,
    > {
        self.swapchain_entry(h).back_buffers@
    }

    pub open spec fn command_pool_live(&self, h: Handle<crate::define::CommandPool>) -> bool {
        live(&self.registry().command_pools, h)
    }

    pub open spec fn command_pool_raw(&self, h: Handle<crate::define::CommandPool>) -> u64 {
        self.registry().command_pools.item_at(h.index as int).raw
    }

    pub open spec fn command_buffer_live(&self, h: Handle<crate::define::CommandBuffer>) -> bool {
        live(&self.registry().command_buffers, h)
    }

    pub open spec fn command_buffer_raw(&self, h: Handle<crate::define::CommandBuffer>) -> u64 {
        self.registry().command_buffers.item_at(h.index as int).raw
    }

    /// Well-formedness: the driver's own invariant, the registry discipline,
    /// the caches' key uniqueness, cache values drawn from the driver's
    /// created set and pairwise distinct, a live graphics queue, and every
    /// occupied swapchain slot holding between 1 and 255 back buffers.
    pub closed spec fn wf(&self) -> bool {
        &&& self.driver.inv()
        &&& self.res.wf()
        &&& self.render_pass_cache.wf()
        &&& self.framebuffer_cache.wf()
        &&& forall|i: int|
            0 <= i < self.render_pass_cache.entries_seq().len() ==> #[trigger] self.driver.created().contains(
                self.render_pass_cache.entries_seq()[i].1,
            )
        &&& forall|i: int, j: int|
            0 <= i < j < self.render_pass_cache.entries_seq().len()
                ==> self.render_pass_cache.entries_seq()[i].1
                != self.render_pass_cache.entries_seq()[j].1
        &&& forall|i: int|
            0 <= i < self.framebuffer_cache.entries_seq().len() ==> #[trigger] self.driver.created().contains(
                self.framebuffer_cache.entries_seq()[i].1,
            )
        &&& forall|i: int, j: int|
            0 <= i < j < self.framebuffer_cache.entries_seq().len()
                ==> self.framebuffer_cache.entries_seq()[i].1
                != self.framebuffer_cache.entries_seq()[j].1
        &&& live(&self.res.queues, self.graphics_queue)
        &&& forall|idx: int|
            #![trigger self.res.swapchains.item_at(idx)]
            0 <= idx < self.res.swapchains.capacity() ==> match self.res.swapchains.item_at(
                idx,
            ).stored_handle() {
                Some(_) => 1 <= self.res.swapchains.item_at(idx).back_buffers@.len() <= 255,
                None => true,
            }
    }

    /// A swapchain handle that does not match its slot's stored generation
    /// cannot be live.
    pub proof fn lemma_unmatched_swapchain_not_live(&self, handle: Handle<Swapchain>)
        requires
            self.wf(),
            !self.registry().swapchains.spec_is_match(handle),
        ensures
            !self.swapchain_live(handle),
    {
        crate::registry::lemma_stale_not_live(&self.res.swapchains, handle);
    }

    /// A shared reference to the driver, for callers that own the
    /// concrete driver type and want to inspect it.
    pub fn driver_ref(&self) -> (r: &D)
        ensures
            *r == self.spec_driver(),
    {
        &self.driver
    }

    /// Builds a backend over `driver` with `pool_size` slots per resource
    /// pool, registering the device's graphics queue.
    pub fn new(driver: D, pool_size: usize) -> (r: Result<Self, RenderError>)
        requires
            driver.inv(),
            1 <= pool_size <= u16::MAX as usize,
        ensures
            match r {
                Ok(b) => {
                    &&& b.wf()
                    &&& b.log() == driver.log()
                    &&& b.rp_cache().entries_seq().len() == 0
                    &&& b.fb_cache().entries_seq().len() == 0
                },
                Err(_) => true,
            },
    {
        let queue_raw: u64 = match driver.get_queue(QueueType::Graphics) {
            Ok(raw) => raw,
            Err(_) => {
                return Err(RenderError::QueueNotFound);
            },
        };
        let mut res = ResourceRegistry::new(pool_size);
        let ghost pre_pool = res.queues;
        let (h, entry) = res.queues.malloc();
        *entry = QueueEntry { handle: Some(h), raw: queue_raw, queue_type: QueueType::Graphics };
        proof {
            res.queues.lemma_wf_facts();
            lemma_alloc_discipline(&pre_pool, &res.queues, h);
        }
        Ok(
            RenderBackend {
                driver,
                res,
                graphics_queue: h,
                render_pass_cache: StructuralCache::new(),
                framebuffer_cache: StructuralCache::new(),
            },
        )
    }

    /// The queue handle for `queue_type`.  Only the graphics queue is
    /// registered; every other type is reported as missing.
    pub fn get_queue(&self, queue_type: QueueType) -> (r: Result<Handle<Queue>, RenderError>)
        requires
            self.wf(),
        ensures
            match r {
                Ok(h) => queue_type == QueueType::Graphics && h == self.spec_graphics_queue()
                    && self.queue_live(h),
                Err(e) => e == RenderError::QueueNotFound && queue_type != QueueType::Graphics,
            },
    {
        match queue_type {
            QueueType::Graphics => Ok(self.graphics_queue),
            _ => Err(RenderError::QueueNotFound),
        }
    }

    /// Creates a fence, initially signaled if `signal` holds, and registers
    /// it in the fence pool.
    pub fn create_fence(&mut self, signal: bool) -> (r: Result<Handle<Fence>, RenderError>)
        requires
            old(self).wf(),
        ensures
            final(self).wf(),
            crate::registry::pool_full(&old(self).registry().fences) ==> r == Err::<Handle<Fence>, RenderError>(RenderError::PoolExhausted),
            crate::registry::stale_preserved(
                &old(self).registry().fences,
                &final(self).registry().fences,
            ),
            final(self).rp_cache() == old(self).rp_cache(),
            final(self).fb_cache() == old(self).fb_cache(),
            final(self).spec_graphics_queue() == old(self).spec_graphics_queue(),
            match r {
                Ok(h) => {
                    &&& final(self).log() == old(self).log().push(
                        DriverOp::CreateFence { fence: final(self).fence_raw(h), signal },
                    )
                    &&& final(self).fence_live(h)
                    &&& forall|h2: Handle<Fence>|
                        old(self).fence_live(h2) ==> final(self).fence_live(h2) && final(self).fence_raw(h2) == old(self).fence_raw(h2) && h2.index != h.index
                    &&& final(self).registry() == (ResourceRegistry {
                        fences: final(self).registry().fences,
                        ..old(self).registry()
                    })
                },
                Err(_) => final(self).log() == old(self).log() && final(self).registry() == old(self).registry(),
            },
    {
        if self.res.fences.free_count() == 0 {
            let cap: usize = self.res.fences.slot_count();
            if cap == 0 || cap >= u16::MAX as usize {
                return Err(RenderError::PoolExhausted);
            }
        }
        let raw: u64 = match self.driver.create_fence(signal) {
            Ok(raw) => raw,
            Err(e) => {
                return Err(e);
            },
        };
        let ghost pre_pool = self.res.fences;
        let (h, entry) = self.res.fences.malloc();
        *entry = FenceEntry { handle: Some(h), raw };
        proof {
            self.res.fences.lemma_wf_facts();
            lemma_alloc_discipline(&pre_pool, &self.res.fences, h);
        }
        Ok(h)
    }

    /// Destroys the fence behind a live handle and frees its slot.  A stale
    /// handle is reported as not found, with nothing changed.
    pub fn destroy_fence(&mut self, handle: Handle<Fence>) -> (r: Result<(), RenderError>)
        requires
            old(self).wf(),
        ensures
            final(self).wf(),
            final(self).rp_cache() == old(self).rp_cache(),
            final(self).fb_cache() == old(self).fb_cache(),
            final(self).spec_graphics_queue() == old(self).spec_graphics_queue(),
            final(self).registry().fences.capacity() == old(self).registry().fences.capacity(),
            !final(self).fence_live(handle),
            forall|h2: Handle<Fence>|
                !old(self).fence_live(h2) ==> !final(self).fence_live(h2),
            !old(self).fence_live(handle) ==> r == Err::<(), RenderError>(
                RenderError::HandleNotFound,
            ) && final(self).log() == old(self).log() && final(self).registry() == old(self).registry(),
            old(self).fence_live(handle) ==> {
                &&& !final(self).registry().fences.spec_is_match(handle)
                &&& forall|h2: Handle<Fence>|
                    h2.index != handle.index ==> final(self).registry().fences.spec_is_match(h2)
                        == old(self).registry().fences.spec_is_match(h2)
                &&& final(self).log() == old(self).log().push(
                    DriverOp::DestroyFence(old(self).fence_raw(handle)),
                )
                &&& !final(self).fence_live(handle)
                &&& forall|h2: Handle<Fence>|
                    old(self).fence_live(h2) && h2.index != handle.index ==> final(self).fence_live(h2) && final(self).fence_raw(h2) == old(self).fence_raw(h2)
                &&& final(self).registry() == (ResourceRegistry {
                    fences: final(self).registry().fences,
                    ..old(self).registry()
                })
            },
    {
        let (live_now, raw): (bool, u64) = match self.res.fences.get(handle) {
            Some(entry) => (entry.get_handle().is_some(), entry.raw),
            None => (false, 0),
        };
        proof {
            self.res.fences.lemma_wf_facts();
            if (handle.index as int) < self.res.fences.capacity() {
                assert(self.res.fences.item_at(handle.index as int) == self.res.fences.item_at(
                    handle.index as int,
                ));
            }
            assert(live_now == live(&self.res.fences, handle));
        }
        if !live_now {
            return Err(RenderError::HandleNotFound);
        }
        let result = self.driver.destroy_fence(raw);
        let ghost pre_pool = self.res.fences;
        self.res.fences.free(handle);
        proof {
            lemma_free_discipline(&pre_pool, &self.res.fences, handle);
        }
        result
    }

    /// Creates a semaphore and registers it in its pool.
    pub fn create_semaphore(&mut self) -> (r: Result<Handle<crate::define::Semaphore>, RenderError>)
        requires
            old(self).wf(),
        ensures
            final(self).wf(),
            crate::registry::pool_full(&old(self).registry().semaphores) ==> r == Err::<Handle<crate::define::Semaphore>, RenderError>(RenderError::PoolExhausted),
            crate::registry::stale_preserved(
                &old(self).registry().semaphores,
                &final(self).registry().semaphores,
            ),
            final(self).rp_cache() == old(self).rp_cache(),
            final(self).fb_cache() == old(self).fb_cache(),
            final(self).spec_graphics_queue() == old(self).spec_graphics_queue(),
            match r {
                Ok(h) => {
                    &&& final(self).log() == old(self).log().push(
                        DriverOp::CreateSemaphore(final(self).semaphore_raw(h)),
                    )
                    &&& final(self).semaphore_live(h)
                    &&& forall|h2: Handle<crate::define::Semaphore>|
                        old(self).semaphore_live(h2) ==> final(self).semaphore_live(h2) && final(self).semaphore_raw(h2) == old(self).semaphore_raw(h2) && h2.index != h.index
                    &&& final(self).registry() == (ResourceRegistry {
                        semaphores: final(self).registry().semaphores,
                        ..old(self).registry()
                    })
                    
                },
                Err(_) => final(self).log() == old(self).log() && final(self).registry() == old(self).registry(),
            },
    {
        if self.res.semaphores.free_count() == 0 {
            let cap: usize = self.res.semaphores.slot_count();
            if cap == 0 || cap >= u16::MAX as usize {
                return Err(RenderError::PoolExhausted);
            }
        }
        let raw: u64 = match self.driver.create_semaphore() {
            Ok(raw) => raw,
            Err(e) => {
                return Err(e);
            },
        };
        let ghost pre_pool = self.res.semaphores;
        let (h, entry) = self.res.semaphores.malloc();
        *entry = SemaphoreEntry { handle: Some(h), raw };
        proof {
            self.res.semaphores.lemma_wf_facts();
            lemma_alloc_discipline(&pre_pool, &self.res.semaphores, h);
        }
        Ok(h)
    }

    /// Destroys the semaphore behind a live handle and frees its slot.  A
    /// stale handle is reported as not found, with nothing changed.
    pub fn destroy_semaphore(&mut self, handle: Handle<crate::define::Semaphore>) -> (r: Result<(), RenderError>)
        requires
            old(self).wf(),
        ensures
            final(self).wf(),
            final(self).rp_cache() == old(self).rp_cache(),
            final(self).fb_cache() == old(self).fb_cache(),
            final(self).spec_graphics_queue() == old(self).spec_graphics_queue(),
            final(self).registry().semaphores.capacity() == old(self).registry().semaphores.capacity(),
            !final(self).semaphore_live(handle),
            forall|h2: Handle<crate::define::Semaphore>|
                !old(self).semaphore_live(h2) ==> !final(self).semaphore_live(h2),
            !old(self).semaphore_live(handle) ==> r == Err::<(), RenderError>(
                RenderError::HandleNotFound,
            ) && final(self).log() == old(self).log() && final(self).registry() == old(self).registry(),
            old(self).semaphore_live(handle) ==> {
                &&& !final(self).registry().semaphores.spec_is_match(handle)
                &&& forall|h2: Handle<crate::define::Semaphore>|
                    h2.index != handle.index ==> final(self).registry().semaphores.spec_is_match(h2)
                        == old(self).registry().semaphores.spec_is_match(h2)
                &&& final(self).log() == old(self).log().push(
                    DriverOp::DestroySemaphore(old(self).semaphore_raw(handle)),
                )
                &&& !final(self).semaphore_live(handle)
                &&& forall|h2: Handle<crate::define::Semaphore>|
                    old(self).semaphore_live(h2) && h2.index != handle.index ==> final(self).semaphore_live(h2) && final(self).semaphore_raw(h2) == old(self).semaphore_raw(h2)
                &&& final(self).registry() == (ResourceRegistry {
                    semaphores: final(self).registry().semaphores,
                    ..old(self).registry()
                })
            },
    {
        let (live_now, raw): (bool, u64) = match self.res.semaphores.get(handle) {
            Some(entry) => (entry.get_handle().is_some(), entry.raw),
            None => (false, 0),
        };
        proof {
            self.res.semaphores.lemma_wf_facts();
            if (handle.index as int) < self.res.semaphores.capacity() {
                assert(self.res.semaphores.item_at(handle.index as int) == self.res.semaphores.item_at(
                    handle.index as int,
                ));
            }
            assert(live_now == live(&self.res.semaphores, handle));
        }
        if !live_now {
            return Err(RenderError::HandleNotFound);
        }
        let result = self.driver.destroy_semaphore(raw);
        let ghost pre_pool = self.res.semaphores;
        self.res.semaphores.free(handle);
        proof {
            lemma_free_discipline(&pre_pool, &self.res.semaphores, handle);
        }
        result
    }

    /// Creates a surface and registers it in its pool.
    pub fn create_surface(&mut self) -> (r: Result<Handle<Surface>, RenderError>)
        requires
            old(self).wf(),
        ensures
            final(self).wf(),
            crate::registry::pool_full(&old(self).registry().surfaces) ==> r == Err::<Handle<Surface>, RenderError>(RenderError::PoolExhausted),
            crate::registry::stale_preserved(
                &old(self).registry().surfaces,
                &final(self).registry().surfaces,
            ),
            final(self).rp_cache() == old(self).rp_cache(),
            final(self).fb_cache() == old(self).fb_cache(),
            final(self).spec_graphics_queue() == old(self).spec_graphics_queue(),
            match r {
                Ok(h) => {
                    &&& final(self).log() == old(self).log().push(
                        DriverOp::CreateSurface(final(self).surface_raw(h)),
                    )
                    &&& final(self).surface_live(h)
                    &&& forall|h2: Handle<Surface>|
                        old(self).surface_live(h2) ==> final(self).surface_live(h2) && final(self).surface_raw(h2) == old(self).surface_raw(h2) && h2.index != h.index
                    &&& final(self).registry() == (ResourceRegistry {
                        surfaces: final(self).registry().surfaces,
                        ..old(self).registry()
                    })
                    
                },
                Err(_) => final(self).log() == old(self).log() && final(self).registry() == old(self).registry(),
            },
    {
        if self.res.surfaces.free_count() == 0 {
            let cap: usize = self.res.surfaces.slot_count();
            if cap == 0 || cap >= u16::MAX as usize {
                return Err(RenderError::PoolExhausted);
            }
        }
        let raw: u64 = match self.driver.create_surface() {
            Ok(raw) => raw,
            Err(e) => {
                return Err(e);
            },
        };
        let ghost pre_pool = self.res.surfaces;
        let (h, entry) = self.res.surfaces.malloc();
        *entry = SurfaceEntry { handle: Some(h), raw };
        proof {
            self.res.surfaces.lemma_wf_facts();
            lemma_alloc_discipline(&pre_pool, &self.res.surfaces, h);
        }
        Ok(h)
    }

    /// Destroys the surface behind a live handle and frees its slot.  A
    /// stale handle is reported as not found, with nothing changed.
    pub fn destroy_surface(&mut self, handle: Handle<Surface>) -> (r: Result<(), RenderError>)
        requires
            old(self).wf(),
        ensures
            final(self).wf(),
            final(self).rp_cache() == old(self).rp_cache(),
            final(self).fb_cache() == old(self).fb_cache(),
            final(self).spec_graphics_queue() == old(self).spec_graphics_queue(),
            final(self).registry().surfaces.capacity() == old(self).registry().surfaces.capacity(),
            !final(self).surface_live(handle),
            forall|h2: Handle<Surface>|
                !old(self).surface_live(h2) ==> !final(self).surface_live(h2),
            !old(self).surface_live(handle) ==> r == Err::<(), RenderError>(
                RenderError::HandleNotFound,
            ) && final(self).log() == old(self).log() && final(self).registry() == old(self).registry(),
            old(self).surface_live(handle) ==> {
                &&& !final(self).registry().surfaces.spec_is_match(handle)
                &&& forall|h2: Handle<Surface>|
                    h2.index != handle.index ==> final(self).registry().surfaces.spec_is_match(h2)
                        == old(self).registry().surfaces.spec_is_match(h2)
                &&& final(self).log() == old(self).log().push(
                    DriverOp::DestroySurface(old(self).surface_raw(handle)),
                )
                &&& !final(self).surface_live(handle)
                &&& forall|h2: Handle<Surface>|
                    old(self).surface_live(h2) && h2.index != handle.index ==> final(self).surface_live(h2) && final(self).surface_raw(h2) == old(self).surface_raw(h2)
                &&& final(self).registry() == (ResourceRegistry {
                    surfaces: final(self).registry().surfaces,
                    ..old(self).registry()
                })
            },
    {
        let (live_now, raw): (bool, u64) = match self.res.surfaces.get(handle) {
            Some(entry) => (entry.get_handle().is_some(), entry.raw),
            None => (false, 0),
        };
        proof {
            self.res.surfaces.lemma_wf_facts();
            if (handle.index as int) < self.res.surfaces.capacity() {
                assert(self.res.surfaces.item_at(handle.index as int) == self.res.surfaces.item_at(
                    handle.index as int,
                ));
            }
            assert(live_now == live(&self.res.surfaces, handle));
        }
        if !live_now {
            return Err(RenderError::HandleNotFound);
        }
        let result = self.driver.destroy_surface(raw);
        let ghost pre_pool = self.res.surfaces;
        self.res.surfaces.free(handle);
        proof {
            lemma_free_discipline(&pre_pool, &self.res.surfaces, handle);
        }
        result
    }

    /// Resolves a fence handle to its raw identity, if it is live.
    pub fn resolve_fence(&self, handle: Handle<Fence>) -> (r: Option<u64>)
        requires
            self.wf(),
        ensures
            match r {
                Some(raw) => self.fence_live(handle) && raw == self.fence_raw(handle),
                None => !self.fence_live(handle),
            },
    {
        let found: Option<u64> = match self.res.fences.get(handle) {
            Some(entry) => if entry.get_handle().is_some() {
                Some(entry.raw)
            } else {
                None
            },
            None => None,
        };
        proof {
            self.res.fences.lemma_wf_facts();
            if (handle.index as int) < self.res.fences.capacity() {
                assert(self.res.fences.item_at(handle.index as int) == self.res.fences.item_at(
                    handle.index as int,
                ));
            }
        }
        found
    }

    /// Resolves a semaphore handle to its raw identity, if it is live.
    pub fn resolve_semaphore(&self, handle: Handle<crate::define::Semaphore>) -> (r: Option<u64>)
        requires
            self.wf(),
        ensures
            match r {
                Some(raw) => self.semaphore_live(handle) && raw == self.semaphore_raw(handle),
                None => !self.semaphore_live(handle),
            },
    {
        let found: Option<u64> = match self.res.semaphores.get(handle) {
            Some(entry) => if entry.get_handle().is_some() {
                Some(entry.raw)
            } else {
                None
            },
            None => None,
        };
        proof {
            self.res.semaphores.lemma_wf_facts();
            if (handle.index as int) < self.res.semaphores.capacity() {
                assert(self.res.semaphores.item_at(handle.index as int) == self.res.semaphores.item_at(
                    handle.index as int,
                ));
            }
        }
        found
    }

    /// Resolves a queue handle to its raw identity, if it is live.
    pub fn resolve_queue(&self, handle: Handle<Queue>) -> (r: Option<u64>)
        requires
            self.wf(),
        ensures
            match r {
                Some(raw) => self.queue_live(handle) && raw == self.queue_raw(handle),
                None => !self.queue_live(handle),
            },
    {
        let found: Option<u64> = match self.res.queues.get(handle) {
            Some(entry) => if entry.get_handle().is_some() {
                Some(entry.raw)
            } else {
                None
            },
            None => None,
        };
        proof {
            self.res.queues.lemma_wf_facts();
            if (handle.index as int) < self.res.queues.capacity() {
                assert(self.res.queues.item_at(handle.index as int) == self.res.queues.item_at(
                    handle.index as int,
                ));
            }
        }
        found
    }

    /// Resolves an image handle to its raw identity, if it is live.
    pub fn resolve_image(&self, handle: Handle<Image>) -> (r: Option<u64>)
        requires
            self.wf(),
        ensures
            match r {
                Some(raw) => self.image_live(handle) && raw == self.image_raw(handle),
                None => !self.image_live(handle),
            },
    {
        let found: Option<u64> = match self.res.images.get(handle) {
            Some(entry) => if entry.get_handle().is_some() {
                Some(entry.raw)
            } else {
                None
            },
            None => None,
        };
        proof {
            self.res.images.lemma_wf_facts();
            if (handle.index as int) < self.res.images.capacity() {
                assert(self.res.images.item_at(handle.index as int) == self.res.images.item_at(
                    handle.index as int,
                ));
            }
        }
        found
    }

    /// Resolves an image view handle to its raw identity, if it is live.
    pub fn resolve_image_view(&self, handle: Handle<ImageView>) -> (r: Option<u64>)
        requires
            self.wf(),
        ensures
            match r {
                Some(raw) => self.image_view_live(handle) && raw == self.image_view_raw(handle),
                None => !self.image_view_live(handle),
            },
    {
        let found: Option<u64> = match self.res.image_views.get(handle) {
            Some(entry) => if entry.get_handle().is_some() {
                Some(entry.raw)
            } else {
                None
            },
            None => None,
        };
        proof {
            self.res.image_views.lemma_wf_facts();
            if (handle.index as int) < self.res.image_views.capacity() {
                assert(self.res.image_views.item_at(handle.index as int) == self.res.image_views.item_at(
                    handle.index as int,
                ));
            }
        }
        found
    }

    /// Resolves a command pool handle to its raw identity, if it is live.
    pub fn resolve_command_pool(&self, handle: Handle<crate::define::CommandPool>) -> (r: Option<u64>)
        requires
            self.wf(),
        ensures
            match r {
                Some(raw) => self.command_pool_live(handle) && raw == self.command_pool_raw(handle),
                None => !self.command_pool_live(handle),
            },
    {
        let found: Option<u64> = match self.res.command_pools.get(handle) {
            Some(entry) => if entry.get_handle().is_some() {
                Some(entry.raw)
            } else {
                None
            },
            None => None,
        };
        proof {
            self.res.command_pools.lemma_wf_facts();
            if (handle.index as int) < self.res.command_pools.capacity() {
                assert(self.res.command_pools.item_at(handle.index as int) == self.res.command_pools.item_at(
                    handle.index as int,
                ));
            }
        }
        found
    }

    /// Resolves a command buffer handle to its raw identity, if it is live.
    pub fn resolve_command_buffer(&self, handle: Handle<crate::define::CommandBuffer>) -> (r: Option<u64>)
        requires
            self.wf(),
        ensures
            match r {
                Some(raw) => self.command_buffer_live(handle) && raw == self.command_buffer_raw(handle),
                None => !self.command_buffer_live(handle),
            },
    {
        let found: Option<u64> = match self.res.command_buffers.get(handle) {
            Some(entry) => if entry.get_handle().is_some() {
                Some(entry.raw)
            } else {
                None
            },
            None => None,
        };
        proof {
            self.res.command_buffers.lemma_wf_facts();
            if (handle.index as int) < self.res.command_buffers.capacity() {
                assert(self.res.command_buffers.item_at(handle.index as int) == self.res.command_buffers.item_at(
                    handle.index as int,
                ));
            }
        }
        found
    }

    /// Resolves a render pass handle to its raw identity, if it is live.
    pub fn resolve_render_pass(&self, handle: Handle<crate::define::RenderPass>) -> (r: Option<u64>)
        requires
            self.wf(),
        ensures
            match r {
                Some(raw) => self.render_pass_live(handle) && raw == self.render_pass_raw(handle),
                None => !self.render_pass_live(handle),
            },
    {
        let found: Option<u64> = match self.res.render_passes.get(handle) {
            Some(entry) => if entry.get_handle().is_some() {
                Some(entry.raw)
            } else {
                None
            },
            None => None,
        };
        proof {
            self.res.render_passes.lemma_wf_facts();
            if (handle.index as int) < self.res.render_passes.capacity() {
                assert(self.res.render_passes.item_at(handle.index as int) == self.res.render_passes.item_at(
                    handle.index as int,
                ));
            }
        }
        found
    }

    /// Resolves a framebuffer handle to its raw identity, if it is live.
    pub fn resolve_framebuffer(&self, handle: Handle<crate::define::Framebuffer>) -> (r: Option<u64>)
        requires
            self.wf(),
        ensures
            match r {
                Some(raw) => self.framebuffer_live(handle) && raw == self.framebuffer_raw(handle),
                None => !self.framebuffer_live(handle),
            },
    {
        let found: Option<u64> = match self.res.framebuffers.get(handle) {
            Some(entry) => if entry.get_handle().is_some() {
                Some(entry.raw)
            } else {
                None
            },
            None => None,
        };
        proof {
            self.res.framebuffers.lemma_wf_facts();
            if (handle.index as int) < self.res.framebuffers.capacity() {
                assert(self.res.framebuffers.item_at(handle.index as int) == self.res.framebuffers.item_at(
                    handle.index as int,
                ));
            }
        }
        found
    }

    /// Resolves a surface handle to its raw identity, if it is live.
    pub fn resolve_surface(&self, handle: Handle<Surface>) -> (r: Option<u64>)
        requires
            self.wf(),
        ensures
            match r {
                Some(raw) => self.surface_live(handle) && raw == self.surface_raw(handle),
                None => !self.surface_live(handle),
            },
    {
        let found: Option<u64> = match self.res.surfaces.get(handle) {
            Some(entry) => if entry.get_handle().is_some() {
                Some(entry.raw)
            } else {
                None
            },
            None => None,
        };
        proof {
            self.res.surfaces.lemma_wf_facts();
            if (handle.index as int) < self.res.surfaces.capacity() {
                assert(self.res.surfaces.item_at(handle.index as int) == self.res.surfaces.item_at(
                    handle.index as int,
                ));
            }
        }
        found
    }

    /// Resolves a swapchain handle to its raw identity, if it is live.
    pub fn resolve_swapchain(&self, handle: Handle<Swapchain>) -> (r: Option<u64>)
        requires
            self.wf(),
        ensures
            match r {
                Some(raw) => self.swapchain_live(handle) && raw == self.swapchain_raw(handle),
                None => !self.swapchain_live(handle),
            },
    {
        let found: Option<u64> = match self.res.swapchains.get(handle) {
            Some(entry) => if entry.get_handle().is_some() {
                Some(entry.raw)
            } else {
                None
            },
            None => None,
        };
        proof {
            self.res.swapchains.lemma_wf_facts();
            if (handle.index as int) < self.res.swapchains.capacity() {
                assert(self.res.swapchains.item_at(handle.index as int) == self.res.swapchains.item_at(
                    handle.index as int,
                ));
            }
        }
        found
    }

    /// Blocks until the given fences are signaled (all of them when
    /// `wait_all` holds) or `timeout_ns` elapses.  Fails without touching
    /// the driver when some handle is stale.
    pub fn wait_for_fences(&mut self, fences: &Vec<Handle<Fence>>, wait_all: bool, timeout_ns: u64)
        -> (r: Result<(), RenderError>)
        requires
            old(self).wf(),
        ensures
            final(self).wf(),
            final(self).registry() == old(self).registry(),
            final(self).rp_cache() == old(self).rp_cache(),
            final(self).fb_cache() == old(self).fb_cache(),
            final(self).spec_graphics_queue() == old(self).spec_graphics_queue(),
            (forall|i: int| 0 <= i < fences@.len() ==> old(self).fence_live(fences@[i])) ==> final(self).log() == old(self).log().push(
                DriverOp::WaitFences(
                    fences@.map_values(|h: Handle<Fence>| old(self).fence_raw(h)),
                ),
            ),
            fences@.len() == 1 && old(self).fence_live(fences@[0]) ==> final(self).log() == old(self).log().push(
                DriverOp::WaitFences(seq![old(self).fence_raw(fences@[0])]),
            ),
            !(forall|i: int| 0 <= i < fences@.len() ==> old(self).fence_live(fences@[i])) ==> r
                == Err::<(), RenderError>(RenderError::HandleNotFound) && final(self).log() == old(self).log(),
    {
        let mut raws: Vec<u64> = Vec::new();
        let n: usize = fences.len();
        let mut i: usize = 0;
        while i < n
            invariant
                self == old(self),
                self.wf(),
                n == fences@.len(),
                i <= n,
                raws@.len() == i as int,
                forall|j: int| 0 <= j < i ==> self.fence_live(fences@[j]),
                forall|j: int|
                    0 <= j < i ==> raws@[j] == self.fence_raw(fences@[j]),
            decreases n - i,
        {
            match self.resolve_fence(fences[i]) {
                Some(raw) => {
                    raws.push(raw);
                },
                None => {
                    return Err(RenderError::HandleNotFound);
                },
            }
            i = i + 1;
        }
        proof {
            assert(raws@ =~= fences@.map_values(|h: Handle<Fence>| self.fence_raw(h)));
            assert(forall|k: int| 0 <= k < fences@.len() ==> old(self).fence_live(fences@[k]));
            if fences@.len() == 1 {
                assert(raws@ =~= seq![self.fence_raw(fences@[0])]);
            }
        }
        self.driver.wait_for_fences(&raws, wait_all, timeout_ns)
    }

    /// Resets the given fences to the unsignaled state.  Fails without
    /// touching the driver when some handle is stale.
    pub fn reset_fences(&mut self, fences: &Vec<Handle<Fence>>) -> (r: Result<(), RenderError>)
        requires
            old(self).wf(),
        ensures
            final(self).wf(),
            final(self).registry() == old(self).registry(),
            final(self).rp_cache() == old(self).rp_cache(),
            final(self).fb_cache() == old(self).fb_cache(),
            final(self).spec_graphics_queue() == old(self).spec_graphics_queue(),
            (forall|i: int| 0 <= i < fences@.len() ==> old(self).fence_live(fences@[i])) ==> final(self).log() == old(self).log().push(
                DriverOp::ResetFences(
                    fences@.map_values(|h: Handle<Fence>| old(self).fence_raw(h)),
                ),
            ),
            fences@.len() == 1 && old(self).fence_live(fences@[0]) ==> final(self).log() == old(self).log().push(
                DriverOp::ResetFences(seq![old(self).fence_raw(fences@[0])]),
            ),
            !(forall|i: int| 0 <= i < fences@.len() ==> old(self).fence_live(fences@[i])) ==> r
                == Err::<(), RenderError>(RenderError::HandleNotFound) && final(self).log() == old(self).log(),
    {
        let mut raws: Vec<u64> = Vec::new();
        let n: usize = fences.len();
        let mut i: usize = 0;
        while i < n
            invariant
                self == old(self),
                self.wf(),
                n == fences@.len(),
                i <= n,
                raws@.len() == i as int,
                forall|j: int| 0 <= j < i ==> self.fence_live(fences@[j]),
                forall|j: int|
                    0 <= j < i ==> raws@[j] == self.fence_raw(fences@[j]),
            decreases n - i,
        {
            match self.resolve_fence(fences[i]) {
                Some(raw) => {
                    raws.push(raw);
                },
                None => {
                    return Err(RenderError::HandleNotFound);
                },
            }
            i = i + 1;
        }
        proof {
            assert(raws@ =~= fences@.map_values(|h: Handle<Fence>| self.fence_raw(h)));
            assert(forall|k: int| 0 <= k < fences@.len() ==> old(self).fence_live(fences@[k]));
            if fences@.len() == 1 {
                assert(raws@ =~= seq![self.fence_raw(fences@[0])]);
            }
        }
        self.driver.reset_fences(&raws)
    }

    /// Blocks until every piece of submitted work completes: the wait that
    /// must precede destroying anything the whole device might still use.
    pub fn device_wait_idle(&mut self) -> (r: Result<(), RenderError>)
        requires
            old(self).wf(),
        ensures
            final(self).wf(),
            final(self).registry() == old(self).registry(),
            final(self).rp_cache() == old(self).rp_cache(),
            final(self).fb_cache() == old(self).fb_cache(),
            final(self).spec_graphics_queue() == old(self).spec_graphics_queue(),
            final(self).log() == old(self).log().push(DriverOp::DeviceWaitIdle),
    {
        self.driver.device_wait_idle()
    }

    /// Blocks until the given queue drains.
    pub fn queue_wait_idle(&mut self, queue: Handle<Queue>) -> (r: Result<(), RenderError>)
        requires
            old(self).wf(),
        ensures
            final(self).wf(),
            final(self).registry() == old(self).registry(),
            final(self).rp_cache() == old(self).rp_cache(),
            final(self).fb_cache() == old(self).fb_cache(),
            final(self).spec_graphics_queue() == old(self).spec_graphics_queue(),
            old(self).queue_live(queue) ==> final(self).log() == old(self).log().push(
                DriverOp::QueueWaitIdle(old(self).queue_raw(queue)),
            ),
            !old(self).queue_live(queue) ==> r == Err::<(), RenderError>(
                RenderError::HandleNotFound,
            ) && final(self).log() == old(self).log(),
    {
        let raw: u64 = match self.resolve_queue(queue) {
            Some(raw) => raw,
            None => {
                return Err(RenderError::HandleNotFound);
            },
        };
        self.driver.queue_wait_idle(raw)
    }

    /// Whether every handle a submission names is live.
    pub open spec fn submit_resolvable(&self, queue: Handle<Queue>, desc: &QueueSubmitDesc) -> bool {
        &&& self.queue_live(queue)
        &&& forall|i: int|
            0 <= i < desc.command_buffer@.len() ==> self.command_buffer_live(
                desc.command_buffer@[i],
            )
        &&& match desc.wait_semaphore {
            Some(v) => forall|i: int| 0 <= i < v@.len() ==> self.semaphore_live(v@[i]),
            None => true,
        }
        &&& match desc.finish_semaphore {
            Some(v) => forall|i: int| 0 <= i < v@.len() ==> self.semaphore_live(v@[i]),
            None => true,
        }
        &&& match desc.fence {
            Some(f) => self.fence_live(f),
            None => true,
        }
    }

    /// The pipeline stages an optional stage list resolves to: empty when
    /// the list is absent.
    pub open spec fn spec_wait_stages(list: &Option<Vec<PipelineStageFlags>>) -> Seq<
        PipelineStageFlags,
    > {
        match list {
            Some(v) => v@,
            None => Seq::<PipelineStageFlags>::empty(),
        }
    }

    /// The raw semaphores an optional semaphore list resolves to: empty
    /// when the list is absent.
    pub open spec fn spec_semaphore_raws(
        &self,
        list: &Option<Vec<Handle<crate::define::Semaphore>>>,
    ) -> Seq<u64> {
        match list {
            Some(v) => v@.map_values(|h: Handle<crate::define::Semaphore>| self.semaphore_raw(h)),
            None => Seq::<u64>::empty(),
        }
    }

    /// Resolves a semaphore list to raw identities, if every handle in it
    /// is live.
    fn resolve_semaphores(&self, semaphores: &Vec<Handle<crate::define::Semaphore>>) -> (r: Option<
        Vec<u64>,
    >)
        requires
            self.wf(),
        ensures
            match r {
                Some(raws) => (forall|i: int|
                    0 <= i < semaphores@.len() ==> self.semaphore_live(semaphores@[i])) && raws@
                    == semaphores@.map_values(
                    |h: Handle<crate::define::Semaphore>| self.semaphore_raw(h),
                ),
                None => !(forall|i: int|
                    0 <= i < semaphores@.len() ==> self.semaphore_live(semaphores@[i])),
            },
    {
        let mut raws: Vec<u64> = Vec::new();
        let n: usize = semaphores.len();
        let mut i: usize = 0;
        while i < n
            invariant
                self.wf(),
                n == semaphores@.len(),
                i <= n,
                raws@.len() == i as int,
                forall|j: int| 0 <= j < i ==> self.semaphore_live(semaphores@[j]),
                forall|j: int| 0 <= j < i ==> raws@[j] == self.semaphore_raw(semaphores@[j]),
            decreases n - i,
        {
            match self.resolve_semaphore(semaphores[i]) {
                Some(raw) => {
                    raws.push(raw);
                },
                None => {
                    return None;
                },
            }
            i = i + 1;
        }
        proof {
            assert(raws@ =~= semaphores@.map_values(
                |h: Handle<crate::define::Semaphore>| self.semaphore_raw(h),
            ));
        }
        Some(raws)
    }

    /// Submits command buffers to a queue: the wait semaphores (with their
    /// pipeline stages), the semaphores to signal on completion, and the
    /// optional fence are all resolved and handed to the driver; a stale
    /// handle anywhere is reported before anything reaches the driver.
    pub fn queue_submit(&mut self, queue: Handle<Queue>, desc: &QueueSubmitDesc) -> (r: Result<
        (),
        RenderError,
    >)
        requires
            old(self).wf(),
        ensures
            final(self).wf(),
            final(self).registry() == old(self).registry(),
            final(self).rp_cache() == old(self).rp_cache(),
            final(self).fb_cache() == old(self).fb_cache(),
            final(self).spec_graphics_queue() == old(self).spec_graphics_queue(),
            old(self).submit_resolvable(queue, desc) ==> final(self).log() == old(self).log().push(
                DriverOp::Submit {
                    queue: old(self).queue_raw(queue),
                    command_buffers: desc.command_buffer@.map_values(
                        |h: Handle<crate::define::CommandBuffer>| old(self).command_buffer_raw(h),
                    ),
                    wait_semaphores: old(self).spec_semaphore_raws(&desc.wait_semaphore),
                    wait_stages: Self::spec_wait_stages(&desc.wait_stage),
                    signal_semaphores: old(self).spec_semaphore_raws(&desc.finish_semaphore),
                    fence: match desc.fence {
                        Some(f) => Some(old(self).fence_raw(f)),
                        None => None,
                    },
                },
            ),
            old(self).submit_resolvable(queue, desc) && desc.command_buffer@.len() == 1 ==> final(self).log() == old(self).log().push(
                DriverOp::Submit {
                    queue: old(self).queue_raw(queue),
                    command_buffers: seq![
                        old(self).command_buffer_raw(desc.command_buffer@[0]),
                    ],
                    wait_semaphores: old(self).spec_semaphore_raws(&desc.wait_semaphore),
                    wait_stages: Self::spec_wait_stages(&desc.wait_stage),
                    signal_semaphores: old(self).spec_semaphore_raws(&desc.finish_semaphore),
                    fence: match desc.fence {
                        Some(f) => Some(old(self).fence_raw(f)),
                        None => None,
                    },
                },
            ),
            !old(self).submit_resolvable(queue, desc) ==> r == Err::<(), RenderError>(
                RenderError::HandleNotFound,
            ) && final(self).log() == old(self).log(),
    {
        let queue_raw: u64 = match self.resolve_queue(queue) {
            Some(raw) => raw,
            None => {
                return Err(RenderError::HandleNotFound);
            },
        };
        let mut cb_raws: Vec<u64> = Vec::new();
        let n: usize = desc.command_buffer.len();
        let mut i: usize = 0;
        while i < n
            invariant
                self == old(self),
                self.wf(),
                n == desc.command_buffer@.len(),
                i <= n,
                cb_raws@.len() == i as int,
                forall|j: int| 0 <= j < i ==> self.command_buffer_live(desc.command_buffer@[j]),
                forall|j: int|
                    0 <= j < i ==> cb_raws@[j] == self.command_buffer_raw(desc.command_buffer@[j]),
            decreases n - i,
        {
            match self.resolve_command_buffer(desc.command_buffer[i]) {
                Some(raw) => {
                    cb_raws.push(raw);
                },
                None => {
                    return Err(RenderError::HandleNotFound);
                },
            }
            i = i + 1;
        }
        let fence_raw: Option<u64> = match desc.fence {
            Some(f) => {
                match self.resolve_fence(f) {
                    Some(raw) => Some(raw),
                    None => {
                        return Err(RenderError::HandleNotFound);
                    },
                }
            },
            None => None,
        };
        let empty_semaphores: Vec<Handle<crate::define::Semaphore>> = Vec::new();
        let wait_list: &Vec<Handle<crate::define::Semaphore>> = match &desc.wait_semaphore {
            Some(v) => v,
            None => &empty_semaphores,
        };
        let wait_raws: Vec<u64> = match self.resolve_semaphores(wait_list) {
            Some(raws) => raws,
            None => {
                return Err(RenderError::HandleNotFound);
            },
        };
        let signal_list: &Vec<Handle<crate::define::Semaphore>> = match &desc.finish_semaphore {
            Some(v) => v,
            None => &empty_semaphores,
        };
        let signal_raws: Vec<u64> = match self.resolve_semaphores(signal_list) {
            Some(raws) => raws,
            None => {
                return Err(RenderError::HandleNotFound);
            },
        };
        proof {
            assert(wait_raws@ =~= self.spec_semaphore_raws(&desc.wait_semaphore));
            assert(signal_raws@ =~= self.spec_semaphore_raws(&desc.finish_semaphore));
        }
        let wait_stages: Vec<PipelineStageFlags> = match &desc.wait_stage {
            Some(stages) => clone_flag_list(stages),
            None => Vec::new(),
        };
        proof {
            assert(wait_stages@ =~= Self::spec_wait_stages(&desc.wait_stage));
        }
        proof {
            assert(cb_raws@ =~= desc.command_buffer@.map_values(
                |h: Handle<crate::define::CommandBuffer>| self.command_buffer_raw(h),
            ));
            if desc.command_buffer@.len() == 1 {
                assert(cb_raws@ =~= seq![self.command_buffer_raw(desc.command_buffer@[0])]);
            }
        }
        self.driver.submit(queue_raw, &cb_raws, &wait_raws, &wait_stages, &signal_raws, fence_raw)
    }

    /// Starts recording a command buffer.
    pub fn cmd_begin(
        &mut self,
        cb: Handle<crate::define::CommandBuffer>,
        desc: CommandBufferBeginDesc,
    ) -> (r: Result<(), RenderError>)
        requires
            old(self).wf(),
        ensures
            final(self).wf(),
            final(self).registry() == old(self).registry(),
            final(self).rp_cache() == old(self).rp_cache(),
            final(self).fb_cache() == old(self).fb_cache(),
            final(self).spec_graphics_queue() == old(self).spec_graphics_queue(),
            old(self).command_buffer_live(cb) ==> final(self).log() == old(self).log().push(
                DriverOp::CmdBegin(old(self).command_buffer_raw(cb)),
            ),
            !old(self).command_buffer_live(cb) ==> r == Err::<(), RenderError>(
                RenderError::HandleNotFound,
            ) && final(self).log() == old(self).log(),
    {
        let raw: u64 = match self.resolve_command_buffer(cb) {
            Some(raw) => raw,
            None => {
                return Err(RenderError::HandleNotFound);
            },
        };
        self.driver.cmd_begin(raw, desc.one_time_submit)
    }

    /// Finishes recording a command buffer.
    pub fn cmd_end(&mut self, cb: Handle<crate::define::CommandBuffer>) -> (r: Result<
        (),
        RenderError,
    >)
        requires
            old(self).wf(),
        ensures
            final(self).wf(),
            final(self).registry() == old(self).registry(),
            final(self).rp_cache() == old(self).rp_cache(),
            final(self).fb_cache() == old(self).fb_cache(),
            final(self).spec_graphics_queue() == old(self).spec_graphics_queue(),
            old(self).command_buffer_live(cb) ==> final(self).log() == old(self).log().push(
                DriverOp::CmdEnd(old(self).command_buffer_raw(cb)),
            ),
            !old(self).command_buffer_live(cb) ==> r == Err::<(), RenderError>(
                RenderError::HandleNotFound,
            ) && final(self).log() == old(self).log(),
    {
        let raw: u64 = match self.resolve_command_buffer(cb) {
            Some(raw) => raw,
            None => {
                return Err(RenderError::HandleNotFound);
            },
        };
        self.driver.cmd_end(raw)
    }

    /// Whether a barrier list names only live images.
    pub open spec fn barriers_resolvable(&self, barriers: &Vec<ImageMemoryBarrier>) -> bool {
        forall|i: int| 0 <= i < barriers@.len() ==> self.image_live(barriers@[i].image)
    }

    /// The raw barrier a handle-level barrier resolves to.
    pub open spec fn spec_raw_barrier(&self, b: ImageMemoryBarrier) -> RawImageBarrier {
        RawImageBarrier {
            image: self.image_raw(b.image),
            aspect_mask: b.aspect_mask,
            old_layout: b.old_layout,
            new_layout: b.new_layout,
            src_access_mask: b.src_access_mask,
            dst_access_mask: b.dst_access_mask,
        }
    }

    /// Records image layout transition barriers into a command buffer.
    pub fn cmd_pipeline_barrier(
        &mut self,
        cb: Handle<crate::define::CommandBuffer>,
        src_stage_mask: PipelineStageFlags,
        dst_stage_mask: PipelineStageFlags,
        image_memory_barriers: &Vec<ImageMemoryBarrier>,
    ) -> (r: Result<(), RenderError>)
        requires
            old(self).wf(),
        ensures
            final(self).wf(),
            final(self).registry() == old(self).registry(),
            final(self).rp_cache() == old(self).rp_cache(),
            final(self).fb_cache() == old(self).fb_cache(),
            final(self).spec_graphics_queue() == old(self).spec_graphics_queue(),
            old(self).command_buffer_live(cb) && old(self).barriers_resolvable(
                image_memory_barriers,
            ) ==> final(self).log() == old(self).log().push(
                DriverOp::CmdPipelineBarrier {
                    command_buffer: old(self).command_buffer_raw(cb),
                    src_stage_mask,
                    dst_stage_mask,
                    barriers: image_memory_barriers@.map_values(
                        |b: ImageMemoryBarrier| old(self).spec_raw_barrier(b),
                    ),
                },
            ),
            old(self).command_buffer_live(cb) && old(self).barriers_resolvable(
                image_memory_barriers,
            ) && image_memory_barriers@.len() == 1 ==> final(self).log() == old(self).log().push(
                DriverOp::CmdPipelineBarrier {
                    command_buffer: old(self).command_buffer_raw(cb),
                    src_stage_mask,
                    dst_stage_mask,
                    barriers: seq![old(self).spec_raw_barrier(image_memory_barriers@[0])],
                },
            ),
            !(old(self).command_buffer_live(cb) && old(self).barriers_resolvable(
                image_memory_barriers,
            )) ==> r == Err::<(), RenderError>(RenderError::HandleNotFound) && final(self).log()
                == old(self).log(),
    {
        let raw: u64 = match self.resolve_command_buffer(cb) {
            Some(raw) => raw,
            None => {
                return Err(RenderError::HandleNotFound);
            },
        };
        let mut raw_barriers: Vec<RawImageBarrier> = Vec::new();
        let n: usize = image_memory_barriers.len();
        let mut i: usize = 0;
        while i < n
            invariant
                self == old(self),
                self.wf(),
                n == image_memory_barriers@.len(),
                i <= n,
                raw_barriers@.len() == i as int,
                forall|j: int| 0 <= j < i ==> self.image_live(image_memory_barriers@[j].image),
                forall|j: int|
                    0 <= j < i ==> raw_barriers@[j] == self.spec_raw_barrier(
                        image_memory_barriers@[j],
                    ),
            decreases n - i,
        {
            let b = &image_memory_barriers[i];
            match self.resolve_image(b.image) {
                Some(image_raw) => {
                    raw_barriers.push(
                        RawImageBarrier {
                            image: image_raw,
                            aspect_mask: b.aspect_mask,
                            old_layout: b.old_layout,
                            new_layout: b.new_layout,
                            src_access_mask: b.src_access_mask,
                            dst_access_mask: b.dst_access_mask,
                        },
                    );
                },
                None => {
                    return Err(RenderError::HandleNotFound);
                },
            }
            i = i + 1;
        }
        proof {
            assert(raw_barriers@ =~= image_memory_barriers@.map_values(
                |b: ImageMemoryBarrier| self.spec_raw_barrier(b),
            ));
            if image_memory_barriers@.len() == 1 {
                assert(raw_barriers@ =~= seq![
                    self.spec_raw_barrier(image_memory_barriers@[0]),
                ]);
            }
        }
        self.driver.cmd_pipeline_barrier(raw, src_stage_mask, dst_stage_mask, &raw_barriers)
    }

    /// Creates an image described by `desc` and registers it with the plain
    /// values the backend's logic reads back: format and extent.
    pub fn create_image(&mut self, desc: &ImageCreateDesc) -> (r: Result<Handle<Image>, RenderError>)
        requires
            old(self).wf(),
        ensures
            final(self).wf(),
            crate::registry::pool_full(&old(self).registry().images) ==> r == Err::<Handle<Image>, RenderError>(RenderError::PoolExhausted),
            crate::registry::stale_preserved(
                &old(self).registry().images,
                &final(self).registry().images,
            ),
            final(self).rp_cache() == old(self).rp_cache(),
            final(self).fb_cache() == old(self).fb_cache(),
            final(self).spec_graphics_queue() == old(self).spec_graphics_queue(),
            match r {
                Ok(h) => {
                    &&& final(self).log() == old(self).log().push(
                        DriverOp::CreateImage(final(self).image_raw(h)),
                    )
                    &&& final(self).image_live(h)
                    &&& final(self).image_entry(h).format == desc.format
                    &&& final(self).image_entry(h).width == desc.extent[0]
                    &&& final(self).image_entry(h).height == desc.extent[1]
                    &&& final(self).image_entry(h).array_layers == desc.array_layers
                    &&& forall|h2: Handle<Image>|
                        old(self).image_live(h2) ==> final(self).image_live(h2) && final(self).image_entry(h2) == old(self).image_entry(h2) && h2.index != h.index
                    &&& final(self).registry() == (ResourceRegistry {
                        images: final(self).registry().images,
                        ..old(self).registry()
                    })
                },
                Err(_) => final(self).log() == old(self).log() && final(self).registry() == old(self).registry(),
            },
    {
        if self.res.images.free_count() == 0 {
            let cap: usize = self.res.images.slot_count();
            if cap == 0 || cap >= u16::MAX as usize {
                return Err(RenderError::PoolExhausted);
            }
        }
        let raw: u64 = match self.driver.create_image(desc) {
            Ok(raw) => raw,
            Err(e) => {
                return Err(e);
            },
        };
        let width: u32 = desc.extent[0];
        let height: u32 = desc.extent[1];
        let format = desc.format;
        let array_layers: u32 = desc.array_layers;
        let ghost pre_pool = self.res.images;
        let (h, entry) = self.res.images.malloc();
        *entry = ImageEntry { handle: Some(h), raw, format, width, height, array_layers };
        proof {
            self.res.images.lemma_wf_facts();
            lemma_alloc_discipline(&pre_pool, &self.res.images, h);
        }
        Ok(h)
    }

    /// Destroys the image behind a live handle and frees its slot.
    pub fn destroy_image(&mut self, handle: Handle<Image>) -> (r: Result<(), RenderError>)
        requires
            old(self).wf(),
        ensures
            final(self).wf(),
            final(self).rp_cache() == old(self).rp_cache(),
            final(self).fb_cache() == old(self).fb_cache(),
            final(self).spec_graphics_queue() == old(self).spec_graphics_queue(),
            final(self).registry().images.capacity() == old(self).registry().images.capacity(),
            !final(self).image_live(handle),
            forall|h2: Handle<Image>|
                !old(self).image_live(h2) ==> !final(self).image_live(h2),
            !old(self).image_live(handle) ==> r == Err::<(), RenderError>(
                RenderError::HandleNotFound,
            ) && final(self).log() == old(self).log() && final(self).registry() == old(self).registry(),
            old(self).image_live(handle) ==> {
                &&& !final(self).registry().images.spec_is_match(handle)
                &&& forall|h2: Handle<Image>|
                    h2.index != handle.index ==> final(self).registry().images.spec_is_match(h2)
                        == old(self).registry().images.spec_is_match(h2)
                &&& final(self).log() == old(self).log().push(
                    DriverOp::DestroyImage(old(self).image_raw(handle)),
                )
                &&& !final(self).image_live(handle)
                &&& forall|h2: Handle<Image>|
                    old(self).image_live(h2) && h2.index != handle.index ==> final(self).image_live(h2) && final(self).image_entry(h2) == old(self).image_entry(h2)
                &&& final(self).registry() == (ResourceRegistry {
                    images: final(self).registry().images,
                    ..old(self).registry()
                })
            },
    {
        let raw: u64 = match self.resolve_image(handle) {
            Some(raw) => raw,
            None => {
                return Err(RenderError::HandleNotFound);
            },
        };
        let result = self.driver.destroy_image(raw);
        let ghost pre_pool = self.res.images;
        self.res.images.free(handle);
        proof {
            self.res.images.lemma_wf_facts();
            lemma_free_discipline(&pre_pool, &self.res.images, handle);
        }
        result
    }

    /// Creates a view onto a live image.
    pub fn create_image_view(&mut self, image: Handle<Image>, desc: &ImageViewCreateDesc) -> (r:
        Result<Handle<ImageView>, RenderError>)
        requires
            old(self).wf(),
        ensures
            final(self).wf(),
            old(self).image_live(image) && crate::registry::pool_full(&old(self).registry().image_views) ==> r == Err::<Handle<ImageView>, RenderError>(RenderError::PoolExhausted),
            crate::registry::stale_preserved(
                &old(self).registry().image_views,
                &final(self).registry().image_views,
            ),
            final(self).rp_cache() == old(self).rp_cache(),
            final(self).fb_cache() == old(self).fb_cache(),
            final(self).spec_graphics_queue() == old(self).spec_graphics_queue(),
            !old(self).image_live(image) ==> r == Err::<Handle<ImageView>, RenderError>(
                RenderError::HandleNotFound,
            ) && final(self).log() == old(self).log() && final(self).registry() == old(self).registry(),
            match r {
                Ok(h) => {
                    &&& old(self).image_live(image)
                    &&& final(self).log() == old(self).log().push(
                        DriverOp::CreateImageView(final(self).image_view_raw(h)),
                    )
                    &&& final(self).image_view_live(h)
                    &&& final(self).image_view_entry(h).image == Some(image)
                    &&& forall|h2: Handle<ImageView>|
                        old(self).image_view_live(h2) ==> final(self).image_view_live(h2) && final(self).image_view_entry(h2) == old(self).image_view_entry(h2) && h2.index != h.index
                    &&& final(self).registry() == (ResourceRegistry {
                        image_views: final(self).registry().image_views,
                        ..old(self).registry()
                    })
                },
                Err(_) => final(self).log() == old(self).log() && final(self).registry() == old(self).registry(),
            },
    {
        let image_raw: u64 = match self.resolve_image(image) {
            Some(raw) => raw,
            None => {
                return Err(RenderError::HandleNotFound);
            },
        };
        if self.res.image_views.free_count() == 0 {
            let cap: usize = self.res.image_views.slot_count();
            if cap == 0 || cap >= u16::MAX as usize {
                return Err(RenderError::PoolExhausted);
            }
        }
        let raw: u64 = match self.driver.create_image_view(image_raw, desc) {
            Ok(raw) => raw,
            Err(e) => {
                return Err(e);
            },
        };
        let ghost pre_pool = self.res.image_views;
        let (h, entry) = self.res.image_views.malloc();
        *entry = ImageViewEntry { handle: Some(h), raw, image: Some(image) };
        proof {
            self.res.image_views.lemma_wf_facts();
            lemma_alloc_discipline(&pre_pool, &self.res.image_views, h);
        }
        Ok(h)
    }

    /// Destroys the image view behind a live handle and frees its slot.
    pub fn destroy_image_view(&mut self, handle: Handle<ImageView>) -> (r: Result<(), RenderError>)
        requires
            old(self).wf(),
        ensures
            final(self).wf(),
            final(self).rp_cache() == old(self).rp_cache(),
            final(self).fb_cache() == old(self).fb_cache(),
            final(self).spec_graphics_queue() == old(self).spec_graphics_queue(),
            final(self).registry().image_views.capacity() == old(self).registry().image_views.capacity(),
            !final(self).image_view_live(handle),
            forall|h2: Handle<ImageView>|
                !old(self).image_view_live(h2) ==> !final(self).image_view_live(h2),
            !old(self).image_view_live(handle) ==> r == Err::<(), RenderError>(
                RenderError::HandleNotFound,
            ) && final(self).log() == old(self).log() && final(self).registry() == old(self).registry(),
            old(self).image_view_live(handle) ==> {
                &&& !final(self).registry().image_views.spec_is_match(handle)
                &&& forall|h2: Handle<ImageView>|
                    h2.index != handle.index ==> final(self).registry().image_views.spec_is_match(h2)
                        == old(self).registry().image_views.spec_is_match(h2)
                &&& final(self).log() == old(self).log().push(
                    DriverOp::DestroyImageView(old(self).image_view_raw(handle)),
                )
                &&& !final(self).image_view_live(handle)
                &&& forall|h2: Handle<ImageView>|
                    old(self).image_view_live(h2) && h2.index != handle.index ==> final(self).image_view_live(h2) && final(self).image_view_entry(h2) == old(self).image_view_entry(h2)
                &&& final(self).registry() == (ResourceRegistry {
                    image_views: final(self).registry().image_views,
                    ..old(self).registry()
                })
            },
    {
        let raw: u64 = match self.resolve_image_view(handle) {
            Some(raw) => raw,
            None => {
                return Err(RenderError::HandleNotFound);
            },
        };
        let result = self.driver.destroy_image_view(raw);
        let ghost pre_pool = self.res.image_views;
        self.res.image_views.free(handle);
        proof {
            self.res.image_views.lemma_wf_facts();
            lemma_free_discipline(&pre_pool, &self.res.image_views, handle);
        }
        result
    }

    /// Creates a command pool serving a live queue.
    pub fn create_command_pool(&mut self, queue: Handle<Queue>) -> (r: Result<
        Handle<crate::define::CommandPool>,
        RenderError,
    >)
        requires
            old(self).wf(),
        ensures
            final(self).wf(),
            old(self).queue_live(queue) && crate::registry::pool_full(&old(self).registry().command_pools) ==> r == Err::<Handle<crate::define::CommandPool>, RenderError>(RenderError::PoolExhausted),
            crate::registry::stale_preserved(
                &old(self).registry().command_pools,
                &final(self).registry().command_pools,
            ),
            final(self).rp_cache() == old(self).rp_cache(),
            final(self).fb_cache() == old(self).fb_cache(),
            final(self).spec_graphics_queue() == old(self).spec_graphics_queue(),
            !old(self).queue_live(queue) ==> r == Err::<
                Handle<crate::define::CommandPool>,
                RenderError,
            >(RenderError::HandleNotFound) && final(self).log() == old(self).log() && final(self).registry() == old(self).registry(),
            match r {
                Ok(h) => {
                    &&& final(self).log() == old(self).log().push(
                        DriverOp::CreateCommandPool(final(self).command_pool_raw(h)),
                    )
                    &&& final(self).command_pool_live(h)
                    &&& forall|h2: Handle<crate::define::CommandPool>|
                        old(self).command_pool_live(h2) ==> final(self).command_pool_live(h2) && final(self).command_pool_raw(h2) == old(self).command_pool_raw(h2) && h2.index != h.index
                    &&& final(self).registry() == (ResourceRegistry {
                        command_pools: final(self).registry().command_pools,
                        ..old(self).registry()
                    })
                },
                Err(_) => final(self).log() == old(self).log() && final(self).registry() == old(self).registry(),
            },
    {
        let queue_raw: u64 = match self.resolve_queue(queue) {
            Some(raw) => raw,
            None => {
                return Err(RenderError::HandleNotFound);
            },
        };
        if self.res.command_pools.free_count() == 0 {
            let cap: usize = self.res.command_pools.slot_count();
            if cap == 0 || cap >= u16::MAX as usize {
                return Err(RenderError::PoolExhausted);
            }
        }
        let raw: u64 = match self.driver.create_command_pool(queue_raw) {
            Ok(raw) => raw,
            Err(e) => {
                return Err(e);
            },
        };
        let ghost pre_pool = self.res.command_pools;
        let (h, entry) = self.res.command_pools.malloc();
        *entry = CommandPoolEntry { handle: Some(h), raw };
        proof {
            self.res.command_pools.lemma_wf_facts();
            lemma_alloc_discipline(&pre_pool, &self.res.command_pools, h);
        }
        Ok(h)
    }

    /// Destroys the command pool behind a live handle and frees its slot.
    pub fn destroy_command_pool(&mut self, handle: Handle<crate::define::CommandPool>) -> (r:
        Result<(), RenderError>)
        requires
            old(self).wf(),
        ensures
            final(self).wf(),
            final(self).rp_cache() == old(self).rp_cache(),
            final(self).fb_cache() == old(self).fb_cache(),
            final(self).spec_graphics_queue() == old(self).spec_graphics_queue(),
            final(self).registry().command_pools.capacity() == old(self).registry().command_pools.capacity(),
            !final(self).command_pool_live(handle),
            forall|h2: Handle<crate::define::CommandPool>|
                !old(self).command_pool_live(h2) ==> !final(self).command_pool_live(h2),
            !old(self).command_pool_live(handle) ==> r == Err::<(), RenderError>(
                RenderError::HandleNotFound,
            ) && final(self).log() == old(self).log() && final(self).registry() == old(self).registry(),
            old(self).command_pool_live(handle) ==> {
                &&& !final(self).registry().command_pools.spec_is_match(handle)
                &&& forall|h2: Handle<crate::define::CommandPool>|
                    h2.index != handle.index ==> final(self).registry().command_pools.spec_is_match(h2)
                        == old(self).registry().command_pools.spec_is_match(h2)
                &&& final(self).log() == old(self).log().push(
                    DriverOp::DestroyCommandPool(old(self).command_pool_raw(handle)),
                )
                &&& !final(self).command_pool_live(handle)
                &&& forall|h2: Handle<crate::define::CommandPool>|
                    old(self).command_pool_live(h2) && h2.index != handle.index ==> final(self).command_pool_live(h2) && final(self).command_pool_raw(h2) == old(self).command_pool_raw(h2)
                &&& final(self).registry() == (ResourceRegistry {
                    command_pools: final(self).registry().command_pools,
                    ..old(self).registry()
                })
            },
    {
        let raw: u64 = match self.resolve_command_pool(handle) {
            Some(raw) => raw,
            None => {
                return Err(RenderError::HandleNotFound);
            },
        };
        let result = self.driver.destroy_command_pool(raw);
        let ghost pre_pool = self.res.command_pools;
        self.res.command_pools.free(handle);
        proof {
            self.res.command_pools.lemma_wf_facts();
            lemma_free_discipline(&pre_pool, &self.res.command_pools, handle);
        }
        result
    }

    /// Allocates a command buffer from a live command pool.
    pub fn create_command_buffer(
        &mut self,
        command_pool: Handle<crate::define::CommandPool>,
        level: CommandBufferLevel,
    ) -> (r: Result<Handle<crate::define::CommandBuffer>, RenderError>)
        requires
            old(self).wf(),
        ensures
            final(self).wf(),
            old(self).command_pool_live(command_pool) && crate::registry::pool_full(&old(self).registry().command_buffers) ==> r == Err::<Handle<crate::define::CommandBuffer>, RenderError>(RenderError::PoolExhausted),
            crate::registry::stale_preserved(
                &old(self).registry().command_buffers,
                &final(self).registry().command_buffers,
            ),
            final(self).rp_cache() == old(self).rp_cache(),
            final(self).fb_cache() == old(self).fb_cache(),
            final(self).spec_graphics_queue() == old(self).spec_graphics_queue(),
            !old(self).command_pool_live(command_pool) ==> r == Err::<
                Handle<crate::define::CommandBuffer>,
                RenderError,
            >(RenderError::HandleNotFound) && final(self).log() == old(self).log() && final(self).registry() == old(self).registry(),
            match r {
                Ok(h) => {
                    &&& final(self).log() == old(self).log().push(
                        DriverOp::CreateCommandBuffer(final(self).command_buffer_raw(h)),
                    )
                    &&& final(self).command_buffer_live(h)
                    &&& forall|h2: Handle<crate::define::CommandBuffer>|
                        old(self).command_buffer_live(h2) ==> final(self).command_buffer_live(h2) && final(self).command_buffer_raw(h2) == old(self).command_buffer_raw(h2) && h2.index != h.index
                    &&& final(self).registry() == (ResourceRegistry {
                        command_buffers: final(self).registry().command_buffers,
                        ..old(self).registry()
                    })
                },
                Err(_) => final(self).log() == old(self).log() && final(self).registry() == old(self).registry(),
            },
    {
        let pool_raw: u64 = match self.resolve_command_pool(command_pool) {
            Some(raw) => raw,
            None => {
                return Err(RenderError::HandleNotFound);
            },
        };
        if self.res.command_buffers.free_count() == 0 {
            let cap: usize = self.res.command_buffers.slot_count();
            if cap == 0 || cap >= u16::MAX as usize {
                return Err(RenderError::PoolExhausted);
            }
        }
        let raw: u64 = match self.driver.create_command_buffer(pool_raw, level) {
            Ok(raw) => raw,
            Err(e) => {
                return Err(e);
            },
        };
        let ghost pre_pool = self.res.command_buffers;
        let (h, entry) = self.res.command_buffers.malloc();
        *entry = CommandBufferEntry { handle: Some(h), raw };
        proof {
            self.res.command_buffers.lemma_wf_facts();
            lemma_alloc_discipline(&pre_pool, &self.res.command_buffers, h);
        }
        Ok(h)
    }

    /// Destroys the command buffer behind a live handle and frees its slot.
    pub fn destroy_command_buffer(&mut self, handle: Handle<crate::define::CommandBuffer>) -> (r:
        Result<(), RenderError>)
        requires
            old(self).wf(),
        ensures
            final(self).wf(),
            final(self).rp_cache() == old(self).rp_cache(),
            final(self).fb_cache() == old(self).fb_cache(),
            final(self).spec_graphics_queue() == old(self).spec_graphics_queue(),
            final(self).registry().command_buffers.capacity() == old(self).registry().command_buffers.capacity(),
            !final(self).command_buffer_live(handle),
            forall|h2: Handle<crate::define::CommandBuffer>|
                !old(self).command_buffer_live(h2) ==> !final(self).command_buffer_live(h2),
            !old(self).command_buffer_live(handle) ==> r == Err::<(), RenderError>(
                RenderError::HandleNotFound,
            ) && final(self).log() == old(self).log() && final(self).registry() == old(self).registry(),
            old(self).command_buffer_live(handle) ==> {
                &&& !final(self).registry().command_buffers.spec_is_match(handle)
                &&& forall|h2: Handle<crate::define::CommandBuffer>|
                    h2.index != handle.index ==> final(self).registry().command_buffers.spec_is_match(h2)
                        == old(self).registry().command_buffers.spec_is_match(h2)
                &&& final(self).log() == old(self).log().push(
                    DriverOp::DestroyCommandBuffer(old(self).command_buffer_raw(handle)),
                )
                &&& !final(self).command_buffer_live(handle)
                &&& forall|h2: Handle<crate::define::CommandBuffer>|
                    old(self).command_buffer_live(h2) && h2.index != handle.index ==> final(self).command_buffer_live(h2) && final(self).command_buffer_raw(h2) == old(self).command_buffer_raw(h2)
                &&& final(self).registry() == (ResourceRegistry {
                    command_buffers: final(self).registry().command_buffers,
                    ..old(self).registry()
                })
            },
    {
        let raw: u64 = match self.resolve_command_buffer(handle) {
            Some(raw) => raw,
            None => {
                return Err(RenderError::HandleNotFound);
            },
        };
        let result = self.driver.destroy_command_buffer(raw);
        let ghost pre_pool = self.res.command_buffers;
        self.res.command_buffers.free(handle);
        proof {
            self.res.command_buffers.lemma_wf_facts();
            lemma_free_discipline(&pre_pool, &self.res.command_buffers, handle);
        }
        result
    }

    /// Creates a swapchain on a live surface and registers one image entry
    /// per back buffer, each carrying the swapchain's format and extent.
    pub fn create_swapchain(&mut self, desc: SwapchainCreateDesc) -> (r: Result<
        Handle<Swapchain>,
        RenderError,
    >)
        requires
            old(self).wf(),
        ensures
            final(self).wf(),
            old(self).surface_live(desc.surface) && crate::registry::pool_full(&old(self).registry().swapchains) ==> r == Err::<Handle<Swapchain>, RenderError>(RenderError::PoolExhausted),
            crate::registry::stale_preserved(
                &old(self).registry().swapchains,
                &final(self).registry().swapchains,
            ),
            crate::registry::stale_preserved(
                &old(self).registry().images,
                &final(self).registry().images,
            ),
            final(self).rp_cache() == old(self).rp_cache(),
            final(self).fb_cache() == old(self).fb_cache(),
            final(self).spec_graphics_queue() == old(self).spec_graphics_queue(),
            sync_free_extension(old(self).log(), final(self).log()),
            final(self).registry() == (ResourceRegistry {
                images: final(self).registry().images,
                swapchains: final(self).registry().swapchains,
                ..old(self).registry()
            }),
            forall|h2: Handle<Image>|
                old(self).image_live(h2) ==> final(self).image_live(h2) && final(self).image_entry(
                    h2,
                ) == old(self).image_entry(h2),
            forall|h2: Handle<Swapchain>|
                old(self).swapchain_live(h2) ==> final(self).swapchain_live(h2) && final(self).swapchain_entry(h2) == old(self).swapchain_entry(h2),
            !old(self).surface_live(desc.surface) ==> r == Err::<Handle<Swapchain>, RenderError>(
                RenderError::HandleNotFound,
            ) && final(self).log() == old(self).log() && final(self).registry() == old(self).registry(),
            match r {
                Ok(h) => {
                    &&& final(self).swapchain_live(h)
                    &&& final(self).swapchain_entry(h).width == desc.width
                    &&& final(self).swapchain_entry(h).height == desc.height
                    &&& final(self).swapchain_entry(h).format == desc.format
                    &&& 1 <= final(self).swapchain_back_buffers(h).len() <= 255
                    &&& forall|i: int|
                        0 <= i < final(self).swapchain_back_buffers(h).len() ==> final(self).image_live(final(self).swapchain_back_buffers(h)[i])
                    &&& final(self).log() == old(self).log().push(
                        DriverOp::CreateSwapchain(final(self).swapchain_raw(h)),
                    )
                    &&& forall|h2: Handle<Swapchain>|
                        old(self).swapchain_live(h2) ==> h2.index != h.index
                },
                Err(_) => true,
            },
    {
        let surface_raw: u64 = match self.resolve_surface(desc.surface) {
            Some(raw) => raw,
            None => {
                return Err(RenderError::HandleNotFound);
            },
        };
        if self.res.swapchains.free_count() == 0 {
            let cap: usize = self.res.swapchains.slot_count();
            if cap == 0 || cap >= u16::MAX as usize {
                return Err(RenderError::PoolExhausted);
            }
        }
        let (raw, image_raws): (u64, Vec<u64>) = match self.driver.create_swapchain(
            surface_raw,
            desc.width,
            desc.height,
            desc.format,
            desc.vsync,
        ) {
            Ok(pair) => pair,
            Err(e) => {
                return Err(e);
            },
        };
        if image_raws.len() > 255 {
            return Err(RenderError::Driver(0));
        }
        let ghost driver_snap = self.driver;
        let mut back_buffers: Vec<Handle<Image>> = Vec::new();
        let n: usize = image_raws.len();
        let mut i: usize = 0;
        while i < n
            invariant
                self.wf(),
                self.res.swapchains == old(self).res.swapchains,
                self.res.fences == old(self).res.fences,
                self.res.semaphores == old(self).res.semaphores,
                self.res.surfaces == old(self).res.surfaces,
                self.res.queues == old(self).res.queues,
                self.res.image_views == old(self).res.image_views,
                self.res.render_passes == old(self).res.render_passes,
                self.res.framebuffers == old(self).res.framebuffers,
                self.res.command_pools == old(self).res.command_pools,
                self.res.command_buffers == old(self).res.command_buffers,
                self.render_pass_cache == old(self).render_pass_cache,
                self.framebuffer_cache == old(self).framebuffer_cache,
                self.graphics_queue == old(self).graphics_queue,
                self.driver == driver_snap,
                driver_snap.log() == old(self).log().push(DriverOp::CreateSwapchain(raw)),
                driver_snap.inv(),
                driver_snap.created() == old(self).created(),
                old(self).surface_live(desc.surface),
                n == image_raws@.len(),
                i <= n,
                back_buffers@.len() == i as int,
                crate::registry::stale_preserved(&old(self).res.images, &self.res.images),
                old(self).res.images.capacity() <= self.res.images.capacity(),
                forall|j: int|
                    0 <= j < i ==> self.image_live(back_buffers@[j]),
                forall|h2: Handle<Image>|
                    old(self).image_live(h2) ==> self.image_live(h2) && self.image_entry(h2)
                        == old(self).image_entry(h2),
            decreases n - i,
        {
            if self.res.images.free_count() == 0 {
                let cap: usize = self.res.images.slot_count();
                if cap == 0 || cap >= u16::MAX as usize {
                    return Err(RenderError::PoolExhausted);
                }
            }
            let image_raw: u64 = image_raws[i];
            let ghost pre_pool = self.res.images;
            let (bh, entry) = self.res.images.malloc();
            *entry = ImageEntry {
                handle: Some(bh),
                raw: image_raw,
                format: desc.format,
                width: desc.width,
                height: desc.height,
                array_layers: 1,
            };
            proof {
                self.res.images.lemma_wf_facts();
                lemma_alloc_discipline(&pre_pool, &self.res.images, bh);
                assert forall|h2: Handle<Image>|
                    (h2.index as int) < old(self).res.images.capacity() && !old(self).res.images.spec_is_match(h2) implies !self.res.images.spec_is_match(h2) by {
                    assert(!pre_pool.spec_is_match(h2));
                }
            }
            back_buffers.push(bh);
            i = i + 1;
        }
        let ghost pre_pool = self.res.swapchains;
        let (h, entry) = self.res.swapchains.malloc();
        *entry = SwapchainEntry {
            handle: Some(h),
            raw,
            width: desc.width,
            height: desc.height,
            format: desc.format,
            back_buffers,
        };
        proof {
            self.res.swapchains.lemma_wf_facts();
            lemma_alloc_discipline(&pre_pool, &self.res.swapchains, h);
        }
        Ok(h)
    }

    /// The image handle of back buffer `index` of a live swapchain.
    pub fn get_swapchain_back_buffer(&self, handle: Handle<Swapchain>, index: usize) -> (r: Result<
        Handle<Image>,
        RenderError,
    >)
        requires
            self.wf(),
        ensures
            !self.swapchain_live(handle) ==> r == Err::<Handle<Image>, RenderError>(
                RenderError::HandleNotFound,
            ),
            self.swapchain_live(handle) && (index as int) < self.swapchain_back_buffers(
                handle,
            ).len() ==> r == Ok::<Handle<Image>, RenderError>(
                self.swapchain_back_buffers(handle)[index as int],
            ),
            self.swapchain_live(handle) && (index as int) >= self.swapchain_back_buffers(
                handle,
            ).len() ==> r == Err::<Handle<Image>, RenderError>(RenderError::ImageIndexOutOfRange),
    {
        let found: Option<Handle<Image>> = match self.res.swapchains.get(handle) {
            Some(entry) => if entry.get_handle().is_some() {
                if index < entry.back_buffers.len() {
                    Some(entry.back_buffers[index])
                } else {
                    proof {
                        lemma_live_from_slot(&self.res.swapchains, handle);
                    }
                    return Err(RenderError::ImageIndexOutOfRange);
                }
            } else {
                None
            },
            None => None,
        };
        proof {
            self.res.swapchains.lemma_wf_facts();
            if (handle.index as int) < self.res.swapchains.capacity() {
                assert(self.res.swapchains.item_at(handle.index as int) == self.res.swapchains.item_at(
                    handle.index as int,
                ));
            }
        }
        match found {
            Some(h) => Ok(h),
            None => Err(RenderError::HandleNotFound),
        }
    }

    /// The number of back buffers of a live swapchain.
    pub fn get_swapchain_image_count(&self, handle: Handle<Swapchain>) -> (r: Result<
        u8,
        RenderError,
    >)
        requires
            self.wf(),
        ensures
            !self.swapchain_live(handle) ==> r == Err::<u8, RenderError>(
                RenderError::HandleNotFound,
            ),
            self.swapchain_live(handle) ==> r == Ok::<u8, RenderError>(
                self.swapchain_back_buffers(handle).len() as u8,
            ) && 1 <= self.swapchain_back_buffers(handle).len() <= 255,
    {
        let found: Option<u8> = match self.res.swapchains.get(handle) {
            Some(entry) => if entry.get_handle().is_some() {
                proof {
                    lemma_live_from_slot(&self.res.swapchains, handle);
                }
                Some(entry.back_buffers.len() as u8)
            } else {
                None
            },
            None => None,
        };
        proof {
            self.res.swapchains.lemma_wf_facts();
            if (handle.index as int) < self.res.swapchains.capacity() {
                assert(self.res.swapchains.item_at(handle.index as int) == self.res.swapchains.item_at(
                    handle.index as int,
                ));
            }
        }
        match found {
            Some(c) => Ok(c),
            None => Err(RenderError::HandleNotFound),
        }
    }

    /// Whether an acquisition's handles are all live.
    pub open spec fn acquire_resolvable(
        &self,
        handle: Handle<Swapchain>,
        semaphore: Handle<crate::define::Semaphore>,
        fence: Option<Handle<Fence>>,
    ) -> bool {
        &&& self.swapchain_live(handle)
        &&& self.semaphore_live(semaphore)
        &&& match fence {
            Some(f) => self.fence_live(f),
            None => true,
        }
    }

    /// Requests the next presentable image of a live swapchain, passing the
    /// given semaphore (and fence) to be signaled by the driver.  Returns
    /// the acquired image index and a suboptimal flag; an index of
    /// `usize::MAX` means the swapchain is out of date and must be
    /// recreated before further use.
    pub fn acquire_swapchain_next_image(
        &mut self,
        handle: Handle<Swapchain>,
        timeout_ns: u64,
        semaphore: Handle<crate::define::Semaphore>,
        fence: Option<Handle<Fence>>,
    ) -> (r: Result<(usize, bool), RenderError>)
        requires
            old(self).wf(),
        ensures
            final(self).wf(),
            final(self).registry() == old(self).registry(),
            final(self).rp_cache() == old(self).rp_cache(),
            final(self).fb_cache() == old(self).fb_cache(),
            final(self).spec_graphics_queue() == old(self).spec_graphics_queue(),
            !old(self).acquire_resolvable(handle, semaphore, fence) ==> r == Err::<
                (usize, bool),
                RenderError,
            >(RenderError::HandleNotFound) && final(self).log() == old(self).log(),
            old(self).acquire_resolvable(handle, semaphore, fence) ==> {
                &&& final(self).log().len() == old(self).log().len() + 1
                &&& forall|k: int|
                    0 <= k < old(self).log().len() ==> old(self).log()[k] == final(self).log()[k]
                &&& match final(self).log()[old(self).log().len() as int] {
                    DriverOp::AcquireImage { swapchain: sr, semaphore: mr, outcome } => {
                        &&& sr == old(self).swapchain_raw(handle)
                        &&& mr == old(self).semaphore_raw(semaphore)
                        &&& match outcome {
                            Some(AcquireOutcome::OutOfDate) => r == Ok::<
                                (usize, bool),
                                RenderError,
                            >((usize::MAX, false)),
                            Some(AcquireOutcome::Index(i, sub)) => if (i as int) < old(self).swapchain_back_buffers(handle).len() {
                                r == Ok::<(usize, bool), RenderError>((i as usize, sub))
                            } else {
                                r == Err::<(usize, bool), RenderError>(
                                    RenderError::ImageIndexOutOfRange,
                                )
                            },
                            None => r is Err,
                        }
                        &&& match r {
                            Ok(pair) => pair.0 == usize::MAX <==> outcome == Some(
                                AcquireOutcome::OutOfDate,
                            ),
                            Err(_) => true,
                        }
                    },
                    _ => false,
                }
                &&& match r {
                    Ok(pair) => pair.0 == usize::MAX || (pair.0 as int) < old(self).swapchain_back_buffers(handle).len(),
                    Err(_) => true,
                }
            },
    {
        let swapchain_raw: u64 = match self.resolve_swapchain(handle) {
            Some(raw) => raw,
            None => {
                return Err(RenderError::HandleNotFound);
            },
        };
        let image_count: usize = match self.get_swapchain_image_count(handle) {
            Ok(c) => c as usize,
            Err(e) => {
                return Err(e);
            },
        };
        let semaphore_raw: u64 = match self.resolve_semaphore(semaphore) {
            Some(raw) => raw,
            None => {
                return Err(RenderError::HandleNotFound);
            },
        };
        let fence_raw: Option<u64> = match fence {
            Some(f) => {
                match self.resolve_fence(f) {
                    Some(raw) => Some(raw),
                    None => {
                        return Err(RenderError::HandleNotFound);
                    },
                }
            },
            None => None,
        };
        let outcome = match self.driver.acquire_next_image(
            swapchain_raw,
            timeout_ns,
            semaphore_raw,
            fence_raw,
        ) {
            Ok(outcome) => outcome,
            Err(e) => {
                return Err(e);
            },
        };
        match outcome {
            AcquireOutcome::OutOfDate => Ok((usize::MAX, false)),
            AcquireOutcome::Index(index, suboptimal) => {
                if (index as usize) < image_count {
                    Ok((index as usize, suboptimal))
                } else {
                    Err(RenderError::ImageIndexOutOfRange)
                }
            },
        }
    }

    /// Whether a present request's handles are all live.
    pub open spec fn present_resolvable(&self, queue: Handle<Queue>, desc: &QueuePresentDesc)
        -> bool {
        &&& self.queue_live(queue)
        &&& self.swapchain_live(desc.swapchain)
        &&& forall|i: int|
            0 <= i < desc.wait_semaphores@.len() ==> self.semaphore_live(desc.wait_semaphores@[i])
    }

    /// Submits a present request for the described image, waiting on the
    /// described semaphores.  Returns whether the driver reports the
    /// surface as suboptimal.
    pub fn queue_present(&mut self, queue: Handle<Queue>, desc: &QueuePresentDesc) -> (r: Result<
        bool,
        RenderError,
    >)
        requires
            old(self).wf(),
        ensures
            final(self).wf(),
            final(self).registry() == old(self).registry(),
            final(self).rp_cache() == old(self).rp_cache(),
            final(self).fb_cache() == old(self).fb_cache(),
            final(self).spec_graphics_queue() == old(self).spec_graphics_queue(),
            !old(self).present_resolvable(queue, desc) ==> r == Err::<bool, RenderError>(
                RenderError::HandleNotFound,
            ) && final(self).log() == old(self).log(),
            old(self).present_resolvable(queue, desc) ==> final(self).log() == old(self).log().push(
                DriverOp::Present {
                    queue: old(self).queue_raw(queue),
                    swapchain: old(self).swapchain_raw(desc.swapchain),
                    image_index: desc.image_index,
                    wait_semaphores: desc.wait_semaphores@.map_values(
                        |h: Handle<crate::define::Semaphore>| old(self).semaphore_raw(h),
                    ),
                    suboptimal: match r {
                        Ok(suboptimal) => Some(suboptimal),
                        Err(_) => None,
                    },
                },
            ),
            old(self).present_resolvable(queue, desc) && desc.wait_semaphores@.len() == 1 ==> final(self).log() == old(self).log().push(
                DriverOp::Present {
                    queue: old(self).queue_raw(queue),
                    swapchain: old(self).swapchain_raw(desc.swapchain),
                    image_index: desc.image_index,
                    wait_semaphores: seq![old(self).semaphore_raw(desc.wait_semaphores@[0])],
                    suboptimal: match r {
                        Ok(suboptimal) => Some(suboptimal),
                        Err(_) => None,
                    },
                },
            ),
    {
        let queue_raw: u64 = match self.resolve_queue(queue) {
            Some(raw) => raw,
            None => {
                return Err(RenderError::HandleNotFound);
            },
        };
        let swapchain_raw: u64 = match self.resolve_swapchain(desc.swapchain) {
            Some(raw) => raw,
            None => {
                return Err(RenderError::HandleNotFound);
            },
        };
        let mut sem_raws: Vec<u64> = Vec::new();
        let n: usize = desc.wait_semaphores.len();
        let mut i: usize = 0;
        while i < n
            invariant
                self == old(self),
                self.wf(),
                n == desc.wait_semaphores@.len(),
                i <= n,
                sem_raws@.len() == i as int,
                forall|j: int| 0 <= j < i ==> self.semaphore_live(desc.wait_semaphores@[j]),
                forall|j: int|
                    0 <= j < i ==> sem_raws@[j] == self.semaphore_raw(desc.wait_semaphores@[j]),
                self.queue_live(queue),
                self.swapchain_live(desc.swapchain),
            decreases n - i,
        {
            match self.resolve_semaphore(desc.wait_semaphores[i]) {
                Some(raw) => {
                    sem_raws.push(raw);
                },
                None => {
                    return Err(RenderError::HandleNotFound);
                },
            }
            i = i + 1;
        }
        proof {
            assert(sem_raws@ =~= desc.wait_semaphores@.map_values(
                |h: Handle<crate::define::Semaphore>| self.semaphore_raw(h),
            ));
            assert(forall|k: int|
                0 <= k < desc.wait_semaphores@.len() ==> old(self).semaphore_live(
                    desc.wait_semaphores@[k],
                ));
            if desc.wait_semaphores@.len() == 1 {
                assert(sem_raws@ =~= seq![self.semaphore_raw(desc.wait_semaphores@[0])]);
            }
        }
        self.driver.present(queue_raw, swapchain_raw, desc.image_index, &sem_raws)
    }

    /// Destroys a live swapchain: frees the back-buffer image entries,
    /// issues the driver-side destruction, and frees the swapchain's slot.
    pub fn destroy_swapchain(&mut self, handle: Handle<Swapchain>) -> (r: Result<(), RenderError>)
        requires
            old(self).wf(),
        ensures
            final(self).wf(),
            final(self).rp_cache() == old(self).rp_cache(),
            final(self).fb_cache() == old(self).fb_cache(),
            final(self).spec_graphics_queue() == old(self).spec_graphics_queue(),
            forall|h2: Handle<Image>|
                !old(self).image_live(h2) ==> !final(self).image_live(h2),
            final(self).registry().images.capacity() == old(self).registry().images.capacity(),
            final(self).registry().swapchains.capacity() == old(self).registry().swapchains.capacity(),
            !final(self).swapchain_live(handle),
            forall|h2: Handle<Swapchain>|
                !old(self).swapchain_live(h2) ==> !final(self).swapchain_live(h2),
            !old(self).swapchain_live(handle) ==> r == Err::<(), RenderError>(
                RenderError::HandleNotFound,
            ) && final(self).log() == old(self).log() && final(self).registry() == old(self).registry(),
            old(self).swapchain_live(handle) ==> {
                &&& forall|i: int|
                    0 <= i < old(self).swapchain_back_buffers(handle).len() ==> !final(self).image_live(
                        old(self).swapchain_back_buffers(handle)[i],
                    )
                &&& !final(self).registry().swapchains.spec_is_match(handle)
                &&& forall|h2: Handle<Swapchain>|
                    h2.index != handle.index ==> final(self).registry().swapchains.spec_is_match(h2)
                        == old(self).registry().swapchains.spec_is_match(h2)
                &&& final(self).log() == old(self).log().push(
                    DriverOp::DestroySwapchain(old(self).swapchain_raw(handle)),
                )
                &&& !final(self).swapchain_live(handle)
                &&& forall|h2: Handle<Swapchain>|
                    old(self).swapchain_live(h2) && h2.index != handle.index ==> final(self).swapchain_live(h2) && final(self).swapchain_entry(h2) == old(self).swapchain_entry(h2)
                &&& forall|h2: Handle<Image>|
                    old(self).image_live(h2) && (forall|i: int|
                        0 <= i < old(self).swapchain_back_buffers(handle).len() ==> h2.index
                            != old(self).swapchain_back_buffers(handle)[i].index) ==> final(self).image_live(h2) && final(self).image_entry(h2) == old(self).image_entry(h2)
                &&& final(self).registry() == (ResourceRegistry {
                    images: final(self).registry().images,
                    swapchains: final(self).registry().swapchains,
                    ..old(self).registry()
                })
            },
    {
        let (raw, back_buffers): (u64, Vec<Handle<Image>>) = match self.res.swapchains.get(
            handle,
        ) {
            Some(entry) => {
                if entry.get_handle().is_some() {
                    let mut bbs: Vec<Handle<Image>> = Vec::new();
                    let count: usize = entry.back_buffers.len();
                    let mut i: usize = 0;
                    while i < count
                        invariant
                            i <= count,
                            count == entry.back_buffers@.len(),
                            bbs@ == entry.back_buffers@.subrange(0, i as int),
                        decreases count - i,
                    {
                        bbs.push(entry.back_buffers[i]);
                        i = i + 1;
                    }
                    proof {
                        assert(bbs@ =~= entry.back_buffers@);
                        lemma_live_from_slot(&self.res.swapchains, handle);
                    }
                    (entry.raw, bbs)
                } else {
                    proof {
                        self.res.swapchains.lemma_wf_facts();
                        if (handle.index as int) < self.res.swapchains.capacity() {
                            assert(self.res.swapchains.item_at(handle.index as int)
                                == self.res.swapchains.item_at(handle.index as int));
                        }
                    }
                    return Err(RenderError::HandleNotFound);
                }
            },
            None => {
                proof {
                    self.res.swapchains.lemma_wf_facts();
                }
                return Err(RenderError::HandleNotFound);
            },
        };
        let n: usize = back_buffers.len();
        let mut i: usize = 0;
        while i < n
            invariant
                self.wf(),
                self.res.swapchains == old(self).res.swapchains,
                self.res.fences == old(self).res.fences,
                self.res.semaphores == old(self).res.semaphores,
                self.res.surfaces == old(self).res.surfaces,
                self.res.queues == old(self).res.queues,
                self.res.image_views == old(self).res.image_views,
                self.res.render_passes == old(self).res.render_passes,
                self.res.framebuffers == old(self).res.framebuffers,
                self.res.command_pools == old(self).res.command_pools,
                self.res.command_buffers == old(self).res.command_buffers,
                self.render_pass_cache == old(self).render_pass_cache,
                self.framebuffer_cache == old(self).framebuffer_cache,
                self.graphics_queue == old(self).graphics_queue,
                self.driver == old(self).driver,
                old(self).swapchain_live(handle),
                raw == old(self).swapchain_raw(handle),
                back_buffers@ == old(self).swapchain_back_buffers(handle),
                n == back_buffers@.len(),
                i <= n,
                forall|h2: Handle<Image>|
                    old(self).image_live(h2) && (forall|k: int|
                        0 <= k < back_buffers@.len() ==> h2.index != back_buffers@[k].index)
                        ==> self.image_live(h2) && self.image_entry(h2) == old(self).image_entry(
                        h2,
                    ),
                forall|h2: Handle<Image>| !old(self).image_live(h2) ==> !self.image_live(h2),
                forall|j: int| 0 <= j < i ==> !self.image_live(back_buffers@[j]),
                self.res.images.capacity() == old(self).res.images.capacity(),
            decreases n - i,
        {
            let bb: Handle<Image> = back_buffers[i];
            let is_live: bool = match self.res.images.get(bb) {
                Some(entry) => entry.get_handle().is_some(),
                None => false,
            };
            proof {
                self.res.images.lemma_wf_facts();
                if (bb.index as int) < self.res.images.capacity() {
                    assert(self.res.images.item_at(bb.index as int) == self.res.images.item_at(
                        bb.index as int,
                    ));
                }
            }
            if is_live {
                let ghost pre_pool = self.res.images;
                self.res.images.free(bb);
                proof {
                    self.res.images.lemma_wf_facts();
                    lemma_free_discipline(&pre_pool, &self.res.images, bb);
                }
            }
            i = i + 1;
        }
        let result = self.driver.destroy_swapchain(raw);
        let ghost pre_pool = self.res.swapchains;
        self.res.swapchains.free(handle);
        proof {
            self.res.swapchains.lemma_wf_facts();
            lemma_free_discipline(&pre_pool, &self.res.swapchains, handle);
        }
        result
    }

    /// Creates (or re-uses) a render pass of the given shape.  The backend
    /// object is memoized structurally: when a pass of a structurally equal
    /// shape was created before, that same raw object backs the new handle,
    /// and nothing reaches the driver.
    pub fn create_render_pass(&mut self, output: &RenderPassOutput) -> (r: Result<
        Handle<crate::define::RenderPass>,
        RenderError,
    >)
        requires
            old(self).wf(),
        ensures
            final(self).wf(),
            crate::registry::pool_full(&old(self).registry().render_passes) ==> r == Err::<Handle<crate::define::RenderPass>, RenderError>(RenderError::PoolExhausted),
            old(self).rp_cache().has_key(output) && !crate::registry::pool_full(
                &old(self).registry().render_passes,
            ) ==> r is Ok,
            crate::registry::stale_preserved(
                &old(self).registry().render_passes,
                &final(self).registry().render_passes,
            ),
            final(self).fb_cache() == old(self).fb_cache(),
            final(self).spec_graphics_queue() == old(self).spec_graphics_queue(),
            sync_free_extension(old(self).log(), final(self).log()),
            match r {
                Ok(h) => {
                    &&& final(self).render_pass_live(h)
                    &&& forall|h2: Handle<crate::define::RenderPass>|
                        old(self).render_pass_live(h2) ==> final(self).render_pass_live(h2)
                            && final(self).render_pass_raw(h2) == old(self).render_pass_raw(h2)
                            && h2.index != h.index
                    &&& final(self).registry() == (ResourceRegistry {
                        render_passes: final(self).registry().render_passes,
                        ..old(self).registry()
                    })
                    &&& final(self).rp_cache().has_key(output)
                    &&& forall|i: int|
                        0 <= i < final(self).rp_cache().entries_seq().len() && final(self).rp_cache().entries_seq()[i].0.key_eq(output) ==> final(self).rp_cache().entries_seq()[i].1 == final(self).render_pass_raw(h)
                    &&& old(self).rp_cache().has_key(output) ==> {
                        &&& final(self).rp_cache() == old(self).rp_cache()
                        &&& final(self).log() == old(self).log()
                        &&& forall|i: int|
                            0 <= i < old(self).rp_cache().entries_seq().len() && old(self).rp_cache().entries_seq()[i].0.key_eq(output) ==> old(self).rp_cache().entries_seq()[i].1 == final(self).render_pass_raw(h)
                    }
                    &&& !old(self).rp_cache().has_key(output) ==> {
                        &&& final(self).log() == old(self).log().push(
                            DriverOp::CreateRenderPass(final(self).render_pass_raw(h)),
                        )
                        &&& !old(self).created().contains(final(self).render_pass_raw(h))
                        &&& final(self).rp_cache().entries_seq().len() == old(self).rp_cache().entries_seq().len() + 1
                    }
                },
                Err(_) => {
                    &&& final(self).log() == old(self).log()
                    &&& final(self).registry() == old(self).registry()
                    &&& final(self).rp_cache() == old(self).rp_cache()
                },
            },
    {
        if self.res.render_passes.free_count() == 0 {
            let cap: usize = self.res.render_passes.slot_count();
            if cap == 0 || cap >= u16::MAX as usize {
                return Err(RenderError::PoolExhausted);
            }
        }
        let ghost mut widx: int = 0;
        let raw: u64 = match self.render_pass_cache.lookup(output) {
            Some(found_raw) => {
                proof {
                    let es = self.render_pass_cache.entries_seq();
                    widx = choose|i: int|
                        0 <= i < es.len() && es[i].0.key_eq(output) && es[i].1 == found_raw;
                    assert forall|i: int|
                        0 <= i < es.len() && es[i].0.key_eq(output) implies es[i].1
                        == found_raw by {
                        if i != widx {
                            es[i].0.key_eq_symmetric(output);
                            es[widx].0.key_eq_transitive(output, &es[i].0);
                            es[widx].0.key_eq_symmetric(&es[i].0);
                            assert(false);
                        }
                    }
                }
                found_raw
            },
            None => {
                let created_raw: u64 = match self.driver.create_render_pass(output) {
                    Ok(created_raw) => created_raw,
                    Err(e) => {
                        return Err(e);
                    },
                };
                let key = output.clone_key();
                proof {
                    assert forall|i: int|
                        0 <= i < self.render_pass_cache.entries_seq().len()
                            implies !self.render_pass_cache.entries_seq()[i].0.key_eq(&key) by {
                        if self.render_pass_cache.entries_seq()[i].0.key_eq(&key) {
                            self.render_pass_cache.entries_seq()[i].0.key_eq_transitive(
                                &key,
                                output,
                            );
                        }
                    }
                }
                self.render_pass_cache.insert(key, created_raw);
                proof {
                    widx = self.render_pass_cache.entries_seq().len() - 1;
                }
                created_raw
            },
        };
        proof {
            assert(0 <= widx < self.render_pass_cache.entries_seq().len()
                && self.render_pass_cache.entries_seq()[widx].0.key_eq(output)
                && self.render_pass_cache.entries_seq()[widx].1 == raw);
        }
        let ghost pre_pool = self.res.render_passes;
        let (h, entry) = self.res.render_passes.malloc();
        *entry = RenderPassEntry { handle: Some(h), raw, output: output.clone() };
        proof {
            self.res.render_passes.lemma_wf_facts();
            lemma_alloc_discipline(&pre_pool, &self.res.render_passes, h);
            assert(self.render_pass_cache.entries_seq()[widx].0.key_eq(output)
                && self.render_pass_cache.entries_seq()[widx].1 == self.res.render_passes.item_at(
                h.index as int,
            ).raw);
            assert(exists|i: int|
                0 <= i < self.render_pass_cache.entries_seq().len()
                    && self.render_pass_cache.entries_seq()[i].0.key_eq(output)
                    && self.render_pass_cache.entries_seq()[i].1 == self.res.render_passes.item_at(
                    h.index as int,
                ).raw);
            assert(self.render_pass_cache.has_key(output));
            let ghost raw_of_h = self.res.render_passes.item_at(h.index as int).raw;
            assert forall|i: int|
                0 <= i < self.render_pass_cache.entries_seq().len()
                    && self.render_pass_cache.entries_seq()[i].0.key_eq(output)
                    implies self.render_pass_cache.entries_seq()[i].1 == raw_of_h by {
                let es = self.render_pass_cache.entries_seq();
                if i != widx {
                    es[i].0.key_eq_symmetric(output);
                    es[widx].0.key_eq_transitive(output, &es[i].0);
                    es[widx].0.key_eq_symmetric(&es[i].0);
                }
            }
        }
        Ok(h)
    }

    /// Frees the slot behind a live render pass handle.  The raw pass
    /// object itself stays alive in the structural cache: other handles and
    /// future structurally-equal lookups may still reach it, so only the
    /// identity is retired here.
    pub fn destroy_render_pass(&mut self, handle: Handle<crate::define::RenderPass>) -> (r: Result<
        (),
        RenderError,
    >)
        requires
            old(self).wf(),
        ensures
            final(self).wf(),
            final(self).rp_cache() == old(self).rp_cache(),
            final(self).fb_cache() == old(self).fb_cache(),
            final(self).spec_graphics_queue() == old(self).spec_graphics_queue(),
            final(self).log() == old(self).log(),
            final(self).registry().render_passes.capacity() == old(self).registry().render_passes.capacity(),
            !final(self).render_pass_live(handle),
            forall|h2: Handle<crate::define::RenderPass>|
                !old(self).render_pass_live(h2) ==> !final(self).render_pass_live(h2),
            !old(self).render_pass_live(handle) ==> r == Err::<(), RenderError>(
                RenderError::HandleNotFound,
            ) && final(self).registry() == old(self).registry(),
            old(self).render_pass_live(handle) ==> {
                &&& !final(self).registry().render_passes.spec_is_match(handle)
                &&& forall|h2: Handle<crate::define::RenderPass>|
                    h2.index != handle.index ==> final(self).registry().render_passes.spec_is_match(h2)
                        == old(self).registry().render_passes.spec_is_match(h2)
                &&& r == Ok::<(), RenderError>(())
                &&& !final(self).render_pass_live(handle)
                &&& forall|h2: Handle<crate::define::RenderPass>|
                    old(self).render_pass_live(h2) && h2.index != handle.index ==> final(self).render_pass_live(h2) && final(self).render_pass_raw(h2) == old(self).render_pass_raw(h2)
                &&& final(self).registry() == (ResourceRegistry {
                    render_passes: final(self).registry().render_passes,
                    ..old(self).registry()
                })
            },
    {
        match self.resolve_render_pass(handle) {
            Some(_) => {},
            None => {
                return Err(RenderError::HandleNotFound);
            },
        }
        let ghost pre_pool = self.res.render_passes;
        self.res.render_passes.free(handle);
        proof {
            self.res.render_passes.lemma_wf_facts();
            lemma_free_discipline(&pre_pool, &self.res.render_passes, handle);
        }
        Ok(())
    }

    /// Two cached render passes hold the same raw object exactly when they
    /// are the same entry; distinct entries also hold structurally distinct
    /// shapes.  Together with the contract of `create_render_pass` — which
    /// returns the cached raw object for its shape — this says the cache
    /// hands out the identical backend object for structurally equal
    /// shapes, and distinct objects for structurally differing ones.
    pub proof fn lemma_render_pass_dedup(&self, i: int, j: int)
        requires
            self.wf(),
            0 <= i < self.rp_cache().entries_seq().len(),
            0 <= j < self.rp_cache().entries_seq().len(),
        ensures
            (self.rp_cache().entries_seq()[i].1 == self.rp_cache().entries_seq()[j].1) <==> i == j,
            i != j ==> !self.rp_cache().entries_seq()[i].0.key_eq(
                &self.rp_cache().entries_seq()[j].0,
            ),
    {
        if i != j {
            if i < j {
            } else {
                self.rp_cache().entries_seq()[i].0.key_eq_symmetric(
                    &self.rp_cache().entries_seq()[j].0,
                );
            }
        }
    }

    /// The framebuffer twin of `lemma_render_pass_dedup`.
    pub proof fn lemma_framebuffer_dedup(&self, i: int, j: int)
        requires
            self.wf(),
            0 <= i < self.fb_cache().entries_seq().len(),
            0 <= j < self.fb_cache().entries_seq().len(),
        ensures
            (self.fb_cache().entries_seq()[i].1 == self.fb_cache().entries_seq()[j].1) <==> i == j,
            i != j ==> !self.fb_cache().entries_seq()[i].0.key_eq(
                &self.fb_cache().entries_seq()[j].0,
            ),
    {
        if i != j {
            if i < j {
            } else {
                self.fb_cache().entries_seq()[i].0.key_eq_symmetric(
                    &self.fb_cache().entries_seq()[j].0,
                );
            }
        }
    }

    /// Whether a framebuffer description names only live objects: its
    /// render pass, every color view, each color view's image, and the
    /// depth-stencil view if one is given.
    pub open spec fn fb_resolvable(&self, desc: &FramebufferCreateDesc) -> bool {
        &&& self.render_pass_live(desc.render_pass)
        &&& forall|i: int|
            0 <= i < desc.color_views@.len() ==> self.image_view_live(desc.color_views@[i])
                && self.image_view_entry(desc.color_views@[i]).image is Some
                && self.image_live(self.image_view_entry(desc.color_views@[i]).image->0)
        &&& match desc.depth_stencil_view {
            Some(v) => self.image_view_live(v),
            None => true,
        }
    }

    /// The raw attachment list a framebuffer description resolves to: the
    /// color views in order, then the depth-stencil view if one is given.
    pub open spec fn spec_fb_views(&self, desc: &FramebufferCreateDesc) -> Seq<u64> {
        let colors = desc.color_views@.map_values(|v: Handle<ImageView>| self.image_view_raw(v));
        match desc.depth_stencil_view {
            Some(d) => colors.push(self.image_view_raw(d)),
            None => colors,
        }
    }

    /// The width a framebuffer description resolves to: the last color
    /// view's image's, or 0 without color views.
    pub open spec fn spec_fb_width(&self, desc: &FramebufferCreateDesc) -> u32 {
        if desc.color_views@.len() > 0 {
            self.image_entry(self.image_view_entry(desc.color_views@.last()).image->0).width
        } else {
            0u32
        }
    }

    /// The height a framebuffer description resolves to.
    pub open spec fn spec_fb_height(&self, desc: &FramebufferCreateDesc) -> u32 {
        if desc.color_views@.len() > 0 {
            self.image_entry(self.image_view_entry(desc.color_views@.last()).image->0).height
        } else {
            0u32
        }
    }

    /// The layer count a framebuffer description resolves to: the last
    /// color view's image's, or 1 without color views.
    pub open spec fn spec_fb_layers(&self, desc: &FramebufferCreateDesc) -> u32 {
        if desc.color_views@.len() > 0 {
            self.image_entry(self.image_view_entry(desc.color_views@.last()).image->0).array_layers
        } else {
            1u32
        }
    }

    /// Whether a raw framebuffer shape is exactly what the description
    /// resolves to: the described render pass, the colors-then-depth view
    /// list, and the dimensions read from the last color view's image.
    pub open spec fn fb_key_matches(&self, k: &FramebufferDesc, desc: &FramebufferCreateDesc)
        -> bool {
        &&& k.render_pass == self.render_pass_raw(desc.render_pass)
        &&& k.views@ == self.spec_fb_views(desc)
        &&& k.width == self.spec_fb_width(desc)
        &&& k.height == self.spec_fb_height(desc)
        &&& k.layers == self.spec_fb_layers(desc)
    }

    /// Creates (or re-uses) a framebuffer binding the described views to
    /// the described render pass.  The backend object is memoized by its
    /// raw shape — render pass, attachment views and dimensions — so
    /// structurally equal descriptions share one raw framebuffer.  The
    /// dimensions are read from the color views' images, as is the layer
    /// count.
    pub fn create_framebuffer(&mut self, desc: &FramebufferCreateDesc) -> (r: Result<
        Handle<crate::define::Framebuffer>,
        RenderError,
    >)
        requires
            old(self).wf(),
        ensures
            final(self).wf(),
            old(self).fb_resolvable(desc) && crate::registry::pool_full(&old(self).registry().framebuffers) ==> r == Err::<Handle<crate::define::Framebuffer>, RenderError>(RenderError::PoolExhausted),
            old(self).fb_resolvable(desc) && !crate::registry::pool_full(
                &old(self).registry().framebuffers,
            ) && (exists|i: int|
                0 <= i < old(self).fb_cache().entries_seq().len() && old(self).fb_key_matches(
                    &old(self).fb_cache().entries_seq()[i].0,
                    desc,
                )) ==> r is Ok,
            crate::registry::stale_preserved(
                &old(self).registry().framebuffers,
                &final(self).registry().framebuffers,
            ),
            final(self).rp_cache() == old(self).rp_cache(),
            final(self).spec_graphics_queue() == old(self).spec_graphics_queue(),
            sync_free_extension(old(self).log(), final(self).log()),
            !old(self).fb_resolvable(desc) ==> r == Err::<
                Handle<crate::define::Framebuffer>,
                RenderError,
            >(RenderError::HandleNotFound) && final(self).log() == old(self).log() && final(self).registry() == old(self).registry() && final(self).fb_cache() == old(self).fb_cache(),
            match r {
                Ok(h) => {
                    &&& old(self).fb_resolvable(desc)
                    &&& final(self).framebuffer_live(h)
                    &&& old(self).fb_key_matches(
                        &final(self).registry().framebuffers.item_at(h.index as int).desc,
                        desc,
                    )
                    &&& forall|h2: Handle<crate::define::Framebuffer>|
                        old(self).framebuffer_live(h2) ==> final(self).framebuffer_live(h2)
                            && final(self).framebuffer_raw(h2) == old(self).framebuffer_raw(h2)
                            && h2.index != h.index
                    &&& final(self).registry() == (ResourceRegistry {
                        framebuffers: final(self).registry().framebuffers,
                        ..old(self).registry()
                    })
                    &&& forall|i: int|
                        0 <= i < final(self).fb_cache().entries_seq().len() && final(self).fb_cache().entries_seq()[i].0.key_eq(&final(self).registry().framebuffers.item_at(h.index as int).desc) ==> final(self).fb_cache().entries_seq()[i].1 == final(self).framebuffer_raw(h)
                    &&& (exists|i: int|
                        0 <= i < old(self).fb_cache().entries_seq().len() && old(self).fb_key_matches(&old(self).fb_cache().entries_seq()[i].0, desc)) ==> {
                        &&& final(self).fb_cache() == old(self).fb_cache()
                        &&& final(self).log() == old(self).log()
                        &&& forall|i: int|
                            0 <= i < old(self).fb_cache().entries_seq().len() && old(self).fb_key_matches(&old(self).fb_cache().entries_seq()[i].0, desc)
                                ==> old(self).fb_cache().entries_seq()[i].1 == final(self).framebuffer_raw(h)
                    }
                    &&& !(exists|i: int|
                        0 <= i < old(self).fb_cache().entries_seq().len() && old(self).fb_key_matches(&old(self).fb_cache().entries_seq()[i].0, desc)) ==> {
                        &&& final(self).fb_cache().entries_seq().len() == old(self).fb_cache().entries_seq().len() + 1
                        &&& forall|i: int|
                            0 <= i < old(self).fb_cache().entries_seq().len() ==> final(self).fb_cache().entries_seq()[i] == old(self).fb_cache().entries_seq()[i]
                        &&& old(self).fb_key_matches(
                            &final(self).fb_cache().entries_seq().last().0,
                            desc,
                        )
                        &&& final(self).fb_cache().entries_seq().last().1 == final(self).framebuffer_raw(h)
                        &&& final(self).log() == old(self).log().push(
                            DriverOp::CreateFramebuffer(final(self).framebuffer_raw(h)),
                        )
                        &&& !old(self).created().contains(final(self).framebuffer_raw(h))
                    }
                },
                Err(_) => {
                    &&& final(self).registry() == old(self).registry()
                    &&& final(self).fb_cache() == old(self).fb_cache() || final(self).fb_cache().entries_seq() == old(self).fb_cache().entries_seq()
                },
            },
    {
        let rp_raw: u64 = match self.resolve_render_pass(desc.render_pass) {
            Some(raw) => raw,
            None => {
                return Err(RenderError::HandleNotFound);
            },
        };
        let mut views: Vec<u64> = Vec::new();
        let mut width: u32 = 0;
        let mut height: u32 = 0;
        let mut layers: u32 = 1;
        let n: usize = desc.color_views.len();
        let mut i: usize = 0;
        while i < n
            invariant
                self == old(self),
                self.wf(),
                n == desc.color_views@.len(),
                i <= n,
                views@.len() == i as int,
                forall|j: int|
                    0 <= j < i ==> self.image_view_live(desc.color_views@[j])
                        && self.image_view_entry(desc.color_views@[j]).image is Some
                        && self.image_live(self.image_view_entry(desc.color_views@[j]).image->0),
                forall|j: int|
                    0 <= j < i ==> views@[j] == self.image_view_raw(desc.color_views@[j]),
                i == 0 ==> width == 0 && height == 0 && layers == 1,
                i > 0 ==> {
                    &&& width == self.image_entry(
                        self.image_view_entry(desc.color_views@[i - 1]).image->0,
                    ).width
                    &&& height == self.image_entry(
                        self.image_view_entry(desc.color_views@[i - 1]).image->0,
                    ).height
                    &&& layers == self.image_entry(
                        self.image_view_entry(desc.color_views@[i - 1]).image->0,
                    ).array_layers
                },
                self.render_pass_live(desc.render_pass),
                rp_raw == self.render_pass_raw(desc.render_pass),
            decreases n - i,
        {
            let view_handle = desc.color_views[i];
            let (view_raw, image_handle): (u64, Handle<Image>) = match self.res.image_views.get(
                view_handle,
            ) {
                Some(entry) => {
                    if entry.get_handle().is_some() {
                        match entry.image {
                            Some(image_handle) => (entry.raw, image_handle),
                            None => {
                                proof {
                                    lemma_live_from_slot(&self.res.image_views, view_handle);
                                }
                                return Err(RenderError::HandleNotFound);
                            },
                        }
                    } else {
                        proof {
                            self.res.image_views.lemma_wf_facts();
                            if (view_handle.index as int) < self.res.image_views.capacity() {
                                assert(self.res.image_views.item_at(view_handle.index as int)
                                    == self.res.image_views.item_at(view_handle.index as int));
                            }
                        }
                        return Err(RenderError::HandleNotFound);
                    }
                },
                None => {
                    proof {
                        self.res.image_views.lemma_wf_facts();
                    }
                    return Err(RenderError::HandleNotFound);
                },
            };
            proof {
                lemma_live_from_slot(&self.res.image_views, view_handle);
            }
            let (w, hgt, lay): (u32, u32, u32) = match self.res.images.get(image_handle) {
                Some(entry) => {
                    if entry.get_handle().is_some() {
                        proof {
                            lemma_live_from_slot(&self.res.images, image_handle);
                        }
                        (entry.width, entry.height, entry.array_layers)
                    } else {
                        proof {
                            self.res.images.lemma_wf_facts();
                            if (image_handle.index as int) < self.res.images.capacity() {
                                assert(self.res.images.item_at(image_handle.index as int)
                                    == self.res.images.item_at(image_handle.index as int));
                            }
                        }
                        return Err(RenderError::HandleNotFound);
                    }
                },
                None => {
                    proof {
                        self.res.images.lemma_wf_facts();
                    }
                    return Err(RenderError::HandleNotFound);
                },
            };
            views.push(view_raw);
            width = w;
            height = hgt;
            layers = lay;
            i = i + 1;
        }
        match desc.depth_stencil_view {
            Some(depth_view) => {
                match self.resolve_image_view(depth_view) {
                    Some(depth_raw) => {
                        views.push(depth_raw);
                    },
                    None => {
                        return Err(RenderError::HandleNotFound);
                    },
                }
            },
            None => {},
        }
        if self.res.framebuffers.free_count() == 0 {
            let cap: usize = self.res.framebuffers.slot_count();
            if cap == 0 || cap >= u16::MAX as usize {
                return Err(RenderError::PoolExhausted);
            }
        }
        let fb_desc = FramebufferDesc { render_pass: rp_raw, views, width, height, layers };
        proof {
            assert(fb_desc.views@ =~= self.spec_fb_views(desc));
            assert(self.fb_key_matches(&fb_desc, desc));
            assert(self.fb_resolvable(desc));
            assert forall|i: int|
                0 <= i < self.framebuffer_cache.entries_seq().len() implies (
            self.framebuffer_cache.entries_seq()[i].0.key_eq(&fb_desc) <==> self.fb_key_matches(
                &self.framebuffer_cache.entries_seq()[i].0,
                desc,
            )) by {}
        }
        let ghost mut widx: int = 0;
        let raw: u64 = match self.framebuffer_cache.lookup(&fb_desc) {
            Some(found_raw) => {
                proof {
                    let es = self.framebuffer_cache.entries_seq();
                    widx = choose|i: int|
                        0 <= i < es.len() && es[i].0.key_eq(&fb_desc) && es[i].1 == found_raw;
                    assert forall|i: int|
                        0 <= i < es.len() && es[i].0.key_eq(&fb_desc) implies es[i].1
                        == found_raw by {
                        if i != widx {
                            es[i].0.key_eq_symmetric(&fb_desc);
                            es[widx].0.key_eq_transitive(&fb_desc, &es[i].0);
                            es[widx].0.key_eq_symmetric(&es[i].0);
                        }
                    }
                }
                found_raw
            },
            None => {
                let created_raw: u64 = match self.driver.create_framebuffer(&fb_desc) {
                    Ok(created_raw) => created_raw,
                    Err(e) => {
                        return Err(e);
                    },
                };
                let key = fb_desc.clone_key();
                proof {
                    assert forall|i: int|
                        0 <= i < self.framebuffer_cache.entries_seq().len()
                            implies !self.framebuffer_cache.entries_seq()[i].0.key_eq(&key) by {
                        if self.framebuffer_cache.entries_seq()[i].0.key_eq(&key) {
                            self.framebuffer_cache.entries_seq()[i].0.key_eq_transitive(
                                &key,
                                &fb_desc,
                            );
                        }
                    }
                }
                self.framebuffer_cache.insert(key, created_raw);
                proof {
                    widx = self.framebuffer_cache.entries_seq().len() - 1;
                }
                created_raw
            },
        };
        let ghost pre_pool = self.res.framebuffers;
        let (h, entry) = self.res.framebuffers.malloc();
        *entry = FramebufferEntry { handle: Some(h), raw, desc: fb_desc };
        proof {
            self.res.framebuffers.lemma_wf_facts();
            lemma_alloc_discipline(&pre_pool, &self.res.framebuffers, h);
            let stored = self.res.framebuffers.item_at(h.index as int).desc;
            let raw_of_h = self.res.framebuffers.item_at(h.index as int).raw;
            assert forall|i: int|
                0 <= i < self.framebuffer_cache.entries_seq().len()
                    && self.framebuffer_cache.entries_seq()[i].0.key_eq(&stored)
                    implies self.framebuffer_cache.entries_seq()[i].1 == raw_of_h by {
                let es = self.framebuffer_cache.entries_seq();
                if i != widx {
                    es[i].0.key_eq_symmetric(&stored);
                    es[widx].0.key_eq_transitive(&stored, &es[i].0);
                    es[widx].0.key_eq_symmetric(&es[i].0);
                }
            }
        }
        Ok(h)
    }

    /// Frees the slot behind a live framebuffer handle.  As with render
    /// passes, the raw object survives in the structural cache.
    pub fn destroy_framebuffer(&mut self, handle: Handle<crate::define::Framebuffer>) -> (r:
        Result<(), RenderError>)
        requires
            old(self).wf(),
        ensures
            final(self).wf(),
            final(self).rp_cache() == old(self).rp_cache(),
            final(self).fb_cache() == old(self).fb_cache(),
            final(self).spec_graphics_queue() == old(self).spec_graphics_queue(),
            final(self).log() == old(self).log(),
            final(self).registry().framebuffers.capacity() == old(self).registry().framebuffers.capacity(),
            !final(self).framebuffer_live(handle),
            forall|h2: Handle<crate::define::Framebuffer>|
                !old(self).framebuffer_live(h2) ==> !final(self).framebuffer_live(h2),
            !old(self).framebuffer_live(handle) ==> r == Err::<(), RenderError>(
                RenderError::HandleNotFound,
            ) && final(self).registry() == old(self).registry(),
            old(self).framebuffer_live(handle) ==> {
                &&& !final(self).registry().framebuffers.spec_is_match(handle)
                &&& forall|h2: Handle<crate::define::Framebuffer>|
                    h2.index != handle.index ==> final(self).registry().framebuffers.spec_is_match(h2)
                        == old(self).registry().framebuffers.spec_is_match(h2)
                &&& r == Ok::<(), RenderError>(())
                &&& !final(self).framebuffer_live(handle)
                &&& forall|h2: Handle<crate::define::Framebuffer>|
                    old(self).framebuffer_live(h2) && h2.index != handle.index ==> final(self).framebuffer_live(h2) && final(self).framebuffer_raw(h2) == old(self).framebuffer_raw(h2)
                &&& final(self).registry() == (ResourceRegistry {
                    framebuffers: final(self).registry().framebuffers,
                    ..old(self).registry()
                })
            },
    {
        match self.resolve_framebuffer(handle) {
            Some(_) => {},
            None => {
                return Err(RenderError::HandleNotFound);
            },
        }
        let ghost pre_pool = self.res.framebuffers;
        self.res.framebuffers.free(handle);
        proof {
            self.res.framebuffers.lemma_wf_facts();
            lemma_free_discipline(&pre_pool, &self.res.framebuffers, handle);
        }
        Ok(())
    }

    /// The first format among `candidates` that the device supports with
    /// `feature` under `tiling`; candidates are ordered by priority, and
    /// failure means the device supports none of them.
    pub fn get_supported_format_from_candidates(
        &self,
        candidates: &Vec<Format>,
        tiling: ImageTiling,
        feature: FormatFeatureFlags,
    ) -> (r: Result<Format, RenderError>)
        requires
            self.wf(),
        ensures
            match r {
                Ok(f) => {
                    &&& candidates@.contains(f)
                    &&& self.spec_driver().spec_format_supported(f, tiling, feature)
                    &&& exists|i: int|
                        0 <= i < candidates@.len() && candidates@[i] == f && (forall|j: int|
                            0 <= j < i ==> !self.spec_driver().spec_format_supported(
                                #[trigger] candidates@[j],
                                tiling,
                                feature,
                            ))
                },
                Err(e) => e == RenderError::NoSupportedFormat && forall|i: int|
                    0 <= i < candidates@.len() ==> !self.spec_driver().spec_format_supported(
                        #[trigger] candidates@[i],
                        tiling,
                        feature,
                    ),
            },
    {
        let n: usize = candidates.len();
        let mut i: usize = 0;
        while i < n
            invariant
                self.wf(),
                n == candidates@.len(),
                i <= n,
                forall|j: int|
                    0 <= j < i ==> !self.spec_driver().spec_format_supported(
                        #[trigger] candidates@[j],
                        tiling,
                        feature,
                    ),
            decreases n - i,
        {
            let f = candidates[i];
            if self.driver.format_supported(f, tiling, feature) {
                proof {
                    let witness: int = i as int;
                    assert(0 <= witness < candidates@.len() && candidates@[witness] == f && (
                    forall|j: int|
                        0 <= j < witness ==> !self.spec_driver().spec_format_supported(
                            #[trigger] candidates@[j],
                            tiling,
                            feature,
                        )));
                }
                return Ok(f);
            }
            i = i + 1;
        }
        Err(RenderError::NoSupportedFormat)
    }
}

} // verus!
