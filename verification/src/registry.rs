//! The resource registry: one handle pool per resource kind, owned
//! exclusively by the backend.  Each pooled entry pairs the handle under
//! which it was allocated with the raw driver identity of the object (and,
//! where the backend's own logic reads them, the plain values that describe
//! the object).

use crate::define::{
    Fence, Framebuffer, Image, ImageView, CommandBuffer, CommandPool, Queue, RenderPass,
    RenderPassOutput, Surface, Swapchain,
};
use crate::driver::FramebufferDesc;
use crate::enums::{Format, QueueType};
use crate::pool::{Handle, Handled, Pool};
use vstd::prelude::*;

verus! {

/// A pooled fence.
pub struct FenceEntry {
    pub handle: Option<Handle<Fence>>,
    pub raw: u64,
}

impl Handled for FenceEntry {
    type HandleType = Fence;

    open spec fn stored_handle(&self) -> Option<Handle<Fence>> {
        self.handle
    }

    open spec fn spec_with_handle(self, handle: Option<Handle<Fence>>) -> Self {
        FenceEntry { handle, ..self }
    }

    open spec fn spec_is_unoccupied(&self) -> bool {
        self.raw == 0
    }

    proof fn law_with_handle(self, handle: Option<Handle<Fence>>) {
    }

    fn get_handle(&self) -> (r: Option<Handle<Fence>>) {
        self.handle
    }

    fn set_handle(&mut self, handle: Option<Handle<Fence>>) {
        self.handle = handle;
    }

    fn unoccupied() -> (r: Self) {
        FenceEntry { handle: None, raw: 0 }
    }
}

/// A pooled semaphore.
pub struct SemaphoreEntry {
    pub handle: Option<Handle<crate::define::Semaphore>>,
    pub raw: u64,
}

impl Handled for SemaphoreEntry {
    type HandleType = crate::define::Semaphore;

    open spec fn stored_handle(&self) -> Option<Handle<crate::define::Semaphore>> {
        self.handle
    }

    open spec fn spec_with_handle(self, handle: Option<Handle<crate::define::Semaphore>>) -> Self {
        SemaphoreEntry { handle, ..self }
    }

    open spec fn spec_is_unoccupied(&self) -> bool {
        self.raw == 0
    }

    proof fn law_with_handle(self, handle: Option<Handle<crate::define::Semaphore>>) {
    }

    fn get_handle(&self) -> (r: Option<Handle<crate::define::Semaphore>>) {
        self.handle
    }

    fn set_handle(&mut self, handle: Option<Handle<crate::define::Semaphore>>) {
        self.handle = handle;
    }

    fn unoccupied() -> (r: Self) {
        SemaphoreEntry { handle: None, raw: 0 }
    }
}

/// A pooled surface.
pub struct SurfaceEntry {
    pub handle: Option<Handle<Surface>>,
    pub raw: u64,
}

impl Handled for SurfaceEntry {
    type HandleType = Surface;

    open spec fn stored_handle(&self) -> Option<Handle<Surface>> {
        self.handle
    }

    open spec fn spec_with_handle(self, handle: Option<Handle<Surface>>) -> Self {
        SurfaceEntry { handle, ..self }
    }

    open spec fn spec_is_unoccupied(&self) -> bool {
        self.raw == 0
    }

    proof fn law_with_handle(self, handle: Option<Handle<Surface>>) {
    }

    fn get_handle(&self) -> (r: Option<Handle<Surface>>) {
        self.handle
    }

    fn set_handle(&mut self, handle: Option<Handle<Surface>>) {
        self.handle = handle;
    }

    fn unoccupied() -> (r: Self) {
        SurfaceEntry { handle: None, raw: 0 }
    }
}

/// A pooled device queue.
pub struct QueueEntry {
    pub handle: Option<Handle<Queue>>,
    pub raw: u64,
    pub queue_type: QueueType,
}

impl Handled for QueueEntry {
    type HandleType = Queue;

    open spec fn stored_handle(&self) -> Option<Handle<Queue>> {
        self.handle
    }

    open spec fn spec_with_handle(self, handle: Option<Handle<Queue>>) -> Self {
        QueueEntry { handle, ..self }
    }

    open spec fn spec_is_unoccupied(&self) -> bool {
        self.raw == 0 && self.queue_type == QueueType::Graphics
    }

    proof fn law_with_handle(self, handle: Option<Handle<Queue>>) {
    }

    fn get_handle(&self) -> (r: Option<Handle<Queue>>) {
        self.handle
    }

    fn set_handle(&mut self, handle: Option<Handle<Queue>>) {
        self.handle = handle;
    }

    fn unoccupied() -> (r: Self) {
        QueueEntry { handle: None, raw: 0, queue_type: QueueType::Graphics }
    }
}

/// A pooled image, with the plain values the backend's logic reads.
pub struct ImageEntry {
    pub handle: Option<Handle<Image>>,
    pub raw: u64,
    pub format: Format,
    pub width: u32,
    pub height: u32,
    pub array_layers: u32,
}

impl Handled for ImageEntry {
    type HandleType = Image;

    open spec fn stored_handle(&self) -> Option<Handle<Image>> {
        self.handle
    }

    open spec fn spec_with_handle(self, handle: Option<Handle<Image>>) -> Self {
        ImageEntry { handle, ..self }
    }

    open spec fn spec_is_unoccupied(&self) -> bool {
        self.raw == 0 && self.format == Format::Unknown && self.width == 0 && self.height == 0 && self.array_layers == 1
    }

    proof fn law_with_handle(self, handle: Option<Handle<Image>>) {
    }

    fn get_handle(&self) -> (r: Option<Handle<Image>>) {
        self.handle
    }

    fn set_handle(&mut self, handle: Option<Handle<Image>>) {
        self.handle = handle;
    }

    fn unoccupied() -> (r: Self) {
        ImageEntry {
            handle: None,
            raw: 0,
            format: Format::Unknown,
            width: 0,
            height: 0,
            array_layers: 1,
        }
    }
}

/// A pooled image view, remembering the image it views.
pub struct ImageViewEntry {
    pub handle: Option<Handle<ImageView>>,
    pub raw: u64,
    pub image: Option<Handle<Image>>,
}

impl Handled for ImageViewEntry {
    type HandleType = ImageView;

    open spec fn stored_handle(&self) -> Option<Handle<ImageView>> {
        self.handle
    }

    open spec fn spec_with_handle(self, handle: Option<Handle<ImageView>>) -> Self {
        ImageViewEntry { handle, ..self }
    }

    open spec fn spec_is_unoccupied(&self) -> bool {
        self.raw == 0 && self.image is None
    }

    proof fn law_with_handle(self, handle: Option<Handle<ImageView>>) {
    }

    fn get_handle(&self) -> (r: Option<Handle<ImageView>>) {
        self.handle
    }

    fn set_handle(&mut self, handle: Option<Handle<ImageView>>) {
        self.handle = handle;
    }

    fn unoccupied() -> (r: Self) {
        ImageViewEntry { handle: None, raw: 0, image: None }
    }
}

/// A pooled render pass, remembering the shape it was created for.
pub struct RenderPassEntry {
    pub handle: Option<Handle<RenderPass>>,
    pub raw: u64,
    pub output: RenderPassOutput,
}

impl Handled for RenderPassEntry {
    type HandleType = RenderPass;

    open spec fn stored_handle(&self) -> Option<Handle<RenderPass>> {
        self.handle
    }

    open spec fn spec_with_handle(self, handle: Option<Handle<RenderPass>>) -> Self {
        RenderPassEntry { handle, ..self }
    }

    open spec fn spec_is_unoccupied(&self) -> bool {
        self.raw == 0 && self.output.num_colors == 0
            && self.output.color_formats@.len() == 0 && self.output.color_final_layouts@.len() == 0
            && self.output.color_loads@.len() == 0 && self.output.color_samples@.len() == 0
            && self.output.depth_stencil_format == Format::Unknown
    }

    proof fn law_with_handle(self, handle: Option<Handle<RenderPass>>) {
    }

    fn get_handle(&self) -> (r: Option<Handle<RenderPass>>) {
        self.handle
    }

    fn set_handle(&mut self, handle: Option<Handle<RenderPass>>) {
        self.handle = handle;
    }

    fn unoccupied() -> (r: Self) {
        RenderPassEntry {
            handle: None,
            raw: 0,
            output: RenderPassOutput {
                num_colors: 0,
                color_formats: Vec::new(),
                color_final_layouts: Vec::new(),
                color_loads: Vec::new(),
                color_samples: Vec::new(),
                depth_stencil_format: Format::Unknown,
                depth_stencil_final_layout: crate::enums::ImageLayout::Undefined,
                depth_load: crate::enums::RenderTargetLoadAction::DontCare,
                stencil_load: crate::enums::RenderTargetLoadAction::DontCare,
                depth_stencil_samples: crate::enums::SampleCount::Sample1,
            },
        }
    }
}

/// A pooled framebuffer, remembering its raw shape.
pub struct FramebufferEntry {
    pub handle: Option<Handle<Framebuffer>>,
    pub raw: u64,
    pub desc: FramebufferDesc,
}

impl Handled for FramebufferEntry {
    type HandleType = Framebuffer;

    open spec fn stored_handle(&self) -> Option<Handle<Framebuffer>> {
        self.handle
    }

    open spec fn spec_with_handle(self, handle: Option<Handle<Framebuffer>>) -> Self {
        FramebufferEntry { handle, ..self }
    }

    open spec fn spec_is_unoccupied(&self) -> bool {
        self.raw == 0 && self.desc.render_pass == 0 && self.desc.views@.len() == 0
            && self.desc.width == 0 && self.desc.height == 0 && self.desc.layers == 0
    }

    proof fn law_with_handle(self, handle: Option<Handle<Framebuffer>>) {
    }

    fn get_handle(&self) -> (r: Option<Handle<Framebuffer>>) {
        self.handle
    }

    fn set_handle(&mut self, handle: Option<Handle<Framebuffer>>) {
        self.handle = handle;
    }

    fn unoccupied() -> (r: Self) {
        FramebufferEntry {
            handle: None,
            raw: 0,
            desc: FramebufferDesc { render_pass: 0, views: Vec::new(), width: 0, height: 0, layers: 0 },
        }
    }
}

/// A pooled swapchain, with its back-buffer image handles in index order.
pub struct SwapchainEntry {
    pub handle: Option<Handle<Swapchain>>,
    pub raw: u64,
    pub width: u32,
    pub height: u32,
    pub format: Format,
    pub back_buffers: Vec<Handle<Image>>,
}

impl Handled for SwapchainEntry {
    type HandleType = Swapchain;

    open spec fn stored_handle(&self) -> Option<Handle<Swapchain>> {
        self.handle
    }

    open spec fn spec_with_handle(self, handle: Option<Handle<Swapchain>>) -> Self {
        SwapchainEntry { handle, ..self }
    }

    open spec fn spec_is_unoccupied(&self) -> bool {
        self.raw == 0 && self.width == 0 && self.height == 0
            && self.format == Format::Unknown && self.back_buffers@.len() == 0
    }

    proof fn law_with_handle(self, handle: Option<Handle<Swapchain>>) {
    }

    fn get_handle(&self) -> (r: Option<Handle<Swapchain>>) {
        self.handle
    }

    fn set_handle(&mut self, handle: Option<Handle<Swapchain>>) {
        self.handle = handle;
    }

    fn unoccupied() -> (r: Self) {
        SwapchainEntry {
            handle: None,
            raw: 0,
            width: 0,
            height: 0,
            format: Format::Unknown,
            back_buffers: Vec::new(),
        }
    }
}

/// A pooled command pool.
pub struct CommandPoolEntry {
    pub handle: Option<Handle<CommandPool>>,
    pub raw: u64,
}

impl Handled for CommandPoolEntry {
    type HandleType = CommandPool;

    open spec fn stored_handle(&self) -> Option<Handle<CommandPool>> {
        self.handle
    }

    open spec fn spec_with_handle(self, handle: Option<Handle<CommandPool>>) -> Self {
        CommandPoolEntry { handle, ..self }
    }

    open spec fn spec_is_unoccupied(&self) -> bool {
        self.raw == 0
    }

    proof fn law_with_handle(self, handle: Option<Handle<CommandPool>>) {
    }

    fn get_handle(&self) -> (r: Option<Handle<CommandPool>>) {
        self.handle
    }

    fn set_handle(&mut self, handle: Option<Handle<CommandPool>>) {
        self.handle = handle;
    }

    fn unoccupied() -> (r: Self) {
        CommandPoolEntry { handle: None, raw: 0 }
    }
}

/// A pooled command buffer.
pub struct CommandBufferEntry {
    pub handle: Option<Handle<CommandBuffer>>,
    pub raw: u64,
}

impl Handled for CommandBufferEntry {
    type HandleType = CommandBuffer;

    open spec fn stored_handle(&self) -> Option<Handle<CommandBuffer>> {
        self.handle
    }

    open spec fn spec_with_handle(self, handle: Option<Handle<CommandBuffer>>) -> Self {
        CommandBufferEntry { handle, ..self }
    }

    open spec fn spec_is_unoccupied(&self) -> bool {
        self.raw == 0
    }

    proof fn law_with_handle(self, handle: Option<Handle<CommandBuffer>>) {
    }

    fn get_handle(&self) -> (r: Option<Handle<CommandBuffer>>) {
        self.handle
    }

    fn set_handle(&mut self, handle: Option<Handle<CommandBuffer>>) {
        self.handle = handle;
    }

    fn unoccupied() -> (r: Self) {
        CommandBufferEntry { handle: None, raw: 0 }
    }
}

/// The discipline under which the backend uses each pool: the free stack
/// holds no duplicates and only unoccupied slots, and every occupied slot
/// stores exactly the handle under which it was allocated.  Pools used this
/// way give out handles with pairwise distinct indices, and freeing one
/// live handle never disturbs another.
pub open spec fn disciplined<T: Handled>(p: &Pool<T>) -> bool where T::HandleType: Copy {
    &&& p.wf()
    &&& forall|i: int, j: int|
        0 <= i < j < p.free_list().len() ==> p.free_list()[i] != p.free_list()[j]
    &&& forall|k: int|
        0 <= k < p.free_list().len() ==> p.item_at(p.free_list()[k] as int).stored_handle()
            is None
    &&& forall|idx: int|
        #![trigger p.item_at(idx)]
        0 <= idx < p.capacity() ==> match p.item_at(idx).stored_handle() {
            Some(h) => h.index as int == idx && h.generation == p.generation_at(idx),
            None => true,
        }
}

/// A handle is live in a pool when its slot stores a handle with exactly
/// its index and generation.  Under the discipline above this implies the
/// handle matches, and two live handles at one index agree in both fields.
pub open spec fn live<T: Handled>(p: &Pool<T>, h: Handle<T::HandleType>) -> bool where
    T::HandleType: Copy
 {
    &&& (h.index as int) < p.capacity()
    &&& match p.item_at(h.index as int).stored_handle() {
        Some(s) => s.index == h.index && s.generation == h.generation,
        None => false,
    }
}

/// After a pool allocation performed under the discipline — the caller
/// stored exactly the issued handle in the slot — the discipline holds
/// again, the new handle is live, and every handle live before stays live
/// in an unchanged slot whose index differs from the new handle's.
pub proof fn lemma_alloc_discipline<T: Handled>(
    pre: &Pool<T>,
    post: &Pool<T>,
    h: Handle<T::HandleType>,
) where T::HandleType: Copy
    requires
        disciplined(pre),
        post.wf(),
        pre.free_list().len() > 0 ==> {
            &&& post.capacity() == pre.capacity()
            &&& h.index == pre.free_list().last()
            &&& post.free_list() == pre.free_list().drop_last()
        },
        pre.free_list().len() == 0 ==> {
            &&& pre.capacity() < post.capacity()
            &&& h.index as int == pre.capacity()
            &&& post.free_list() == Seq::new(
                (post.capacity() - pre.capacity() - 1) as nat,
                |i: int| (post.capacity() - 1 - i) as u16,
            )
        },
        (h.index as int) < post.capacity(),
        forall|i: int| 0 <= i < pre.capacity() ==> post.generation_at(i) == pre.generation_at(i),
        forall|i: int|
            pre.capacity() <= i < post.capacity() ==> post.generation_at(i) == 0u16,
        forall|j: int|
            0 <= j < pre.capacity() && j != h.index ==> post.item_at(j) == pre.item_at(j),
        forall|j: int|
            #![trigger post.item_at(j)]
            pre.capacity() <= j < post.capacity() && j != h.index ==> post.item_at(
                j,
            ).stored_handle() is None,
        post.item_at(h.index as int).stored_handle() == Some(h),
        h.generation == post.generation_at(h.index as int),
    ensures
        disciplined(post),
        live(post, h),
        stale_preserved(pre, post),
        forall|h2: Handle<T::HandleType>|
            live(pre, h2) ==> live(post, h2) && h2.index != h.index && post.item_at(
                h2.index as int,
            ) == pre.item_at(h2.index as int),
{
    pre.lemma_wf_facts();
    post.lemma_wf_facts();
    assert forall|h2: Handle<T::HandleType>| live(pre, h2) implies live(post, h2) && h2.index
        != h.index && post.item_at(h2.index as int) == pre.item_at(h2.index as int) by {
        if pre.free_list().len() > 0 {
            let k = pre.free_list().len() - 1;
            assert(pre.item_at(pre.free_list()[k] as int).stored_handle() is None);
        }
    }
    assert forall|i: int, j: int|
        0 <= i < j < post.free_list().len() implies post.free_list()[i] != post.free_list()[
        j] by {
        if pre.free_list().len() > 0 {
            assert(pre.free_list()[i] == post.free_list()[i]);
            assert(pre.free_list()[j] == post.free_list()[j]);
        }
    }
    assert forall|k: int|
        0 <= k < post.free_list().len() implies post.item_at(
        post.free_list()[k] as int,
    ).stored_handle() is None by {
        if pre.free_list().len() > 0 {
            assert(post.free_list()[k] == pre.free_list()[k]);
            assert(pre.item_at(pre.free_list()[k] as int).stored_handle() is None);
            let last = pre.free_list().len() - 1;
            assert(pre.free_list()[k] != pre.free_list()[last]);
        } else {
            assert((post.free_list()[k] as int) != h.index as int);
        }
    }
}

/// After a live handle is freed under the discipline, the discipline holds
/// again, the freed handle is no longer live, and every other live handle
/// stays live in an unchanged slot.
pub proof fn lemma_free_discipline<T: Handled>(
    pre: &Pool<T>,
    post: &Pool<T>,
    h: Handle<T::HandleType>,
) where T::HandleType: Copy
    requires
        disciplined(pre),
        live(pre, h),
        h.generation == pre.generation_at(h.index as int),
        post.wf(),
        post.capacity() == pre.capacity(),
        post.gens() == pre.gens().update(h.index as int, crate::pool::bumped(h.generation)),
        post.free_list() == pre.free_list().push(h.index),
        post.item_at(h.index as int).stored_handle() is None,
        forall|j: int|
            0 <= j < pre.capacity() && j != h.index ==> post.item_at(j) == pre.item_at(j),
    ensures
        disciplined(post),
        !live(post, h),
        forall|h2: Handle<T::HandleType>| !live(pre, h2) ==> !live(post, h2),
        forall|h2: Handle<T::HandleType>|
            live(pre, h2) && h2.index != h.index ==> live(post, h2) && post.item_at(
                h2.index as int,
            ) == pre.item_at(h2.index as int),
{
    pre.lemma_wf_facts();
    post.lemma_wf_facts();
    assert forall|k: int|
        0 <= k < pre.free_list().len() implies pre.free_list()[k] != h.index by {
        assert(pre.item_at(pre.free_list()[k] as int).stored_handle() is None);
    }
    assert forall|i: int, j: int|
        0 <= i < j < post.free_list().len() implies post.free_list()[i] != post.free_list()[
        j] by {
        if j < pre.free_list().len() {
        } else {
            assert(post.free_list()[j] == h.index);
            assert(pre.free_list()[i] != h.index);
        }
    }
    assert forall|k: int|
        0 <= k < post.free_list().len() implies post.item_at(
        post.free_list()[k] as int,
    ).stored_handle() is None by {
        if k < pre.free_list().len() {
            assert(post.free_list()[k] == pre.free_list()[k]);
            assert(pre.free_list()[k] != h.index);
            assert((pre.free_list()[k] as int) < pre.capacity());
            assert(pre.item_at(pre.free_list()[k] as int).stored_handle() is None);
            assert(post.item_at(post.free_list()[k] as int) == pre.item_at(
                pre.free_list()[k] as int,
            ));
        } else {
            assert(post.free_list()[k] == h.index);
        }
    }
    assert forall|h2: Handle<T::HandleType>| !live(pre, h2) implies !live(post, h2) by {
        if (h2.index as int) < post.capacity() {
            if h2.index == h.index {
                assert(post.item_at(h2.index as int).stored_handle() is None);
            } else {
                assert(post.item_at(h2.index as int) == pre.item_at(h2.index as int));
            }
        }
    }
    assert forall|idx: int|
        #![trigger post.item_at(idx)]
        0 <= idx < post.capacity() implies (match post.item_at(idx).stored_handle() {
        Some(h2) => h2.index as int == idx && h2.generation == post.generation_at(idx),
        None => true,
    }) by {
        if idx != h.index {
            assert(post.item_at(idx) == pre.item_at(idx));
            assert(match pre.item_at(idx).stored_handle() {
                Some(h2) => h2.index as int == idx && h2.generation == pre.generation_at(idx),
                None => true,
            });
            assert(post.gens()[idx] == pre.gens().update(
                h.index as int,
                crate::pool::bumped(h.generation),
            )[idx]);
            assert(post.generation_at(idx) == pre.generation_at(idx));
        }
    }
}

/// A pool that can serve no further allocation: its free stack is empty
/// and it can grow no more (no slots at all, or the 16-bit index space is
/// spent).
pub open spec fn pool_full<T: Handled>(p: &Pool<T>) -> bool where T::HandleType: Copy {
    p.free_list().len() == 0 && (p.capacity() == 0 || p.capacity() >= u16::MAX as int)
}

/// Between two pool states, every handle to an existing slot that failed
/// to match before still fails to match: no stored generation moved back.
pub open spec fn stale_preserved<T: Handled>(pre: &Pool<T>, post: &Pool<T>) -> bool where
    T::HandleType: Copy
 {
    forall|h2: Handle<T::HandleType>|
        (h2.index as int) < pre.capacity() && !pre.spec_is_match(h2) ==> !post.spec_is_match(h2)
}

/// Under the discipline, a handle that does not match its slot's stored
/// generation is not live.
pub proof fn lemma_stale_not_live<T: Handled>(p: &Pool<T>, h: Handle<T::HandleType>) where
    T::HandleType: Copy

    requires
        disciplined(p),
        !p.spec_is_match(h),
    ensures
        !live(p, h),
{
    p.lemma_wf_facts();
    if (h.index as int) < p.capacity() {
        assert(p.item_at(h.index as int) == p.item_at(h.index as int));
    }
}

/// Under the discipline, a handle whose slot stores some handle and which
/// matches the slot's generation is live.
pub proof fn lemma_live_from_slot<T: Handled>(p: &Pool<T>, h: Handle<T::HandleType>) where
    T::HandleType: Copy

    requires
        disciplined(p),
        p.spec_is_match(h),
        p.item_at(h.index as int).stored_handle() is Some,
    ensures
        live(p, h),
{
    p.lemma_wf_facts();
    assert(p.item_at(h.index as int) == p.item_at(h.index as int));
}

/// One pool per resource kind.
pub struct ResourceRegistry {
    pub fences: Pool<FenceEntry>,
    pub semaphores: Pool<SemaphoreEntry>,
    pub surfaces: Pool<SurfaceEntry>,
    pub queues: Pool<QueueEntry>,
    pub images: Pool<ImageEntry>,
    pub image_views: Pool<ImageViewEntry>,
    pub render_passes: Pool<RenderPassEntry>,
    pub framebuffers: Pool<FramebufferEntry>,
    pub swapchains: Pool<SwapchainEntry>,
    pub command_pools: Pool<CommandPoolEntry>,
    pub command_buffers: Pool<CommandBufferEntry>,
}

impl ResourceRegistry {
    /// Every pool is used under the backend's discipline.
    pub open spec fn wf(&self) -> bool {
        &&& disciplined(&self.fences)
        &&& disciplined(&self.semaphores)
        &&& disciplined(&self.surfaces)
        &&& disciplined(&self.queues)
        &&& disciplined(&self.images)
        &&& disciplined(&self.image_views)
        &&& disciplined(&self.render_passes)
        &&& disciplined(&self.framebuffers)
        &&& disciplined(&self.swapchains)
        &&& disciplined(&self.command_pools)
        &&& disciplined(&self.command_buffers)
    }

    /// Fresh pools of `size` slots each.
    pub fn new(size: usize) -> (r: Self)
        requires
            size <= u16::MAX as usize,
        ensures
            r.wf(),
            r.fences.capacity() == size && r.fences.free_list().len() == size,
            r.semaphores.capacity() == size && r.semaphores.free_list().len() == size,
            r.surfaces.capacity() == size && r.surfaces.free_list().len() == size,
            r.queues.capacity() == size && r.queues.free_list().len() == size,
            r.images.capacity() == size && r.images.free_list().len() == size,
            r.image_views.capacity() == size && r.image_views.free_list().len() == size,
            r.render_passes.capacity() == size && r.render_passes.free_list().len() == size,
            r.framebuffers.capacity() == size && r.framebuffers.free_list().len() == size,
            r.swapchains.capacity() == size && r.swapchains.free_list().len() == size,
            forall|i: int| 0 <= i < size ==> r.swapchains.item_at(i).stored_handle() is None,
            r.command_pools.capacity() == size && r.command_pools.free_list().len() == size,
            r.command_buffers.capacity() == size && r.command_buffers.free_list().len() == size,
    {
        ResourceRegistry {
            fences: Pool::with_size(size),
            semaphores: Pool::with_size(size),
            surfaces: Pool::with_size(size),
            queues: Pool::with_size(size),
            images: Pool::with_size(size),
            image_views: Pool::with_size(size),
            render_passes: Pool::with_size(size),
            framebuffers: Pool::with_size(size),
            swapchains: Pool::with_size(size),
            command_pools: Pool::with_size(size),
            command_buffers: Pool::with_size(size),
        }
    }
}

} // verus!
