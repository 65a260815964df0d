//! The frame scheduler: pipelines several in-flight frames against a
//! presentation surface that can become invalid at any time.
//!
//! One cycle per rendered frame runs `begin_frame` → record → `end_frame`.
//! Each frame slot owns one in-flight fence, one "image available"
//! semaphore, one "render finished" semaphore; `begin_frame` for slot *i*
//! waits only on slot *i*'s fence and passes only slot *i*'s semaphore to
//! the acquisition — never another slot's — which is what bounds how far
//! the CPU runs ahead of the GPU.  When the surface is reported out of
//! date or suboptimal, the swapchain and everything it owns is destroyed
//! and rebuilt, always behind exactly one device-wide idle wait.

use crate::backend::{recreation_extension, sync_free_extension, sync_free_op, RenderBackend};
use crate::define::{
    CommandBufferBeginDesc, Fence, Framebuffer, Image,
    ImageCreateDesc, ImageMemoryBarrier, ImageView, ImageViewCreateDesc, Queue, QueuePresentDesc,
    RenderPass, RenderPassOutput, Semaphore, Surface, Swapchain, SwapchainCreateDesc,
};
use crate::driver::{AcquireOutcome, DriverOp, RawImageBarrier, RenderDriver};
use crate::enums::{CommandBufferLevel, Format, ImageLayout, ImageTiling, RenderTargetLoadAction, SampleCount};
use crate::error::RenderError;
use crate::flag::{AccessFlags, FormatFeatureFlags, ImageAspectFlags, PipelineStageFlags};
use crate::pool::Handle;
use vstd::prelude::*;

verus! {

/// The access and stage masks of a supported image layout transition, or
/// `None` for a transition the renderer does not support.
pub open spec fn spec_barrier_masks(old_layout: ImageLayout, new_layout: ImageLayout) -> Option<
    (u32, u32, u32, u32),
> {
    if old_layout == ImageLayout::Undefined && new_layout == ImageLayout::TransferDstOptimal {
        Some((0u32, 0x1000u32, 0x1u32, 0x1000u32))
    } else if old_layout == ImageLayout::TransferDstOptimal && new_layout
        == ImageLayout::ShaderReadOnlyOptimal {
        Some((0x1000u32, 0x20u32, 0x1000u32, 0x80u32))
    } else if old_layout == ImageLayout::Undefined && new_layout
        == ImageLayout::DepthStencilAttachmentOptimal {
        Some((0u32, 0x600u32, 0x1u32, 0x100u32))
    } else {
        None
    }
}

/// The (source access, destination access, source stage, destination
/// stage) masks for a layout transition, for the three transitions the
/// renderer performs; every other pair is unsupported.
pub fn barrier_masks(old_layout: ImageLayout, new_layout: ImageLayout) -> (r: Option<
    (AccessFlags, AccessFlags, PipelineStageFlags, PipelineStageFlags),
>)
    ensures
        match r {
            Some(masks) => spec_barrier_masks(old_layout, new_layout) == Some(
                (masks.0.bits, masks.1.bits, masks.2.bits, masks.3.bits),
            ),
            None => spec_barrier_masks(old_layout, new_layout) is None,
        },
{
    if matches!(old_layout, ImageLayout::Undefined) && matches!(
        new_layout,
        ImageLayout::TransferDstOptimal,
    ) {
        Some(
            (
                AccessFlags::empty(),
                AccessFlags::transfer_write(),
                PipelineStageFlags::top_of_pipe(),
                PipelineStageFlags::transfer(),
            ),
        )
    } else if matches!(old_layout, ImageLayout::TransferDstOptimal) && matches!(
        new_layout,
        ImageLayout::ShaderReadOnlyOptimal,
    ) {
        Some(
            (
                AccessFlags::transfer_write(),
                AccessFlags::shader_read(),
                PipelineStageFlags::transfer(),
                PipelineStageFlags::fragment_shader(),
            ),
        )
    } else if matches!(old_layout, ImageLayout::Undefined) && matches!(
        new_layout,
        ImageLayout::DepthStencilAttachmentOptimal,
    ) {
        proof {
            assert(0x200u32 | 0x400u32 == 0x600u32) by (bit_vector);
        }
        Some(
            (
                AccessFlags::empty(),
                AccessFlags::depth_stencil_attachment_read().union(
                    AccessFlags::depth_stencil_attachment_write(),
                ),
                PipelineStageFlags::top_of_pipe(),
                PipelineStageFlags::early_fragment_tests(),
            ),
        )
    } else {
        None
    }
}

/// Allocates a primary command buffer from `command_pool` and begins a
/// one-time-submit recording on it.
pub fn begin_single_time_commands<D: RenderDriver>(
    backend: &mut RenderBackend<D>,
    command_pool: Handle<crate::define::CommandPool>,
) -> (r: Result<Handle<crate::define::CommandBuffer>, RenderError>)
    requires
        old(backend).wf(),
    ensures
        final(backend).wf(),
        final(backend).rp_cache() == old(backend).rp_cache(),
        final(backend).fb_cache() == old(backend).fb_cache(),
        final(backend).spec_graphics_queue() == old(backend).spec_graphics_queue(),
        sync_free_extension(old(backend).log(), final(backend).log()),
        forall|k: int|
            old(backend).log().len() <= k < final(backend).log().len() ==> !((
            #[trigger] final(backend).log()[k]) is CreateFence),
        final(backend).registry() == (crate::registry::ResourceRegistry {
            command_buffers: final(backend).registry().command_buffers,
            ..old(backend).registry()
        }),
        r matches Ok(cb) ==> {
            &&& final(backend).command_buffer_live(cb)
            &&& final(backend).log() == old(backend).log().push(
                DriverOp::CreateCommandBuffer(final(backend).command_buffer_raw(cb)),
            ).push(DriverOp::CmdBegin(final(backend).command_buffer_raw(cb)))
        },
{
    let cb = match backend.create_command_buffer(command_pool, CommandBufferLevel::Primary) {
        Ok(cb) => cb,
        Err(e) => {
            return Err(e);
        },
    };
    match backend.cmd_begin(cb, CommandBufferBeginDesc { one_time_submit: true }) {
        Ok(_) => {},
        Err(e) => {
            return Err(e);
        },
    }
    Ok(cb)
}

/// Ends a one-time recording, submits it, waits for the queue to drain,
/// and destroys the command buffer.
pub fn end_single_time_commands<D: RenderDriver>(
    backend: &mut RenderBackend<D>,
    cb: Handle<crate::define::CommandBuffer>,
    queue: Handle<Queue>,
) -> (r: Result<(), RenderError>)
    requires
        old(backend).wf(),
    ensures
        final(backend).wf(),
        final(backend).rp_cache() == old(backend).rp_cache(),
        final(backend).fb_cache() == old(backend).fb_cache(),
        final(backend).spec_graphics_queue() == old(backend).spec_graphics_queue(),
        sync_free_extension(old(backend).log(), final(backend).log()),
        forall|k: int|
            old(backend).log().len() <= k < final(backend).log().len() ==> !((
            #[trigger] final(backend).log()[k]) is CreateFence),
        final(backend).registry() == (crate::registry::ResourceRegistry {
            command_buffers: final(backend).registry().command_buffers,
            ..old(backend).registry()
        }),
        r is Ok ==> {
            &&& old(backend).command_buffer_live(cb)
            &&& old(backend).queue_live(queue)
            &&& final(backend).log() == old(backend).log().push(
                DriverOp::CmdEnd(old(backend).command_buffer_raw(cb)),
            ).push(
                DriverOp::Submit {
                    queue: old(backend).queue_raw(queue),
                    command_buffers: seq![old(backend).command_buffer_raw(cb)],
                    wait_semaphores: Seq::<u64>::empty(),
                    wait_stages: Seq::<PipelineStageFlags>::empty(),
                    signal_semaphores: Seq::<u64>::empty(),
                    fence: None,
                },
            ).push(DriverOp::QueueWaitIdle(old(backend).queue_raw(queue))).push(
                DriverOp::DestroyCommandBuffer(old(backend).command_buffer_raw(cb)),
            )
        },
{
    match backend.cmd_end(cb) {
        Ok(_) => {},
        Err(e) => {
            return Err(e);
        },
    }
    let cbs: Vec<Handle<crate::define::CommandBuffer>> = vec![cb];
    let submit_desc = crate::define::QueueSubmitDesc {
        wait_semaphore: None,
        wait_stage: None,
        command_buffer: cbs,
        finish_semaphore: None,
        fence: None,
    };
    match backend.queue_submit(queue, &submit_desc) {
        Ok(_) => {},
        Err(e) => {
            return Err(e);
        },
    }
    match backend.queue_wait_idle(queue) {
        Ok(_) => {},
        Err(e) => {
            return Err(e);
        },
    }
    match backend.destroy_command_buffer(cb) {
        Ok(_) => {},
        Err(e) => {
            return Err(e);
        },
    }
    Ok(())
}

/// Transitions an image between layouts on a one-shot command buffer,
/// using the mask table of [`barrier_masks`]; an unsupported transition is
/// rejected before anything reaches the driver.
pub fn transition_image_layout<D: RenderDriver>(
    backend: &mut RenderBackend<D>,
    command_pool: Handle<crate::define::CommandPool>,
    queue: Handle<Queue>,
    image: Handle<Image>,
    old_layout: ImageLayout,
    new_layout: ImageLayout,
    aspect_mask: ImageAspectFlags,
) -> (r: Result<(), RenderError>)
    requires
        old(backend).wf(),
    ensures
        final(backend).wf(),
        final(backend).rp_cache() == old(backend).rp_cache(),
        final(backend).fb_cache() == old(backend).fb_cache(),
        final(backend).spec_graphics_queue() == old(backend).spec_graphics_queue(),
        sync_free_extension(old(backend).log(), final(backend).log()),
        forall|k: int|
            old(backend).log().len() <= k < final(backend).log().len() ==> !((
            #[trigger] final(backend).log()[k]) is CreateFence),
        final(backend).registry() == (crate::registry::ResourceRegistry {
            command_buffers: final(backend).registry().command_buffers,
            ..old(backend).registry()
        }),
        spec_barrier_masks(old_layout, new_layout) is None ==> r == Err::<(), RenderError>(
            RenderError::UnsupportedLayoutTransition,
        ) && *final(backend) == *old(backend),
        r is Ok ==> {
            &&& old(backend).image_live(image)
            &&& final(backend).log().len() == old(backend).log().len() + 7
            &&& match final(backend).log()[old(backend).log().len() as int] {
                DriverOp::CreateCommandBuffer(c) => {
                    &&& final(backend).log()[old(backend).log().len() as int + 1]
                        == DriverOp::CmdBegin(c)
                    &&& match final(backend).log()[old(backend).log().len() as int + 2] {
                        DriverOp::CmdPipelineBarrier {
                            command_buffer: c2,
                            src_stage_mask,
                            dst_stage_mask,
                            barriers,
                        } => {
                            &&& c2 == c
                            &&& match spec_barrier_masks(old_layout, new_layout) {
                                Some(m) => {
                                    &&& src_stage_mask.bits == m.2
                                    &&& dst_stage_mask.bits == m.3
                                    &&& barriers == seq![
                                        (RawImageBarrier {
                                            image: old(backend).image_raw(image),
                                            aspect_mask,
                                            old_layout,
                                            new_layout,
                                            src_access_mask: (AccessFlags { bits: m.0 }),
                                            dst_access_mask: (AccessFlags { bits: m.1 }),
                                        }),
                                    ]
                                },
                                None => false,
                            }
                        },
                        _ => false,
                    }
                    &&& final(backend).log()[old(backend).log().len() as int + 3]
                        == DriverOp::CmdEnd(c)
                    &&& match final(backend).log()[old(backend).log().len() as int + 4] {
                        DriverOp::Submit { command_buffers, wait_semaphores, signal_semaphores, fence, .. } => {
                            &&& command_buffers == seq![c]
                            &&& wait_semaphores == Seq::<u64>::empty()
                            &&& signal_semaphores == Seq::<u64>::empty()
                            &&& fence is None
                        },
                        _ => false,
                    }
                    &&& final(backend).log()[old(backend).log().len() as int + 5] is QueueWaitIdle
                    &&& final(backend).log()[old(backend).log().len() as int + 6]
                        == DriverOp::DestroyCommandBuffer(c)
                },
                _ => false,
            }
        },
{
    let (src_access_mask, dst_access_mask, src_stage_mask, dst_stage_mask) = match barrier_masks(
        old_layout,
        new_layout,
    ) {
        Some(masks) => masks,
        None => {
            return Err(RenderError::UnsupportedLayoutTransition);
        },
    };
    let cb = match begin_single_time_commands(backend, command_pool) {
        Ok(cb) => cb,
        Err(e) => {
            return Err(e);
        },
    };
    let barriers: Vec<ImageMemoryBarrier> = vec![
        ImageMemoryBarrier {
            image,
            aspect_mask,
            base_mip_level: 0,
            level_count: 1,
            base_array_layer: 0,
            layer_count: 1,
            old_layout,
            new_layout,
            src_queue_family_index: None,
            dst_queue_family_index: None,
            src_access_mask,
            dst_access_mask,
        },
    ];
    match backend.cmd_pipeline_barrier(cb, src_stage_mask, dst_stage_mask, &barriers) {
        Ok(_) => {},
        Err(e) => {
            return Err(e);
        },
    }
    end_single_time_commands(backend, cb, queue)
}

/// Picks a supported depth format and creates a depth image of the given
/// size together with a depth-aspect view onto it.
pub fn create_depth<D: RenderDriver>(backend: &mut RenderBackend<D>, width: u32, height: u32) -> (r:
    Result<(Handle<Image>, Handle<ImageView>), RenderError>)
    requires
        old(backend).wf(),
    ensures
        final(backend).wf(),
        final(backend).rp_cache() == old(backend).rp_cache(),
        final(backend).fb_cache() == old(backend).fb_cache(),
        final(backend).spec_graphics_queue() == old(backend).spec_graphics_queue(),
        sync_free_extension(old(backend).log(), final(backend).log()),
        forall|k: int|
            old(backend).log().len() <= k < final(backend).log().len() ==> !((
            #[trigger] final(backend).log()[k]) is CreateFence),
        final(backend).registry() == (crate::registry::ResourceRegistry {
            images: final(backend).registry().images,
            image_views: final(backend).registry().image_views,
            ..old(backend).registry()
        }),
        forall|h2: Handle<ImageView>|
            old(backend).image_view_live(h2) ==> final(backend).image_view_live(h2) && final(backend).image_view_entry(h2) == old(backend).image_view_entry(h2),
        match r {
            Ok(pair) => {
                &&& final(backend).image_live(pair.0)
                &&& final(backend).image_view_live(pair.1)
                &&& forall|h2: Handle<Image>|
                    old(backend).image_live(h2) ==> final(backend).image_live(h2) && final(backend).image_entry(h2) == old(backend).image_entry(h2) && h2.index != pair.0.index
            },
            Err(_) => forall|h2: Handle<Image>|
                old(backend).image_live(h2) ==> final(backend).image_live(h2) && final(backend).image_entry(h2) == old(backend).image_entry(h2),
        },
{
    let candidates: Vec<Format> = vec![
        Format::D32_SFLOAT,
        Format::D24_UNORM_S8_UINT,
        Format::D32_SFLOAT_S8_UINT,
    ];
    let depth_format = match backend.get_supported_format_from_candidates(
        &candidates,
        ImageTiling::Optimal,
        FormatFeatureFlags::depth_stencil_attachment(),
    ) {
        Ok(f) => f,
        Err(e) => {
            return Err(e);
        },
    };
    let desc = ImageCreateDesc::new_depth("depth", depth_format, width, height);
    let depth_image = match backend.create_image(&desc) {
        Ok(h) => h,
        Err(e) => {
            return Err(e);
        },
    };
    let view_desc = ImageViewCreateDesc::new_2d(None, ImageAspectFlags::depth());
    let depth_image_view = match backend.create_image_view(depth_image, &view_desc) {
        Ok(h) => h,
        Err(e) => {
            return Err(e);
        },
    };
    Ok((depth_image, depth_image_view))
}

/// The render system: frame slots, swapchain, swapchain-dependent
/// resources, and the backend they live in.
pub struct RenderSystem<D: RenderDriver> {
    pub backend: RenderBackend<D>,
    pub surface: Handle<Surface>,
    pub graphics_queue: Handle<Queue>,
    pub image_index: usize,
    pub swapchain: Handle<Swapchain>,
    pub swapchain_render_pass: Handle<RenderPass>,
    pub swapchain_output: RenderPassOutput,
    pub swapchain_framebuffers: Vec<Handle<Framebuffer>>,
    pub swapchain_image_views: Vec<Handle<ImageView>>,
    pub frame: usize,
    pub max_frames_in_flight: usize,
    pub in_flight_fences: Vec<Handle<Fence>>,
    pub image_availables: Vec<Handle<Semaphore>>,
    pub render_finisheds: Vec<Handle<Semaphore>>,
    pub command_pool: Handle<crate::define::CommandPool>,
    pub depth_image: Handle<Image>,
    pub depth_image_view: Handle<ImageView>,
}

impl<D: RenderDriver> RenderSystem<D> {
    /// Every stored handle is live, every per-slot list has one entry per
    /// frame slot, the slot cursor and image index are in range, and the
    /// depth image is not one of the swapchain's back buffers.
    pub open spec fn wf(&self) -> bool {
        &&& self.backend.wf()
        &&& 1 <= self.max_frames_in_flight
        &&& self.frame < self.max_frames_in_flight
        &&& self.in_flight_fences@.len() == self.max_frames_in_flight
        &&& self.image_availables@.len() == self.max_frames_in_flight
        &&& self.render_finisheds@.len() == self.max_frames_in_flight
        &&& self.swapchain_framebuffers@.len() == self.max_frames_in_flight
        &&& self.swapchain_image_views@.len() == self.max_frames_in_flight
        &&& self.image_index < self.swapchain_framebuffers@.len()
        &&& forall|i: int|
            0 <= i < self.max_frames_in_flight ==> self.backend.fence_live(
                #[trigger] self.in_flight_fences@[i],
            )
        &&& forall|i: int|
            0 <= i < self.max_frames_in_flight ==> self.backend.semaphore_live(
                #[trigger] self.image_availables@[i],
            )
        &&& forall|i: int|
            0 <= i < self.max_frames_in_flight ==> self.backend.semaphore_live(
                #[trigger] self.render_finisheds@[i],
            )
        &&& forall|i: int|
            0 <= i < self.swapchain_framebuffers@.len() ==> self.backend.framebuffer_live(
                #[trigger] self.swapchain_framebuffers@[i],
            )
        &&& forall|i: int|
            0 <= i < self.swapchain_image_views@.len() ==> self.backend.image_view_live(
                #[trigger] self.swapchain_image_views@[i],
            )
        &&& self.backend.queue_live(self.graphics_queue)
        &&& self.backend.surface_live(self.surface)
        &&& self.backend.swapchain_live(self.swapchain)
        &&& self.backend.command_pool_live(self.command_pool)
        &&& self.backend.render_pass_live(self.swapchain_render_pass)
        &&& self.backend.image_live(self.depth_image)
        &&& self.backend.image_view_live(self.depth_image_view)
    }

    /// The framebuffer of the back buffer acquired for this frame.
    pub fn get_swapchain_framebuffer(&self) -> (r: Handle<Framebuffer>)
        requires
            self.wf(),
        ensures
            r == self.swapchain_framebuffers@[self.image_index as int],
            self.backend.framebuffer_live(r),
    {
        self.swapchain_framebuffers[self.image_index]
    }

    /// The current slot's "image available" semaphore.
    pub fn get_image_available_semaphore(&self) -> (r: Handle<Semaphore>)
        requires
            self.wf(),
        ensures
            r == self.image_availables@[self.frame as int],
            self.backend.semaphore_live(r),
    {
        self.image_availables[self.frame]
    }

    /// The current slot's "render finished" semaphore.
    pub fn get_render_finished_semaphore(&self) -> (r: Handle<Semaphore>)
        requires
            self.wf(),
        ensures
            r == self.render_finisheds@[self.frame as int],
            self.backend.semaphore_live(r),
    {
        self.render_finisheds[self.frame]
    }

    /// The current slot's in-flight fence.
    pub fn get_in_flight_fence(&self) -> (r: Handle<Fence>)
        requires
            self.wf(),
        ensures
            r == self.in_flight_fences@[self.frame as int],
            self.backend.fence_live(r),
    {
        self.in_flight_fences[self.frame]
    }
}


/// Per-frame synchronization in `ops` from position `from` on touches only
/// the given slot's fence and "image available" semaphore: every fence
/// wait and fence reset names exactly that fence, and every acquisition
/// passes exactly that semaphore.
pub open spec fn slot_sync_only(ops: Seq<DriverOp>, from: int, fence_raw: u64, sem_raw: u64) -> bool {
    forall|k: int|
        from <= k < ops.len() ==> match #[trigger] ops[k] {
            DriverOp::WaitFences(fs) => fs == seq![fence_raw],
            DriverOp::ResetFences(fs) => fs == seq![fence_raw],
            DriverOp::AcquireImage { swapchain, semaphore, outcome } => semaphore == sem_raw,
            _ => true,
        }
}

impl<D: RenderDriver> RenderSystem<D> {
    /// Builds a render system over `driver`: surface, swapchain, one frame
    /// slot per back-buffer image (fence, two semaphores), the swapchain
    /// render pass, the depth buffer (transitioned into its attachment
    /// layout on a one-shot command buffer), and one framebuffer per back
    /// buffer.
    pub fn create(driver: D, width: u32, height: u32) -> (r: Result<Self, RenderError>)
        requires
            driver.inv(),
        ensures
            match r {
                Ok(rs) => {
                    &&& rs.wf()
                    &&& rs.frame == 0
                    &&& rs.image_index == 0
                    &&& rs.max_frames_in_flight as int == rs.backend.swapchain_back_buffers(
                        rs.swapchain,
                    ).len()
                    &&& rs.in_flight_fences@.len() == rs.max_frames_in_flight
                    &&& rs.image_availables@.len() == rs.max_frames_in_flight
                    &&& rs.render_finisheds@.len() == rs.max_frames_in_flight
                    &&& rs.swapchain_framebuffers@.len() == rs.max_frames_in_flight
                    &&& forall|k: int|
                        driver.log().len() <= k < rs.backend.log().len() ==> match (
                        #[trigger] rs.backend.log()[k]) {
                            DriverOp::CreateFence { fence, signal } => signal,
                            _ => true,
                        }
                },
                Err(_) => true,
            },
    {
        let mut backend = match RenderBackend::new(driver, 64) {
            Ok(b) => b,
            Err(e) => {
                return Err(e);
            },
        };
        let surface = match backend.create_surface() {
            Ok(h) => h,
            Err(e) => {
                return Err(e);
            },
        };
        let sc_desc = SwapchainCreateDesc {
            width,
            height,
            surface,
            vsync: true,
            format: Format::B8G8R8A8_SRGB,
        };
        let swapchain = match backend.create_swapchain(sc_desc) {
            Ok(h) => h,
            Err(e) => {
                return Err(e);
            },
        };
        let max_frames_in_flight: usize = match backend.get_swapchain_image_count(swapchain) {
            Ok(c) => c as usize,
            Err(e) => {
                return Err(e);
            },
        };
        let graphics_queue = match backend.get_queue(crate::enums::QueueType::Graphics) {
            Ok(h) => h,
            Err(e) => {
                return Err(e);
            },
        };
        let command_pool = match backend.create_command_pool(graphics_queue) {
            Ok(h) => h,
            Err(e) => {
                return Err(e);
            },
        };
        let swapchain_output = RenderPassOutput::builder().add_color(
            Format::B8G8R8A8_SRGB,
            ImageLayout::PresentSrcKhr,
            RenderTargetLoadAction::Clear,
            SampleCount::Sample1,
        ).set_depth_stencil(
            Format::D32_SFLOAT,
            ImageLayout::DepthStencilAttachmentOptimal,
            RenderTargetLoadAction::Clear,
            RenderTargetLoadAction::DontCare,
            SampleCount::Sample1,
        ).build();
        let swapchain_render_pass = match backend.create_render_pass(&swapchain_output) {
            Ok(h) => h,
            Err(e) => {
                return Err(e);
            },
        };
        let (depth_image, depth_image_view) = match create_depth(&mut backend, width, height) {
            Ok(pair) => pair,
            Err(e) => {
                return Err(e);
            },
        };
        match transition_image_layout(
            &mut backend,
            command_pool,
            graphics_queue,
            depth_image,
            ImageLayout::Undefined,
            ImageLayout::DepthStencilAttachmentOptimal,
            ImageAspectFlags::depth(),
        ) {
            Ok(_) => {},
            Err(e) => {
                return Err(e);
            },
        }
        let mut in_flight_fences: Vec<Handle<Fence>> = Vec::new();
        let mut image_availables: Vec<Handle<Semaphore>> = Vec::new();
        let mut render_finisheds: Vec<Handle<Semaphore>> = Vec::new();
        let mut swapchain_framebuffers: Vec<Handle<Framebuffer>> = Vec::new();
        let mut swapchain_image_views: Vec<Handle<ImageView>> = Vec::new();
        let mut i: usize = 0;
        while i < max_frames_in_flight
            invariant
                backend.wf(),
                i <= max_frames_in_flight,
                1 <= max_frames_in_flight,
                in_flight_fences@.len() == i as int,
                image_availables@.len() == i as int,
                render_finisheds@.len() == i as int,
                swapchain_framebuffers@.len() == i as int,
                swapchain_image_views@.len() == i as int,
                forall|j: int|
                    0 <= j < i ==> backend.fence_live(#[trigger] in_flight_fences@[j]),
                forall|j: int|
                    0 <= j < i ==> backend.semaphore_live(#[trigger] image_availables@[j]),
                forall|j: int|
                    0 <= j < i ==> backend.semaphore_live(#[trigger] render_finisheds@[j]),
                forall|j: int|
                    0 <= j < i ==> backend.framebuffer_live(
                        #[trigger] swapchain_framebuffers@[j],
                    ),
                forall|j: int|
                    0 <= j < i ==> backend.image_view_live(
                        #[trigger] swapchain_image_views@[j],
                    ),
                backend.queue_live(graphics_queue),
                backend.surface_live(surface),
                backend.swapchain_live(swapchain),
                backend.command_pool_live(command_pool),
                backend.render_pass_live(swapchain_render_pass),
                backend.image_live(depth_image),
                backend.image_view_live(depth_image_view),
                max_frames_in_flight as int == backend.swapchain_back_buffers(swapchain).len(),
                forall|k: int|
                    driver.log().len() <= k < backend.log().len() ==> match (
                    #[trigger] backend.log()[k]) {
                        DriverOp::CreateFence { fence, signal } => signal,
                        _ => true,
                    },
            decreases max_frames_in_flight - i,
        {
            let fence = match backend.create_fence(true) {
                Ok(h) => h,
                Err(e) => {
                    return Err(e);
                },
            };
            in_flight_fences.push(fence);
            let image_available = match backend.create_semaphore() {
                Ok(h) => h,
                Err(e) => {
                    return Err(e);
                },
            };
            image_availables.push(image_available);
            let render_finished = match backend.create_semaphore() {
                Ok(h) => h,
                Err(e) => {
                    return Err(e);
                },
            };
            render_finisheds.push(render_finished);
            proof {
                assert(forall|j: int|
                    0 <= j < image_availables@.len() ==> backend.semaphore_live(
                        #[trigger] image_availables@[j],
                    ));
                assert(forall|j: int|
                    0 <= j < render_finisheds@.len() ==> backend.semaphore_live(
                        #[trigger] render_finisheds@[j],
                    ));
            }
            let back_buffer = match backend.get_swapchain_back_buffer(swapchain, i) {
                Ok(h) => h,
                Err(e) => {
                    return Err(e);
                },
            };
            let view_desc = ImageViewCreateDesc::default();
            let view = match backend.create_image_view(back_buffer, &view_desc) {
                Ok(h) => h,
                Err(e) => {
                    return Err(e);
                },
            };
            proof {
                assert(forall|j: int|
                    0 <= j < swapchain_image_views@.len() ==> backend.image_view_live(
                        #[trigger] swapchain_image_views@[j],
                    ));
            }
            let fb_desc = crate::define::FramebufferCreateDesc {
                render_pass: swapchain_render_pass,
                color_views: vec![view],
                depth_stencil_view: Some(depth_image_view),
            };
            let fb = match backend.create_framebuffer(&fb_desc) {
                Ok(h) => h,
                Err(e) => {
                    return Err(e);
                },
            };
            proof {
                assert(backend.image_view_live(view));
                assert(forall|j: int|
                    0 <= j < swapchain_image_views@.len() ==> backend.image_view_live(
                        #[trigger] swapchain_image_views@[j],
                    ));
            }
            swapchain_framebuffers.push(fb);
            swapchain_image_views.push(view);
            i = i + 1;
        }
        Ok(
            RenderSystem {
                backend,
                surface,
                graphics_queue,
                image_index: 0,
                swapchain,
                swapchain_render_pass,
                swapchain_output,
                swapchain_framebuffers,
                swapchain_image_views,
                frame: 0,
                max_frames_in_flight,
                in_flight_fences,
                image_availables,
                render_finisheds,
                command_pool,
                depth_image,
                depth_image_view,
            },
        )
    }

    /// Starts a frame: blocks on the *current* slot's in-flight fence,
    /// acquires the next presentable image signaling the *current* slot's
    /// "image available" semaphore, and — if the swapchain is out of date —
    /// recreates it and reports `false`, meaning the caller must skip
    /// recording and submitting this tick.  On `true`, the acquired image
    /// index is recorded and the slot's fence is reset.
    ///
    /// Whatever happens, the only per-frame synchronization touched is the
    /// current slot's: no other slot's fence or semaphore ever reaches the
    /// driver here.
    pub fn begin_frame(&mut self, width: u32, height: u32) -> (r: Result<bool, RenderError>)
        requires
            old(self).wf(),
        ensures
            r is Ok ==> final(self).wf(),
            final(self).frame == old(self).frame,
            final(self).max_frames_in_flight == old(self).max_frames_in_flight,
            final(self).in_flight_fences == old(self).in_flight_fences,
            final(self).image_availables == old(self).image_availables,
            final(self).render_finisheds == old(self).render_finisheds,
            old(self).backend.log().len() <= final(self).backend.log().len(),
            forall|k: int|
                0 <= k < old(self).backend.log().len() ==> old(self).backend.log()[k] == final(self).backend.log()[k],
            slot_sync_only(
                final(self).backend.log(),
                old(self).backend.log().len() as int,
                old(self).backend.fence_raw(old(self).in_flight_fences@[old(self).frame as int]),
                old(self).backend.semaphore_raw(
                    old(self).image_availables@[old(self).frame as int],
                ),
            ),
            r == Ok::<bool, RenderError>(true) ==> {
                &&& final(self).backend.log().len() == old(self).backend.log().len() + 3
                &&& final(self).backend.log()[old(self).backend.log().len() as int]
                    == DriverOp::WaitFences(
                    seq![
                        old(self).backend.fence_raw(
                            old(self).in_flight_fences@[old(self).frame as int],
                        ),
                    ],
                )
                &&& match final(self).backend.log()[old(self).backend.log().len() as int + 1] {
                    DriverOp::AcquireImage { swapchain: sr, semaphore: mr, outcome } => {
                        &&& sr == old(self).backend.swapchain_raw(old(self).swapchain)
                        &&& mr == old(self).backend.semaphore_raw(
                            old(self).image_availables@[old(self).frame as int],
                        )
                        &&& match outcome {
                            Some(AcquireOutcome::Index(i, sub)) => final(self).image_index
                                == i as usize,
                            _ => false,
                        }
                    },
                    _ => false,
                }
                &&& final(self).backend.log()[old(self).backend.log().len() as int + 2]
                    == DriverOp::ResetFences(
                    seq![
                        old(self).backend.fence_raw(
                            old(self).in_flight_fences@[old(self).frame as int],
                        ),
                    ],
                )
                &&& final(self).image_index < final(self).swapchain_framebuffers@.len()
                &&& final(self).swapchain_framebuffers == old(self).swapchain_framebuffers
            },
            r == Ok::<bool, RenderError>(false) ==> {
                &&& final(self).backend.log().len() >= old(self).backend.log().len() + 3
                &&& final(self).backend.log()[old(self).backend.log().len() as int]
                    == DriverOp::WaitFences(
                    seq![
                        old(self).backend.fence_raw(
                            old(self).in_flight_fences@[old(self).frame as int],
                        ),
                    ],
                )
                &&& match final(self).backend.log()[old(self).backend.log().len() as int + 1] {
                    DriverOp::AcquireImage { swapchain: sr, semaphore: mr, outcome } => {
                        &&& sr == old(self).backend.swapchain_raw(old(self).swapchain)
                        &&& mr == old(self).backend.semaphore_raw(
                            old(self).image_availables@[old(self).frame as int],
                        )
                        &&& outcome == Some(AcquireOutcome::OutOfDate)
                    },
                    _ => false,
                }
                &&& final(self).backend.log()[old(self).backend.log().len() as int + 2]
                    is DeviceWaitIdle
                &&& forall|k: int|
                    old(self).backend.log().len() + 3 <= k < final(self).backend.log().len()
                        ==> sync_free_op(#[trigger] final(self).backend.log()[k])
            },
    {
        let fence = self.in_flight_fences[self.frame];
        let fences: Vec<Handle<Fence>> = vec![fence];
        proof {
            assert(fences@ =~= seq![fence]);
        }
        match self.backend.wait_for_fences(&fences, true, u64::MAX) {
            Ok(_) => {},
            Err(e) => {
                return Err(e);
            },
        }
        let semaphore = self.image_availables[self.frame];
        let acquired: (usize, bool) = match self.backend.acquire_swapchain_next_image(
            self.swapchain,
            u64::MAX,
            semaphore,
            None,
        ) {
            Ok(pair) => pair,
            Err(e) => {
                return Err(e);
            },
        };
        if acquired.0 == usize::MAX {
            match self.recreate_swapchain(width, height) {
                Ok(_) => {},
                Err(e) => {
                    return Err(e);
                },
            }
            return Ok(false);
        }
        if acquired.0 >= self.swapchain_framebuffers.len() {
            return Err(RenderError::ImageIndexOutOfRange);
        }
        self.image_index = acquired.0;
        match self.backend.reset_fences(&fences) {
            Ok(_) => {},
            Err(e) => {
                return Err(e);
            },
        }
        Ok(true)
    }

    /// Ends a frame: presents the acquired image, waiting on the current
    /// slot's "render finished" semaphore; recreates the swapchain when
    /// the driver reports the surface suboptimal or the caller forces it;
    /// and advances the frame slot cursor modulo the fixed slot count.
    pub fn end_frame(&mut self, recreate_swapchain: bool, width: u32, height: u32) -> (r: Result<
        (),
        RenderError,
    >)
        requires
            old(self).wf(),
        ensures
            r is Ok ==> final(self).wf() && final(self).frame == ((old(self).frame + 1) % old(self).max_frames_in_flight as int) as usize,
            final(self).max_frames_in_flight == old(self).max_frames_in_flight,
            final(self).in_flight_fences == old(self).in_flight_fences,
            final(self).image_availables == old(self).image_availables,
            final(self).render_finisheds == old(self).render_finisheds,
            old(self).backend.log().len() <= final(self).backend.log().len(),
            forall|k: int|
                0 <= k < old(self).backend.log().len() ==> old(self).backend.log()[k] == final(self).backend.log()[k],
            r is Ok ==> final(self).backend.log().len() > old(self).backend.log().len(),
            final(self).backend.log().len() > old(self).backend.log().len() ==> match final(self).backend.log()[old(self).backend.log().len() as int] {
                DriverOp::Present { queue: qr, swapchain: sr, image_index: ii, wait_semaphores: ws, suboptimal } => {
                    &&& qr == old(self).backend.queue_raw(old(self).graphics_queue)
                    &&& sr == old(self).backend.swapchain_raw(old(self).swapchain)
                    &&& ii == old(self).image_index as u32
                    &&& ws == seq![
                        old(self).backend.semaphore_raw(
                            old(self).render_finisheds@[old(self).frame as int],
                        ),
                    ]
                },
                _ => false,
            },
            r is Ok ==> match final(self).backend.log()[old(self).backend.log().len() as int] {
                DriverOp::Present { suboptimal, .. } => match suboptimal {
                    Some(sub) => {
                        &&& (sub || recreate_swapchain) ==> {
                            &&& final(self).backend.log().len() >= old(self).backend.log().len()
                                + 2
                            &&& final(self).backend.log()[old(self).backend.log().len() as int
                                + 1] is DeviceWaitIdle
                            &&& forall|k: int|
                                old(self).backend.log().len() + 2 <= k < final(self).backend.log().len()
                                    ==> sync_free_op(#[trigger] final(self).backend.log()[k])
                        }
                        &&& !(sub || recreate_swapchain) ==> final(self).backend.log().len()
                            == old(self).backend.log().len() + 1
                    },
                    None => false,
                },
                _ => false,
            },
    {
        let render_finished = self.render_finisheds[self.frame];
        let present_desc = QueuePresentDesc {
            wait_semaphores: vec![render_finished],
            swapchain: self.swapchain,
            image_index: self.image_index as u32,
        };
        proof {
            assert(present_desc.wait_semaphores@ =~= seq![render_finished]);
        }
        let suboptimal: bool = match self.backend.queue_present(
            self.graphics_queue,
            &present_desc,
        ) {
            Ok(suboptimal) => suboptimal,
            Err(e) => {
                return Err(e);
            },
        };
        if suboptimal || recreate_swapchain {
            match self.recreate_swapchain(width, height) {
                Ok(_) => {},
                Err(e) => {
                    return Err(e);
                },
            }
        }
        self.frame = (self.frame + 1) % self.max_frames_in_flight;
        Ok(())
    }

    /// Destroys every swapchain-owned object: the framebuffers, the
    /// back-buffer image views, the depth image and its view, and the
    /// swapchain itself (whose back-buffer identities go with it).  The
    /// caller must have made the device idle first.
    /// Teardown is best-effort: a failing destruction is recorded, the
    /// remaining objects are still destroyed, and the first error, if any,
    /// is reported at the end.
    pub fn cleanup_swapchain(&mut self) -> (r: Result<(), RenderError>)
        requires
            old(self).wf(),
        ensures
            final(self).frame == old(self).frame,
            final(self).max_frames_in_flight == old(self).max_frames_in_flight,
            final(self).image_index == old(self).image_index,
            final(self).in_flight_fences == old(self).in_flight_fences,
            final(self).image_availables == old(self).image_availables,
            final(self).render_finisheds == old(self).render_finisheds,
            final(self).surface == old(self).surface,
            final(self).graphics_queue == old(self).graphics_queue,
            final(self).command_pool == old(self).command_pool,
            final(self).swapchain_render_pass == old(self).swapchain_render_pass,
            sync_free_extension(old(self).backend.log(), final(self).backend.log()),
            final(self).backend.wf(),
            final(self).backend.rp_cache() == old(self).backend.rp_cache(),
            final(self).backend.fb_cache() == old(self).backend.fb_cache(),
            final(self).backend.spec_graphics_queue() == old(self).backend.spec_graphics_queue(),
            final(self).backend.registry() == (crate::registry::ResourceRegistry {
                images: final(self).backend.registry().images,
                image_views: final(self).backend.registry().image_views,
                swapchains: final(self).backend.registry().swapchains,
                framebuffers: final(self).backend.registry().framebuffers,
                ..old(self).backend.registry()
            }),
            forall|i: int|
                0 <= i < old(self).swapchain_framebuffers@.len() ==> !final(self).backend.framebuffer_live(old(self).swapchain_framebuffers@[i]),
            forall|i: int|
                0 <= i < old(self).swapchain_image_views@.len() ==> !final(self).backend.image_view_live(old(self).swapchain_image_views@[i]),
            !final(self).backend.image_view_live(old(self).depth_image_view),
            !final(self).backend.image_live(old(self).depth_image),
            !final(self).backend.swapchain_live(old(self).swapchain),
            !final(self).backend.registry().swapchains.spec_is_match(old(self).swapchain),
            final(self).backend.registry().swapchains.capacity() == old(self).backend.registry().swapchains.capacity(),
    {
        let mut first_err: Option<RenderError> = None;
        let n: usize = self.swapchain_framebuffers.len();
        let mut i: usize = 0;
        while i < n
            invariant
                self.backend.wf(),
                self.frame == old(self).frame,
                self.max_frames_in_flight == old(self).max_frames_in_flight,
                self.image_index == old(self).image_index,
                self.in_flight_fences == old(self).in_flight_fences,
                self.image_availables == old(self).image_availables,
                self.render_finisheds == old(self).render_finisheds,
                self.surface == old(self).surface,
                self.graphics_queue == old(self).graphics_queue,
                self.command_pool == old(self).command_pool,
                self.swapchain_render_pass == old(self).swapchain_render_pass,
                self.swapchain == old(self).swapchain,
                self.depth_image == old(self).depth_image,
                self.depth_image_view == old(self).depth_image_view,
                self.swapchain_framebuffers == old(self).swapchain_framebuffers,
                self.swapchain_image_views == old(self).swapchain_image_views,
                n == self.swapchain_framebuffers@.len(),
                i <= n,
                sync_free_extension(old(self).backend.log(), self.backend.log()),
                self.backend.rp_cache() == old(self).backend.rp_cache(),
                self.backend.fb_cache() == old(self).backend.fb_cache(),
                self.backend.spec_graphics_queue() == old(self).backend.spec_graphics_queue(),
                self.backend.registry() == (crate::registry::ResourceRegistry {
                    framebuffers: self.backend.registry().framebuffers,
                    ..old(self).backend.registry()
                }),
                old(self).backend.image_live(self.depth_image) ==> self.backend.image_live(
                    self.depth_image,
                ) && self.backend.image_entry(self.depth_image) == old(self).backend.image_entry(
                    self.depth_image,
                ),
                old(self).backend.swapchain_live(self.swapchain) ==> self.backend.swapchain_live(
                    self.swapchain,
                ) && self.backend.swapchain_entry(self.swapchain) == old(self).backend.swapchain_entry(self.swapchain),
                forall|j: int|
                    0 <= j < i ==> !self.backend.framebuffer_live(
                        old(self).swapchain_framebuffers@[j],
                    ),
            decreases n - i,
        {
            let fb = self.swapchain_framebuffers[i];
            match self.backend.destroy_framebuffer(fb) {
                Ok(_) => {},
                Err(e) => {
                    if first_err.is_none() {
                        first_err = Some(e);
                    }
                },
            }
            i = i + 1;
        }
        let view_count: usize = self.swapchain_image_views.len();
        let mut v: usize = 0;
        while v < view_count
            invariant
                self.backend.wf(),
                self.frame == old(self).frame,
                self.max_frames_in_flight == old(self).max_frames_in_flight,
                self.image_index == old(self).image_index,
                self.in_flight_fences == old(self).in_flight_fences,
                self.image_availables == old(self).image_availables,
                self.render_finisheds == old(self).render_finisheds,
                self.surface == old(self).surface,
                self.graphics_queue == old(self).graphics_queue,
                self.command_pool == old(self).command_pool,
                self.swapchain_render_pass == old(self).swapchain_render_pass,
                self.swapchain == old(self).swapchain,
                self.depth_image == old(self).depth_image,
                self.depth_image_view == old(self).depth_image_view,
                self.swapchain_framebuffers == old(self).swapchain_framebuffers,
                self.swapchain_image_views == old(self).swapchain_image_views,
                view_count == self.swapchain_image_views@.len(),
                v <= view_count,
                sync_free_extension(old(self).backend.log(), self.backend.log()),
                self.backend.rp_cache() == old(self).backend.rp_cache(),
                self.backend.fb_cache() == old(self).backend.fb_cache(),
                self.backend.spec_graphics_queue() == old(self).backend.spec_graphics_queue(),
                self.backend.registry() == (crate::registry::ResourceRegistry {
                    image_views: self.backend.registry().image_views,
                    framebuffers: self.backend.registry().framebuffers,
                    ..old(self).backend.registry()
                }),
                forall|j: int|
                    0 <= j < old(self).swapchain_framebuffers@.len() ==> !self.backend.framebuffer_live(old(self).swapchain_framebuffers@[j]),
                forall|j: int|
                    0 <= j < v ==> !self.backend.image_view_live(
                        old(self).swapchain_image_views@[j],
                    ),
                old(self).backend.image_live(self.depth_image) ==> self.backend.image_live(
                    self.depth_image,
                ) && self.backend.image_entry(self.depth_image) == old(self).backend.image_entry(
                    self.depth_image,
                ),
                old(self).backend.swapchain_live(self.swapchain) ==> self.backend.swapchain_live(
                    self.swapchain,
                ) && self.backend.swapchain_entry(self.swapchain) == old(self).backend.swapchain_entry(self.swapchain),
            decreases view_count - v,
        {
            let view = self.swapchain_image_views[v];
            match self.backend.destroy_image_view(view) {
                Ok(_) => {},
                Err(e) => {
                    if first_err.is_none() {
                        first_err = Some(e);
                    }
                },
            }
            v = v + 1;
        }
        match self.backend.destroy_image_view(self.depth_image_view) {
            Ok(_) => {},
            Err(e) => {
                if first_err.is_none() {
                    first_err = Some(e);
                }
            },
        }
        match self.backend.destroy_image(self.depth_image) {
            Ok(_) => {},
            Err(e) => {
                if first_err.is_none() {
                    first_err = Some(e);
                }
            },
        }
        match self.backend.destroy_swapchain(self.swapchain) {
            Ok(_) => {},
            Err(e) => {
                if first_err.is_none() {
                    first_err = Some(e);
                }
            },
        }
        match first_err {
            Some(e) => Err(e),
            None => Ok(()),
        }
    }

    /// Recreates the swapchain at the new dimensions.
    ///
    /// One device-wide idle wait — stronger than any single slot's fence —
    /// is issued first, and it is the only one: every swapchain-owned
    /// object may still be referenced by in-flight GPU work of *any* slot,
    /// so nothing is destroyed before it.  Then the framebuffers, depth
    /// buffer and swapchain are destroyed and rebuilt wholesale, and the
    /// depth image is transitioned into its attachment layout.  The fixed
    /// set of frame slots is not touched.
    pub fn recreate_swapchain(&mut self, width: u32, height: u32) -> (r: Result<(), RenderError>)
        requires
            old(self).wf(),
        ensures
            recreation_extension(old(self).backend.log(), final(self).backend.log()),
            final(self).frame == old(self).frame,
            final(self).max_frames_in_flight == old(self).max_frames_in_flight,
            final(self).in_flight_fences == old(self).in_flight_fences,
            final(self).image_availables == old(self).image_availables,
            final(self).render_finisheds == old(self).render_finisheds,
            final(self).image_index == old(self).image_index,
            r is Ok ==> {
                &&& final(self).wf()
                &&& !final(self).backend.swapchain_live(old(self).swapchain)
                &&& final(self).backend.swapchain_live(final(self).swapchain)
                &&& final(self).backend.swapchain_entry(final(self).swapchain).width == width
                &&& final(self).backend.swapchain_entry(final(self).swapchain).height == height
                &&& final(self).swapchain_framebuffers@.len() == final(self).max_frames_in_flight
            },
    {
        match self.backend.device_wait_idle() {
            Ok(_) => {},
            Err(e) => {
                return Err(e);
            },
        }
        match self.cleanup_swapchain() {
            Ok(_) => {},
            Err(e) => {
                return Err(e);
            },
        }
        let sc_desc = SwapchainCreateDesc {
            width,
            height,
            surface: self.surface,
            vsync: true,
            format: Format::B8G8R8A8_SRGB,
        };
        self.swapchain = match self.backend.create_swapchain(sc_desc) {
            Ok(h) => h,
            Err(e) => {
                return Err(e);
            },
        };
        let (depth_image, depth_image_view) = match create_depth(&mut self.backend, width, height) {
            Ok(pair) => pair,
            Err(e) => {
                return Err(e);
            },
        };
        self.depth_image = depth_image;
        self.depth_image_view = depth_image_view;
        match transition_image_layout(
            &mut self.backend,
            self.command_pool,
            self.graphics_queue,
            depth_image,
            ImageLayout::Undefined,
            ImageLayout::DepthStencilAttachmentOptimal,
            ImageAspectFlags::depth(),
        ) {
            Ok(_) => {},
            Err(e) => {
                return Err(e);
            },
        }
        self.swapchain_framebuffers.clear();
        self.swapchain_image_views.clear();
        let count: usize = self.max_frames_in_flight;
        let mut i: usize = 0;
        while i < count
            invariant
                self.backend.wf(),
                count == self.max_frames_in_flight,
                self.frame == old(self).frame,
                self.max_frames_in_flight == old(self).max_frames_in_flight,
                self.in_flight_fences == old(self).in_flight_fences,
                self.image_availables == old(self).image_availables,
                self.render_finisheds == old(self).render_finisheds,
                self.image_index == old(self).image_index,
                self.surface == old(self).surface,
                self.graphics_queue == old(self).graphics_queue,
                self.command_pool == old(self).command_pool,
                self.swapchain_render_pass == old(self).swapchain_render_pass,
                1 <= self.max_frames_in_flight,
                self.frame < self.max_frames_in_flight,
                self.in_flight_fences@.len() == self.max_frames_in_flight,
                self.image_availables@.len() == self.max_frames_in_flight,
                self.render_finisheds@.len() == self.max_frames_in_flight,
                self.image_index < self.max_frames_in_flight,
                forall|j: int|
                    0 <= j < self.max_frames_in_flight ==> self.backend.fence_live(
                        #[trigger] self.in_flight_fences@[j],
                    ),
                forall|j: int|
                    0 <= j < self.max_frames_in_flight ==> self.backend.semaphore_live(
                        #[trigger] self.image_availables@[j],
                    ),
                forall|j: int|
                    0 <= j < self.max_frames_in_flight ==> self.backend.semaphore_live(
                        #[trigger] self.render_finisheds@[j],
                    ),
                i <= count,
                self.swapchain_framebuffers@.len() == i as int,
                self.swapchain_image_views@.len() == i as int,
                forall|j: int|
                    0 <= j < i ==> self.backend.framebuffer_live(
                        #[trigger] self.swapchain_framebuffers@[j],
                    ),
                forall|j: int|
                    0 <= j < i ==> self.backend.image_view_live(
                        #[trigger] self.swapchain_image_views@[j],
                    ),
                self.backend.queue_live(self.graphics_queue),
                self.backend.surface_live(self.surface),
                self.backend.swapchain_live(self.swapchain),
                self.backend.command_pool_live(self.command_pool),
                self.backend.render_pass_live(self.swapchain_render_pass),
                self.backend.image_live(self.depth_image),
                self.backend.image_view_live(self.depth_image_view),
                recreation_extension(old(self).backend.log(), self.backend.log()),
                !self.backend.registry().swapchains.spec_is_match(old(self).swapchain),
                self.backend.swapchain_entry(self.swapchain).width == width,
                self.backend.swapchain_entry(self.swapchain).height == height,
            decreases count - i,
        {
            let back_buffer = match self.backend.get_swapchain_back_buffer(self.swapchain, i) {
                Ok(h) => h,
                Err(e) => {
                    return Err(e);
                },
            };
            let view_desc = ImageViewCreateDesc::default();
            let view = match self.backend.create_image_view(back_buffer, &view_desc) {
                Ok(h) => h,
                Err(e) => {
                    return Err(e);
                },
            };
            let fb_desc = crate::define::FramebufferCreateDesc {
                render_pass: self.swapchain_render_pass,
                color_views: vec![view],
                depth_stencil_view: Some(self.depth_image_view),
            };
            let fb = match self.backend.create_framebuffer(&fb_desc) {
                Ok(h) => h,
                Err(e) => {
                    return Err(e);
                },
            };
            proof {
                assert(self.backend.image_view_live(view));
                assert(forall|j: int|
                    0 <= j < self.swapchain_image_views@.len() ==> self.backend.image_view_live(
                        #[trigger] self.swapchain_image_views@[j],
                    ));
            }
            self.swapchain_framebuffers.push(fb);
            self.swapchain_image_views.push(view);
            i = i + 1;
        }
        proof {
            self.backend.lemma_unmatched_swapchain_not_live(old(self).swapchain);
        }
        Ok(())
    }

    /// Tears the render system down: the depth buffer and its view, every
    /// frame slot's fence and semaphores, the framebuffers and back-buffer
    /// views, the swapchain, the command pool, the render pass, and the
    /// surface.  Teardown is best-effort: a failing destruction is recorded
    /// and the remaining resources are still released; the first error, if
    /// any, is reported at the end.
    pub fn destroy(&mut self) -> (r: Result<(), RenderError>)
        requires
            old(self).wf(),
        ensures
            sync_free_extension(old(self).backend.log(), final(self).backend.log()),
            !final(self).backend.image_live(old(self).depth_image),
            forall|i: int|
                0 <= i < old(self).max_frames_in_flight ==> !final(self).backend.fence_live(
                    #[trigger] old(self).in_flight_fences@[i],
                ),
            forall|i: int|
                0 <= i < old(self).max_frames_in_flight ==> !final(self).backend.semaphore_live(
                    #[trigger] old(self).image_availables@[i],
                ),
            forall|i: int|
                0 <= i < old(self).max_frames_in_flight ==> !final(self).backend.semaphore_live(
                    #[trigger] old(self).render_finisheds@[i],
                ),
            forall|i: int|
                0 <= i < old(self).swapchain_framebuffers@.len() ==> !final(self).backend.framebuffer_live(#[trigger] old(self).swapchain_framebuffers@[i]),
            forall|i: int|
                0 <= i < old(self).swapchain_image_views@.len() ==> !final(self).backend.image_view_live(#[trigger] old(self).swapchain_image_views@[i]),
            !final(self).backend.image_view_live(old(self).depth_image_view),
            !final(self).backend.swapchain_live(old(self).swapchain),
            !final(self).backend.command_pool_live(old(self).command_pool),
            !final(self).backend.render_pass_live(old(self).swapchain_render_pass),
            !final(self).backend.surface_live(old(self).surface),
    {
        let mut first_err: Option<RenderError> = None;
        match self.backend.destroy_image(self.depth_image) {
            Ok(_) => {},
            Err(e) => {
                first_err = Some(e);
            },
        }
        match self.backend.destroy_image_view(self.depth_image_view) {
            Ok(_) => {},
            Err(e) => {
                if first_err.is_none() {
                    first_err = Some(e);
                }
            },
        }
        let n: usize = self.max_frames_in_flight;
        let mut i: usize = 0;
        while i < n
            invariant
                self.backend.wf(),
                n == self.max_frames_in_flight,
                self.max_frames_in_flight == old(self).max_frames_in_flight,
                self.in_flight_fences == old(self).in_flight_fences,
                self.image_availables == old(self).image_availables,
                self.render_finisheds == old(self).render_finisheds,
                self.swapchain_framebuffers == old(self).swapchain_framebuffers,
                self.swapchain == old(self).swapchain,
                self.command_pool == old(self).command_pool,
                self.swapchain_render_pass == old(self).swapchain_render_pass,
                self.surface == old(self).surface,
                self.depth_image == old(self).depth_image,
                self.depth_image_view == old(self).depth_image_view,
                self.in_flight_fences@.len() == self.max_frames_in_flight,
                self.image_availables@.len() == self.max_frames_in_flight,
                self.render_finisheds@.len() == self.max_frames_in_flight,
                i <= n,
                sync_free_extension(old(self).backend.log(), self.backend.log()),
                !self.backend.image_live(old(self).depth_image),
                !self.backend.image_view_live(old(self).depth_image_view),
                self.swapchain_image_views == old(self).swapchain_image_views,
                forall|j: int|
                    0 <= j < i ==> !self.backend.fence_live(
                        #[trigger] old(self).in_flight_fences@[j],
                    ),
                forall|j: int|
                    0 <= j < i ==> !self.backend.semaphore_live(
                        #[trigger] old(self).image_availables@[j],
                    ),
                forall|j: int|
                    0 <= j < i ==> !self.backend.semaphore_live(
                        #[trigger] old(self).render_finisheds@[j],
                    ),
            decreases n - i,
        {
            match self.backend.destroy_fence(self.in_flight_fences[i]) {
                Ok(_) => {},
                Err(e) => {
                    if first_err.is_none() {
                        first_err = Some(e);
                    }
                },
            }
            match self.backend.destroy_semaphore(self.image_availables[i]) {
                Ok(_) => {},
                Err(e) => {
                    if first_err.is_none() {
                        first_err = Some(e);
                    }
                },
            }
            match self.backend.destroy_semaphore(self.render_finisheds[i]) {
                Ok(_) => {},
                Err(e) => {
                    if first_err.is_none() {
                        first_err = Some(e);
                    }
                },
            }
            i = i + 1;
        }
        let m: usize = self.swapchain_framebuffers.len();
        let mut k: usize = 0;
        while k < m
            invariant
                self.backend.wf(),
                self.max_frames_in_flight == old(self).max_frames_in_flight,
                self.in_flight_fences == old(self).in_flight_fences,
                self.image_availables == old(self).image_availables,
                self.render_finisheds == old(self).render_finisheds,
                self.swapchain_framebuffers == old(self).swapchain_framebuffers,
                self.swapchain == old(self).swapchain,
                self.command_pool == old(self).command_pool,
                self.swapchain_render_pass == old(self).swapchain_render_pass,
                self.surface == old(self).surface,
                self.depth_image == old(self).depth_image,
                self.depth_image_view == old(self).depth_image_view,
                m == self.swapchain_framebuffers@.len(),
                k <= m,
                sync_free_extension(old(self).backend.log(), self.backend.log()),
                !self.backend.image_live(old(self).depth_image),
                !self.backend.image_view_live(old(self).depth_image_view),
                self.swapchain_image_views == old(self).swapchain_image_views,
                forall|j: int|
                    0 <= j < self.max_frames_in_flight ==> !self.backend.fence_live(
                        #[trigger] old(self).in_flight_fences@[j],
                    ),
                forall|j: int|
                    0 <= j < self.max_frames_in_flight ==> !self.backend.semaphore_live(
                        #[trigger] old(self).image_availables@[j],
                    ),
                forall|j: int|
                    0 <= j < self.max_frames_in_flight ==> !self.backend.semaphore_live(
                        #[trigger] old(self).render_finisheds@[j],
                    ),
                forall|j: int|
                    0 <= j < k ==> !self.backend.framebuffer_live(
                        #[trigger] old(self).swapchain_framebuffers@[j],
                    ),
            decreases m - k,
        {
            match self.backend.destroy_framebuffer(self.swapchain_framebuffers[k]) {
                Ok(_) => {},
                Err(e) => {
                    if first_err.is_none() {
                        first_err = Some(e);
                    }
                },
            }
            k = k + 1;
        }
        let view_count: usize = self.swapchain_image_views.len();
        let mut v: usize = 0;
        while v < view_count
            invariant
                self.backend.wf(),
                self.max_frames_in_flight == old(self).max_frames_in_flight,
                self.in_flight_fences == old(self).in_flight_fences,
                self.image_availables == old(self).image_availables,
                self.render_finisheds == old(self).render_finisheds,
                self.swapchain_framebuffers == old(self).swapchain_framebuffers,
                self.swapchain_image_views == old(self).swapchain_image_views,
                self.swapchain == old(self).swapchain,
                self.command_pool == old(self).command_pool,
                self.swapchain_render_pass == old(self).swapchain_render_pass,
                self.surface == old(self).surface,
                self.depth_image == old(self).depth_image,
                self.depth_image_view == old(self).depth_image_view,
                view_count == self.swapchain_image_views@.len(),
                v <= view_count,
                sync_free_extension(old(self).backend.log(), self.backend.log()),
                !self.backend.image_live(old(self).depth_image),
                !self.backend.image_view_live(old(self).depth_image_view),
                forall|j: int|
                    0 <= j < self.max_frames_in_flight ==> !self.backend.fence_live(
                        #[trigger] old(self).in_flight_fences@[j],
                    ),
                forall|j: int|
                    0 <= j < self.max_frames_in_flight ==> !self.backend.semaphore_live(
                        #[trigger] old(self).image_availables@[j],
                    ),
                forall|j: int|
                    0 <= j < self.max_frames_in_flight ==> !self.backend.semaphore_live(
                        #[trigger] old(self).render_finisheds@[j],
                    ),
                forall|j: int|
                    0 <= j < self.swapchain_framebuffers@.len() ==> !self.backend.framebuffer_live(
                        #[trigger] old(self).swapchain_framebuffers@[j],
                    ),
                forall|j: int|
                    0 <= j < v ==> !self.backend.image_view_live(
                        #[trigger] old(self).swapchain_image_views@[j],
                    ),
            decreases view_count - v,
        {
            match self.backend.destroy_image_view(self.swapchain_image_views[v]) {
                Ok(_) => {},
                Err(e) => {
                    if first_err.is_none() {
                        first_err = Some(e);
                    }
                },
            }
            v = v + 1;
        }
        match self.backend.destroy_swapchain(self.swapchain) {
            Ok(_) => {},
            Err(e) => {
                if first_err.is_none() {
                    first_err = Some(e);
                }
            },
        }
        match self.backend.destroy_command_pool(self.command_pool) {
            Ok(_) => {},
            Err(e) => {
                if first_err.is_none() {
                    first_err = Some(e);
                }
            },
        }
        match self.backend.destroy_render_pass(self.swapchain_render_pass) {
            Ok(_) => {},
            Err(e) => {
                if first_err.is_none() {
                    first_err = Some(e);
                }
            },
        }
        match self.backend.destroy_surface(self.surface) {
            Ok(_) => {},
            Err(e) => {
                if first_err.is_none() {
                    first_err = Some(e);
                }
            },
        }
        match first_err {
            Some(e) => Err(e),
            None => Ok(()),
        }
    }
}

} // verus!
