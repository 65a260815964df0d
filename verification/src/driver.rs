//! The raw GPU-driver capability interface.
//!
//! The verified backend and frame scheduler never speak to a native API
//! directly: every driver entry point they consume is a method of
//! [`RenderDriver`], working on raw object identities (`u64`).  Each method's
//! contract states how the driver's *operation log* — the abstract record of
//! the calls issued so far — is extended, so that properties such as "the
//! scheduler waits only on the current slot's fence" or "recreation issues
//! one device-wide idle wait before any destruction" can be stated and
//! proved about every implementation-independent caller.

use crate::define::{ImageCreateDesc, ImageViewCreateDesc, RenderPassOutput};
use crate::enums::{CommandBufferLevel, Format, ImageLayout, ImageTiling, QueueType};
use crate::error::RenderError;
use crate::flag::{AccessFlags, FormatFeatureFlags, ImageAspectFlags, PipelineStageFlags};
use vstd::prelude::*;

verus! {

/// One recorded driver call, at the specification level.
pub enum DriverOp {
    CreateFence { fence: u64, signal: bool },
    DestroyFence(u64),
    WaitFences(Seq<u64>),
    ResetFences(Seq<u64>),
    CreateSemaphore(u64),
    DestroySemaphore(u64),
    CreateSurface(u64),
    DestroySurface(u64),
    CreateSwapchain(u64),
    DestroySwapchain(u64),
    AcquireImage { swapchain: u64, semaphore: u64, outcome: Option<AcquireOutcome> },
    Present {
        queue: u64,
        swapchain: u64,
        image_index: u32,
        wait_semaphores: Seq<u64>,
        suboptimal: Option<bool>,
    },
    DeviceWaitIdle,
    QueueWaitIdle(u64),
    Submit {
        queue: u64,
        command_buffers: Seq<u64>,
        wait_semaphores: Seq<u64>,
        wait_stages: Seq<PipelineStageFlags>,
        signal_semaphores: Seq<u64>,
        fence: Option<u64>,
    },
    CreateImage(u64),
    DestroyImage(u64),
    CreateImageView(u64),
    DestroyImageView(u64),
    CreateRenderPass(u64),
    DestroyRenderPass(u64),
    CreateFramebuffer(u64),
    DestroyFramebuffer(u64),
    CreateCommandPool(u64),
    DestroyCommandPool(u64),
    CreateCommandBuffer(u64),
    DestroyCommandBuffer(u64),
    CmdBegin(u64),
    CmdEnd(u64),
    CmdPipelineBarrier {
        command_buffer: u64,
        src_stage_mask: PipelineStageFlags,
        dst_stage_mask: PipelineStageFlags,
        barriers: Seq<RawImageBarrier>,
    },
}

impl DriverOp {
    /// True of the one operation that waits for the whole device to go idle.
    pub open spec fn is_device_wait_idle(self) -> bool {
        self is DeviceWaitIdle
    }

    /// True of every operation that destroys a driver object.
    pub open spec fn is_destroy(self) -> bool {
        ||| self is DestroyFence
        ||| self is DestroySemaphore
        ||| self is DestroySurface
        ||| self is DestroySwapchain
        ||| self is DestroyImage
        ||| self is DestroyImageView
        ||| self is DestroyRenderPass
        ||| self is DestroyFramebuffer
        ||| self is DestroyCommandPool
        ||| self is DestroyCommandBuffer
    }
}

/// One recorded driver call, as executable data (lists are vectors here and
/// sequences in [`DriverOp`]).
#[derive(Debug, Clone, PartialEq, Eq)]
pub enum DriverCall {
    CreateFence { fence: u64, signal: bool },
    DestroyFence(u64),
    WaitFences(Vec<u64>),
    ResetFences(Vec<u64>),
    CreateSemaphore(u64),
    DestroySemaphore(u64),
    CreateSurface(u64),
    DestroySurface(u64),
    CreateSwapchain(u64),
    DestroySwapchain(u64),
    AcquireImage { swapchain: u64, semaphore: u64, outcome: Option<AcquireOutcome> },
    Present {
        queue: u64,
        swapchain: u64,
        image_index: u32,
        wait_semaphores: Vec<u64>,
        suboptimal: Option<bool>,
    },
    DeviceWaitIdle,
    QueueWaitIdle(u64),
    Submit {
        queue: u64,
        command_buffers: Vec<u64>,
        wait_semaphores: Vec<u64>,
        wait_stages: Vec<PipelineStageFlags>,
        signal_semaphores: Vec<u64>,
        fence: Option<u64>,
    },
    CreateImage(u64),
    DestroyImage(u64),
    CreateImageView(u64),
    DestroyImageView(u64),
    CreateRenderPass(u64),
    DestroyRenderPass(u64),
    CreateFramebuffer(u64),
    DestroyFramebuffer(u64),
    CreateCommandPool(u64),
    DestroyCommandPool(u64),
    CreateCommandBuffer(u64),
    DestroyCommandBuffer(u64),
    CmdBegin(u64),
    CmdEnd(u64),
    CmdPipelineBarrier {
        command_buffer: u64,
        src_stage_mask: PipelineStageFlags,
        dst_stage_mask: PipelineStageFlags,
        barriers: Vec<RawImageBarrier>,
    },
}

impl View for DriverCall {
    type V = DriverOp;

    open spec fn view(&self) -> DriverOp {
        match self {
            DriverCall::CreateFence { fence, signal } => DriverOp::CreateFence {
                fence: *fence,
                signal: *signal,
            },
            DriverCall::DestroyFence(x) => DriverOp::DestroyFence(*x),
            DriverCall::WaitFences(v) => DriverOp::WaitFences(v@),
            DriverCall::ResetFences(v) => DriverOp::ResetFences(v@),
            DriverCall::CreateSemaphore(x) => DriverOp::CreateSemaphore(*x),
            DriverCall::DestroySemaphore(x) => DriverOp::DestroySemaphore(*x),
            DriverCall::CreateSurface(x) => DriverOp::CreateSurface(*x),
            DriverCall::DestroySurface(x) => DriverOp::DestroySurface(*x),
            DriverCall::CreateSwapchain(x) => DriverOp::CreateSwapchain(*x),
            DriverCall::DestroySwapchain(x) => DriverOp::DestroySwapchain(*x),
            DriverCall::AcquireImage { swapchain, semaphore, outcome } => DriverOp::AcquireImage {
                swapchain: *swapchain,
                semaphore: *semaphore,
                outcome: *outcome,
            },
            DriverCall::Present { queue, swapchain, image_index, wait_semaphores, suboptimal } => {
                DriverOp::Present {
                    queue: *queue,
                    swapchain: *swapchain,
                    image_index: *image_index,
                    wait_semaphores: wait_semaphores@,
                    suboptimal: *suboptimal,
                }
            },
            DriverCall::DeviceWaitIdle => DriverOp::DeviceWaitIdle,
            DriverCall::QueueWaitIdle(x) => DriverOp::QueueWaitIdle(*x),
            DriverCall::Submit {
                queue,
                command_buffers,
                wait_semaphores,
                wait_stages,
                signal_semaphores,
                fence,
            } => {
                DriverOp::Submit {
                    queue: *queue,
                    command_buffers: command_buffers@,
                    wait_semaphores: wait_semaphores@,
                    wait_stages: wait_stages@,
                    signal_semaphores: signal_semaphores@,
                    fence: *fence,
                }
            },
            DriverCall::CreateImage(x) => DriverOp::CreateImage(*x),
            DriverCall::DestroyImage(x) => DriverOp::DestroyImage(*x),
            DriverCall::CreateImageView(x) => DriverOp::CreateImageView(*x),
            DriverCall::DestroyImageView(x) => DriverOp::DestroyImageView(*x),
            DriverCall::CreateRenderPass(x) => DriverOp::CreateRenderPass(*x),
            DriverCall::DestroyRenderPass(x) => DriverOp::DestroyRenderPass(*x),
            DriverCall::CreateFramebuffer(x) => DriverOp::CreateFramebuffer(*x),
            DriverCall::DestroyFramebuffer(x) => DriverOp::DestroyFramebuffer(*x),
            DriverCall::CreateCommandPool(x) => DriverOp::CreateCommandPool(*x),
            DriverCall::DestroyCommandPool(x) => DriverOp::DestroyCommandPool(*x),
            DriverCall::CreateCommandBuffer(x) => DriverOp::CreateCommandBuffer(*x),
            DriverCall::DestroyCommandBuffer(x) => DriverOp::DestroyCommandBuffer(*x),
            DriverCall::CmdBegin(x) => DriverOp::CmdBegin(*x),
            DriverCall::CmdEnd(x) => DriverOp::CmdEnd(*x),
            DriverCall::CmdPipelineBarrier { command_buffer, src_stage_mask, dst_stage_mask, barriers } => {
                DriverOp::CmdPipelineBarrier {
                    command_buffer: *command_buffer,
                    src_stage_mask: *src_stage_mask,
                    dst_stage_mask: *dst_stage_mask,
                    barriers: barriers@,
                }
            },
        }
    }
}

/// The sequence of recorded calls, viewed as operations.
pub open spec fn view_calls(calls: Seq<DriverCall>) -> Seq<DriverOp> {
    calls.map_values(|c: DriverCall| c@)
}

/// Appending one recorded call appends its view to the viewed sequence.
pub proof fn lemma_view_calls_push(calls: Seq<DriverCall>, c: DriverCall)
    ensures
        view_calls(calls.push(c)) == view_calls(calls).push(c@),
{
    assert(view_calls(calls.push(c)) =~= view_calls(calls).push(c@));
}

/// What an image acquisition reported.
#[derive(Debug, Clone, Copy, PartialEq, Eq, Structural)]
pub enum AcquireOutcome {
    /// The index of the acquired back buffer, and whether the surface is
    /// suboptimal for it.
    Index(u32, bool),
    /// The surface is out of date; the swapchain must be recreated before
    /// any further use.
    OutOfDate,
}

/// The raw shape of a framebuffer: the render pass and attachment views it
/// binds, by raw identity, and its dimensions.  This is the backend-internal
/// structural key under which framebuffers are deduplicated.
#[derive(Debug)]
pub struct FramebufferDesc {
    pub render_pass: u64,
    pub views: Vec<u64>,
    pub width: u32,
    pub height: u32,
    pub layers: u32,
}

/// Structural equality of raw framebuffer shapes.
pub open spec fn framebuffer_desc_eq(a: &FramebufferDesc, b: &FramebufferDesc) -> bool {
    &&& a.render_pass == b.render_pass
    &&& a.views@ == b.views@
    &&& a.width == b.width
    &&& a.height == b.height
    &&& a.layers == b.layers
}

impl Clone for FramebufferDesc {
    fn clone(&self) -> (r: Self)
        ensures
            framebuffer_desc_eq(&r, self),
    {
        FramebufferDesc {
            render_pass: self.render_pass,
            views: clone_raw_list(&self.views),
            width: self.width,
            height: self.height,
            layers: self.layers,
        }
    }
}

impl crate::cache::StructuralKey for FramebufferDesc {
    open spec fn key_eq(&self, other: &Self) -> bool {
        framebuffer_desc_eq(self, other)
    }

    proof fn key_eq_reflexive(&self) {
    }

    proof fn key_eq_symmetric(&self, other: &Self) {
    }

    proof fn key_eq_transitive(&self, b: &Self, c: &Self) {
    }

    fn eq_key(&self, other: &Self) -> (r: bool) {
        self.render_pass == other.render_pass && raws_eq(&self.views, &other.views) && self.width
            == other.width && self.height == other.height && self.layers == other.layers
    }

    fn clone_key(&self) -> (r: Self) {
        self.clone()
    }
}

pub(crate) fn clone_flag_list(v: &Vec<PipelineStageFlags>) -> (r: Vec<PipelineStageFlags>)
    ensures
        r@ == v@,
{
    let mut r: Vec<PipelineStageFlags> = Vec::new();
    let mut i: usize = 0;
    while i < v.len()
        invariant
            i <= v@.len(),
            r@ == v@.subrange(0, i as int),
        decreases v@.len() - i,
    {
        r.push(v[i]);
        i = i + 1;
    }
    proof {
        assert(r@ =~= v@);
    }
    r
}

pub(crate) fn clone_barrier_list(v: &Vec<RawImageBarrier>) -> (r: Vec<RawImageBarrier>)
    ensures
        r@ == v@,
{
    let mut r: Vec<RawImageBarrier> = Vec::new();
    let mut i: usize = 0;
    while i < v.len()
        invariant
            i <= v@.len(),
            r@ == v@.subrange(0, i as int),
        decreases v@.len() - i,
    {
        r.push(v[i]);
        i = i + 1;
    }
    proof {
        assert(r@ =~= v@);
    }
    r
}

pub(crate) fn clone_raw_list(v: &Vec<u64>) -> (r: Vec<u64>)
    ensures
        r@ == v@,
{
    let mut r: Vec<u64> = Vec::new();
    let mut i: usize = 0;
    while i < v.len()
        invariant
            i <= v@.len(),
            r@ == v@.subrange(0, i as int),
        decreases v@.len() - i,
    {
        r.push(v[i]);
        i = i + 1;
    }
    proof {
        assert(r@ =~= v@);
    }
    r
}

fn raws_eq(a: &Vec<u64>, b: &Vec<u64>) -> (r: bool)
    ensures
        r == (a@ == b@),
{
    if a.len() != b.len() {
        proof {
            assert(a@.len() != b@.len());
        }
        return false;
    }
    let mut i: usize = 0;
    while i < a.len()
        invariant
            i <= a@.len(),
            a@.len() == b@.len(),
            forall|j: int| 0 <= j < i ==> a@[j] == b@[j],
        decreases a@.len() - i,
    {
        if a[i] != b[i] {
            return false;
        }
        i = i + 1;
    }
    proof {
        assert(a@ =~= b@);
    }
    true
}

/// A raw-level image layout transition barrier.
#[derive(Debug, Clone, Copy, PartialEq, Eq, Structural)]
pub struct RawImageBarrier {
    pub image: u64,
    pub aspect_mask: ImageAspectFlags,
    pub old_layout: ImageLayout,
    pub new_layout: ImageLayout,
    pub src_access_mask: AccessFlags,
    pub dst_access_mask: AccessFlags,
}

/// The capability interface to the native GPU driver.
///
/// An implementation keeps two pieces of abstract state: `log()`, the
/// sequence of operations issued so far, and `created()`, the set of raw
/// render-pass and framebuffer identities it has ever handed out (these two
/// kinds feed the structural caches, whose injectivity rests on their
/// freshness).  `inv()` is the implementation's own well-formedness, which
/// every method preserves.
///
/// A method that fails (returns `Err`) while creating an object leaves the
/// log unchanged; every other method records its operation whether or not it
/// succeeds.
pub trait RenderDriver: Sized {
    /// Implementation-specific well-formedness.
    spec fn inv(&self) -> bool;

    /// The operations issued so far, oldest first.
    spec fn log(&self) -> Seq<DriverOp>;

    /// Every raw render-pass or framebuffer identity ever handed out.
    spec fn created(&self) -> Set<u64>;

    fn create_fence(&mut self, signal: bool) -> (r: Result<u64, RenderError>)
        requires
            old(self).inv(),
        ensures
            final(self).inv(),
            final(self).created() == old(self).created(),
            match r {
                Ok(raw) => final(self).log() == old(self).log().push(
                    DriverOp::CreateFence { fence: raw, signal },
                ),
                Err(_) => final(self).log() == old(self).log(),
            },
    ;

    fn destroy_fence(&mut self, fence: u64) -> (r: Result<(), RenderError>)
        requires
            old(self).inv(),
        ensures
            final(self).inv(),
            final(self).created() == old(self).created(),
            final(self).log() == old(self).log().push(DriverOp::DestroyFence(fence)),
    ;

    /// Blocks until the given fences are signaled (all of them when
    /// `wait_all` holds), or until `timeout_ns` elapses.
    fn wait_for_fences(&mut self, fences: &Vec<u64>, wait_all: bool, timeout_ns: u64) -> (r: Result<
        (),
        RenderError,
    >)
        requires
            old(self).inv(),
        ensures
            final(self).inv(),
            final(self).created() == old(self).created(),
            final(self).log() == old(self).log().push(DriverOp::WaitFences(fences@)),
    ;

    fn reset_fences(&mut self, fences: &Vec<u64>) -> (r: Result<(), RenderError>)
        requires
            old(self).inv(),
        ensures
            final(self).inv(),
            final(self).created() == old(self).created(),
            final(self).log() == old(self).log().push(DriverOp::ResetFences(fences@)),
    ;

    fn create_semaphore(&mut self) -> (r: Result<u64, RenderError>)
        requires
            old(self).inv(),
        ensures
            final(self).inv(),
            final(self).created() == old(self).created(),
            match r {
                Ok(raw) => final(self).log() == old(self).log().push(
                    DriverOp::CreateSemaphore(raw),
                ),
                Err(_) => final(self).log() == old(self).log(),
            },
    ;

    fn destroy_semaphore(&mut self, semaphore: u64) -> (r: Result<(), RenderError>)
        requires
            old(self).inv(),
        ensures
            final(self).inv(),
            final(self).created() == old(self).created(),
            final(self).log() == old(self).log().push(DriverOp::DestroySemaphore(semaphore)),
    ;

    fn create_surface(&mut self) -> (r: Result<u64, RenderError>)
        requires
            old(self).inv(),
        ensures
            final(self).inv(),
            final(self).created() == old(self).created(),
            match r {
                Ok(raw) => final(self).log() == old(self).log().push(DriverOp::CreateSurface(raw)),
                Err(_) => final(self).log() == old(self).log(),
            },
    ;

    fn destroy_surface(&mut self, surface: u64) -> (r: Result<(), RenderError>)
        requires
            old(self).inv(),
        ensures
            final(self).inv(),
            final(self).created() == old(self).created(),
            final(self).log() == old(self).log().push(DriverOp::DestroySurface(surface)),
    ;

    /// Creates a swapchain on `surface` and returns its raw identity along
    /// with the raw identities of its back-buffer images (at least one).
    fn create_swapchain(
        &mut self,
        surface: u64,
        width: u32,
        height: u32,
        format: Format,
        vsync: bool,
    ) -> (r: Result<(u64, Vec<u64>), RenderError>)
        requires
            old(self).inv(),
        ensures
            final(self).inv(),
            final(self).created() == old(self).created(),
            match r {
                Ok(pair) => {
                    &&& final(self).log() == old(self).log().push(
                        DriverOp::CreateSwapchain(pair.0),
                    )
                    &&& pair.1@.len() >= 1
                },
                Err(_) => final(self).log() == old(self).log(),
            },
    ;

    fn destroy_swapchain(&mut self, swapchain: u64) -> (r: Result<(), RenderError>)
        requires
            old(self).inv(),
        ensures
            final(self).inv(),
            final(self).created() == old(self).created(),
            final(self).log() == old(self).log().push(DriverOp::DestroySwapchain(swapchain)),
    ;

    /// Requests the next presentable image, to signal `semaphore` (and
    /// `fence`, if given) when it is available.  Blocks up to `timeout_ns`.
    fn acquire_next_image(
        &mut self,
        swapchain: u64,
        timeout_ns: u64,
        semaphore: u64,
        fence: Option<u64>,
    ) -> (r: Result<AcquireOutcome, RenderError>)
        requires
            old(self).inv(),
        ensures
            final(self).inv(),
            final(self).created() == old(self).created(),
            final(self).log() == old(self).log().push(
                DriverOp::AcquireImage {
                    swapchain,
                    semaphore,
                    outcome: match r {
                        Ok(outcome) => Some(outcome),
                        Err(_) => None,
                    },
                },
            ),
    ;

    /// Presents `image_index` of `swapchain` on `queue` after the given
    /// semaphores are signaled; the result says whether the surface is
    /// suboptimal.
    fn present(&mut self, queue: u64, swapchain: u64, image_index: u32, wait_semaphores: &Vec<
        u64,
    >) -> (r: Result<bool, RenderError>)
        requires
            old(self).inv(),
        ensures
            final(self).inv(),
            final(self).created() == old(self).created(),
            final(self).log() == old(self).log().push(
                DriverOp::Present {
                    queue,
                    swapchain,
                    image_index,
                    wait_semaphores: wait_semaphores@,
                    suboptimal: match r {
                        Ok(suboptimal) => Some(suboptimal),
                        Err(_) => None,
                    },
                },
            ),
    ;

    /// Blocks until every piece of work submitted to the device completes.
    fn device_wait_idle(&mut self) -> (r: Result<(), RenderError>)
        requires
            old(self).inv(),
        ensures
            final(self).inv(),
            final(self).created() == old(self).created(),
            final(self).log() == old(self).log().push(DriverOp::DeviceWaitIdle),
    ;

    fn queue_wait_idle(&mut self, queue: u64) -> (r: Result<(), RenderError>)
        requires
            old(self).inv(),
        ensures
            final(self).inv(),
            final(self).created() == old(self).created(),
            final(self).log() == old(self).log().push(DriverOp::QueueWaitIdle(queue)),
    ;

    fn submit(
        &mut self,
        queue: u64,
        command_buffers: &Vec<u64>,
        wait_semaphores: &Vec<u64>,
        wait_stages: &Vec<PipelineStageFlags>,
        signal_semaphores: &Vec<u64>,
        fence: Option<u64>,
    ) -> (r: Result<(), RenderError>)
        requires
            old(self).inv(),
        ensures
            final(self).inv(),
            final(self).created() == old(self).created(),
            final(self).log() == old(self).log().push(
                DriverOp::Submit {
                    queue,
                    command_buffers: command_buffers@,
                    wait_semaphores: wait_semaphores@,
                    wait_stages: wait_stages@,
                    signal_semaphores: signal_semaphores@,
                    fence,
                },
            ),
    ;

    fn create_image(&mut self, desc: &ImageCreateDesc) -> (r: Result<u64, RenderError>)
        requires
            old(self).inv(),
        ensures
            final(self).inv(),
            final(self).created() == old(self).created(),
            match r {
                Ok(raw) => final(self).log() == old(self).log().push(DriverOp::CreateImage(raw)),
                Err(_) => final(self).log() == old(self).log(),
            },
    ;

    fn destroy_image(&mut self, image: u64) -> (r: Result<(), RenderError>)
        requires
            old(self).inv(),
        ensures
            final(self).inv(),
            final(self).created() == old(self).created(),
            final(self).log() == old(self).log().push(DriverOp::DestroyImage(image)),
    ;

    fn create_image_view(&mut self, image: u64, desc: &ImageViewCreateDesc) -> (r: Result<
        u64,
        RenderError,
    >)
        requires
            old(self).inv(),
        ensures
            final(self).inv(),
            final(self).created() == old(self).created(),
            match r {
                Ok(raw) => final(self).log() == old(self).log().push(
                    DriverOp::CreateImageView(raw),
                ),
                Err(_) => final(self).log() == old(self).log(),
            },
    ;

    fn destroy_image_view(&mut self, view: u64) -> (r: Result<(), RenderError>)
        requires
            old(self).inv(),
        ensures
            final(self).inv(),
            final(self).created() == old(self).created(),
            final(self).log() == old(self).log().push(DriverOp::DestroyImageView(view)),
    ;

    /// Creates a render pass of the given shape.  The returned raw identity
    /// is fresh: it was never handed out before.
    fn create_render_pass(&mut self, output: &RenderPassOutput) -> (r: Result<u64, RenderError>)
        requires
            old(self).inv(),
        ensures
            final(self).inv(),
            match r {
                Ok(raw) => {
                    &&& final(self).log() == old(self).log().push(
                        DriverOp::CreateRenderPass(raw),
                    )
                    &&& !old(self).created().contains(raw)
                    &&& final(self).created() == old(self).created().insert(raw)
                },
                Err(_) => {
                    &&& final(self).log() == old(self).log()
                    &&& final(self).created() == old(self).created()
                },
            },
    ;

    fn destroy_render_pass(&mut self, render_pass: u64) -> (r: Result<(), RenderError>)
        requires
            old(self).inv(),
        ensures
            final(self).inv(),
            final(self).created() == old(self).created(),
            final(self).log() == old(self).log().push(DriverOp::DestroyRenderPass(render_pass)),
    ;

    /// Creates a framebuffer of the given raw shape.  The returned raw
    /// identity is fresh: it was never handed out before.
    fn create_framebuffer(&mut self, desc: &FramebufferDesc) -> (r: Result<u64, RenderError>)
        requires
            old(self).inv(),
        ensures
            final(self).inv(),
            match r {
                Ok(raw) => {
                    &&& final(self).log() == old(self).log().push(
                        DriverOp::CreateFramebuffer(raw),
                    )
                    &&& !old(self).created().contains(raw)
                    &&& final(self).created() == old(self).created().insert(raw)
                },
                Err(_) => {
                    &&& final(self).log() == old(self).log()
                    &&& final(self).created() == old(self).created()
                },
            },
    ;

    fn destroy_framebuffer(&mut self, framebuffer: u64) -> (r: Result<(), RenderError>)
        requires
            old(self).inv(),
        ensures
            final(self).inv(),
            final(self).created() == old(self).created(),
            final(self).log() == old(self).log().push(DriverOp::DestroyFramebuffer(framebuffer)),
    ;

    fn create_command_pool(&mut self, queue: u64) -> (r: Result<u64, RenderError>)
        requires
            old(self).inv(),
        ensures
            final(self).inv(),
            final(self).created() == old(self).created(),
            match r {
                Ok(raw) => final(self).log() == old(self).log().push(
                    DriverOp::CreateCommandPool(raw),
                ),
                Err(_) => final(self).log() == old(self).log(),
            },
    ;

    fn destroy_command_pool(&mut self, command_pool: u64) -> (r: Result<(), RenderError>)
        requires
            old(self).inv(),
        ensures
            final(self).inv(),
            final(self).created() == old(self).created(),
            final(self).log() == old(self).log().push(DriverOp::DestroyCommandPool(command_pool)),
    ;

    fn create_command_buffer(&mut self, command_pool: u64, level: CommandBufferLevel) -> (r: Result<
        u64,
        RenderError,
    >)
        requires
            old(self).inv(),
        ensures
            final(self).inv(),
            final(self).created() == old(self).created(),
            match r {
                Ok(raw) => final(self).log() == old(self).log().push(
                    DriverOp::CreateCommandBuffer(raw),
                ),
                Err(_) => final(self).log() == old(self).log(),
            },
    ;

    fn destroy_command_buffer(&mut self, command_buffer: u64) -> (r: Result<(), RenderError>)
        requires
            old(self).inv(),
        ensures
            final(self).inv(),
            final(self).created() == old(self).created(),
            final(self).log() == old(self).log().push(
                DriverOp::DestroyCommandBuffer(command_buffer),
            ),
    ;

    fn cmd_begin(&mut self, command_buffer: u64, one_time_submit: bool) -> (r: Result<
        (),
        RenderError,
    >)
        requires
            old(self).inv(),
        ensures
            final(self).inv(),
            final(self).created() == old(self).created(),
            final(self).log() == old(self).log().push(DriverOp::CmdBegin(command_buffer)),
    ;

    fn cmd_end(&mut self, command_buffer: u64) -> (r: Result<(), RenderError>)
        requires
            old(self).inv(),
        ensures
            final(self).inv(),
            final(self).created() == old(self).created(),
            final(self).log() == old(self).log().push(DriverOp::CmdEnd(command_buffer)),
    ;

    fn cmd_pipeline_barrier(
        &mut self,
        command_buffer: u64,
        src_stage_mask: PipelineStageFlags,
        dst_stage_mask: PipelineStageFlags,
        barriers: &Vec<RawImageBarrier>,
    ) -> (r: Result<(), RenderError>)
        requires
            old(self).inv(),
        ensures
            final(self).inv(),
            final(self).created() == old(self).created(),
            final(self).log() == old(self).log().push(
                DriverOp::CmdPipelineBarrier {
                    command_buffer,
                    src_stage_mask,
                    dst_stage_mask,
                    barriers: barriers@,
                },
            ),
    ;

    /// The raw identity of the device queue of the given type, if the device
    /// offers one.  A query: the driver is not changed.
    fn get_queue(&self, queue_type: QueueType) -> (r: Result<u64, RenderError>)
        requires
            self.inv(),
    ;

    /// Whether the device supports `feature` for `format` under `tiling`,
    /// as contracts see it: a fixed property of the device.
    spec fn spec_format_supported(
        &self,
        format: Format,
        tiling: ImageTiling,
        feature: FormatFeatureFlags,
    ) -> bool;

    /// Whether `format` supports `feature` under `tiling` on this device.
    /// A query: the driver is not changed.
    fn format_supported(&self, format: Format, tiling: ImageTiling, feature: FormatFeatureFlags)
        -> (r: bool)
        requires
            self.inv(),
        ensures
            r == self.spec_format_supported(format, tiling, feature),
    ;
}

} // verus!
