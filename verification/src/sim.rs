//! A self-contained driver: a [`RenderDriver`] implementation that performs
//! no native work.  It hands out sequential raw identities, records every
//! call, rotates back-buffer indices, and can be scripted to report
//! out-of-date acquisitions or suboptimal presents — which is what the
//! frame scheduler's surface-lifecycle handling reacts to.  Tests drive the
//! scheduler against it and inspect the recorded calls.

use crate::define::{ImageCreateDesc, ImageViewCreateDesc, RenderPassOutput};
use crate::driver::{
    lemma_view_calls_push, view_calls, AcquireOutcome, DriverCall, DriverOp, FramebufferDesc,
    RawImageBarrier, RenderDriver,
};
use crate::enums::{CommandBufferLevel, Format, ImageTiling, QueueType};
use crate::error::RenderError;
use crate::flag::{FormatFeatureFlags, PipelineStageFlags};
use vstd::prelude::*;

verus! {

/// The driver that drives nothing: it only keeps books.
pub struct SimDriver {
    calls: Vec<DriverCall>,
    next_raw: u64,
    created_keys: Ghost<Set<u64>>,
    image_count: u32,
    next_image: u32,
    acquire_script: Vec<AcquireOutcome>,
    acquire_cursor: usize,
    present_script: Vec<bool>,
    present_cursor: usize,
}

impl SimDriver {
    /// A fresh simulated driver whose swapchains have `image_count` back
    /// buffers.
    pub fn new(image_count: u32) -> (r: Self)
        requires
            image_count >= 1,
        ensures
            r.inv(),
            r.log() == Seq::<DriverOp>::empty(),
            r.created() == Set::<u64>::empty(),
    {
        let r = SimDriver {
            calls: Vec::new(),
            next_raw: 1,
            created_keys: Ghost(Set::empty()),
            image_count,
            next_image: 0,
            acquire_script: Vec::new(),
            acquire_cursor: 0,
            present_script: Vec::new(),
            present_cursor: 0,
        };
        proof {
            assert(r.log() =~= Seq::<DriverOp>::empty());
        }
        r
    }

    /// Scripts the outcome of the next unscripted acquisition; outcomes are
    /// consumed in the order they were scripted, after which acquisition
    /// rotates through back-buffer indices.
    pub fn script_acquire(&mut self, outcome: AcquireOutcome)
        requires
            old(self).inv(),
        ensures
            final(self).inv(),
            final(self).log() == old(self).log(),
            final(self).created() == old(self).created(),
    {
        self.acquire_script.push(outcome);
    }

    /// Scripts whether the next unscripted present reports a suboptimal
    /// surface.
    pub fn script_present_suboptimal(&mut self, suboptimal: bool)
        requires
            old(self).inv(),
        ensures
            final(self).inv(),
            final(self).log() == old(self).log(),
            final(self).created() == old(self).created(),
    {
        self.present_script.push(suboptimal);
    }

    /// The recorded calls, oldest first.
    pub fn calls(&self) -> (r: &Vec<DriverCall>)
        ensures
            view_calls(r@) == self.log(),
    {
        &self.calls
    }

    /// Hands out the next raw identity, or fails when the space is spent.
    fn take_raw(&mut self) -> (r: Result<u64, RenderError>)
        requires
            old(self).inv(),
        ensures
            final(self).inv(),
            final(self).calls == old(self).calls,
            final(self).created_keys == old(self).created_keys,
            final(self).image_count == old(self).image_count,
            final(self).next_image == old(self).next_image,
            final(self).acquire_script == old(self).acquire_script,
            final(self).acquire_cursor == old(self).acquire_cursor,
            final(self).present_script == old(self).present_script,
            final(self).present_cursor == old(self).present_cursor,
            match r {
                Ok(raw) => {
                    &&& raw == old(self).next_raw
                    &&& final(self).next_raw == old(self).next_raw + 1
                    &&& !old(self).created().contains(raw)
                },
                Err(_) => *final(self) == *old(self),
            },
    {
        if self.next_raw == u64::MAX {
            return Err(RenderError::Driver(0));
        }
        let raw: u64 = self.next_raw;
        self.next_raw = self.next_raw + 1;
        Ok(raw)
    }
}

impl RenderDriver for SimDriver {
    /// Raw identities start at 1 and grow; every remembered key is below the
    /// next one; back-buffer rotation stays within the image count.
    closed spec fn inv(&self) -> bool {
        &&& 1 <= self.next_raw
        &&& forall|x: u64| self.created_keys@.contains(x) ==> x < self.next_raw
        &&& 1 <= self.image_count
        &&& self.next_image < self.image_count
    }

    closed spec fn log(&self) -> Seq<DriverOp> {
        view_calls(self.calls@)
    }

    closed spec fn created(&self) -> Set<u64> {
        self.created_keys@
    }

    fn create_fence(&mut self, signal: bool) -> (r: Result<u64, RenderError>) {
        let raw: u64 = match self.take_raw() {
            Ok(raw) => raw,
            Err(e) => {
                return Err(e);
            },
        };
        let ghost cs = self.calls@;
        self.calls.push(DriverCall::CreateFence { fence: raw, signal });
        proof {
            lemma_view_calls_push(cs, DriverCall::CreateFence { fence: raw, signal });
        }
        Ok(raw)
    }

    fn destroy_fence(&mut self, fence: u64) -> (r: Result<(), RenderError>) {
        let ghost cs = self.calls@;
        self.calls.push(DriverCall::DestroyFence(fence));
        proof {
            lemma_view_calls_push(cs, DriverCall::DestroyFence(fence));
        }
        Ok(())
    }

    fn wait_for_fences(&mut self, fences: &Vec<u64>, wait_all: bool, timeout_ns: u64) -> (r: Result<
        (),
        RenderError,
    >) {
        let recorded = crate::driver::clone_raw_list(fences);
        let ghost cs = self.calls@;
        self.calls.push(DriverCall::WaitFences(recorded));
        proof {
            assert(view_calls(self.calls@) =~= view_calls(cs).push(
                DriverOp::WaitFences(fences@),
            ));
        }
        Ok(())
    }

    fn reset_fences(&mut self, fences: &Vec<u64>) -> (r: Result<(), RenderError>) {
        let recorded = crate::driver::clone_raw_list(fences);
        let ghost cs = self.calls@;
        self.calls.push(DriverCall::ResetFences(recorded));
        proof {
            assert(view_calls(self.calls@) =~= view_calls(cs).push(
                DriverOp::ResetFences(fences@),
            ));
        }
        Ok(())
    }

    fn create_semaphore(&mut self) -> (r: Result<u64, RenderError>) {
        let raw: u64 = match self.take_raw() {
            Ok(raw) => raw,
            Err(e) => {
                return Err(e);
            },
        };
        let ghost cs = self.calls@;
        self.calls.push(DriverCall::CreateSemaphore(raw));
        proof {
            lemma_view_calls_push(cs, DriverCall::CreateSemaphore(raw));
        }
        Ok(raw)
    }

    fn destroy_semaphore(&mut self, semaphore: u64) -> (r: Result<(), RenderError>) {
        let ghost cs = self.calls@;
        self.calls.push(DriverCall::DestroySemaphore(semaphore));
        proof {
            lemma_view_calls_push(cs, DriverCall::DestroySemaphore(semaphore));
        }
        Ok(())
    }

    fn create_surface(&mut self) -> (r: Result<u64, RenderError>) {
        let raw: u64 = match self.take_raw() {
            Ok(raw) => raw,
            Err(e) => {
                return Err(e);
            },
        };
        let ghost cs = self.calls@;
        self.calls.push(DriverCall::CreateSurface(raw));
        proof {
            lemma_view_calls_push(cs, DriverCall::CreateSurface(raw));
        }
        Ok(raw)
    }

    fn destroy_surface(&mut self, surface: u64) -> (r: Result<(), RenderError>) {
        let ghost cs = self.calls@;
        self.calls.push(DriverCall::DestroySurface(surface));
        proof {
            lemma_view_calls_push(cs, DriverCall::DestroySurface(surface));
        }
        Ok(())
    }

    fn create_swapchain(
        &mut self,
        surface: u64,
        width: u32,
        height: u32,
        format: Format,
        vsync: bool,
    ) -> (r: Result<(u64, Vec<u64>), RenderError>) {
        let raw: u64 = match self.take_raw() {
            Ok(raw) => raw,
            Err(e) => {
                return Err(e);
            },
        };
        let mut images: Vec<u64> = Vec::new();
        let mut i: u32 = 0;
        while i < self.image_count
            invariant
                self.inv(),
                i <= self.image_count,
                images@.len() == i as int,
                self.calls == old(self).calls,
                self.created_keys == old(self).created_keys,
                self.image_count == old(self).image_count,
                self.next_image == old(self).next_image,
                self.acquire_script == old(self).acquire_script,
                self.acquire_cursor == old(self).acquire_cursor,
                self.present_script == old(self).present_script,
                self.present_cursor == old(self).present_cursor,
            decreases self.image_count - i,
        {
            let image_raw: u64 = match self.take_raw() {
                Ok(image_raw) => image_raw,
                Err(_) => {
                    return Err(RenderError::Driver(0));
                },
            };
            images.push(image_raw);
            i = i + 1;
        }
        let ghost cs = self.calls@;
        self.calls.push(DriverCall::CreateSwapchain(raw));
        proof {
            lemma_view_calls_push(cs, DriverCall::CreateSwapchain(raw));
        }
        Ok((raw, images))
    }

    fn destroy_swapchain(&mut self, swapchain: u64) -> (r: Result<(), RenderError>) {
        let ghost cs = self.calls@;
        self.calls.push(DriverCall::DestroySwapchain(swapchain));
        proof {
            lemma_view_calls_push(cs, DriverCall::DestroySwapchain(swapchain));
        }
        Ok(())
    }

    fn acquire_next_image(
        &mut self,
        swapchain: u64,
        timeout_ns: u64,
        semaphore: u64,
        fence: Option<u64>,
    ) -> (r: Result<AcquireOutcome, RenderError>) {
        let outcome: AcquireOutcome = if self.acquire_cursor < self.acquire_script.len() {
            let scripted = self.acquire_script[self.acquire_cursor];
            self.acquire_cursor = self.acquire_cursor + 1;
            scripted
        } else {
            let index: u32 = self.next_image;
            self.next_image = (self.next_image + 1) % self.image_count;
            AcquireOutcome::Index(index, false)
        };
        let ghost cs = self.calls@;
        self.calls.push(DriverCall::AcquireImage { swapchain, semaphore, outcome: Some(outcome) });
        proof {
            lemma_view_calls_push(
                cs,
                DriverCall::AcquireImage { swapchain, semaphore, outcome: Some(outcome) },
            );
        }
        Ok(outcome)
    }

    fn present(&mut self, queue: u64, swapchain: u64, image_index: u32, wait_semaphores: &Vec<
        u64,
    >) -> (r: Result<bool, RenderError>) {
        let suboptimal: bool = if self.present_cursor < self.present_script.len() {
            let scripted = self.present_script[self.present_cursor];
            self.present_cursor = self.present_cursor + 1;
            scripted
        } else {
            false
        };
        let recorded = crate::driver::clone_raw_list(wait_semaphores);
        let ghost cs = self.calls@;
        self.calls.push(
            DriverCall::Present {
                queue,
                swapchain,
                image_index,
                wait_semaphores: recorded,
                suboptimal: Some(suboptimal),
            },
        );
        proof {
            assert(view_calls(self.calls@) =~= view_calls(cs).push(
                DriverOp::Present {
                    queue,
                    swapchain,
                    image_index,
                    wait_semaphores: wait_semaphores@,
                    suboptimal: Some(suboptimal),
                },
            ));
        }
        Ok(suboptimal)
    }

    fn device_wait_idle(&mut self) -> (r: Result<(), RenderError>) {
        let ghost cs = self.calls@;
        self.calls.push(DriverCall::DeviceWaitIdle);
        proof {
            lemma_view_calls_push(cs, DriverCall::DeviceWaitIdle);
        }
        Ok(())
    }

    fn queue_wait_idle(&mut self, queue: u64) -> (r: Result<(), RenderError>) {
        let ghost cs = self.calls@;
        self.calls.push(DriverCall::QueueWaitIdle(queue));
        proof {
            lemma_view_calls_push(cs, DriverCall::QueueWaitIdle(queue));
        }
        Ok(())
    }

    fn submit(
        &mut self,
        queue: u64,
        command_buffers: &Vec<u64>,
        wait_semaphores: &Vec<u64>,
        wait_stages: &Vec<PipelineStageFlags>,
        signal_semaphores: &Vec<u64>,
        fence: Option<u64>,
    ) -> (r: Result<(), RenderError>) {
        let recorded_cbs = crate::driver::clone_raw_list(command_buffers);
        let recorded_waits = crate::driver::clone_raw_list(wait_semaphores);
        let recorded_stages = crate::driver::clone_flag_list(wait_stages);
        let recorded_signals = crate::driver::clone_raw_list(signal_semaphores);
        let ghost cs = self.calls@;
        self.calls.push(
            DriverCall::Submit {
                queue,
                command_buffers: recorded_cbs,
                wait_semaphores: recorded_waits,
                wait_stages: recorded_stages,
                signal_semaphores: recorded_signals,
                fence,
            },
        );
        proof {
            assert(view_calls(self.calls@) =~= view_calls(cs).push(
                DriverOp::Submit {
                    queue,
                    command_buffers: command_buffers@,
                    wait_semaphores: wait_semaphores@,
                    wait_stages: wait_stages@,
                    signal_semaphores: signal_semaphores@,
                    fence,
                },
            ));
        }
        Ok(())
    }

    fn create_image(&mut self, desc: &ImageCreateDesc) -> (r: Result<u64, RenderError>) {
        let raw: u64 = match self.take_raw() {
            Ok(raw) => raw,
            Err(e) => {
                return Err(e);
            },
        };
        let ghost cs = self.calls@;
        self.calls.push(DriverCall::CreateImage(raw));
        proof {
            lemma_view_calls_push(cs, DriverCall::CreateImage(raw));
        }
        Ok(raw)
    }

    fn destroy_image(&mut self, image: u64) -> (r: Result<(), RenderError>) {
        let ghost cs = self.calls@;
        self.calls.push(DriverCall::DestroyImage(image));
        proof {
            lemma_view_calls_push(cs, DriverCall::DestroyImage(image));
        }
        Ok(())
    }

    fn create_image_view(&mut self, image: u64, desc: &ImageViewCreateDesc) -> (r: Result<
        u64,
        RenderError,
    >) {
        let raw: u64 = match self.take_raw() {
            Ok(raw) => raw,
            Err(e) => {
                return Err(e);
            },
        };
        let ghost cs = self.calls@;
        self.calls.push(DriverCall::CreateImageView(raw));
        proof {
            lemma_view_calls_push(cs, DriverCall::CreateImageView(raw));
        }
        Ok(raw)
    }

    fn destroy_image_view(&mut self, view: u64) -> (r: Result<(), RenderError>) {
        let ghost cs = self.calls@;
        self.calls.push(DriverCall::DestroyImageView(view));
        proof {
            lemma_view_calls_push(cs, DriverCall::DestroyImageView(view));
        }
        Ok(())
    }

    fn create_render_pass(&mut self, output: &RenderPassOutput) -> (r: Result<u64, RenderError>) {
        let raw: u64 = match self.take_raw() {
            Ok(raw) => raw,
            Err(e) => {
                return Err(e);
            },
        };
        self.created_keys = Ghost(self.created_keys@.insert(raw));
        let ghost cs = self.calls@;
        self.calls.push(DriverCall::CreateRenderPass(raw));
        proof {
            lemma_view_calls_push(cs, DriverCall::CreateRenderPass(raw));
        }
        Ok(raw)
    }

    fn destroy_render_pass(&mut self, render_pass: u64) -> (r: Result<(), RenderError>) {
        let ghost cs = self.calls@;
        self.calls.push(DriverCall::DestroyRenderPass(render_pass));
        proof {
            lemma_view_calls_push(cs, DriverCall::DestroyRenderPass(render_pass));
        }
        Ok(())
    }

    fn create_framebuffer(&mut self, desc: &FramebufferDesc) -> (r: Result<u64, RenderError>) {
        let raw: u64 = match self.take_raw() {
            Ok(raw) => raw,
            Err(e) => {
                return Err(e);
            },
        };
        self.created_keys = Ghost(self.created_keys@.insert(raw));
        let ghost cs = self.calls@;
        self.calls.push(DriverCall::CreateFramebuffer(raw));
        proof {
            lemma_view_calls_push(cs, DriverCall::CreateFramebuffer(raw));
        }
        Ok(raw)
    }

    fn destroy_framebuffer(&mut self, framebuffer: u64) -> (r: Result<(), RenderError>) {
        let ghost cs = self.calls@;
        self.calls.push(DriverCall::DestroyFramebuffer(framebuffer));
        proof {
            lemma_view_calls_push(cs, DriverCall::DestroyFramebuffer(framebuffer));
        }
        Ok(())
    }

    fn create_command_pool(&mut self, queue: u64) -> (r: Result<u64, RenderError>) {
        let raw: u64 = match self.take_raw() {
            Ok(raw) => raw,
            Err(e) => {
                return Err(e);
            },
        };
        let ghost cs = self.calls@;
        self.calls.push(DriverCall::CreateCommandPool(raw));
        proof {
            lemma_view_calls_push(cs, DriverCall::CreateCommandPool(raw));
        }
        Ok(raw)
    }

    fn destroy_command_pool(&mut self, command_pool: u64) -> (r: Result<(), RenderError>) {
        let ghost cs = self.calls@;
        self.calls.push(DriverCall::DestroyCommandPool(command_pool));
        proof {
            lemma_view_calls_push(cs, DriverCall::DestroyCommandPool(command_pool));
        }
        Ok(())
    }

    fn create_command_buffer(&mut self, command_pool: u64, level: CommandBufferLevel) -> (r: Result<
        u64,
        RenderError,
    >) {
        let raw: u64 = match self.take_raw() {
            Ok(raw) => raw,
            Err(e) => {
                return Err(e);
            },
        };
        let ghost cs = self.calls@;
        self.calls.push(DriverCall::CreateCommandBuffer(raw));
        proof {
            lemma_view_calls_push(cs, DriverCall::CreateCommandBuffer(raw));
        }
        Ok(raw)
    }

    fn destroy_command_buffer(&mut self, command_buffer: u64) -> (r: Result<(), RenderError>) {
        let ghost cs = self.calls@;
        self.calls.push(DriverCall::DestroyCommandBuffer(command_buffer));
        proof {
            lemma_view_calls_push(cs, DriverCall::DestroyCommandBuffer(command_buffer));
        }
        Ok(())
    }

    fn cmd_begin(&mut self, command_buffer: u64, one_time_submit: bool) -> (r: Result<
        (),
        RenderError,
    >) {
        let ghost cs = self.calls@;
        self.calls.push(DriverCall::CmdBegin(command_buffer));
        proof {
            lemma_view_calls_push(cs, DriverCall::CmdBegin(command_buffer));
        }
        Ok(())
    }

    fn cmd_end(&mut self, command_buffer: u64) -> (r: Result<(), RenderError>) {
        let ghost cs = self.calls@;
        self.calls.push(DriverCall::CmdEnd(command_buffer));
        proof {
            lemma_view_calls_push(cs, DriverCall::CmdEnd(command_buffer));
        }
        Ok(())
    }

    fn cmd_pipeline_barrier(
        &mut self,
        command_buffer: u64,
        src_stage_mask: PipelineStageFlags,
        dst_stage_mask: PipelineStageFlags,
        barriers: &Vec<RawImageBarrier>,
    ) -> (r: Result<(), RenderError>) {
        let recorded = crate::driver::clone_barrier_list(barriers);
        let ghost cs = self.calls@;
        self.calls.push(
            DriverCall::CmdPipelineBarrier {
                command_buffer,
                src_stage_mask,
                dst_stage_mask,
                barriers: recorded,
            },
        );
        proof {
            assert(view_calls(self.calls@) =~= view_calls(cs).push(
                DriverOp::CmdPipelineBarrier {
                    command_buffer,
                    src_stage_mask,
                    dst_stage_mask,
                    barriers: barriers@,
                },
            ));
        }
        Ok(())
    }

    fn get_queue(&self, queue_type: QueueType) -> (r: Result<u64, RenderError>) {
        match queue_type {
            QueueType::Graphics => Ok(0),
            QueueType::Compute => Err(RenderError::QueueNotFound),
            QueueType::Transfer => Err(RenderError::QueueNotFound),
            QueueType::Present => Ok(0),
        }
    }

    /// The simulated device supports every format for every use.
    closed spec fn spec_format_supported(
        &self,
        format: Format,
        tiling: ImageTiling,
        feature: FormatFeatureFlags,
    ) -> bool {
        true
    }

    fn format_supported(
        &self,
        format: Format,
        tiling: ImageTiling,
        feature: FormatFeatureFlags,
    ) -> (r: bool) {
        true
    }
}

} // verus!
