//! Tests of the backend and frame scheduler over the simulated driver:
//! structural deduplication of render passes and framebuffers, per-slot
//! synchronization, single idle wait on recreation, and the end-to-end
//! frame loop with an out-of-date surface.

use luxseed::backend::RenderBackend;
use luxseed::define::{Fence, RenderPassOutput, SwapchainCreateDesc};
use luxseed::driver::{AcquireOutcome, DriverCall};
use luxseed::enums::{
    Format, ImageLayout, QueueType, RenderTargetLoadAction, SampleCount,
};
use luxseed::error::RenderError;
use luxseed::pool::Handle;
use luxseed::render_system::RenderSystem;
use luxseed::sim::SimDriver;

fn swapchain_output() -> RenderPassOutput {
    RenderPassOutput::builder()
        .add_color(
            Format::B8G8R8A8_SRGB,
            ImageLayout::PresentSrcKhr,
            RenderTargetLoadAction::Clear,
            SampleCount::Sample1,
        )
        .set_depth_stencil(
            Format::D32_SFLOAT,
            ImageLayout::DepthStencilAttachmentOptimal,
            RenderTargetLoadAction::Clear,
            RenderTargetLoadAction::DontCare,
            SampleCount::Sample1,
        )
        .build()
}

#[test]
fn render_pass_cache_shares_equal_shapes() {
    let mut backend = RenderBackend::new(SimDriver::new(3), 16).unwrap();
    let out1 = swapchain_output();
    let out2 = swapchain_output();
    let h1 = backend.create_render_pass(&out1).unwrap();
    let h2 = backend.create_render_pass(&out2).unwrap();
    // Two handles, one backend object.
    assert_ne!((h1.index(), h1.generation()), (h2.index(), h2.generation()));
    let raw1 = backend.resolve_render_pass(h1).unwrap();
    let raw2 = backend.resolve_render_pass(h2).unwrap();
    assert_eq!(raw1, raw2);
    // Only one render pass ever reached the driver.
    let creates = backend
        .driver_ref()
        .calls()
        .iter()
        .filter(|c| matches!(c, DriverCall::CreateRenderPass(_)))
        .count();
    assert_eq!(creates, 1);
}

#[test]
fn render_pass_cache_distinguishes_differing_shapes() {
    let mut backend = RenderBackend::new(SimDriver::new(3), 16).unwrap();
    let out1 = swapchain_output();
    let out2 = RenderPassOutput::builder()
        .add_color(
            Format::R8G8B8A8_UNORM,
            ImageLayout::PresentSrcKhr,
            RenderTargetLoadAction::Clear,
            SampleCount::Sample1,
        )
        .build();
    let h1 = backend.create_render_pass(&out1).unwrap();
    let h2 = backend.create_render_pass(&out2).unwrap();
    let raw1 = backend.resolve_render_pass(h1).unwrap();
    let raw2 = backend.resolve_render_pass(h2).unwrap();
    assert_ne!(raw1, raw2);
}

#[test]
fn fence_destroy_invalidates_handle() {
    let mut backend = RenderBackend::new(SimDriver::new(2), 8).unwrap();
    let f = backend.create_fence(true).unwrap();
    assert!(backend.resolve_fence(f).is_some());
    backend.destroy_fence(f).unwrap();
    assert!(backend.resolve_fence(f).is_none());
    assert_eq!(backend.destroy_fence(f), Err(RenderError::HandleNotFound));
}

#[test]
fn get_queue_knows_only_graphics() {
    let backend = RenderBackend::new(SimDriver::new(2), 8).unwrap();
    assert!(backend.get_queue(QueueType::Graphics).is_ok());
    assert_eq!(
        backend.get_queue(QueueType::Transfer).err(),
        Some(RenderError::QueueNotFound)
    );
}

#[test]
fn stale_wait_reports_not_found() {
    let mut backend = RenderBackend::new(SimDriver::new(2), 8).unwrap();
    let bogus: Vec<Handle<Fence>> = vec![Handle::default()];
    assert_eq!(
        backend.wait_for_fences(&bogus, true, u64::MAX),
        Err(RenderError::HandleNotFound)
    );
}

#[test]
fn swapchain_reports_its_back_buffers() {
    let mut backend = RenderBackend::new(SimDriver::new(3), 8).unwrap();
    let surface = backend.create_surface().unwrap();
    let sc = backend
        .create_swapchain(SwapchainCreateDesc {
            width: 640,
            height: 480,
            surface,
            vsync: true,
            format: Format::B8G8R8A8_SRGB,
        })
        .unwrap();
    assert_eq!(backend.get_swapchain_image_count(sc), Ok(3));
    let b0 = backend.get_swapchain_back_buffer(sc, 0).unwrap();
    let b1 = backend.get_swapchain_back_buffer(sc, 1).unwrap();
    assert_ne!((b0.index(), b0.generation()), (b1.index(), b1.generation()));
    assert_eq!(
        backend.get_swapchain_back_buffer(sc, 3),
        Err(RenderError::ImageIndexOutOfRange)
    );
}

/// Frame slots in flight: each `begin_frame` waits on its own slot's fence
/// and passes its own slot's semaphore to the acquisition, cycling with
/// the slot cursor and never using another slot's objects.
#[test]
fn begin_frame_waits_only_on_its_slot() {
    let rs_driver = SimDriver::new(3);
    let mut rs = RenderSystem::create(rs_driver, 800, 600).unwrap();
    let baseline = rs.backend.driver_ref().calls().len();
    for _ in 0..6 {
        assert_eq!(rs.begin_frame(800, 600), Ok(true));
        rs.end_frame(false, 800, 600).unwrap();
    }
    let calls = &rs.backend.driver_ref().calls()[baseline..];
    let waited: Vec<Vec<u64>> = calls
        .iter()
        .filter_map(|c| match c {
            DriverCall::WaitFences(f) => Some(f.clone()),
            _ => None,
        })
        .collect();
    let acquired: Vec<u64> = calls
        .iter()
        .filter_map(|c| match c {
            DriverCall::AcquireImage { semaphore, .. } => Some(*semaphore),
            _ => None,
        })
        .collect();
    assert_eq!(waited.len(), 6);
    assert_eq!(acquired.len(), 6);
    for w in &waited {
        assert_eq!(w.len(), 1);
    }
    // Slots rotate with period 3: same slot, same fence and semaphore.
    for i in 0..3 {
        assert_eq!(waited[i], waited[i + 3]);
        assert_eq!(acquired[i], acquired[i + 3]);
    }
    // Different slots use different sync objects.
    assert_ne!(waited[0], waited[1]);
    assert_ne!(waited[1], waited[2]);
    assert_ne!(waited[0], waited[2]);
    assert_ne!(acquired[0], acquired[1]);
    assert_ne!(acquired[1], acquired[2]);
}

fn is_destroy(c: &DriverCall) -> bool {
    matches!(
        c,
        DriverCall::DestroyFence(_)
            | DriverCall::DestroySemaphore(_)
            | DriverCall::DestroySurface(_)
            | DriverCall::DestroySwapchain(_)
            | DriverCall::DestroyImage(_)
            | DriverCall::DestroyImageView(_)
            | DriverCall::DestroyRenderPass(_)
            | DriverCall::DestroyFramebuffer(_)
            | DriverCall::DestroyCommandPool(_)
            | DriverCall::DestroyCommandBuffer(_)
    )
}

/// Exactly one device-wide idle wait per recreation, issued before any
/// destruction — whether the recreation was forced by the caller or
/// triggered by a suboptimal present.
#[test]
fn recreation_idles_the_device_exactly_once_before_destroying() {
    let mut rs = RenderSystem::create(SimDriver::new(3), 800, 600).unwrap();
    assert_eq!(rs.begin_frame(800, 600), Ok(true));
    let before = rs.backend.driver_ref().calls().len();
    // A caller-forced recreation (as after a window resize).
    rs.end_frame(true, 1024, 768).unwrap();
    let calls = &rs.backend.driver_ref().calls()[before..];
    let idle_positions: Vec<usize> = calls
        .iter()
        .enumerate()
        .filter_map(|(i, c)| matches!(c, DriverCall::DeviceWaitIdle).then_some(i))
        .collect();
    assert_eq!(idle_positions.len(), 1);
    let first_destroy = calls.iter().position(is_destroy).unwrap();
    assert!(idle_positions[0] < first_destroy);
}

/// The end-to-end scenario: three frame slots; a successful first frame
/// advances the slot only at `end_frame`; an out-of-date acquisition on
/// the second tick makes `begin_frame` report `false` after recreating
/// the swapchain, and the next tick succeeds again.
#[test]
fn frame_loop_handles_out_of_date_surface() {
    let mut driver = SimDriver::new(3);
    // First acquisition succeeds; the second reports the surface out of
    // date; later ones rotate normally again.
    driver.script_acquire(AcquireOutcome::Index(0, false));
    driver.script_acquire(AcquireOutcome::OutOfDate);
    let mut rs = RenderSystem::create(driver, 800, 600).unwrap();
    assert_eq!(rs.max_frames_in_flight, 3);
    assert_eq!(rs.frame, 0);

    assert_eq!(rs.begin_frame(800, 600), Ok(true));
    // The slot advances only after end_frame.
    assert_eq!(rs.frame, 0);
    rs.end_frame(false, 800, 600).unwrap();
    assert_eq!(rs.frame, 1);

    let before = rs.backend.driver_ref().calls().len();
    assert_eq!(rs.begin_frame(800, 600), Ok(false));
    // A recreation happened: one device-idle wait, then destruction.
    let calls = &rs.backend.driver_ref().calls()[before..];
    let idles = calls
        .iter()
        .filter(|c| matches!(c, DriverCall::DeviceWaitIdle))
        .count();
    assert_eq!(idles, 1);
    assert!(calls.iter().any(|c| matches!(c, DriverCall::DestroySwapchain(_))));
    assert!(calls.iter().any(|c| matches!(c, DriverCall::CreateSwapchain(_))));
    // The slot did not advance on the skipped tick.
    assert_eq!(rs.frame, 1);

    // The next tick renders normally again.
    assert_eq!(rs.begin_frame(800, 600), Ok(true));
    rs.end_frame(false, 800, 600).unwrap();
    assert_eq!(rs.frame, 2);
}

/// Present waits on the current slot's "render finished" semaphore.
#[test]
fn present_waits_on_the_slot_semaphore() {
    let mut rs = RenderSystem::create(SimDriver::new(2), 320, 200).unwrap();
    let slot_semaphore = rs.get_render_finished_semaphore();
    let slot_raw = rs.backend.resolve_semaphore(slot_semaphore).unwrap();
    assert_eq!(rs.begin_frame(320, 200), Ok(true));
    let before = rs.backend.driver_ref().calls().len();
    rs.end_frame(false, 320, 200).unwrap();
    let calls = &rs.backend.driver_ref().calls()[before..];
    match &calls[0] {
        DriverCall::Present { wait_semaphores, .. } => {
            assert_eq!(wait_semaphores, &vec![slot_raw]);
        },
        other => panic!("expected a present, saw {:?}", other),
    }
}

#[test]
fn destroy_releases_everything() {
    let mut rs = RenderSystem::create(SimDriver::new(2), 320, 200).unwrap();
    rs.destroy().unwrap();
    let calls = rs.backend.driver_ref().calls();
    let fences_destroyed = calls
        .iter()
        .filter(|c| matches!(c, DriverCall::DestroyFence(_)))
        .count();
    let semaphores_destroyed = calls
        .iter()
        .filter(|c| matches!(c, DriverCall::DestroySemaphore(_)))
        .count();
    // Two back-buffer views and the depth view go with the rest.
    let views_destroyed = calls
        .iter()
        .filter(|c| matches!(c, DriverCall::DestroyImageView(_)))
        .count();
    assert_eq!(fences_destroyed, 2);
    assert_eq!(semaphores_destroyed, 4);
    assert_eq!(views_destroyed, 3);
    assert!(calls.iter().any(|c| matches!(c, DriverCall::DestroySurface(_))));
}

/// Recreation destroys the image views the old swapchain owned — the
/// back-buffer views and the depth view — and builds fresh ones.
#[test]
fn recreation_destroys_and_rebuilds_the_views() {
    let mut rs = RenderSystem::create(SimDriver::new(3), 640, 480).unwrap();
    let mark = rs.backend.driver_ref().calls().len();
    rs.recreate_swapchain(800, 600).unwrap();
    let calls = &rs.backend.driver_ref().calls()[mark..];
    let views_destroyed = calls
        .iter()
        .filter(|c| matches!(c, DriverCall::DestroyImageView(_)))
        .count();
    let views_created = calls
        .iter()
        .filter(|c| matches!(c, DriverCall::CreateImageView(_)))
        .count();
    assert_eq!(views_destroyed, 4);
    assert_eq!(views_created, 4);
}

/// A submission's wait and signal semaphores reach the driver resolved.
#[test]
fn submit_passes_wait_and_signal_semaphores() {
    let mut backend = RenderBackend::new(SimDriver::new(2), 8).unwrap();
    let queue = backend.get_queue(QueueType::Graphics).unwrap();
    let wait = backend.create_semaphore().unwrap();
    let signal = backend.create_semaphore().unwrap();
    let wait_raw = backend.resolve_semaphore(wait).unwrap();
    let signal_raw = backend.resolve_semaphore(signal).unwrap();
    let pool = backend.create_command_pool(queue).unwrap();
    let cb = backend
        .create_command_buffer(pool, luxseed::enums::CommandBufferLevel::Primary)
        .unwrap();
    let desc = luxseed::define::QueueSubmitDesc {
        wait_semaphore: Some(vec![wait]),
        wait_stage: Some(vec![luxseed::flag::PipelineStageFlags::color_attachment_output()]),
        command_buffer: vec![cb],
        finish_semaphore: Some(vec![signal]),
        fence: None,
    };
    backend.queue_submit(queue, &desc).unwrap();
    let last = backend.driver_ref().calls().last().unwrap().clone();
    match last {
        DriverCall::Submit { wait_semaphores, signal_semaphores, command_buffers, .. } => {
            assert_eq!(wait_semaphores, vec![wait_raw]);
            assert_eq!(signal_semaphores, vec![signal_raw]);
            assert_eq!(command_buffers.len(), 1);
        },
        other => panic!("expected a submission, saw {:?}", other),
    }
}

#[test]
fn framebuffer_cache_shares_equal_shapes() {
    let mut backend = RenderBackend::new(SimDriver::new(2), 16).unwrap();
    let surface = backend.create_surface().unwrap();
    let sc = backend
        .create_swapchain(SwapchainCreateDesc {
            width: 64,
            height: 64,
            surface,
            vsync: true,
            format: Format::B8G8R8A8_SRGB,
        })
        .unwrap();
    let rp = backend.create_render_pass(&swapchain_output()).unwrap();
    let bb = backend.get_swapchain_back_buffer(sc, 0).unwrap();
    let view = backend
        .create_image_view(bb, &luxseed::define::ImageViewCreateDesc::default())
        .unwrap();
    let desc = luxseed::define::FramebufferCreateDesc {
        render_pass: rp,
        color_views: vec![view],
        depth_stencil_view: None,
    };
    let f1 = backend.create_framebuffer(&desc).unwrap();
    let f2 = backend.create_framebuffer(&desc.clone()).unwrap();
    assert_eq!(
        backend.resolve_framebuffer(f1).unwrap(),
        backend.resolve_framebuffer(f2).unwrap()
    );
    let creates = backend
        .driver_ref()
        .calls()
        .iter()
        .filter(|c| matches!(c, DriverCall::CreateFramebuffer(_)))
        .count();
    assert_eq!(creates, 1);
}

#[test]
fn frame_slot_fences_are_created_signaled() {
    let rs = RenderSystem::create(SimDriver::new(3), 320, 200).unwrap();
    let fences: Vec<bool> = rs
        .backend
        .driver_ref()
        .calls()
        .iter()
        .filter_map(|c| match c {
            DriverCall::CreateFence { signal, .. } => Some(*signal),
            _ => None,
        })
        .collect();
    assert_eq!(fences.len(), 3);
    assert!(fences.iter().all(|s| *s));
}

#[test]
fn acquisitions_record_their_outcome() {
    let mut rs = RenderSystem::create(SimDriver::new(2), 320, 200).unwrap();
    assert_eq!(rs.begin_frame(320, 200), Ok(true));
    let outcome = rs
        .backend
        .driver_ref()
        .calls()
        .iter()
        .rev()
        .find_map(|c| match c {
            DriverCall::AcquireImage { outcome, .. } => Some(*outcome),
            _ => None,
        })
        .unwrap();
    assert_eq!(outcome, Some(AcquireOutcome::Index(0, false)));
    assert_eq!(rs.image_index, 0);
}
