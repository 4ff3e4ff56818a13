use bevy_vulkano::{
    AcquireOutcome, FlushOutcome, FrameEnd, FrameError, FrameStage, FrameStart, PlatformRequest,
    PresentMode, SwapchainOutcome, VulkanoWinitWindow, DEFAULT_IMAGE_FORMAT,
};
use vulkano::format::Format;

fn session(image_count: usize) -> VulkanoWinitWindow {
    VulkanoWinitWindow::new(image_count, [640, 480], Format::B8G8R8A8_SRGB)
}

fn acquired(image_index: usize) -> AcquireOutcome {
    AcquireOutcome::Acquired { image_index, suboptimal: false }
}

#[test]
fn new_session_is_idle_with_resolved_future() {
    let window = session(3);
    assert_eq!(window.image_count(), 3);
    assert_eq!(window.image_index(), 0);
    assert_eq!(window.final_image_size(), [640, 480]);
    assert_eq!(window.swapchain_format(), Format::B8G8R8A8_SRGB);
    assert_eq!(window.stage(), FrameStage::Idle);
    assert_eq!(window.pending_request(), None);
    assert_eq!(window.previous_frame_end(), Some(FrameEnd::Resolved));
    assert!(!window.needs_recreation());
    assert!(!window.has_image_target(0));
}

#[test]
fn three_frames_rotate_through_a_ring_of_three() {
    let mut window = session(3);
    let mut seen: Vec<usize> = Vec::new();
    for frame in 0..3usize {
        assert_eq!(window.start_frame(), PlatformRequest::AcquireImage);
        let started = window.acquire_image(acquired((frame + 1) % 3)).unwrap();
        assert!(started.image_index < 3);
        assert_eq!(window.image_index(), started.image_index);
        assert_eq!(window.stage(), FrameStage::Rendering);
        if !seen.contains(&started.image_index) {
            seen.push(started.image_index);
        }
        let end = window.finish_frame(FlushOutcome::Flushed);
        assert_eq!(end, FrameEnd::Presented { image_index: started.image_index });
        assert_eq!(window.image_count(), 3);
        assert!(!window.needs_recreation());
    }
    assert!(seen.len() >= 2);
    assert_eq!(seen, vec![1, 2, 0]);
}

#[test]
fn out_of_date_acquisition_skips_the_frame_and_recreates_first() {
    let mut window = session(3);
    assert_eq!(window.start_frame(), PlatformRequest::AcquireImage);
    assert_eq!(window.acquire_image(AcquireOutcome::OutOfDate), Err(FrameError::OutOfDate));
    assert!(window.needs_recreation());
    assert_eq!(window.stage(), FrameStage::Idle);
    assert_eq!(window.previous_frame_end(), Some(FrameEnd::Resolved));

    assert_eq!(window.start_frame(), PlatformRequest::RecreateSwapchain);
    assert_eq!(window.pending_request(), Some(PlatformRequest::RecreateSwapchain));
    let resized = window
        .recreate_swapchain_and_views(SwapchainOutcome::Created {
            image_count: 3,
            image_size: [1024, 768],
        })
        .unwrap();
    assert!(resized.is_empty());
    assert!(!window.needs_recreation());
    assert_eq!(window.pending_request(), Some(PlatformRequest::AcquireImage));
    assert_eq!(
        window.acquire_image(acquired(0)),
        Ok(FrameStart { image_index: 0, previous_frame_end: FrameEnd::Resolved })
    );
    assert_eq!(window.final_image_size(), [1024, 768]);
}

#[test]
fn started_frame_hands_out_the_previous_frame_end() {
    let mut window = session(2);
    window.start_frame();
    let first = window.acquire_image(acquired(1)).unwrap();
    assert_eq!(first, FrameStart { image_index: 1, previous_frame_end: FrameEnd::Resolved });
    assert_eq!(window.previous_frame_end(), None);
    assert_eq!(window.pending_request(), None);
    assert_eq!(window.finish_frame(FlushOutcome::Flushed), FrameEnd::Presented { image_index: 1 });
    assert_eq!(window.previous_frame_end(), Some(FrameEnd::Presented { image_index: 1 }));

    window.start_frame();
    let second = window.acquire_image(acquired(0)).unwrap();
    assert_eq!(
        second,
        FrameStart { image_index: 0, previous_frame_end: FrameEnd::Presented { image_index: 1 } }
    );
}

#[test]
fn suboptimal_acquisition_renders_now_and_recreates_next_frame() {
    let mut window = session(3);
    window.start_frame();
    let started = window
        .acquire_image(AcquireOutcome::Acquired { image_index: 2, suboptimal: true })
        .unwrap();
    assert_eq!(started.image_index, 2);
    assert_eq!(window.stage(), FrameStage::Rendering);
    assert!(window.needs_recreation());
    window.finish_frame(FlushOutcome::Flushed);
    assert_eq!(window.start_frame(), PlatformRequest::RecreateSwapchain);
}

#[test]
fn failed_acquisition_is_fatal_and_changes_nothing() {
    let mut window = session(3);
    window.start_frame();
    assert_eq!(window.acquire_image(AcquireOutcome::Failed), Err(FrameError::Fatal));
    assert_eq!(window.stage(), FrameStage::AwaitingImage);
    assert!(!window.needs_recreation());
    assert_eq!(window.previous_frame_end(), Some(FrameEnd::Resolved));
}

#[test]
fn image_index_outside_the_swapchain_is_fatal() {
    let mut window = session(3);
    window.start_frame();
    assert_eq!(window.acquire_image(acquired(3)), Err(FrameError::Fatal));
    assert_eq!(window.image_index(), 0);
    assert_eq!(window.stage(), FrameStage::AwaitingImage);
    assert_eq!(window.acquire_image(acquired(2)).unwrap().image_index, 2);
}

#[test]
fn out_of_date_presentation_resets_the_future_and_schedules_recreation() {
    let mut window = session(3);
    window.start_frame();
    window.acquire_image(acquired(1)).unwrap();
    assert_eq!(window.finish_frame(FlushOutcome::OutOfDate), FrameEnd::Resolved);
    assert!(window.needs_recreation());
    assert_eq!(window.stage(), FrameStage::Idle);
    assert_eq!(window.previous_frame_end(), Some(FrameEnd::Resolved));
}

#[test]
fn failed_flush_resets_the_future_and_goes_on() {
    let mut window = session(3);
    window.start_frame();
    window.acquire_image(acquired(1)).unwrap();
    assert_eq!(window.finish_frame(FlushOutcome::Failed), FrameEnd::Resolved);
    assert!(!window.needs_recreation());
    assert_eq!(window.previous_frame_end(), Some(FrameEnd::Resolved));
    assert_eq!(window.start_frame(), PlatformRequest::AcquireImage);
}

#[test]
fn unsupported_dimensions_keep_recreation_pending_and_go_on_to_acquire() {
    let mut window = session(3);
    window.resize();
    assert_eq!(window.start_frame(), PlatformRequest::RecreateSwapchain);
    assert_eq!(
        window.recreate_swapchain_and_views(SwapchainOutcome::UnsupportedDimensions),
        Err(FrameError::UnsupportedDimensions)
    );
    assert!(window.needs_recreation());
    assert_eq!(window.final_image_size(), [640, 480]);
    assert_eq!(window.pending_request(), Some(PlatformRequest::AcquireImage));
    assert_eq!(window.acquire_image(acquired(0)).unwrap().image_index, 0);
    window.finish_frame(FlushOutcome::Flushed);
    assert_eq!(window.start_frame(), PlatformRequest::RecreateSwapchain);
}

#[test]
fn failed_recreation_is_fatal_and_changes_nothing() {
    let mut window = session(3);
    window.resize();
    window.start_frame();
    assert_eq!(
        window.recreate_swapchain_and_views(SwapchainOutcome::Failed),
        Err(FrameError::Fatal)
    );
    assert!(window.needs_recreation());
    assert_eq!(window.stage(), FrameStage::AwaitingSwapchain);
    assert_eq!(window.image_count(), 3);
}

#[test]
fn swapchain_without_images_is_fatal() {
    let mut window = session(3);
    window.resize();
    window.start_frame();
    assert_eq!(
        window.recreate_swapchain_and_views(SwapchainOutcome::Created {
            image_count: 0,
            image_size: [10, 10],
        }),
        Err(FrameError::Fatal)
    );
    assert_eq!(window.image_count(), 3);
    assert_eq!(window.final_image_size(), [640, 480]);
    assert!(window.needs_recreation());
}

#[test]
fn image_count_is_stable_while_nothing_is_recreated() {
    let mut window = session(4);
    let ring = [3usize, 0, 1, 2, 3, 0];
    for image_index in ring {
        assert_eq!(window.start_frame(), PlatformRequest::AcquireImage);
        let started = window.acquire_image(acquired(image_index)).unwrap();
        assert!(started.image_index < window.image_count());
        window.finish_frame(FlushOutcome::Flushed);
        assert_eq!(window.image_count(), 4);
        assert!(window.image_index() < window.image_count());
    }
}

#[test]
fn quiet_frames_never_ask_for_a_new_swapchain() {
    let mut window = session(2);
    window.add_image_target(1, None, Format::R8G8B8A8_UNORM);
    for frame in 0..5usize {
        assert_eq!(window.start_frame(), PlatformRequest::AcquireImage);
        assert_eq!(window.pending_request(), Some(PlatformRequest::AcquireImage));
        window.acquire_image(acquired(frame % 2)).unwrap();
        let flushed = if frame == 2 { FlushOutcome::Failed } else { FlushOutcome::Flushed };
        window.finish_frame(flushed);
        assert!(!window.needs_recreation());
        assert_eq!(window.image_count(), 2);
        assert_eq!(window.final_image_size(), [640, 480]);
        assert_eq!(window.get_image_target(1).unwrap().size, [640, 480]);
    }
}

#[test]
fn shrinking_swapchain_keeps_the_image_index_inside() {
    let mut window = session(3);
    window.start_frame();
    window.acquire_image(acquired(2)).unwrap();
    window.finish_frame(FlushOutcome::Flushed);
    window.resize();
    window.start_frame();
    window
        .recreate_swapchain_and_views(SwapchainOutcome::Created {
            image_count: 2,
            image_size: [320, 200],
        })
        .unwrap();
    assert_eq!(window.image_count(), 2);
    assert_eq!(window.image_index(), 0);
    assert_eq!(window.final_image().index, 0);
}

#[test]
fn recreation_keeps_an_image_index_that_still_fits() {
    let mut window = session(3);
    window.start_frame();
    window.acquire_image(acquired(1)).unwrap();
    window.finish_frame(FlushOutcome::Flushed);
    window.resize();
    window.start_frame();
    window
        .recreate_swapchain_and_views(SwapchainOutcome::Created {
            image_count: 2,
            image_size: [320, 200],
        })
        .unwrap();
    assert_eq!(window.image_index(), 1);
}

#[test]
fn resizing_twice_is_resizing_once() {
    let mut once = session(3);
    once.resize();
    let mut twice = session(3);
    twice.resize();
    twice.resize();
    assert_eq!(once.needs_recreation(), twice.needs_recreation());
    assert_eq!(once.stage(), twice.stage());

    assert_eq!(twice.start_frame(), PlatformRequest::RecreateSwapchain);
    twice
        .recreate_swapchain_and_views(SwapchainOutcome::Created {
            image_count: 3,
            image_size: [800, 600],
        })
        .unwrap();
    assert!(!twice.needs_recreation());
    twice.acquire_image(acquired(0)).unwrap();
    twice.finish_frame(FlushOutcome::Flushed);
    assert_eq!(twice.start_frame(), PlatformRequest::AcquireImage);
}

#[test]
fn resize_does_nothing_until_the_next_frame() {
    let mut window = session(3);
    window.resize();
    assert!(window.needs_recreation());
    assert_eq!(window.final_image_size(), [640, 480]);
    assert_eq!(window.image_count(), 3);
    assert_eq!(window.stage(), FrameStage::Idle);
}

#[test]
fn final_image_describes_the_current_target() {
    let mut window = session(3);
    window.start_frame();
    window.acquire_image(acquired(2)).unwrap();
    let image = window.final_image();
    assert_eq!(image.index, 2);
    assert_eq!(image.size, [640, 480]);
    assert_eq!(image.format, Format::B8G8R8A8_SRGB);
}

#[test]
fn default_image_format_is_rgba8_unorm() {
    let window = session(1);
    assert_eq!(window.default_image_format(), Format::R8G8B8A8_UNORM);
    assert_eq!(DEFAULT_IMAGE_FORMAT, Format::R8G8B8A8_UNORM);
}

#[test]
fn present_mode_follows_vsync() {
    assert_eq!(PresentMode::for_vsync(true), PresentMode::Fifo);
    assert_eq!(PresentMode::for_vsync(false), PresentMode::Immediate);
}
