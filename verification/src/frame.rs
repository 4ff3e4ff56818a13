use vstd::prelude::*;

verus! {

/// Presentation pacing of a swapchain.
#[derive(Clone, Copy, Debug, PartialEq, Eq, Structural)]
pub enum PresentMode {
    /// Frames queue behind the display's refresh.
    Fifo,
    /// Frames reach the display as soon as they are ready.
    Immediate,
}

impl PresentMode {
    /// The pacing a window configured with `vsync` asks for.
    pub open spec fn spec_for_vsync(vsync: bool) -> PresentMode {
        if vsync {
            PresentMode::Fifo
        } else {
            PresentMode::Immediate
        }
    }

    /// First-in-first-out when the window wants vertical sync, immediate
    /// otherwise.
    pub fn for_vsync(vsync: bool) -> (mode: PresentMode)
        ensures
            mode == Self::spec_for_vsync(vsync),
    {
        if vsync {
            PresentMode::Fifo
        } else {
            PresentMode::Immediate
        }
    }
}

/// Where a session stands in its frame cycle.
#[derive(Clone, Copy, Debug, PartialEq, Eq, Structural)]
pub enum FrameStage {
    /// Between frames; the session holds the in-flight future.
    Idle,
    /// A frame was opened while recreation was pending; the platform has been
    /// asked for a new swapchain and has not answered yet.
    AwaitingSwapchain,
    /// The platform has been asked for the next presentable image and has not
    /// answered yet.
    AwaitingImage,
    /// An image is acquired and the in-flight future is with the caller, who
    /// records and submits the frame's work.
    Rendering,
}

/// An operation the session asks the platform to perform.
#[derive(Clone, Copy, Debug, PartialEq, Eq, Structural)]
pub enum PlatformRequest {
    /// Query the window's pixel size and derive a new swapchain from the
    /// current one at that size.
    RecreateSwapchain,
    /// Acquire the next presentable image of the current swapchain.
    AcquireImage,
}

/// How the platform answered a request for a new swapchain.
#[derive(Clone, Copy, Debug, PartialEq, Eq)]
pub enum SwapchainOutcome {
    /// A new swapchain exists, with `image_count` presentable images of
    /// `image_size` pixels each.
    Created { image_count: usize, image_size: [u32; 2] },
    /// The platform does not support the requested dimensions.
    UnsupportedDimensions,
    /// Creation failed for any other reason.
    Failed,
}

/// How the platform answered a request for the next presentable image.
#[derive(Clone, Copy, Debug, PartialEq, Eq, Structural)]
pub enum AcquireOutcome {
    /// Image `image_index` is acquired; `suboptimal` tells that the swapchain
    /// still works but no longer matches the surface.
    Acquired { image_index: usize, suboptimal: bool },
    /// The surface changed and the swapchain can no longer be used.
    OutOfDate,
    /// Acquisition failed for any other reason.
    Failed,
}

/// How presenting and flushing a frame's work ended.
#[derive(Clone, Copy, Debug, PartialEq, Eq, Structural)]
pub enum FlushOutcome {
    /// The work was submitted and a fence will signal its completion.
    Flushed,
    /// Presentation found the swapchain out of date.
    OutOfDate,
    /// Flushing failed for any other reason.
    Failed,
}

/// What an in-flight future stands for.
#[derive(Clone, Copy, Debug, PartialEq, Eq, Structural)]
pub enum FrameEnd {
    /// No work is pending: a future that is already resolved on the device.
    Resolved,
    /// The fenced presentation of image `image_index`.
    Presented { image_index: usize },
}

/// A started frame: the image it targets and the future its work must wait
/// on, which is the join of `previous_frame_end` with the acquisition of image
/// `image_index`.
#[derive(Clone, Copy, Debug, PartialEq, Eq, Structural)]
pub struct FrameStart {
    /// Index of the acquired image in the swapchain's image sequence.
    pub image_index: usize,
    /// The in-flight future the session held, now handed to the caller.
    pub previous_frame_end: FrameEnd,
}

/// Why a frame could not proceed.
#[derive(Clone, Copy, Debug, PartialEq, Eq, Structural)]
pub enum FrameError {
    /// The swapchain is out of date: skip this frame and start another, which
    /// recreates the swapchain first.
    OutOfDate,
    /// The platform does not support the window's dimensions: recreation is
    /// abandoned for this frame and attempted again at a later one.
    UnsupportedDimensions,
    /// The platform failed in a way the session cannot recover from.
    Fatal,
}

} // verus!
