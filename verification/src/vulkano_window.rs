use crate::frame::{
    AcquireOutcome, FlushOutcome, FrameEnd, FrameError, FrameStage, FrameStart, PlatformRequest,
    SwapchainOutcome,
};
use crate::image_target::{ImageTarget, TargetError};
use crate::target_map::{follow_swapchain, lists_following, TargetMap, Targets};
use vstd::prelude::*;
use vulkano::format::Format;

verus! {

/// Mathematical state of a window's render session.
#[verifier::ext_equal]
pub struct SessionView {
    /// Number of presentable images of the current swapchain.
    pub image_count: nat,
    /// Pixel size of the swapchain's images.
    pub image_size: [u32; 2],
    /// Pixel format of the swapchain's images.
    pub swapchain_format: Format,
    /// The auxiliary targets, by key.
    pub targets: Targets,
    /// Whether the swapchain is recreated before the next acquisition.
    pub needs_recreation: bool,
    /// Position in the frame cycle.
    pub stage: FrameStage,
    /// The in-flight future, while the session holds it.
    pub previous_frame_end: Option<FrameEnd>,
    /// Index of the image the current or latest frame targets.
    pub image_index: nat,
}

impl SessionView {
    /// The invariant of every session: the swapchain has an image, the image
    /// index points at one of them, the in-flight future is held exactly while
    /// no frame is being rendered, and every target that follows the swapchain
    /// has the swapchain's size.
    pub open spec fn wf(self) -> bool {
        &&& 0 < self.image_count <= usize::MAX
        &&& self.image_index < self.image_count
        &&& self.previous_frame_end.is_none() == (self.stage == FrameStage::Rendering)
        &&& forall|key: usize| #[trigger]
            self.targets.contains_key(key) && self.targets[key].follows_swapchain
                ==> self.targets[key].size == self.image_size
    }

    /// A fresh session over a swapchain of `image_count` images: no targets,
    /// nothing pending, a resolved in-flight future.
    pub open spec fn initial(
        image_count: nat,
        image_size: [u32; 2],
        swapchain_format: Format,
    ) -> SessionView {
        SessionView {
            image_count,
            image_size,
            swapchain_format,
            targets: Targets::empty(),
            needs_recreation: false,
            stage: FrameStage::Idle,
            previous_frame_end: Some(FrameEnd::Resolved),
            image_index: 0,
        }
    }

    /// Whether a frame is being rendered: an image is acquired and not yet
    /// presented.
    pub open spec fn frame_active(self) -> bool {
        self.stage == FrameStage::Rendering
    }

    /// The session after a resize notification.
    pub open spec fn resized(self) -> SessionView {
        SessionView { needs_recreation: true, ..self }
    }

    /// The session after registering a target under `key`, replacing any
    /// target already there.
    pub open spec fn with_target(
        self,
        key: usize,
        view_size: Option<[u32; 2]>,
        format: Format,
    ) -> SessionView {
        SessionView {
            targets: self.targets.insert(
                key,
                ImageTarget::requested(view_size, format, self.image_size),
            ),
            ..self
        }
    }

    /// The session after dropping whatever target `key` names.
    pub open spec fn without_target(self, key: usize) -> SessionView {
        SessionView { targets: self.targets.remove(key), ..self }
    }

    /// The answer to a lookup of `key`.
    pub open spec fn target(self, key: usize) -> Result<ImageTarget, TargetError> {
        if self.targets.contains_key(key) {
            Ok(self.targets[key])
        } else {
            Err(TargetError::NotFound)
        }
    }

    /// The first platform operation of a frame: recreation when it is
    /// pending, acquisition otherwise.
    pub open spec fn first_request(self) -> PlatformRequest {
        if self.needs_recreation {
            PlatformRequest::RecreateSwapchain
        } else {
            PlatformRequest::AcquireImage
        }
    }

    /// The operation the platform owes the session, if any.
    pub open spec fn pending_request(self) -> Option<PlatformRequest> {
        match self.stage {
            FrameStage::AwaitingSwapchain => Some(PlatformRequest::RecreateSwapchain),
            FrameStage::AwaitingImage => Some(PlatformRequest::AcquireImage),
            _ => None,
        }
    }

    /// The session after a frame was opened.
    pub open spec fn frame_started(self) -> SessionView {
        SessionView {
            stage: if self.needs_recreation {
                FrameStage::AwaitingSwapchain
            } else {
                FrameStage::AwaitingImage
            },
            ..self
        }
    }

    /// Whether `outcome` reports a usable new swapchain.
    pub open spec fn accepts_swapchain(outcome: SwapchainOutcome) -> bool {
        outcome matches SwapchainOutcome::Created { image_count, .. } && image_count > 0
    }

    /// The session after the platform answered a recreation request.
    ///
    /// A usable swapchain replaces the image sequence, resizes every
    /// following target and clears the pending recreation. Unsupported
    /// dimensions leave everything as it was, recreation still pending, and
    /// the frame moves on to acquisition. Any other answer leaves the session
    /// untouched.
    pub open spec fn swapchain_recreated(self, outcome: SwapchainOutcome) -> SessionView {
        match outcome {
            SwapchainOutcome::Created { image_count, image_size } => if image_count > 0 {
                SessionView {
                    image_count: image_count as nat,
                    image_size,
                    targets: follow_swapchain(self.targets, image_size),
                    needs_recreation: false,
                    stage: FrameStage::AwaitingImage,
                    image_index: if self.image_index < image_count {
                        self.image_index
                    } else {
                        0
                    },
                    ..self
                }
            } else {
                self
            },
            SwapchainOutcome::UnsupportedDimensions => SessionView {
                stage: FrameStage::AwaitingImage,
                ..self
            },
            SwapchainOutcome::Failed => self,
        }
    }

    /// The error a recreation answer is reported with, if it is one.
    pub open spec fn recreation_error(outcome: SwapchainOutcome) -> Option<FrameError> {
        if Self::accepts_swapchain(outcome) {
            None
        } else if outcome is UnsupportedDimensions {
            Some(FrameError::UnsupportedDimensions)
        } else {
            Some(FrameError::Fatal)
        }
    }

    /// The session after the platform answered an acquisition request.
    ///
    /// An image of the swapchain starts the frame: its index is recorded,
    /// the in-flight future leaves the session, and a suboptimal acquisition
    /// schedules recreation for the next frame. An out-of-date swapchain ends
    /// the frame before it began and schedules recreation. Any other answer,
    /// an index outside the swapchain included, leaves the session untouched.
    pub open spec fn image_acquired(self, outcome: AcquireOutcome) -> SessionView {
        match outcome {
            AcquireOutcome::Acquired { image_index, suboptimal } => if image_index
                < self.image_count {
                SessionView {
                    image_index: image_index as nat,
                    needs_recreation: self.needs_recreation || suboptimal,
                    stage: FrameStage::Rendering,
                    previous_frame_end: None,
                    ..self
                }
            } else {
                self
            },
            AcquireOutcome::OutOfDate => SessionView {
                needs_recreation: true,
                stage: FrameStage::Idle,
                ..self
            },
            AcquireOutcome::Failed => self,
        }
    }

    /// What the caller is told about an acquisition answer.
    pub open spec fn acquisition(self, outcome: AcquireOutcome) -> Result<FrameStart, FrameError> {
        match outcome {
            AcquireOutcome::Acquired { image_index, suboptimal } => if image_index
                < self.image_count {
                Ok(
                    FrameStart {
                        image_index,
                        previous_frame_end: self.previous_frame_end.unwrap(),
                    },
                )
            } else {
                Err(FrameError::Fatal)
            },
            AcquireOutcome::OutOfDate => Err(FrameError::OutOfDate),
            AcquireOutcome::Failed => Err(FrameError::Fatal),
        }
    }

    /// The in-flight future a frame leaves behind: its fenced presentation
    /// when the flush succeeded, a resolved future otherwise.
    pub open spec fn frame_end(self, outcome: FlushOutcome) -> FrameEnd {
        if outcome is Flushed {
            FrameEnd::Presented { image_index: self.image_index as usize }
        } else {
            FrameEnd::Resolved
        }
    }

    /// The session after a frame's work was presented and flushed.
    pub open spec fn frame_finished(self, outcome: FlushOutcome) -> SessionView {
        SessionView {
            previous_frame_end: Some(self.frame_end(outcome)),
            needs_recreation: self.needs_recreation || outcome is OutOfDate,
            stage: FrameStage::Idle,
            ..self
        }
    }
}

/// The format images are created with when nothing else is asked for.
pub const DEFAULT_IMAGE_FORMAT: Format = Format::R8G8B8A8_UNORM;

/// The presentable image a frame renders to.
#[derive(Clone, Copy, Debug, PartialEq, Eq)]
pub struct FinalImage {
    /// Position of the image in the swapchain's image sequence.
    pub index: usize,
    /// Width and height in pixels.
    pub size: [u32; 2],
    /// Pixel format.
    pub format: Format,
}

/// The render session of one window: swapchain state, auxiliary targets and
/// the frame cycle.
pub struct VulkanoWinitWindow {
    image_count: usize,
    image_size: [u32; 2],
    swapchain_format: Format,
    /// Auxiliary targets by key; a target's flag tells whether it is resized
    /// with the swapchain.
    image_views: TargetMap,
    recreate_swapchain: bool,
    stage: FrameStage,
    previous_frame_end: Option<FrameEnd>,
    image_index: usize,
}

impl View for VulkanoWinitWindow {
    type V = SessionView;

    closed spec fn view(&self) -> SessionView {
        SessionView {
            image_count: self.image_count as nat,
            image_size: self.image_size,
            swapchain_format: self.swapchain_format,
            targets: self.image_views@,
            needs_recreation: self.recreate_swapchain,
            stage: self.stage,
            previous_frame_end: self.previous_frame_end,
            image_index: self.image_index as nat,
        }
    }
}

impl VulkanoWinitWindow {
    /// Whether the session satisfies its invariant.
    pub open spec fn wf(&self) -> bool {
        self@.wf()
    }

    /// Opens a session over a freshly created swapchain of `image_count`
    /// images, each `image_size` pixels large and of format
    /// `swapchain_format`.
    pub fn new(
        image_count: usize,
        image_size: [u32; 2],
        swapchain_format: Format,
    ) -> (session: VulkanoWinitWindow)
        requires
            image_count > 0,
        ensures
            session.wf(),
            session@ == SessionView::initial(image_count as nat, image_size, swapchain_format),
    {
        VulkanoWinitWindow {
            image_count,
            image_size,
            swapchain_format,
            image_views: TargetMap::new(),
            recreate_swapchain: false,
            stage: FrameStage::Idle,
            previous_frame_end: Some(FrameEnd::Resolved),
            image_index: 0,
        }
    }

    /// Schedules recreation of the swapchain, and of the targets that follow
    /// it, for the start of the next frame.
    pub fn resize(&mut self)
        requires
            old(self).wf(),
        ensures
            final(self).wf(),
            final(self)@ == old(self)@.resized(),
    {
        self.recreate_swapchain = true;
    }

    /// Registers an auxiliary target under `key`, replacing any target
    /// already there. With a `view_size` the target is fixed at that size;
    /// without one it takes the swapchain's current image size and follows
    /// the swapchain from then on.
    pub fn add_image_target(&mut self, key: usize, view_size: Option<[u32; 2]>, format: Format)
        requires
            old(self).wf(),
        ensures
            final(self).wf(),
            final(self)@ == old(self)@.with_target(key, view_size, format),
    {
        let size = match view_size {
            Some(size) => size,
            None => self.final_image_size(),
        };
        let target = ImageTarget { size, format, follows_swapchain: view_size.is_none() };
        self.image_views.insert(key, target);
    }

    /// The target registered under `key`.
    pub fn get_image_target(&self, key: usize) -> (found: Result<ImageTarget, TargetError>)
        ensures
            found == self@.target(key),
    {
        match self.image_views.get(key) {
            Some(target) => Ok(target),
            None => Err(TargetError::NotFound),
        }
    }

    /// Whether a target is registered under `key`.
    pub fn has_image_target(&self, key: usize) -> (present: bool)
        ensures
            present == self@.targets.contains_key(key),
    {
        self.image_views.get(key).is_some()
    }

    /// Drops the target registered under `key`, if there is one.
    pub fn remove_image_target(&mut self, key: usize)
        requires
            old(self).wf(),
        ensures
            final(self).wf(),
            final(self)@ == old(self)@.without_target(key),
    {
        self.image_views.remove(key);
    }

    /// Opens a frame and names the operation the platform performs first:
    /// recreation of the swapchain when it is pending, acquisition of the next
    /// image otherwise. The platform's answer goes to
    /// [`VulkanoWinitWindow::recreate_swapchain_and_views`] or
    /// [`VulkanoWinitWindow::acquire_image`].
    pub fn start_frame(&mut self) -> (request: PlatformRequest)
        requires
            old(self).wf(),
            !old(self)@.frame_active(),
        ensures
            final(self).wf(),
            final(self)@ == old(self)@.frame_started(),
            request == old(self)@.first_request(),
            final(self)@.pending_request() == Some(request),
    {
        if self.recreate_swapchain {
            self.stage = FrameStage::AwaitingSwapchain;
            PlatformRequest::RecreateSwapchain
        } else {
            self.stage = FrameStage::AwaitingImage;
            PlatformRequest::AcquireImage
        }
    }

    /// Takes the platform's answer to a recreation request.
    ///
    /// A new swapchain with at least one image replaces the image sequence;
    /// every following target is recreated at the new image size with the
    /// format it had, and the keys of these targets are returned so that
    /// their images can be recreated too. Unsupported dimensions abandon
    /// recreation for this frame, leaving it pending. Either way the frame
    /// goes on with acquisition. Any other answer is fatal and changes
    /// nothing.
    pub fn recreate_swapchain_and_views(&mut self, outcome: SwapchainOutcome) -> (result: Result<
        Vec<usize>,
        FrameError,
    >)
        requires
            old(self).wf(),
            old(self)@.stage == FrameStage::AwaitingSwapchain,
        ensures
            final(self).wf(),
            final(self)@ == old(self)@.swapchain_recreated(outcome),
            result.is_ok() == SessionView::accepts_swapchain(outcome),
            result.is_ok() ==> lists_following(old(self)@.targets, result.unwrap()@),
            result.is_err() ==> SessionView::recreation_error(outcome) == Some(result.unwrap_err()),
    {
        match outcome {
            SwapchainOutcome::Created { image_count, image_size } => {
                if image_count == 0 {
                    return Err(FrameError::Fatal);
                }
                self.image_count = image_count;
                self.image_size = image_size;
                let resized = self.image_views.resize_following(image_size);
                if self.image_index >= image_count {
                    self.image_index = 0;
                }
                self.recreate_swapchain = false;
                self.stage = FrameStage::AwaitingImage;
                Ok(resized)
            },
            SwapchainOutcome::UnsupportedDimensions => {
                self.stage = FrameStage::AwaitingImage;
                Err(FrameError::UnsupportedDimensions)
            },
            SwapchainOutcome::Failed => Err(FrameError::Fatal),
        }
    }

    /// Takes the platform's answer to an acquisition request.
    ///
    /// An acquired image of the swapchain starts the frame: the session
    /// records its index and hands out the in-flight future, which the caller
    /// joins with the acquisition before submitting work. A suboptimal
    /// acquisition still starts the frame and schedules recreation for the
    /// next one. An out-of-date swapchain yields no frame: recreation is
    /// scheduled and the caller skips rendering until the next frame. Any
    /// other answer is fatal and changes nothing.
    pub fn acquire_image(&mut self, outcome: AcquireOutcome) -> (result: Result<
        FrameStart,
        FrameError,
    >)
        requires
            old(self).wf(),
            old(self)@.stage == FrameStage::AwaitingImage,
        ensures
            final(self).wf(),
            final(self)@ == old(self)@.image_acquired(outcome),
            result == old(self)@.acquisition(outcome),
    {
        match outcome {
            AcquireOutcome::Acquired { image_index, suboptimal } => {
                if image_index >= self.image_count {
                    return Err(FrameError::Fatal);
                }
                let previous_frame_end = match self.previous_frame_end {
                    Some(held) => held,
                    None => FrameEnd::Resolved,
                };
                if suboptimal {
                    self.recreate_swapchain = true;
                }
                self.image_index = image_index;
                self.previous_frame_end = None;
                self.stage = FrameStage::Rendering;
                Ok(FrameStart { image_index, previous_frame_end })
            },
            AcquireOutcome::OutOfDate => {
                self.recreate_swapchain = true;
                self.stage = FrameStage::Idle;
                Err(FrameError::OutOfDate)
            },
            AcquireOutcome::Failed => Err(FrameError::Fatal),
        }
    }

    /// Ends a frame with the outcome of presenting the current image and
    /// flushing the frame's work, and returns the in-flight future the
    /// session holds from now on: the fenced presentation, to be waited on
    /// before it is stored, when the flush succeeded; a resolved future
    /// otherwise. An out-of-date presentation also schedules recreation.
    pub fn finish_frame(&mut self, outcome: FlushOutcome) -> (end: FrameEnd)
        requires
            old(self).wf(),
        ensures
            final(self).wf(),
            final(self)@ == old(self)@.frame_finished(outcome),
            end == old(self)@.frame_end(outcome),
    {
        let end = match outcome {
            FlushOutcome::Flushed => FrameEnd::Presented { image_index: self.image_index },
            FlushOutcome::OutOfDate => {
                self.recreate_swapchain = true;
                FrameEnd::Resolved
            },
            FlushOutcome::Failed => FrameEnd::Resolved,
        };
        self.previous_frame_end = Some(end);
        self.stage = FrameStage::Idle;
        end
    }

    /// The operation the platform owes the session: set by
    /// [`VulkanoWinitWindow::start_frame`], replaced or cleared by the answer
    /// to it.
    pub fn pending_request(&self) -> (request: Option<PlatformRequest>)
        ensures
            request == self@.pending_request(),
    {
        match self.stage {
            FrameStage::AwaitingSwapchain => Some(PlatformRequest::RecreateSwapchain),
            FrameStage::AwaitingImage => Some(PlatformRequest::AcquireImage),
            _ => None,
        }
    }

    /// Position in the frame cycle.
    pub fn stage(&self) -> (stage: FrameStage)
        ensures
            stage == self@.stage,
    {
        self.stage
    }

    /// Whether the swapchain is recreated at the start of the next frame.
    pub fn needs_recreation(&self) -> (pending: bool)
        ensures
            pending == self@.needs_recreation,
    {
        self.recreate_swapchain
    }

    /// The in-flight future, while the session holds it: `None` exactly while
    /// a frame is being rendered.
    pub fn previous_frame_end(&self) -> (held: Option<FrameEnd>)
        ensures
            held == self@.previous_frame_end,
            self.wf() ==> held.is_none() == self@.frame_active(),
    {
        self.previous_frame_end
    }

    /// Number of presentable images of the current swapchain.
    pub fn image_count(&self) -> (count: usize)
        ensures
            count == self@.image_count,
            self.wf() ==> count > 0,
    {
        self.image_count
    }

    /// Pixel format of the swapchain's images.
    pub fn swapchain_format(&self) -> (format: Format)
        ensures
            format == self@.swapchain_format,
    {
        self.swapchain_format
    }

    /// The format to create images with when nothing else is asked for.
    pub fn default_image_format(&self) -> (format: Format)
        ensures
            format == DEFAULT_IMAGE_FORMAT,
    {
        DEFAULT_IMAGE_FORMAT
    }

    /// Index of the swapchain image that is the current render target. In a
    /// well-formed session it always names an image of the swapchain.
    pub fn image_index(&self) -> (index: usize)
        ensures
            index == self@.image_index,
            self.wf() ==> index < self@.image_count,
    {
        self.image_index
    }

    /// Pixel size of the swapchain's images.
    pub fn final_image_size(&self) -> (size: [u32; 2])
        ensures
            size == self@.image_size,
    {
        self.image_size
    }

    /// The presentable image that is the current render target.
    pub fn final_image(&self) -> (image: FinalImage)
        ensures
            image.index == self@.image_index,
            image.size == self@.image_size,
            image.format == self@.swapchain_format,
    {
        FinalImage {
            index: self.image_index,
            size: self.image_size,
            format: self.swapchain_format,
        }
    }
}

} // verus!
