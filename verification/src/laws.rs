use crate::frame::{
    AcquireOutcome, FlushOutcome, FrameError, FrameStage, PlatformRequest, SwapchainOutcome,
};
use crate::image_target::TargetError;
use crate::vulkano_window::SessionView;
use vstd::prelude::*;
use vulkano::format::Format;

verus! {

/// Anything that can happen to a session: a call of one of its operations
/// together with what the platform reported, where the operation takes a
/// report.
pub enum SessionEvent {
    /// The window changed size.
    Resize,
    /// A target was registered.
    AddTarget { key: usize, view_size: Option<[u32; 2]>, format: Format },
    /// A target was dropped.
    RemoveTarget { key: usize },
    /// A frame was opened.
    StartFrame,
    /// The platform answered a recreation request.
    SwapchainAnswer { created: SwapchainOutcome },
    /// The platform answered an acquisition request.
    ImageAnswer { acquired: AcquireOutcome },
    /// A frame's work was presented and flushed.
    FinishFrame { flushed: FlushOutcome },
}

impl SessionView {
    /// Whether the frame cycle admits `event` in this state: a frame is
    /// opened only while none is being rendered, and the platform answers
    /// only what it was asked.
    pub open spec fn admits(self, event: SessionEvent) -> bool {
        match event {
            SessionEvent::StartFrame => !self.frame_active(),
            SessionEvent::SwapchainAnswer { .. } => self.stage == FrameStage::AwaitingSwapchain,
            SessionEvent::ImageAnswer { .. } => self.stage == FrameStage::AwaitingImage,
            _ => true,
        }
    }

    /// The session after `event`; an event the frame cycle does not admit
    /// leaves it as it is.
    pub open spec fn after(self, event: SessionEvent) -> SessionView {
        if !self.admits(event) {
            self
        } else {
            match event {
                SessionEvent::Resize => self.resized(),
                SessionEvent::AddTarget { key, view_size, format } => self.with_target(
                    key,
                    view_size,
                    format,
                ),
                SessionEvent::RemoveTarget { key } => self.without_target(key),
                SessionEvent::StartFrame => self.frame_started(),
                SessionEvent::SwapchainAnswer { created } => self.swapchain_recreated(created),
                SessionEvent::ImageAnswer { acquired } => self.image_acquired(acquired),
                SessionEvent::FinishFrame { flushed } => self.frame_finished(flushed),
            }
        }
    }

    /// The session after a whole history of events, oldest first.
    pub open spec fn after_all(self, events: Seq<SessionEvent>) -> SessionView
        decreases events.len(),
    {
        if events.len() == 0 {
            self
        } else {
            self.after_all(events.drop_last()).after(events.last())
        }
    }
}

/// Whether `event` installs a swapchain whose image count differs from
/// `image_count`.
pub open spec fn changes_image_count(event: SessionEvent, image_count: nat) -> bool {
    event matches SessionEvent::SwapchainAnswer {
        created: SwapchainOutcome::Created { image_count: installed, .. },
    } && installed != 0 && installed != image_count
}

/// No single event breaks a session's invariant.
pub proof fn lemma_event_keeps_wf(session: SessionView, event: SessionEvent)
    requires
        session.wf(),
    ensures
        session.after(event).wf(),
{
}

/// Whatever happens to a session, in whatever order, its invariant holds
/// afterwards: the image index names an image of the current swapchain, the
/// in-flight future is held exactly while no frame is being rendered, and
/// every following target has the swapchain's image size.
pub proof fn lemma_events_keep_wf(session: SessionView, events: Seq<SessionEvent>)
    requires
        session.wf(),
    ensures
        session.after_all(events).wf(),
    decreases events.len(),
{
    if events.len() > 0 {
        lemma_events_keep_wf(session, events.drop_last());
        lemma_event_keeps_wf(session.after_all(events.drop_last()), events.last());
    }
}

/// Over any history in which the platform never installs a swapchain of
/// another length, the number of presentable images stays what it was, and
/// the image index stays within it.
pub proof fn lemma_image_count_is_stable(session: SessionView, events: Seq<SessionEvent>)
    requires
        session.wf(),
        forall|i: int|
            0 <= i < events.len() ==> !changes_image_count(#[trigger] events[i], session.image_count),
    ensures
        session.after_all(events).image_count == session.image_count,
        session.after_all(events).image_index < session.image_count,
    decreases events.len(),
{
    lemma_events_keep_wf(session, events);
    if events.len() > 0 {
        let earlier = events.drop_last();
        assert forall|i: int| 0 <= i < earlier.len() implies !changes_image_count(
            #[trigger] earlier[i],
            session.image_count,
        ) by {
            assert(earlier[i] == events[i]);
        }
        lemma_image_count_is_stable(session, earlier);
        assert(!changes_image_count(events[events.len() - 1], session.image_count));
    }
}

/// Whether `event` belongs to a frame that the platform serves without
/// complaint: a frame is opened or ended, the platform answers, and nothing
/// it reports schedules recreation.
pub open spec fn is_quiet_frame_event(event: SessionEvent) -> bool {
    match event {
        SessionEvent::StartFrame => true,
        SessionEvent::SwapchainAnswer { .. } => true,
        SessionEvent::ImageAnswer { acquired } => !(acquired is OutOfDate) && !(
        acquired matches AcquireOutcome::Acquired { suboptimal: true, .. }),
        SessionEvent::FinishFrame { flushed } => !(flushed is OutOfDate),
        _ => false,
    }
}

/// Frames that follow one another without a resize, and without the
/// platform reporting the swapchain stale, never recreate the swapchain: the
/// image sequence keeps its length and size, the targets stay what they
/// were, no recreation gets scheduled or requested, and the image index
/// always names one of the images.
pub proof fn lemma_quiet_frames_keep_swapchain(session: SessionView, events: Seq<SessionEvent>)
    requires
        session.wf(),
        !session.needs_recreation,
        session.stage != FrameStage::AwaitingSwapchain,
        forall|i: int| 0 <= i < events.len() ==> is_quiet_frame_event(#[trigger] events[i]),
    ensures
        session.after_all(events).wf(),
        session.after_all(events).image_count == session.image_count,
        session.after_all(events).image_size == session.image_size,
        session.after_all(events).swapchain_format == session.swapchain_format,
        session.after_all(events).targets == session.targets,
        session.after_all(events).image_index < session.image_count,
        !session.after_all(events).needs_recreation,
        session.after_all(events).stage != FrameStage::AwaitingSwapchain,
    decreases events.len(),
{
    if events.len() > 0 {
        let earlier = events.drop_last();
        assert forall|i: int| 0 <= i < earlier.len() implies is_quiet_frame_event(
            #[trigger] earlier[i],
        ) by {
            assert(earlier[i] == events[i]);
        }
        lemma_quiet_frames_keep_swapchain(session, earlier);
        assert(is_quiet_frame_event(events[events.len() - 1]));
        lemma_event_keeps_wf(session.after_all(earlier), events.last());
    }
}

/// A resize takes effect at the next frame: the frame opens with a
/// recreation request, and once the platform has installed a swapchain of
/// `image_size` pixels, whatever the acquisition that follows reports, every
/// target that follows the swapchain has exactly that size under its old key
/// and format, and every fixed target is what it was.
pub proof fn lemma_resize_cycle_sizes_targets(
    session: SessionView,
    image_count: usize,
    image_size: [u32; 2],
    acquired: AcquireOutcome,
)
    requires
        session.wf(),
        !session.frame_active(),
        image_count > 0,
    ensures
        session.resized().first_request() == PlatformRequest::RecreateSwapchain,
        session.resized().frame_started().pending_request() == Some(
            PlatformRequest::RecreateSwapchain,
        ),
        ({
            let recreated = session.resized().frame_started().swapchain_recreated(
                SwapchainOutcome::Created { image_count, image_size },
            );
            let cycled = recreated.image_acquired(acquired);
            &&& recreated.pending_request() == Some(PlatformRequest::AcquireImage)
            &&& cycled.image_size == image_size
            &&& cycled.image_count == image_count
            &&& cycled.targets.dom() == session.targets.dom()
            &&& forall|key: usize| #[trigger]
                session.targets.contains_key(key) ==> {
                    let old_target = session.targets[key];
                    let new_target = cycled.targets[key];
                    &&& new_target.format == old_target.format
                    &&& new_target.follows_swapchain == old_target.follows_swapchain
                    &&& old_target.follows_swapchain ==> new_target.size == image_size
                    &&& !old_target.follows_swapchain ==> new_target == old_target
                }
        }),
{
    let recreated = session.resized().frame_started().swapchain_recreated(
        SwapchainOutcome::Created { image_count, image_size },
    );
    let cycled = recreated.image_acquired(acquired);
    assert(cycled.targets == recreated.targets);
    assert(cycled.targets.dom() =~= session.targets.dom());
}

/// A target added without an explicit size is found again under its key,
/// with the format it was given and the size of the swapchain's images, and
/// it follows the swapchain.
pub proof fn lemma_added_target_is_found(session: SessionView, key: usize, format: Format)
    ensures
        session.with_target(key, None, format).target(key) matches Ok(target) && {
            &&& target.format == format
            &&& target.size == session.image_size
            &&& target.size == session.with_target(key, None, format).image_size
            &&& target.follows_swapchain
        },
{
}

/// A target added with an explicit size is found again under its key, with
/// that size and the format it was given, and it does not follow the
/// swapchain.
pub proof fn lemma_sized_target_is_found(
    session: SessionView,
    key: usize,
    size: [u32; 2],
    format: Format,
)
    ensures
        session.with_target(key, Some(size), format).target(key) matches Ok(target) && {
            &&& target.format == format
            &&& target.size == size
            &&& !target.follows_swapchain
        },
{
}

/// Looking up a key right after removing it fails with `NotFound`.
pub proof fn lemma_removed_target_is_not_found(session: SessionView, key: usize)
    ensures
        session.without_target(key).target(key) matches Err(TargetError::NotFound),
{
}

/// Removing a key that names no target changes nothing.
pub proof fn lemma_remove_absent_changes_nothing(session: SessionView, key: usize)
    requires
        !session.targets.contains_key(key),
    ensures
        session.without_target(key) == session,
{
    assert(session.targets.remove(key) =~= session.targets);
}

/// Adding or removing a target leaves every other key as it was.
pub proof fn lemma_target_changes_are_local(
    session: SessionView,
    key: usize,
    view_size: Option<[u32; 2]>,
    format: Format,
    other: usize,
)
    requires
        other != key,
    ensures
        session.with_target(key, view_size, format).target(other) == session.target(other),
        session.without_target(key).target(other) == session.target(other),
{
}

/// Resizing twice is resizing once.
pub proof fn lemma_resize_is_idempotent(session: SessionView)
    ensures
        session.resized().resized() == session.resized(),
{
}

/// However often a resize is notified before a frame, the frame recreates
/// the swapchain once: it opens with a recreation request, and after the
/// platform has installed the new swapchain no recreation is pending, so
/// that the frame goes on to acquisition and, when that frame acquires and
/// presents cleanly, the next one opens with acquisition.
pub proof fn lemma_resizes_recreate_once(
    session: SessionView,
    resizes: nat,
    image_count: usize,
    image_size: [u32; 2],
    image_index: usize,
)
    requires
        session.wf(),
        !session.frame_active(),
        resizes > 0,
        0 < image_count,
        image_index < image_count,
    ensures
        resized_times(session, resizes) == session.resized(),
        session.resized().first_request() == PlatformRequest::RecreateSwapchain,
        ({
            let recreated = session.resized().frame_started().swapchain_recreated(
                SwapchainOutcome::Created { image_count, image_size },
            );
            let finished = recreated.image_acquired(
                AcquireOutcome::Acquired { image_index, suboptimal: false },
            ).frame_finished(FlushOutcome::Flushed);
            &&& !recreated.needs_recreation
            &&& recreated.pending_request() == Some(PlatformRequest::AcquireImage)
            &&& !finished.needs_recreation
            &&& finished.first_request() == PlatformRequest::AcquireImage
        }),
    decreases resizes,
{
    if resizes > 1 {
        lemma_resizes_recreate_once(
            session,
            (resizes - 1) as nat,
            image_count,
            image_size,
            image_index,
        );
    } else {
        assert(resized_times(session, 0) == session);
    }
}

/// The session after `times` resize notifications in a row.
pub open spec fn resized_times(session: SessionView, times: nat) -> SessionView
    decreases times,
{
    if times == 0 {
        session
    } else {
        resized_times(session, (times - 1) as nat).resized()
    }
}

/// An acquisition that reports the swapchain out of date yields no frame and
/// schedules recreation, so that the next frame opens with a recreation
/// request and, once that is answered, goes on to acquisition.
pub proof fn lemma_out_of_date_recreates_next_frame(session: SessionView)
    requires
        session.wf(),
        session.stage == FrameStage::AwaitingImage,
    ensures
        session.acquisition(AcquireOutcome::OutOfDate) matches Err(FrameError::OutOfDate),
        ({
            let skipped = session.image_acquired(AcquireOutcome::OutOfDate);
            &&& skipped.needs_recreation
            &&& !skipped.frame_active()
            &&& skipped.previous_frame_end == session.previous_frame_end
            &&& skipped.first_request() == PlatformRequest::RecreateSwapchain
        }),
{
}

/// A frame that ends hands the session exactly one in-flight future, and the
/// frame that starts next hands that very future to the caller.
pub proof fn lemma_frame_end_reaches_next_frame(
    session: SessionView,
    flushed: FlushOutcome,
    image_index: usize,
    suboptimal: bool,
)
    requires
        session.wf(),
        image_index < session.image_count,
        !session.needs_recreation,
        !(flushed is OutOfDate),
    ensures
        ({
            let ended = session.frame_finished(flushed);
            let next = ended.frame_started();
            &&& ended.previous_frame_end == Some(session.frame_end(flushed))
            &&& next.pending_request() == Some(PlatformRequest::AcquireImage)
            &&& next.acquisition(AcquireOutcome::Acquired { image_index, suboptimal })
                matches Ok(frame) && frame.image_index == image_index
                && frame.previous_frame_end == session.frame_end(flushed)
        }),
{
}

} // verus!
