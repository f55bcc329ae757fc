//! The per-frame state machine of the renderer.
//!
//! Drawing a frame alternates work on the GPU and the window system with
//! decisions. The decisions stand here: [`FrameState::begin_frame`] starts a
//! frame and [`FrameState::step`] takes the outcome of the last requested
//! [`Action`] as an [`Event`] and returns the next action. The caller performs
//! the actions until it receives [`Action::EndFrame`] or [`Action::Abort`].
use vstd::prelude::*;
use crate::setup::{Extent, spec_surface_extent, surface_extent};

verus! {

/// Where the state machine stands within a frame.
#[derive(Clone, Copy, Debug, PartialEq, Eq, Structural)]
pub enum Stage {
    /// Between frames.
    Idle,
    /// Resources of finished frames are being released.
    CleaningUp,
    /// The surface is being asked for its current extent.
    QueryingExtent,
    /// The swapchain is being recreated with the given extent.
    Recreating { extent: Extent },
    /// Depth buffer, projection and viewport are being resized.
    Resizing,
    /// One framebuffer per swapchain image is being built.
    BuildingFramebuffers,
    /// The uniform buffer for this frame is being written.
    UpdatingUniforms,
    /// The next swapchain image is being acquired.
    Acquiring,
    /// The frame is being drawn into the given image and presented.
    Presenting { image: usize },
    /// The future of the presented frame is being kept or reset.
    StoringFuture,
    /// Window events are being polled.
    PollingEvents,
    /// A fatal error was reported; no further frame is drawn.
    Failed,
}

/// Outcome of recreating the swapchain.
#[derive(Clone, Copy, Debug, PartialEq, Eq, Structural)]
pub enum RecreateOutcome {
    /// A new swapchain with this many images.
    Recreated { image_count: usize },
    /// The surface does not accept the requested extent.
    UnsupportedDimensions,
    /// Any other error.
    Failed,
}

/// Outcome of acquiring the next swapchain image.
#[derive(Clone, Copy, Debug, PartialEq, Eq, Structural)]
pub enum AcquireOutcome {
    /// The index of the acquired image.
    Acquired { image: usize },
    /// The swapchain no longer matches the surface.
    OutOfDate,
    /// Any other error.
    Failed,
}

/// Outcome of submitting the frame and flushing it.
#[derive(Clone, Copy, Debug, PartialEq, Eq, Structural)]
pub enum FlushOutcome {
    /// The frame was submitted; its future is to be kept.
    Flushed,
    /// The swapchain no longer matches the surface.
    OutOfDate,
    /// Any other error (reported, then drawing goes on).
    Failed,
}

/// What the caller reports back after performing an action.
#[derive(Clone, Copy, Debug, PartialEq, Eq, Structural)]
pub enum Event {
    /// The action was performed and has nothing to report.
    Completed,
    /// The extent the surface reports, if any.
    SurfaceExtent(Option<Extent>),
    /// The result of [`Action::RecreateSwapchain`].
    SwapchainRecreated(RecreateOutcome),
    /// The result of [`Action::AcquireImage`].
    ImageAcquired(AcquireOutcome),
    /// The result of [`Action::SubmitAndPresent`].
    Flushed(FlushOutcome),
    /// Window events were polled (none of them is reported).
    EventsPolled,
}

/// Why a frame was aborted.
#[derive(Clone, Copy, Debug, PartialEq, Eq, Structural)]
pub enum Failure {
    /// Recreating the swapchain failed for another reason than its extent.
    SwapchainRecreation,
    /// Acquiring an image failed for another reason than an outdated swapchain.
    ImageAcquisition,
    /// The acquired image has no framebuffer.
    FramebufferIndex,
}

/// What the caller is to do next.
#[derive(Clone, Copy, Debug, PartialEq, Eq, Structural)]
pub enum Action {
    /// Release the resources of frames the GPU has finished.
    CleanupFinished,
    /// Ask the surface for its current extent.
    QueryExtent,
    /// Recreate the swapchain with this extent.
    RecreateSwapchain { extent: Extent },
    /// Rebuild depth buffer, projection and viewport for this extent.
    ResizeTargets { extent: Extent },
    /// Build one framebuffer for each of the `count` swapchain images.
    BuildFramebuffers { count: usize },
    /// Write this frame's uniform buffer.
    UpdateUniforms,
    /// Acquire the next swapchain image.
    AcquireImage,
    /// Draw into the framebuffer of this image, submit and present it.
    SubmitAndPresent { image: usize },
    /// Keep the future of the submitted frame as the previous frame.
    KeepFuture,
    /// Replace the previous frame by a fresh "now" future; report the flush
    /// error first when `report_error` is set.
    ResetFuture { report_error: bool },
    /// Poll the window's events.
    PollEvents,
    /// The frame is over.
    EndFrame,
    /// A fatal error: stop drawing.
    Abort { reason: Failure },
}

/// The plain-valued state that the frame decisions read and write.
#[derive(Clone, Copy, Debug, PartialEq, Eq, Structural)]
pub struct FrameState {
    /// The extent the swapchain was last built with.
    pub extent: Extent,
    /// The number of images of the current swapchain.
    pub image_count: usize,
    /// The number of framebuffers built, or `None` when they must be rebuilt.
    pub framebuffers: Option<usize>,
    /// The swapchain must be recreated before the next image is acquired.
    pub recreate_swapchain: bool,
    /// Where the state machine stands.
    pub stage: Stage,
}

/// Rank of a stage: it strictly falls with each step within a frame.
pub open spec fn stage_rank(s: Stage) -> nat {
    match s {
        Stage::Idle => 0,
        Stage::Failed => 0,
        Stage::PollingEvents => 1,
        Stage::StoringFuture => 2,
        Stage::Presenting { .. } => 3,
        Stage::Acquiring => 4,
        Stage::UpdatingUniforms => 5,
        Stage::BuildingFramebuffers => 6,
        Stage::Resizing => 7,
        Stage::Recreating { .. } => 8,
        Stage::QueryingExtent => 9,
        Stage::CleaningUp => 10,
    }
}

impl FrameState {
    /// Well-formedness: framebuffers, when built, match the swapchain's
    /// images, and the stages that draw have them.
    pub open spec fn wf(self) -> bool {
        &&& (self.framebuffers matches Some(n) ==> n == self.image_count)
        &&& match self.stage {
            Stage::UpdatingUniforms | Stage::Acquiring | Stage::StoringFuture
            | Stage::PollingEvents => self.framebuffers is Some,
            Stage::Presenting { image } => self.framebuffers is Some && image
                < self.image_count,
            Stage::Resizing | Stage::BuildingFramebuffers => self.framebuffers is None,
            _ => true,
        }
        &&& match self.stage {
            Stage::QueryingExtent | Stage::Recreating { .. } => self.recreate_swapchain,
            Stage::Resizing | Stage::BuildingFramebuffers | Stage::UpdatingUniforms
            | Stage::Acquiring | Stage::Presenting { .. } => !self.recreate_swapchain,
            _ => true,
        }
    }

    /// A frame is under way (neither between frames nor failed).
    pub open spec fn in_frame(self) -> bool {
        !(self.stage is Idle) && !(self.stage is Failed)
    }

    /// The event that answers the action requested in the current stage.
    pub open spec fn accepts(self, e: Event) -> bool {
        match self.stage {
            Stage::CleaningUp | Stage::Resizing | Stage::BuildingFramebuffers
            | Stage::UpdatingUniforms | Stage::StoringFuture => e is Completed,
            Stage::QueryingExtent => e is SurfaceExtent,
            Stage::Recreating { .. } => e is SwapchainRecreated,
            Stage::Acquiring => e is ImageAcquired,
            Stage::Presenting { .. } => e is Flushed,
            Stage::PollingEvents => e is EventsPolled,
            Stage::Idle | Stage::Failed => false,
        }
    }

    /// This state moved to `stage`.
    pub open spec fn at(self, stage: Stage) -> FrameState {
        FrameState { stage, ..self }
    }

    /// Once the swapchain is current: rebuild the framebuffers if they are
    /// missing, else go on to the uniform buffer.
    pub open spec fn spec_prepare(self) -> (FrameState, Action) {
        if self.framebuffers is None {
            (
                self.at(Stage::BuildingFramebuffers),
                Action::BuildFramebuffers { count: self.image_count },
            )
        } else {
            (self.at(Stage::UpdatingUniforms), Action::UpdateUniforms)
        }
    }

    /// Starting a frame.
    pub open spec fn spec_begin(self) -> (FrameState, Action) {
        (self.at(Stage::CleaningUp), Action::CleanupFinished)
    }

    /// The transition on an accepted event: the next state and action.
    /// (On an event that the stage does not accept, the state is left as it
    /// is and the frame ends.)
    pub open spec fn spec_step(self, e: Event) -> (FrameState, Action) {
        match (self.stage, e) {
            (Stage::CleaningUp, Event::Completed) => if self.recreate_swapchain {
                (self.at(Stage::QueryingExtent), Action::QueryExtent)
            } else {
                self.spec_prepare()
            },
            (Stage::QueryingExtent, Event::SurfaceExtent(current)) => {
                let extent = spec_surface_extent(current);
                (self.at(Stage::Recreating { extent }), Action::RecreateSwapchain { extent })
            },
            (Stage::Recreating { extent }, Event::SwapchainRecreated(outcome)) => match outcome {
                RecreateOutcome::Recreated { image_count } => (
                    FrameState {
                        extent,
                        image_count,
                        framebuffers: None,
                        recreate_swapchain: false,
                        stage: Stage::Resizing,
                        ..self
                    },
                    Action::ResizeTargets { extent },
                ),
                RecreateOutcome::UnsupportedDimensions => (self.at(Stage::Idle), Action::EndFrame),
                RecreateOutcome::Failed => (
                    self.at(Stage::Failed),
                    Action::Abort { reason: Failure::SwapchainRecreation },
                ),
            },
            (Stage::Resizing, Event::Completed) => self.spec_prepare(),
            (Stage::BuildingFramebuffers, Event::Completed) => (
                FrameState {
                    framebuffers: Some(self.image_count),
                    stage: Stage::UpdatingUniforms,
                    ..self
                },
                Action::UpdateUniforms,
            ),
            (Stage::UpdatingUniforms, Event::Completed) => (
                self.at(Stage::Acquiring),
                Action::AcquireImage,
            ),
            (Stage::Acquiring, Event::ImageAcquired(outcome)) => match outcome {
                AcquireOutcome::Acquired { image } => if self.framebuffers matches Some(n)
                    && image < n {
                    (self.at(Stage::Presenting { image }), Action::SubmitAndPresent { image })
                } else {
                    (self.at(Stage::Failed), Action::Abort { reason: Failure::FramebufferIndex })
                },
                AcquireOutcome::OutOfDate => (
                    FrameState { recreate_swapchain: true, stage: Stage::Idle, ..self },
                    Action::EndFrame,
                ),
                AcquireOutcome::Failed => (
                    self.at(Stage::Failed),
                    Action::Abort { reason: Failure::ImageAcquisition },
                ),
            },
            (Stage::Presenting { .. }, Event::Flushed(outcome)) => match outcome {
                FlushOutcome::Flushed => (self.at(Stage::StoringFuture), Action::KeepFuture),
                FlushOutcome::OutOfDate => (
                    FrameState { recreate_swapchain: true, stage: Stage::StoringFuture, ..self },
                    Action::ResetFuture { report_error: false },
                ),
                FlushOutcome::Failed => (
                    self.at(Stage::StoringFuture),
                    Action::ResetFuture { report_error: true },
                ),
            },
            (Stage::StoringFuture, Event::Completed) => (
                self.at(Stage::PollingEvents),
                Action::PollEvents,
            ),
            (Stage::PollingEvents, Event::EventsPolled) => (
                self.at(Stage::Idle),
                Action::EndFrame,
            ),
            _ => (self, Action::EndFrame),
        }
    }

    /// The state right after setup: a swapchain of `image_count` images built
    /// with `extent`, one framebuffer per image, nothing to recreate.
    pub fn new(extent: Extent, image_count: usize) -> (s: FrameState)
        ensures
            s.wf(),
            s == (FrameState {
                extent,
                image_count,
                framebuffers: Some(image_count),
                recreate_swapchain: false,
                stage: Stage::Idle,
            }),
    {
        FrameState {
            extent,
            image_count,
            framebuffers: Some(image_count),
            recreate_swapchain: false,
            stage: Stage::Idle,
        }
    }

    /// Whether `step` accepts `e` in the current stage.
    pub fn accepts_event(&self, e: &Event) -> (b: bool)
        ensures
            b == self.accepts(*e),
    {
        match self.stage {
            Stage::CleaningUp | Stage::Resizing | Stage::BuildingFramebuffers
            | Stage::UpdatingUniforms | Stage::StoringFuture => matches!(e, Event::Completed),
            Stage::QueryingExtent => matches!(e, Event::SurfaceExtent(_)),
            Stage::Recreating { .. } => matches!(e, Event::SwapchainRecreated(_)),
            Stage::Acquiring => matches!(e, Event::ImageAcquired(_)),
            Stage::Presenting { .. } => matches!(e, Event::Flushed(_)),
            Stage::PollingEvents => matches!(e, Event::EventsPolled),
            Stage::Idle | Stage::Failed => false,
        }
    }

    /// Starts a frame: first the resources of finished frames are released.
    pub fn begin_frame(&mut self) -> (a: Action)
        requires
            old(self).wf(),
            old(self).stage is Idle,
        ensures
            (*final(self), a) == old(self).spec_begin(),
            final(self).wf(),
    {
        self.stage = Stage::CleaningUp;
        Action::CleanupFinished
    }

    fn prepare(&mut self) -> (a: Action)
        ensures
            (*final(self), a) == old(self).spec_prepare(),
    {
        if self.framebuffers.is_none() {
            self.stage = Stage::BuildingFramebuffers;
            Action::BuildFramebuffers { count: self.image_count }
        } else {
            self.stage = Stage::UpdatingUniforms;
            Action::UpdateUniforms
        }
    }

    /// Takes the outcome of the last action and decides the next one.
    pub fn step(&mut self, e: Event) -> (a: Action)
        requires
            old(self).wf(),
            old(self).accepts(e),
        ensures
            (*final(self), a) == old(self).spec_step(e),
            final(self).wf(),
    {
        match (self.stage, e) {
            (Stage::CleaningUp, Event::Completed) => {
                if self.recreate_swapchain {
                    self.stage = Stage::QueryingExtent;
                    Action::QueryExtent
                } else {
                    self.prepare()
                }
            },
            (Stage::QueryingExtent, Event::SurfaceExtent(current)) => {
                let extent = surface_extent(current);
                self.stage = Stage::Recreating { extent };
                Action::RecreateSwapchain { extent }
            },
            (Stage::Recreating { extent }, Event::SwapchainRecreated(outcome)) => match outcome {
                RecreateOutcome::Recreated { image_count } => {
                    self.extent = extent;
                    self.image_count = image_count;
                    self.framebuffers = None;
                    self.recreate_swapchain = false;
                    self.stage = Stage::Resizing;
                    Action::ResizeTargets { extent }
                },
                RecreateOutcome::UnsupportedDimensions => {
                    self.stage = Stage::Idle;
                    Action::EndFrame
                },
                RecreateOutcome::Failed => {
                    self.stage = Stage::Failed;
                    Action::Abort { reason: Failure::SwapchainRecreation }
                },
            },
            (Stage::Resizing, Event::Completed) => self.prepare(),
            (Stage::BuildingFramebuffers, Event::Completed) => {
                self.framebuffers = Some(self.image_count);
                self.stage = Stage::UpdatingUniforms;
                Action::UpdateUniforms
            },
            (Stage::UpdatingUniforms, Event::Completed) => {
                self.stage = Stage::Acquiring;
                Action::AcquireImage
            },
            (Stage::Acquiring, Event::ImageAcquired(outcome)) => match outcome {
                AcquireOutcome::Acquired { image } => {
                    let built = match self.framebuffers {
                        Some(n) => image < n,
                        None => false,
                    };
                    if built {
                        self.stage = Stage::Presenting { image };
                        Action::SubmitAndPresent { image }
                    } else {
                        self.stage = Stage::Failed;
                        Action::Abort { reason: Failure::FramebufferIndex }
                    }
                },
                AcquireOutcome::OutOfDate => {
                    self.recreate_swapchain = true;
                    self.stage = Stage::Idle;
                    Action::EndFrame
                },
                AcquireOutcome::Failed => {
                    self.stage = Stage::Failed;
                    Action::Abort { reason: Failure::ImageAcquisition }
                },
            },
            (Stage::Presenting { .. }, Event::Flushed(outcome)) => match outcome {
                FlushOutcome::Flushed => {
                    self.stage = Stage::StoringFuture;
                    Action::KeepFuture
                },
                FlushOutcome::OutOfDate => {
                    self.recreate_swapchain = true;
                    self.stage = Stage::StoringFuture;
                    Action::ResetFuture { report_error: false }
                },
                FlushOutcome::Failed => {
                    self.stage = Stage::StoringFuture;
                    Action::ResetFuture { report_error: true }
                },
            },
            (Stage::StoringFuture, Event::Completed) => {
                self.stage = Stage::PollingEvents;
                Action::PollEvents
            },
            (Stage::PollingEvents, Event::EventsPolled) => {
                self.stage = Stage::Idle;
                Action::EndFrame
            },
            _ => Action::EndFrame,
        }
    }
}


/// Every event in `es` is accepted in turn, starting from `s`.
pub open spec fn accepts_all(s: FrameState, es: Seq<Event>) -> bool
    decreases es.len(),
{
    if es.len() == 0 {
        true
    } else {
        s.accepts(es[0]) && accepts_all(s.spec_step(es[0]).0, es.drop_first())
    }
}

/// Every step keeps the state well-formed: built framebuffers always match
/// the swapchain's images, and the flag to recreate the swapchain is clear
/// whenever an image is acquired or drawn into.
pub proof fn lemma_step_preserves_wf(s: FrameState, e: Event)
    requires
        s.wf(),
        s.accepts(e),
    ensures
        s.spec_step(e).0.wf(),
{
}

/// Starting a frame keeps the state well-formed.
pub proof fn lemma_begin_preserves_wf(s: FrameState)
    requires
        s.wf(),
        s.stage is Idle,
    ensures
        s.spec_begin().0.wf(),
        s.spec_begin().0.in_frame(),
{
}

/// Each step within a frame moves strictly towards its end; a frame ends
/// between frames exactly when the action is `EndFrame`, and in the failed
/// state exactly when it is `Abort`.
pub proof fn lemma_step_makes_progress(s: FrameState, e: Event)
    requires
        s.wf(),
        s.accepts(e),
    ensures
        stage_rank(s.spec_step(e).0.stage) < stage_rank(s.stage),
        s.spec_step(e).1 is EndFrame <==> s.spec_step(e).0.stage is Idle,
        s.spec_step(e).1 is Abort <==> s.spec_step(e).0.stage is Failed,
{
}

/// A frame ends after at most ten events: from a started frame, no sequence
/// of accepted events is longer than the rank of its stage.
pub proof fn lemma_frame_ends(s: FrameState, es: Seq<Event>)
    requires
        s.wf(),
        accepts_all(s, es),
    ensures
        es.len() <= stage_rank(s.stage),
    decreases es.len(),
{
    if es.len() > 0 {
        lemma_step_makes_progress(s, es[0]);
        lemma_step_preserves_wf(s, es[0]);
        lemma_frame_ends(s.spec_step(es[0]).0, es.drop_first());
    }
}

/// A frame started with `begin_frame` takes at most ten events to end.
pub proof fn lemma_frame_length(s: FrameState, es: Seq<Event>)
    requires
        s.wf(),
        s.stage is Idle,
        accepts_all(s.spec_begin().0, es),
    ensures
        es.len() <= 10,
{
    lemma_frame_ends(s.spec_begin().0, es);
}

/// A frame is only drawn into a framebuffer that was built for the current
/// swapchain, with the flag to recreate the swapchain clear.
pub proof fn lemma_submit_into_built_framebuffer(s: FrameState, e: Event, image: usize)
    requires
        s.wf(),
        s.accepts(e),
        s.spec_step(e).1 == (Action::SubmitAndPresent { image }),
    ensures
        s.framebuffers matches Some(n) && image < n && n == s.image_count,
        !s.recreate_swapchain,
        s.spec_step(e).0.stage == (Stage::Presenting { image }),
{
}

/// No image is acquired from a swapchain that is marked for recreation.
pub proof fn lemma_acquire_only_when_current(s: FrameState, e: Event)
    requires
        s.wf(),
        s.accepts(e),
        s.spec_step(e).1 is AcquireImage,
    ensures
        !s.recreate_swapchain,
        s.spec_step(e).0.framebuffers is Some,
{
}

/// An outdated swapchain, reported when acquiring an image or when flushing
/// a frame, is recreated at the next frame.
pub proof fn lemma_out_of_date_requests_recreation(s: FrameState, e: Event)
    requires
        s.wf(),
        s.accepts(e),
        e == Event::ImageAcquired(AcquireOutcome::OutOfDate) || e == Event::Flushed(
            FlushOutcome::OutOfDate,
        ),
    ensures
        s.spec_step(e).0.recreate_swapchain,
{
}

/// Only a successful recreation clears the flag to recreate the swapchain.
pub proof fn lemma_only_recreation_clears_flag(s: FrameState, e: Event)
    requires
        s.wf(),
        s.accepts(e),
        s.recreate_swapchain,
        !s.spec_step(e).0.recreate_swapchain,
    ensures
        e matches Event::SwapchainRecreated(RecreateOutcome::Recreated { .. }),
{
}

/// A frame that starts with the flag set first asks the surface for its
/// extent; one that starts without it builds the missing framebuffers, one
/// per swapchain image, or else goes on to the uniform buffer. Nothing else
/// in the state changes.
pub proof fn lemma_recreation_comes_first(s: FrameState)
    requires
        s.wf(),
        s.stage is CleaningUp,
    ensures
        s.recreate_swapchain ==> s.spec_step(Event::Completed) == (
            FrameState { stage: Stage::QueryingExtent, ..s },
            Action::QueryExtent,
        ),
        !s.recreate_swapchain && s.framebuffers is None ==> s.spec_step(Event::Completed) == (
            FrameState { stage: Stage::BuildingFramebuffers, ..s },
            Action::BuildFramebuffers { count: s.image_count },
        ),
        !s.recreate_swapchain && s.framebuffers is Some ==> s.spec_step(Event::Completed) == (
            FrameState { stage: Stage::UpdatingUniforms, ..s },
            Action::UpdateUniforms,
        ),
{
}

/// The swapchain is recreated with the extent the surface reports, or with
/// 1024 x 768 when it reports none; on success the state takes the new
/// extent and image count, and the framebuffers are rebuilt for the new
/// images before anything is drawn.
pub proof fn lemma_recreation_uses_surface_extent(
    s: FrameState,
    current: Option<Extent>,
    image_count: usize,
)
    requires
        s.wf(),
        s.stage is QueryingExtent,
    ensures
        ({
            let (s1, a1) = s.spec_step(Event::SurfaceExtent(current));
            let extent = spec_surface_extent(current);
            let (s2, a2) = s1.spec_step(
                Event::SwapchainRecreated(RecreateOutcome::Recreated { image_count }),
            );
            let (s3, a3) = s2.spec_step(Event::Completed);
            &&& a1 == (Action::RecreateSwapchain { extent })
            &&& a2 == (Action::ResizeTargets { extent })
            &&& s2.extent == extent && s2.image_count == image_count
            &&& !s2.recreate_swapchain
            &&& a3 == (Action::BuildFramebuffers { count: image_count })
        }),
{
}

/// An extent the surface does not accept skips the frame: nothing else
/// changes, and the swapchain is tried again at the next frame.
pub proof fn lemma_unsupported_dimensions_skip_frame(s: FrameState)
    requires
        s.wf(),
        s.stage is Recreating,
    ensures
        s.spec_step(Event::SwapchainRecreated(RecreateOutcome::UnsupportedDimensions))
            == (s.at(Stage::Idle), Action::EndFrame),
        s.recreate_swapchain,
{
}

/// The outcome of the flush decides the previous frame: a submitted frame's
/// future is kept, otherwise it is replaced, and only an error that is not
/// an outdated swapchain is reported.
pub proof fn lemma_flush_outcome_decides_future(s: FrameState, o: FlushOutcome)
    requires
        s.wf(),
        s.stage is Presenting,
    ensures
        s.spec_step(Event::Flushed(o)).1 == (match o {
            FlushOutcome::Flushed => Action::KeepFuture,
            FlushOutcome::OutOfDate => Action::ResetFuture { report_error: false },
            FlushOutcome::Failed => Action::ResetFuture { report_error: true },
        }),
        s.spec_step(Event::Flushed(o)).0.stage is StoringFuture,
{
}

/// Polling window events ends the frame and changes nothing else: no polled
/// event is reported to the caller.
pub proof fn lemma_polling_events_ends_frame(s: FrameState)
    requires
        s.wf(),
        s.stage is PollingEvents,
    ensures
        s.spec_step(Event::EventsPolled) == (s.at(Stage::Idle), Action::EndFrame),
{
}

/// Starting a frame releases finished frames first and changes nothing but
/// the stage.
pub proof fn lemma_begin_cleans_up(s: FrameState)
    requires
        s.wf(),
        s.stage is Idle,
    ensures
        s.spec_begin() == (FrameState { stage: Stage::CleaningUp, ..s }, Action::CleanupFinished),
{
}

/// Every outcome of the action a stage requested is accepted there, no other
/// event is, and nothing is accepted between frames or after a failure.
pub proof fn lemma_stage_accepts_its_outcomes(s: FrameState, e: Event)
    ensures
        s.stage is QueryingExtent ==> forall|c: Option<Extent>|
            #![auto]
            s.accepts(Event::SurfaceExtent(c)),
        s.stage is Recreating ==> forall|o: RecreateOutcome|
            #![auto]
            s.accepts(Event::SwapchainRecreated(o)),
        s.stage is Acquiring ==> forall|o: AcquireOutcome|
            #![auto]
            s.accepts(Event::ImageAcquired(o)),
        s.stage is Presenting ==> forall|o: FlushOutcome| #![auto] s.accepts(Event::Flushed(o)),
        (s.stage is CleaningUp || s.stage is Resizing || s.stage is BuildingFramebuffers
            || s.stage is UpdatingUniforms || s.stage is StoringFuture) ==> s.accepts(
            Event::Completed,
        ),
        s.stage is PollingEvents ==> s.accepts(Event::EventsPolled),
        (s.stage is Idle || s.stage is Failed) ==> !s.accepts(e),
        s.stage is QueryingExtent ==> (s.accepts(e) <==> e is SurfaceExtent),
        s.stage is Recreating ==> (s.accepts(e) <==> e is SwapchainRecreated),
        s.stage is Acquiring ==> (s.accepts(e) <==> e is ImageAcquired),
        s.stage is Presenting ==> (s.accepts(e) <==> e is Flushed),
        s.stage is PollingEvents ==> (s.accepts(e) <==> e is EventsPolled),
        (s.stage is CleaningUp || s.stage is Resizing || s.stage is BuildingFramebuffers
            || s.stage is UpdatingUniforms || s.stage is StoringFuture) ==> (s.accepts(e)
            <==> e is Completed),
{
}

/// Every acquired image that has a framebuffer is drawn into and presented;
/// an image without one aborts the frame. Nothing else in the state changes.
pub proof fn lemma_acquired_image_is_drawn(s: FrameState, image: usize)
    requires
        s.wf(),
        s.stage is Acquiring,
    ensures
        s.framebuffers matches Some(n) && image < n ==> s.spec_step(
            Event::ImageAcquired(AcquireOutcome::Acquired { image }),
        ) == (
            FrameState { stage: Stage::Presenting { image }, ..s },
            Action::SubmitAndPresent { image },
        ),
        s.framebuffers matches Some(n) && image >= n ==> s.spec_step(
            Event::ImageAcquired(AcquireOutcome::Acquired { image }),
        ) == (
            FrameState { stage: Stage::Failed, ..s },
            Action::Abort { reason: Failure::FramebufferIndex },
        ),
{
}

/// An outdated swapchain at acquire ends the frame with the flag set and
/// nothing else changed; any other acquire error aborts.
pub proof fn lemma_acquire_errors(s: FrameState)
    requires
        s.wf(),
        s.stage is Acquiring,
    ensures
        s.spec_step(Event::ImageAcquired(AcquireOutcome::OutOfDate)) == (
            FrameState { recreate_swapchain: true, stage: Stage::Idle, ..s },
            Action::EndFrame,
        ),
        s.spec_step(Event::ImageAcquired(AcquireOutcome::Failed)) == (
            FrameState { stage: Stage::Failed, ..s },
            Action::Abort { reason: Failure::ImageAcquisition },
        ),
{
}

/// A recreation that fails for another reason than the extent aborts.
pub proof fn lemma_recreation_failure_aborts(s: FrameState)
    requires
        s.wf(),
        s.stage is Recreating,
    ensures
        s.spec_step(Event::SwapchainRecreated(RecreateOutcome::Failed)) == (
            FrameState { stage: Stage::Failed, ..s },
            Action::Abort { reason: Failure::SwapchainRecreation },
        ),
{
}

/// After resizing, the framebuffers are built, one per swapchain image; once
/// built they are recorded, the uniform buffer is written, then an image is
/// acquired; after the future is stored, events are polled.
pub proof fn lemma_preparation_order(s: FrameState)
    requires
        s.wf(),
    ensures
        s.stage is Resizing ==> s.spec_step(Event::Completed) == (
            FrameState { stage: Stage::BuildingFramebuffers, ..s },
            Action::BuildFramebuffers { count: s.image_count },
        ),
        s.stage is BuildingFramebuffers ==> s.spec_step(Event::Completed) == (
            FrameState {
                framebuffers: Some(s.image_count),
                stage: Stage::UpdatingUniforms,
                ..s
            },
            Action::UpdateUniforms,
        ),
        s.stage is UpdatingUniforms ==> s.spec_step(Event::Completed) == (
            FrameState { stage: Stage::Acquiring, ..s },
            Action::AcquireImage,
        ),
        s.stage is StoringFuture ==> s.spec_step(Event::Completed) == (
            FrameState { stage: Stage::PollingEvents, ..s },
            Action::PollEvents,
        ),
{
}

/// The flush outcome changes nothing in the state but the stage, and the
/// flag to recreate, which it sets exactly when the swapchain was outdated.
pub proof fn lemma_flush_keeps_state(s: FrameState, o: FlushOutcome)
    requires
        s.wf(),
        s.stage is Presenting,
    ensures
        s.spec_step(Event::Flushed(o)).0 == (FrameState {
            recreate_swapchain: s.recreate_swapchain || o == FlushOutcome::OutOfDate,
            stage: Stage::StoringFuture,
            ..s
        }),
        s.spec_step(Event::Flushed(o)).0.recreate_swapchain <==> o == FlushOutcome::OutOfDate,
{
}

} // verus!
