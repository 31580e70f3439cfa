//! The frame lifecycle manager.
//!
//! A frame runs through these steps, each reported by the caller:
//! `begin_frame` (which may ask for a rebuild, answered by `rebuild_done`),
//! `image_acquired`, the caller's draws, `end_frame` (which hands out the
//! commands to submit) and `frame_presented`.
use vstd::prelude::*;
use crate::recorder::{CommandSequence, DrawCommand, DrawRecorder, Extent, Framebuffer, Rgba, draws_of};
use crate::drawer::{Drawer, TriangleDrawer};
use crate::targets::{RenderTargets, framebuffers_for};
use crate::sync::{FrameSynchronizer, PresentOutcome, Signal, WaitCondition, advanced, retired};

verus! {

/// Where the manager stands in a frame.
#[derive(Clone, Copy, PartialEq, Eq, Structural, Debug)]
pub enum Phase {
    /// Between frames.
    Idle,
    /// Waiting for the render targets to be rebuilt at `surface`.
    Rebuilding { surface: Extent },
    /// Waiting for the next image.
    Acquiring,
    /// Recording into the framebuffer of `image`.
    FrameOpen { image: usize },
    /// Waiting for the outcome of the submission.
    Presenting,
}

/// What `begin_frame` asks the caller to do next.
#[derive(Clone, Copy, PartialEq, Eq, Structural, Debug)]
pub enum BeginAction {
    /// Rebuild the swapchain and its framebuffers at this size.
    Rebuild { surface: Extent },
    /// Acquire the next swapchain image.
    Acquire,
}

/// How rebuilding the swapchain went.
#[derive(Clone, Copy, PartialEq, Eq, Structural, Debug)]
pub enum RebuildOutcome {
    /// A new swapchain with this many images.
    Rebuilt { image_count: usize },
    /// The size is outside what the platform supports.
    UnsupportedDimensions,
}

/// How acquiring the next image went.
#[derive(Clone, Copy, PartialEq, Eq, Structural, Debug)]
pub enum AcquireOutcome {
    /// Image `image`; `suboptimal` when it no longer matches the surface well.
    Acquired { image: usize, suboptimal: bool },
    /// The swapchain no longer matches the surface.
    OutOfDate,
    /// Any other failure.
    Failed,
}

#[derive(Clone, Copy, PartialEq, Eq, Structural, Debug)]
pub enum RenderError {
    /// The swapchain went stale: skip this frame; the next one rebuilds.
    SwapchainOutOfDate,
    /// Acquisition failed for another reason: the render loop must stop.
    AcquisitionFailed,
    /// A submission failed for another reason; the next frame can proceed.
    PresentationLost,
    /// A step was called out of order.
    ProgrammingMisuse,
}

/// The state of a manager, without its drawers.
pub struct FrameState {
    pub phase: Phase,
    pub invalidated: bool,
    pub dimensions: Extent,
    pub image_count: nat,
    pub format: u32,
    pub clear_color: Rgba,
    pub previous: Signal,
}

/// `begin_frame`: reclaim finished work, then rebuild if the targets are
/// invalid and the surface has area, else acquire.
pub open spec fn begin_next(s: FrameState, surface: Extent, finished: bool) -> (FrameState, Result<BeginAction, RenderError>) {
    if s.phase != Phase::Idle {
        (s, Err(RenderError::ProgrammingMisuse))
    } else if s.invalidated && surface.has_area() {
        (
            FrameState { phase: Phase::Rebuilding { surface }, previous: retired(s.previous, finished), ..s },
            Ok(BeginAction::Rebuild { surface }),
        )
    } else {
        (
            FrameState { phase: Phase::Acquiring, previous: retired(s.previous, finished), ..s },
            Ok(BeginAction::Acquire),
        )
    }
}

/// `rebuild_done`: a rebuilt swapchain replaces the targets and clears the
/// invalidation; an unsupported size leaves both as they were.
pub open spec fn rebuild_next(s: FrameState, outcome: RebuildOutcome) -> (FrameState, Result<(), RenderError>) {
    match s.phase {
        Phase::Rebuilding { surface } => match outcome {
            RebuildOutcome::Rebuilt { image_count } => (
                FrameState {
                    phase: Phase::Acquiring,
                    invalidated: false,
                    dimensions: surface,
                    image_count: image_count as nat,
                    ..s
                },
                Ok(()),
            ),
            RebuildOutcome::UnsupportedDimensions => (FrameState { phase: Phase::Acquiring, ..s }, Ok(())),
        },
        _ => (s, Err(RenderError::ProgrammingMisuse)),
    }
}

/// `image_acquired`: an image of the set opens the frame; staleness
/// invalidates the targets and skips the frame; anything else is fatal.
pub open spec fn acquire_next(s: FrameState, outcome: AcquireOutcome) -> (FrameState, Result<usize, RenderError>) {
    if s.phase != Phase::Acquiring {
        (s, Err(RenderError::ProgrammingMisuse))
    } else {
        match outcome {
            AcquireOutcome::Acquired { image, suboptimal } => if image < s.image_count {
                (
                    FrameState {
                        phase: Phase::FrameOpen { image },
                        invalidated: s.invalidated || suboptimal,
                        ..s
                    },
                    Ok(image),
                )
            } else {
                (FrameState { phase: Phase::Idle, ..s }, Err(RenderError::AcquisitionFailed))
            },
            AcquireOutcome::OutOfDate => (
                FrameState { phase: Phase::Idle, invalidated: true, ..s },
                Err(RenderError::SwapchainOutOfDate),
            ),
            AcquireOutcome::Failed => (
                FrameState { phase: Phase::Idle, ..s },
                Err(RenderError::AcquisitionFailed),
            ),
        }
    }
}

/// `end_frame`: the frame's commands wait for the previous work and the
/// acquired image.
pub open spec fn end_next(s: FrameState) -> (FrameState, Result<WaitCondition, RenderError>) {
    match s.phase {
        Phase::FrameOpen { image } => (
            FrameState { phase: Phase::Presenting, ..s },
            Ok(WaitCondition { after: s.previous, image }),
        ),
        _ => (s, Err(RenderError::ProgrammingMisuse)),
    }
}

/// `frame_presented`: back to idle whatever happened; staleness invalidates
/// the targets and is not an error; another failure is reported.
pub open spec fn present_next(s: FrameState, outcome: PresentOutcome) -> (FrameState, Result<(), RenderError>) {
    if s.phase != Phase::Presenting {
        (s, Err(RenderError::ProgrammingMisuse))
    } else {
        (
            FrameState {
                phase: Phase::Idle,
                invalidated: s.invalidated || outcome == PresentOutcome::OutOfDate,
                previous: advanced(outcome),
                ..s
            },
            if outcome == PresentOutcome::Failed {
                Err(RenderError::PresentationLost)
            } else {
                Ok(())
            },
        )
    }
}

/// The draws that a frame records from drawers with these queues: each
/// drawer's queue in turn, in registration order.
pub open spec fn frame_draws<T>(queues: Seq<Seq<T>>, viewport: Extent) -> Seq<DrawCommand<T>>
    decreases queues.len(),
{
    if queues.len() == 0 {
        Seq::empty()
    } else {
        frame_draws(queues.drop_last(), viewport) + draws_of(queues.last(), viewport)
    }
}

/// The number of primitives queued over all drawers.
pub open spec fn total_pending<T>(queues: Seq<Seq<T>>) -> nat
    decreases queues.len(),
{
    if queues.len() == 0 {
        0
    } else {
        total_pending(queues.drop_last()) + queues.last().len()
    }
}

/// `count` empty queues.
pub open spec fn empty_queues<T>(count: nat) -> Seq<Seq<T>> {
    Seq::new(count, |i: int| Seq::<T>::empty())
}

pub open spec fn queues_of<T>(drawers: Seq<TriangleDrawer<T>>) -> Seq<Seq<T>> {
    Seq::new(drawers.len(), |i: int| drawers[i].pending())
}

/// What the caller submits at the end of a frame.
#[derive(Debug)]
pub struct Submission<T> {
    pub commands: CommandSequence<T>,
    pub wait: WaitCondition,
}

/// Owns the render targets, the synchroniser, the recorder and the drawers,
/// and moves a frame from step to step. `T` is the triangle's vertex data.
pub struct FrameLifecycle<T> {
    phase: Phase,
    invalidated: bool,
    clear_color: Rgba,
    targets: RenderTargets,
    sync: FrameSynchronizer,
    recorder: Option<DrawRecorder<T>>,
    drawers: Vec<TriangleDrawer<T>>,
}

impl<T> FrameLifecycle<T> {
    pub closed spec fn state(&self) -> FrameState {
        FrameState {
            phase: self.phase,
            invalidated: self.invalidated,
            dimensions: self.targets.dimensions(),
            image_count: self.targets.image_count(),
            format: self.targets.format(),
            clear_color: self.clear_color,
            previous: self.sync.previous,
        }
    }

    /// The queue of each registered drawer, in registration order.
    pub closed spec fn queues(&self) -> Seq<Seq<T>> {
        queues_of(self.drawers@)
    }

    /// A recorder is open exactly while a frame is open.
    pub closed spec fn recording(&self) -> bool {
        self.recorder is Some
    }

    /// The framebuffer the open recorder draws into.
    pub closed spec fn recording_target(&self) -> Framebuffer {
        self.recorder->0.target()
    }

    pub closed spec fn wf(&self) -> bool {
        &&& self.targets.wf()
        &&& (self.recorder is Some <==> self.phase is FrameOpen)
        &&& match self.phase {
            Phase::FrameOpen { image } => {
                &&& image < self.targets.image_count()
                &&& self.sync.acquired == Some(image)
                &&& self.recorder->0.target() == self.targets.framebuffers()[image as int]
                &&& self.recorder->0.clear_color() == self.clear_color
                &&& self.recorder->0.draws() == Seq::<DrawCommand<T>>::empty()
            },
            Phase::Rebuilding { surface } => {
                &&& surface.has_area()
                &&& self.sync.acquired is None
            },
            _ => self.sync.acquired is None,
        }
    }

    pub(crate) proof fn lemma_recording(&self)
        requires
            self.wf(),
        ensures
            self.recording() <==> self.state().phase is FrameOpen,
    {
    }

    /// The framebuffer of `image` in a state's render targets.
    pub open spec fn framebuffer_of(s: FrameState, image: usize) -> Framebuffer {
        framebuffers_for(s.image_count, s.dimensions)[image as int]
    }

    /// A manager over `image_count` swapchain images of the given size and
    /// format, clearing each frame to `clear_color`, with no drawer yet.
    pub fn new(image_count: usize, dimensions: Extent, format: u32, clear_color: Rgba) -> (r: Self)
        ensures
            r.wf(),
            r.state() == (FrameState {
                phase: Phase::Idle,
                invalidated: false,
                dimensions,
                image_count: image_count as nat,
                format,
                clear_color,
                previous: Signal::Ready,
            }),
            r.queues() == Seq::<Seq<T>>::empty(),
            !r.recording(),
    {
        let r = FrameLifecycle {
            phase: Phase::Idle,
            invalidated: false,
            clear_color,
            targets: RenderTargets::new(image_count, dimensions, format),
            sync: FrameSynchronizer::new(),
            recorder: None,
            drawers: Vec::new(),
        };
        assert(r.queues() =~= Seq::<Seq<T>>::empty());
        r
    }
    /// Adds a drawer after those already registered; returns its index.
    pub fn register_drawer(&mut self, drawer: TriangleDrawer<T>) -> (r: usize)
        requires
            old(self).wf(),
        ensures
            final(self).wf(),
            final(self).state() == old(self).state(),
            final(self).queues() == old(self).queues().push(drawer.pending()),
            r == old(self).queues().len(),
            final(self).recording() == old(self).recording(),
    {
        let r = self.drawers.len();
        self.drawers.push(drawer);
        assert(self.queues() =~= old(self).queues().push(drawer.pending()));
        r
    }

    /// Queues a triangle on drawer `drawer`, for the next `end_frame`.
    pub fn draw_triangle(&mut self, drawer: usize, points: T)
        requires
            old(self).wf(),
            drawer < old(self).queues().len(),
        ensures
            final(self).wf(),
            final(self).state() == old(self).state(),
            final(self).queues() == old(self).queues().update(
                drawer as int,
                old(self).queues()[drawer as int].push(points),
            ),
            final(self).recording() == old(self).recording(),
    {
        let mut queued: Vec<TriangleDrawer<T>> = Vec::new();
        std::mem::swap(&mut queued, &mut self.drawers);
        let mut d = queued.remove(drawer);
        d.draw_triangle(points);
        queued.insert(drawer, d);
        self.drawers = queued;
        assert(self.queues() =~= old(self).queues().update(
            drawer as int,
            old(self).queues()[drawer as int].push(points),
        ));
    }

    /// A resize was reported: rebuild the targets at the next `begin_frame`.
    pub fn invalidate(&mut self)
        requires
            old(self).wf(),
        ensures
            final(self).wf(),
            final(self).state() == (FrameState { invalidated: true, ..old(self).state() }),
            final(self).queues() == old(self).queues(),
            final(self).recording() == old(self).recording(),
    {
        self.invalidated = true;
    }

    /// Reclaims finished work; `finished` reports whether the last
    /// submission has completed.
    pub fn retire_completed(&mut self, finished: bool)
        requires
            old(self).wf(),
        ensures
            final(self).wf(),
            final(self).state() == (FrameState {
                previous: retired(old(self).state().previous, finished),
                ..old(self).state()
            }),
            final(self).queues() == old(self).queues(),
            final(self).recording() == old(self).recording(),
    {
        self.sync.retire_completed(finished);
    }

    /// Starts a frame on a surface of size `surface`. The finished work is
    /// reclaimed first; then the targets are rebuilt if they are invalid and
    /// the surface has area, and otherwise the next image is acquired.
    pub fn begin_frame(&mut self, surface: Extent, finished: bool) -> (r: Result<BeginAction, RenderError>)
        requires
            old(self).wf(),
        ensures
            final(self).wf(),
            (final(self).state(), r) == begin_next(old(self).state(), surface, finished),
            final(self).queues() == old(self).queues(),
            final(self).recording() == old(self).recording(),
    {
        match self.phase {
            Phase::Idle => {},
            _ => {
                return Err(RenderError::ProgrammingMisuse);
            },
        }
        self.sync.retire_completed(finished);
        if self.invalidated && surface.is_drawable() {
            self.phase = Phase::Rebuilding { surface };
            Ok(BeginAction::Rebuild { surface })
        } else {
            self.phase = Phase::Acquiring;
            Ok(BeginAction::Acquire)
        }
    }

    /// Reports how the rebuild that `begin_frame` asked for went.
    pub fn rebuild_done(&mut self, outcome: RebuildOutcome) -> (r: Result<(), RenderError>)
        requires
            old(self).wf(),
        ensures
            final(self).wf(),
            (final(self).state(), r) == rebuild_next(old(self).state(), outcome),
            final(self).queues() == old(self).queues(),
            final(self).recording() == old(self).recording(),
    {
        let surface = match self.phase {
            Phase::Rebuilding { surface } => surface,
            _ => {
                return Err(RenderError::ProgrammingMisuse);
            },
        };
        match outcome {
            RebuildOutcome::Rebuilt { image_count } => {
                self.targets.rebuild(image_count, surface);
                self.invalidated = false;
            },
            RebuildOutcome::UnsupportedDimensions => {},
        }
        self.phase = Phase::Acquiring;
        Ok(())
    }

    /// Reports how acquiring the next image went. On success the frame is
    /// open, recording into the image's framebuffer, and the image is
    /// returned.
    pub fn image_acquired(&mut self, outcome: AcquireOutcome) -> (r: Result<usize, RenderError>)
        requires
            old(self).wf(),
        ensures
            final(self).wf(),
            (final(self).state(), r) == acquire_next(old(self).state(), outcome),
            final(self).queues() == old(self).queues(),
            final(self).recording() == (r is Ok || old(self).recording()),
            r is Ok ==> final(self).recording_target() == Self::framebuffer_of(final(self).state(), r->Ok_0),
    {
        match self.phase {
            Phase::Acquiring => {},
            _ => {
                return Err(RenderError::ProgrammingMisuse);
            },
        }
        match outcome {
            AcquireOutcome::Acquired { image, suboptimal } => {
                if image < self.targets.len() {
                    proof {
                        self.targets.lemma_layout();
                    }
                    let framebuffer = self.targets.framebuffer(image);
                    self.recorder = Some(DrawRecorder::open(framebuffer, self.clear_color));
                    self.sync.acquire(image);
                    self.invalidated = self.invalidated || suboptimal;
                    self.phase = Phase::FrameOpen { image };
                    Ok(image)
                } else {
                    self.phase = Phase::Idle;
                    Err(RenderError::AcquisitionFailed)
                }
            },
            AcquireOutcome::OutOfDate => {
                self.invalidated = true;
                self.phase = Phase::Idle;
                Err(RenderError::SwapchainOutOfDate)
            },
            AcquireOutcome::Failed => {
                self.phase = Phase::Idle;
                Err(RenderError::AcquisitionFailed)
            },
        }
    }

    /// Ends the open frame: every drawer, in registration order, flushes its
    /// queue into the recorder; the recorder is closed, and its commands are
    /// handed out with what they must wait for.
    pub fn end_frame(&mut self) -> (r: Result<Submission<T>, RenderError>)
        requires
            old(self).wf(),
        ensures
            final(self).wf(),
            final(self).state() == end_next(old(self).state()).0,
            !final(self).recording(),
            match r {
                Ok(submission) => {
                    &&& end_next(old(self).state()).1 == Ok::<WaitCondition, RenderError>(submission.wait)
                    &&& submission.commands.framebuffer == old(self).recording_target()
                    &&& submission.commands.clear == old(self).state().clear_color
                    &&& submission.commands.draws@ == frame_draws(
                        old(self).queues(),
                        old(self).state().dimensions,
                    )
                    &&& final(self).queues() == empty_queues::<T>(old(self).queues().len())
                },
                Err(e) => {
                    &&& end_next(old(self).state()).1 == Err::<WaitCondition, RenderError>(e)
                    &&& final(self).queues() == old(self).queues()
                },
            },
    {
        match self.phase {
            Phase::FrameOpen { .. } => {},
            _ => {
                return Err(RenderError::ProgrammingMisuse);
            },
        }
        let mut open: Option<DrawRecorder<T>> = None;
        std::mem::swap(&mut open, &mut self.recorder);
        let mut recorder = open.unwrap();
        let dimensions = self.targets.current_dimensions();
        let mut rest: Vec<TriangleDrawer<T>> = Vec::new();
        std::mem::swap(&mut rest, &mut self.drawers);
        let ghost all = rest@;
        let ghost queues = queues_of(all);
        let mut done: Vec<TriangleDrawer<T>> = Vec::new();
        while rest.len() > 0
            invariant
                done@.len() + rest@.len() == all.len(),
                rest@ == all.subrange(done@.len() as int, all.len() as int),
                queues == queues_of(all),
                queues_of(done@) == empty_queues::<T>(done@.len()),
                recorder.target() == old(self).recording_target(),
                recorder.clear_color() == old(self).clear_color,
                recorder.draws() == frame_draws(queues.take(done@.len() as int), dimensions),
            decreases rest@.len(),
        {
            let ghost k = done@.len() as int;
            let mut drawer = rest.remove(0);
            assert(drawer.pending() == queues[k]);
            drawer.render(dimensions, &mut recorder);
            let ghost before = done@;
            done.push(drawer);
            assert(queues.take(k + 1).drop_last() =~= queues.take(k));
            assert forall|i: int| 0 <= i < done@.len() implies done@[i].pending() == Seq::<T>::empty() by {
                if i < k {
                    assert(done@[i] == before[i]);
                    assert(queues_of(before)[i] == Seq::<T>::empty());
                }
            }
            assert(queues_of(done@) =~= empty_queues::<T>(done@.len()));
            assert(rest@ =~= all.subrange(done@.len() as int, all.len() as int));
        }
        assert(queues.take(all.len() as int) =~= queues);
        self.drawers = done;
        let wait = self.sync.join_with_acquired();
        self.phase = Phase::Presenting;
        Ok(Submission { commands: recorder.close(), wait })
    }

    /// Reports how the submission of the last frame went. The manager is
    /// idle again whatever the outcome.
    pub fn frame_presented(&mut self, outcome: PresentOutcome) -> (r: Result<(), RenderError>)
        requires
            old(self).wf(),
        ensures
            final(self).wf(),
            (final(self).state(), r) == present_next(old(self).state(), outcome),
            final(self).queues() == old(self).queues(),
            final(self).recording() == old(self).recording(),
    {
        match self.phase {
            Phase::Presenting => {},
            _ => {
                return Err(RenderError::ProgrammingMisuse);
            },
        }
        self.sync.advance(outcome);
        if let PresentOutcome::OutOfDate = outcome {
            self.invalidated = true;
        }
        self.phase = Phase::Idle;
        match outcome {
            PresentOutcome::Failed => Err(RenderError::PresentationLost),
            _ => Ok(()),
        }
    }
    pub fn phase(&self) -> (r: Phase)
        ensures
            r == self.state().phase,
    {
        self.phase
    }

    /// Whether the render targets must be rebuilt before they are used again.
    pub fn is_invalidated(&self) -> (r: bool)
        ensures
            r == self.state().invalidated,
    {
        self.invalidated
    }

    pub fn is_recording(&self) -> (r: bool)
        ensures
            r == self.recording(),
    {
        self.recorder.is_some()
    }

    /// The size of the current render targets, which viewports take.
    pub fn dimensions(&self) -> (r: Extent)
        ensures
            r == self.state().dimensions,
    {
        self.targets.current_dimensions()
    }

    /// The colour format the render pass was made for.
    pub fn current_format(&self) -> (r: u32)
        ensures
            r == self.state().format,
    {
        self.targets.current_format()
    }

    pub fn image_count(&self) -> (r: usize)
        ensures
            r == self.state().image_count,
    {
        self.targets.len()
    }

    pub fn previous_signal(&self) -> (r: Signal)
        ensures
            r == self.state().previous,
    {
        self.sync.previous
    }

    pub fn drawer_count(&self) -> (r: usize)
        ensures
            r == self.queues().len(),
    {
        self.drawers.len()
    }

    /// The number of triangles queued on drawer `drawer`.
    pub fn pending_len(&self, drawer: usize) -> (r: usize)
        requires
            drawer < self.queues().len(),
        ensures
            r == self.queues()[drawer as int].len(),
    {
        self.drawers[drawer].pending_len()
    }
}

} // verus!
