//! The frame synchroniser: one evolving "previous work done" signal, and the
//! signal of the image acquired for the frame being recorded.
use vstd::prelude::*;

verus! {

/// When the work submitted so far is known to be complete.
#[derive(Clone, Copy, PartialEq, Eq, Structural, Debug)]
pub enum Signal {
    /// Immediately satisfied: nothing submitted is still outstanding.
    Ready,
    /// Satisfied when the last submission completes.
    Pending,
}

/// What a frame's commands wait for before they run: completion of earlier
/// work, joined with the readiness of the acquired image.
#[derive(Clone, Copy, PartialEq, Eq, Structural, Debug)]
pub struct WaitCondition {
    pub after: Signal,
    pub image: usize,
}

/// How a submission, with its present and fence flush, went.
#[derive(Clone, Copy, PartialEq, Eq, Structural, Debug)]
pub enum PresentOutcome {
    Presented,
    /// The swapchain no longer matches the surface.
    OutOfDate,
    /// Any other flush failure.
    Failed,
}

/// The signal that remains after reclaiming finished work: a pending signal
/// whose work is observed `finished` becomes immediately satisfied.
pub open spec fn retired(previous: Signal, finished: bool) -> Signal {
    if finished {
        Signal::Ready
    } else {
        previous
    }
}

/// The signal after a submission: pending on success, and otherwise reset to
/// an immediately satisfied one so that the next frame can proceed.
pub open spec fn advanced(outcome: PresentOutcome) -> Signal {
    match outcome {
        PresentOutcome::Presented => Signal::Pending,
        _ => Signal::Ready,
    }
}

pub struct FrameSynchronizer {
    pub previous: Signal,
    pub acquired: Option<usize>,
}

impl FrameSynchronizer {
    pub fn new() -> (r: Self)
        ensures
            r.previous == Signal::Ready,
            r.acquired is None,
    {
        FrameSynchronizer { previous: Signal::Ready, acquired: None }
    }

    /// Reclaims what finished; `finished` reports whether the last submission
    /// has completed.
    pub fn retire_completed(&mut self, finished: bool)
        ensures
            final(self).previous == retired(old(self).previous, finished),
            final(self).acquired == old(self).acquired,
    {
        if finished {
            self.previous = Signal::Ready;
        }
    }

    /// Records the image acquired for the frame being recorded.
    pub fn acquire(&mut self, image: usize)
        requires
            old(self).acquired is None,
        ensures
            final(self).previous == old(self).previous,
            final(self).acquired == Some(image),
    {
        self.acquired = Some(image);
    }

    /// Joins the previous work with the acquired image, consuming the latter.
    pub fn join_with_acquired(&mut self) -> (r: WaitCondition)
        requires
            old(self).acquired is Some,
        ensures
            r == (WaitCondition { after: old(self).previous, image: old(self).acquired->0 }),
            final(self).previous == old(self).previous,
            final(self).acquired is None,
    {
        let image = match self.acquired {
            Some(i) => i,
            None => 0,
        };
        self.acquired = None;
        WaitCondition { after: self.previous, image }
    }

    /// Replaces the previous-work signal after a submission.
    pub fn advance(&mut self, outcome: PresentOutcome)
        ensures
            final(self).previous == advanced(outcome),
            final(self).acquired == old(self).acquired,
    {
        self.previous = match outcome {
            PresentOutcome::Presented => Signal::Pending,
            _ => Signal::Ready,
        };
    }
}

} // verus!
