use vstd::prelude::*;

verus! {

/// Where a submission stands while it obtains a frame to render into.
///
/// A submission starts in `Acquire`. A failed acquisition leads to
/// `Recreate`, after which the frame is acquired once more (`Reacquire`);
/// a second failure ends in `Unavailable`. Any successful acquisition ends
/// in `Render`.
#[derive(Clone, Copy, Debug, PartialEq, Eq, Structural)]
pub enum SubmitPhase {
    Acquire,
    Recreate,
    Reacquire,
    Render,
    Unavailable,
}

/// What the swapchain reported for the step a phase asked for.
#[derive(Clone, Copy, Debug, PartialEq, Eq, Structural)]
pub enum AcquireEvent {
    FrameAcquired,
    AcquireFailed,
    SwapchainRecreated,
}

/// The phase after an event; an event that does not answer the phase's
/// request leaves the phase as it is.
pub open spec fn next_phase(p: SubmitPhase, e: AcquireEvent) -> SubmitPhase {
    match (p, e) {
        (SubmitPhase::Acquire, AcquireEvent::FrameAcquired) => SubmitPhase::Render,
        (SubmitPhase::Acquire, AcquireEvent::AcquireFailed) => SubmitPhase::Recreate,
        (SubmitPhase::Recreate, AcquireEvent::SwapchainRecreated) => SubmitPhase::Reacquire,
        (SubmitPhase::Reacquire, AcquireEvent::FrameAcquired) => SubmitPhase::Render,
        (SubmitPhase::Reacquire, AcquireEvent::AcquireFailed) => SubmitPhase::Unavailable,
        _ => p,
    }
}

/// The phase reached from `p` after the events, in order.
pub open spec fn run_phases(p: SubmitPhase, evs: Seq<AcquireEvent>) -> SubmitPhase
    decreases evs.len(),
{
    if evs.len() == 0 {
        p
    } else {
        next_phase(run_phases(p, evs.drop_last()), evs.last())
    }
}

/// How many times the events lead from `p` into recreating the swapchain.
pub open spec fn recreations(p: SubmitPhase, evs: Seq<AcquireEvent>) -> nat
    decreases evs.len(),
{
    if evs.len() == 0 {
        0
    } else {
        let before = run_phases(p, evs.drop_last());
        let step: nat = if before != SubmitPhase::Recreate && next_phase(before, evs.last())
            == SubmitPhase::Recreate {
            1
        } else {
            0
        };
        recreations(p, evs.drop_last()) + step
    }
}

impl SubmitPhase {
    /// The phase every submission starts in.
    pub fn start() -> (r: SubmitPhase)
        ensures
            r == SubmitPhase::Acquire,
    {
        SubmitPhase::Acquire
    }

    /// Advances the submission by the swapchain's answer.
    pub fn next(self, e: AcquireEvent) -> (r: SubmitPhase)
        ensures
            r == next_phase(self, e),
    {
        match (self, e) {
            (SubmitPhase::Acquire, AcquireEvent::FrameAcquired) => SubmitPhase::Render,
            (SubmitPhase::Acquire, AcquireEvent::AcquireFailed) => SubmitPhase::Recreate,
            (SubmitPhase::Recreate, AcquireEvent::SwapchainRecreated) => SubmitPhase::Reacquire,
            (SubmitPhase::Reacquire, AcquireEvent::FrameAcquired) => SubmitPhase::Render,
            (SubmitPhase::Reacquire, AcquireEvent::AcquireFailed) => SubmitPhase::Unavailable,
            _ => self,
        }
    }

    /// Whether acquisition is over: a frame is ready or the frame is skipped.
    pub fn is_settled(&self) -> (r: bool)
        ensures
            r == (*self == SubmitPhase::Render || *self == SubmitPhase::Unavailable),
    {
        match self {
            SubmitPhase::Render | SubmitPhase::Unavailable => true,
            _ => false,
        }
    }
}

/// However the swapchain answers, one submission recreates it at most once,
/// and it ends unavailable only after exactly one recreation.
pub proof fn lemma_single_recreation(evs: Seq<AcquireEvent>)
    ensures
        ({
            let p = run_phases(SubmitPhase::Acquire, evs);
            let n = recreations(SubmitPhase::Acquire, evs);
            &&& n <= 1
            &&& p == SubmitPhase::Unavailable ==> n == 1
            &&& p == SubmitPhase::Acquire ==> n == 0
        }),
{
    lemma_recreated_phases(evs);
}

proof fn lemma_recreated_phases(evs: Seq<AcquireEvent>)
    ensures
        ({
            let p = run_phases(SubmitPhase::Acquire, evs);
            let n = recreations(SubmitPhase::Acquire, evs);
            &&& p == SubmitPhase::Acquire ==> n == 0
            &&& p == SubmitPhase::Recreate || p == SubmitPhase::Reacquire || p
                == SubmitPhase::Unavailable ==> n == 1
            &&& n <= 1
        }),
    decreases evs.len(),
{
    if evs.len() > 0 {
        lemma_recreated_phases(evs.drop_last());
    }
}

/// Once acquisition is settled, later events change nothing.
pub proof fn lemma_settled_is_final(p: SubmitPhase, evs: Seq<AcquireEvent>)
    requires
        p == SubmitPhase::Render || p == SubmitPhase::Unavailable,
    ensures
        run_phases(p, evs) == p,
        recreations(p, evs) == 0,
    decreases evs.len(),
{
    if evs.len() > 0 {
        lemma_settled_is_final(p, evs.drop_last());
    }
}

} // verus!
