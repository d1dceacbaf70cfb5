use vstd::prelude::*;
use crate::pump::EndReason;

verus! {

/// The stages of a proxy session.
#[derive(Clone, Copy, Debug, PartialEq, Eq, Structural)]
pub enum SessionPhase {
    Created,
    RawModeApplied,
    Running,
    ShuttingDown,
    Terminated,
}

/// What moves a session from one stage to the next.
#[derive(Clone, Copy, Debug, PartialEq, Eq, Structural)]
pub enum SessionStep {
    /// The terminal's attributes were saved and raw mode installed.
    RawApplied,
    /// The pump thread and the reactor's sources are in place.
    Registered,
    /// The pump ended and the handler's `shutdown` returned.
    ShutdownSignal,
    /// Setup or I/O failed.
    Failed,
    /// The saved attributes were put back.
    Restored,
}

/// The stage that `step` leads to from `phase`, if it can happen there.
pub open spec fn next_phase_spec(phase: SessionPhase, step: SessionStep) -> Option<SessionPhase> {
    match (phase, step) {
        (SessionPhase::Created, SessionStep::RawApplied) => Some(SessionPhase::RawModeApplied),
        (SessionPhase::Created, SessionStep::Failed) => Some(SessionPhase::Terminated),
        (SessionPhase::RawModeApplied, SessionStep::Registered) => Some(SessionPhase::Running),
        (SessionPhase::RawModeApplied, SessionStep::Failed) => Some(SessionPhase::ShuttingDown),
        (SessionPhase::Running, SessionStep::ShutdownSignal) => Some(SessionPhase::ShuttingDown),
        (SessionPhase::Running, SessionStep::Failed) => Some(SessionPhase::ShuttingDown),
        (SessionPhase::ShuttingDown, SessionStep::Restored) => Some(SessionPhase::Terminated),
        _ => None,
    }
}

/// The stage that `step` leads to from `phase`; `None` where it cannot happen.
pub fn next_phase(phase: SessionPhase, step: SessionStep) -> (r: Option<SessionPhase>)
    ensures
        r == next_phase_spec(phase, step),
{
    match (phase, step) {
        (SessionPhase::Created, SessionStep::RawApplied) => Some(SessionPhase::RawModeApplied),
        (SessionPhase::Created, SessionStep::Failed) => Some(SessionPhase::Terminated),
        (SessionPhase::RawModeApplied, SessionStep::Registered) => Some(SessionPhase::Running),
        (SessionPhase::RawModeApplied, SessionStep::Failed) => Some(SessionPhase::ShuttingDown),
        (SessionPhase::Running, SessionStep::ShutdownSignal) => Some(SessionPhase::ShuttingDown),
        (SessionPhase::Running, SessionStep::Failed) => Some(SessionPhase::ShuttingDown),
        (SessionPhase::ShuttingDown, SessionStep::Restored) => Some(SessionPhase::Terminated),
        _ => None,
    }
}

/// The step that ends a running session for the reason the pump gave: the
/// child closing its side is the normal shutdown, a failed read or write is
/// a failure.
pub fn step_for_end(reason: EndReason) -> (r: SessionStep)
    ensures
        r == (if reason == EndReason::Closed {
            SessionStep::ShutdownSignal
        } else {
            SessionStep::Failed
        }),
{
    match reason {
        EndReason::Closed => SessionStep::ShutdownSignal,
        EndReason::ReadFailed => SessionStep::Failed,
        EndReason::WriteFailed => SessionStep::Failed,
    }
}

/// Raw mode is on in this stage: the terminal still has to be restored.
pub open spec fn raw_mode_on(phase: SessionPhase) -> bool {
    phase is RawModeApplied || phase is Running || phase is ShuttingDown
}

/// No step skips restoration: a session whose terminal is in raw mode
/// reaches `Terminated` only through `Restored`, and only from `ShuttingDown`.
pub proof fn lemma_no_skipped_restore(phase: SessionPhase, step: SessionStep)
    requires
        raw_mode_on(phase),
        next_phase_spec(phase, step) == Some(SessionPhase::Terminated),
    ensures
        phase is ShuttingDown,
        step is Restored,
{
}

/// Every step out of a raw-mode stage either keeps raw mode on or is the
/// restoration itself.
pub proof fn lemma_raw_mode_kept_until_restored(phase: SessionPhase, step: SessionStep)
    requires
        raw_mode_on(phase),
        next_phase_spec(phase, step) is Some,
    ensures
        raw_mode_on(next_phase_spec(phase, step)->Some_0) || step is Restored,
{
}

} // verus!
