//! Signal numbers, control events, actions and directives: the plain
//! vocabulary that the supervisor state machine speaks.

use vstd::prelude::*;

verus! {

/// Linux signal number of the child-state-change signal.
pub const SIGNUM_CHLD: i32 = 17;
/// Linux signal number of the first user-defined signal (pause request).
pub const SIGNUM_USR1: i32 = 10;
/// Linux signal number of the second user-defined signal (resume request).
pub const SIGNUM_USR2: i32 = 12;
/// Linux signal number of the interrupt signal (shutdown request).
pub const SIGNUM_INT: i32 = 2;
/// Linux signal number of the termination signal (shutdown request).
pub const SIGNUM_TERM: i32 = 15;
/// Linux signal number of the unblockable kill signal.
pub const SIGNUM_KILL: i32 = 9;

/// How the tracked child ended, as reported by the wait primitive.
#[derive(Clone, Copy, Debug, PartialEq, Eq, Structural)]
pub enum ExitOutcome {
    /// The child exited normally with this status value.
    Code(i32),
    /// The child was killed by an uncaught signal.
    Signaled,
    /// The child is gone but no status could be collected.
    Lost,
}

/// A control event consumed by the supervisor state machine, exactly once.
#[derive(Clone, Copy, Debug, PartialEq, Eq, Structural)]
pub enum Event {
    /// The launcher produced a live child with this process id.
    Spawned(i32),
    /// The launcher failed to produce a child.
    SpawnFailed,
    /// The tracked child was reaped with this outcome.
    ChildExited(ExitOutcome),
    /// A child-state change that does not end the tracked child
    /// (an orphan terminated, or the tracked child merely stopped).
    OrphanActivity,
    /// A termination or interrupt signal arrived.
    Shutdown,
    /// The dedicated pause signal arrived.
    PauseRequest,
    /// The dedicated resume-with-restart signal arrived.
    ResumeRequest,
    /// The debugger-attach detector reported this attached state.
    DetectorReport(bool),
    /// Any other signal, to be forwarded verbatim to the child.
    ForwardSignal(i32),
}

/// What the control loop must do after a state-machine step.
#[derive(Clone, Copy, Debug, PartialEq, Eq, Structural)]
pub enum Action {
    /// No side effect.
    Nothing,
    /// Drain the reaper.
    Reap,
    /// Deliver the signal (second field) to the process id (first field).
    Forward(i32, i32),
    /// Kill this child, wait on it, and drain the reaper.
    StopChild(i32),
    /// Send the graceful termination signal to this child and keep
    /// tracking it until its exit is reported.
    GracefulStop(i32),
    /// Kill this child, wait on it, drain the reaper, then ask the
    /// launcher for a fresh child.
    Restart(i32),
    /// Ask the launcher for a fresh child.
    Spawn,
    /// Run a final reap pass, then exit with this code.
    Exit(u8),
}

/// What the embedding program must do next: keep looping, spawn a new
/// child and report the result, or exit with the given code.
#[derive(Clone, Copy, Debug, PartialEq, Eq, Structural)]
pub enum Directive {
    Continue,
    SpawnChild,
    Exit(u8),
}

/// The role a received signal plays for the supervisor.
#[derive(Clone, Copy, Debug, PartialEq, Eq, Structural)]
pub enum SignalRole {
    /// A child changed state: poll the tracked child, then reap.
    ChildChange,
    /// Shut the supervisor down.
    Shutdown,
    /// Pause: stop the child and wait for a resume request.
    Pause,
    /// Resume, restarting the child.
    Resume,
    /// Not specially interpreted: forward verbatim to the child.
    Forward(i32),
}

/// Generic failure exit code: reported when the child was killed by a
/// signal, when its status was lost, or when a spawn fails.
pub const FAILURE_CODE: u8 = 1;

/// The role each signal number plays.
pub open spec fn spec_classify(signum: i32) -> SignalRole {
    if signum == SIGNUM_CHLD {
        SignalRole::ChildChange
    } else if signum == SIGNUM_INT || signum == SIGNUM_TERM {
        SignalRole::Shutdown
    } else if signum == SIGNUM_USR1 {
        SignalRole::Pause
    } else if signum == SIGNUM_USR2 {
        SignalRole::Resume
    } else {
        SignalRole::Forward(signum)
    }
}

/// Classify a received signal: the child-state-change signal asks for a
/// poll and a reap, termination and interrupt request shutdown, the two
/// user-defined signals request pause and resume, and every other signal
/// is forwarded verbatim.
pub fn classify_signal(signum: i32) -> (role: SignalRole)
    ensures
        role == spec_classify(signum),
{
    if signum == SIGNUM_CHLD {
        SignalRole::ChildChange
    } else if signum == SIGNUM_INT || signum == SIGNUM_TERM {
        SignalRole::Shutdown
    } else if signum == SIGNUM_USR1 {
        SignalRole::Pause
    } else if signum == SIGNUM_USR2 {
        SignalRole::Resume
    } else {
        SignalRole::Forward(signum)
    }
}

/// The supervisor exit code that a child outcome translates to: the
/// child's own exit status when it exited normally (the wait primitive
/// reports one byte, so a value outside a byte is reported as the generic
/// failure code), and the fixed generic failure code when the child was
/// killed by a signal or its status was lost.
pub open spec fn spec_exit_code(outcome: ExitOutcome) -> u8 {
    match outcome {
        ExitOutcome::Code(c) => if 0 <= c <= 255 {
            c as u8
        } else {
            FAILURE_CODE
        },
        ExitOutcome::Signaled => FAILURE_CODE,
        ExitOutcome::Lost => FAILURE_CODE,
    }
}

/// Translate a child outcome into the supervisor's own exit code.
pub fn exit_status_to_exit_code(outcome: ExitOutcome) -> (code: u8)
    ensures
        code == spec_exit_code(outcome),
{
    match outcome {
        ExitOutcome::Code(c) => {
            if 0 <= c && c <= 255 {
                c as u8
            } else {
                FAILURE_CODE
            }
        },
        ExitOutcome::Signaled => FAILURE_CODE,
        ExitOutcome::Lost => FAILURE_CODE,
    }
}

} // verus!
