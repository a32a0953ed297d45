//! Trusted wrappers around the OS process primitives. Each wrapper holds
//! one outside call; everything the library proves about the control loop
//! holds for every value these calls can return.

use std::io::Write;

use vstd::prelude::*;

verus! {

/// What one non-blocking or blocking wait call reported.
#[derive(Clone, Copy, Debug, PartialEq, Eq, Structural)]
pub enum WaitOutcome {
    /// A child exited normally: its process id and exit status. The
    /// child's process-table slot is released (it is reaped).
    Exited(i32, i32),
    /// A child was killed by a signal: its process id. It is reaped.
    Signaled(i32),
    /// A child changed state without terminating (stopped or continued):
    /// its process id. Nothing is reaped.
    OtherChange(i32),
    /// No awaited child has a state change to report.
    StillAlive,
    /// The calling process has no children at all.
    NoChildren,
    /// The wait call failed for another reason.
    WaitError,
}

/// Relies on nix::sys::wait::waitpid: waits for a state change of the
/// child with the given process id, or of any child when the id is -1;
/// non-blocking when `nohang` is set. Which outcome comes back depends on
/// the live process table, so nothing more is assumed of it.
#[verifier::external_body]
pub(crate) fn wait_on(pid: i32, nohang: bool) -> (outcome: WaitOutcome)
    requires
        pid == -1 || pid > 0,
{
    let flag = if nohang { Some(nix::sys::wait::WaitPidFlag::WNOHANG) } else { None };
    match nix::sys::wait::waitpid(nix::unistd::Pid::from_raw(pid), flag) {
        Ok(nix::sys::wait::WaitStatus::Exited(p, code)) => WaitOutcome::Exited(p.as_raw(), code),
        Ok(nix::sys::wait::WaitStatus::Signaled(p, _, _)) => WaitOutcome::Signaled(p.as_raw()),
        Ok(nix::sys::wait::WaitStatus::StillAlive) => WaitOutcome::StillAlive,
        Ok(other) => WaitOutcome::OtherChange(other.pid().map_or(-1, |p| p.as_raw())),
        Err(nix::errno::Errno::ECHILD) => WaitOutcome::NoChildren,
        Err(_) => WaitOutcome::WaitError,
    }
}

/// Relies on nix::sys::signal::kill to deliver the signal with this
/// number to the process with this id, and on nix::sys::signal::Signal's
/// TryFrom<i32> to map the number to the signal it names. Returns whether
/// the OS accepted the delivery; whether it did depends on the live
/// process table, so nothing more is assumed of it.
#[verifier::external_body]
pub(crate) fn send_signal(pid: i32, signum: i32) -> (delivered: bool)
    requires
        pid > 0,
{
    match nix::sys::signal::Signal::try_from(signum) {
        Ok(sig) => nix::sys::signal::kill(nix::unistd::Pid::from_raw(pid), sig).is_ok(),
        Err(_) => false,
    }
}

/// Relies on std::io::stderr (with the writeln macro): prints the one
/// diagnostic line owed when a wait call fails for a reason other than
/// "no children exist". Nothing is returned and nothing is assumed.
#[verifier::external_body]
pub(crate) fn log_wait_failure()
{
    let mut err = std::io::stderr();
    let _ = writeln!(err, "pidone: wait for terminated children failed; retrying on the next tick");
}

} // verus!
