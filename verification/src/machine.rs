//! The signal-driven lifecycle state machine: the single authority that
//! tracks the child, interprets control events, and decides every
//! spawn/stop/restart/reap transition.

use vstd::prelude::*;

use crate::events::{Action, Event, ExitOutcome, FAILURE_CODE, spec_exit_code};

verus! {

/// The durable states of the supervisor.
#[derive(Clone, Copy, Debug, PartialEq, Eq, Structural)]
pub enum Phase {
    /// Waiting for the launcher to report a spawn result; no child yet.
    Starting,
    /// The steady state: one live tracked child.
    Running,
    /// No child is tracked; waiting for a resume request.
    Paused,
    /// The child was asked to terminate gracefully; waiting for its exit.
    Terminating,
    /// Terminal: the supervisor's own exit code is fixed.
    Exited,
}

/// The whole supervisor state: the current phase, the tracked child's
/// process id, the last-known debugger-attached state, and the final
/// exit code once it is fixed.
#[derive(Clone, Copy, Debug, PartialEq, Eq)]
pub struct Supervisor {
    pub phase: Phase,
    /// Process id of the tracked child; present exactly while the phase
    /// is `Running` or `Terminating`.
    pub child: Option<i32>,
    /// Last detector report; flips pause/resume transitions on change.
    pub attached: bool,
    /// The supervisor's own exit code, set once, present exactly in the
    /// `Exited` phase.
    pub exit_code: Option<u8>,
}

impl Supervisor {
    /// Well-formedness: a child is tracked exactly while running or
    /// terminating, its process id is positive, and the exit code is
    /// fixed exactly in the terminal phase.
    pub open spec fn wf(self) -> bool {
        &&& (self.child is Some) <==> (self.phase == Phase::Running
            || self.phase == Phase::Terminating)
        &&& (self.child is Some) ==> self.child->0 > 0
        &&& (self.exit_code is Some) <==> self.phase == Phase::Exited
    }

    /// A fresh supervisor: about to ask the launcher for the first child.
    pub fn new() -> (sup: Supervisor)
        ensures
            sup == (Supervisor {
                phase: Phase::Starting,
                child: None,
                attached: false,
                exit_code: None,
            }),
            sup.wf(),
    {
        Supervisor { phase: Phase::Starting, child: None, attached: false, exit_code: None }
    }

    /// The process id of the tracked child, if one is tracked.
    pub fn child_pid(&self) -> (pid: Option<i32>)
        ensures
            pid == self.child,
    {
        self.child
    }

    /// Take one step of the state machine: consume one event, move to
    /// the next state, and say which side effect the control loop must
    /// perform.
    pub fn step(&mut self, event: Event) -> (action: Action)
        requires
            old(self).wf(),
            event_wf(event),
        ensures
            (*final(self), action) == spec_step(*old(self), event),
            final(self).wf(),
    {
        let next = step_of(*self, event);
        *self = next.0;
        proof {
            lemma_step_preserves_wf(*old(self), event);
        }
        next.1
    }
}

/// Events carrying a process id carry a usable (positive) one.
pub open spec fn event_wf(event: Event) -> bool {
    match event {
        Event::Spawned(pid) => pid > 0,
        _ => true,
    }
}

/// The transition function of the supervisor state machine:
/// `Starting -> Running <-> Paused -> Terminating -> Exited`, with
/// restarting as a transient pass back through `Starting`.
pub open spec fn spec_step(s: Supervisor, event: Event) -> (Supervisor, Action) {
    match event {
        Event::Spawned(pid) => if s.phase == Phase::Starting {
            (Supervisor { phase: Phase::Running, child: Some(pid), ..s }, Action::Nothing)
        } else {
            (s, Action::Nothing)
        },
        Event::SpawnFailed => if s.phase == Phase::Starting {
            (
                Supervisor { phase: Phase::Exited, exit_code: Some(FAILURE_CODE), ..s },
                Action::Exit(FAILURE_CODE),
            )
        } else {
            (s, Action::Nothing)
        },
        Event::ChildExited(outcome) => if s.phase == Phase::Running
            || s.phase == Phase::Terminating {
            (
                Supervisor {
                    phase: Phase::Exited,
                    child: None,
                    exit_code: Some(spec_exit_code(outcome)),
                    ..s
                },
                Action::Exit(spec_exit_code(outcome)),
            )
        } else {
            (s, Action::Nothing)
        },
        Event::OrphanActivity => if s.phase == Phase::Exited {
            (s, Action::Nothing)
        } else {
            (s, Action::Reap)
        },
        Event::Shutdown => match s.phase {
            Phase::Running => (
                Supervisor { phase: Phase::Terminating, ..s },
                Action::GracefulStop(s.child->0),
            ),
            Phase::Terminating => (s, Action::Nothing),
            Phase::Exited => (s, Action::Nothing),
            _ => (
                Supervisor { phase: Phase::Exited, exit_code: Some(0), ..s },
                Action::Exit(0),
            ),
        },
        Event::PauseRequest => if s.phase == Phase::Running {
            (
                Supervisor { phase: Phase::Paused, child: None, ..s },
                Action::StopChild(s.child->0),
            )
        } else {
            (s, Action::Nothing)
        },
        Event::ResumeRequest => match s.phase {
            Phase::Paused => (Supervisor { phase: Phase::Starting, ..s }, Action::Spawn),
            Phase::Running => (
                Supervisor { phase: Phase::Starting, child: None, ..s },
                Action::Restart(s.child->0),
            ),
            _ => (s, Action::Nothing),
        },
        Event::DetectorReport(now) => {
            let noted = Supervisor { attached: now, ..s };
            if now && !s.attached && s.phase == Phase::Running {
                (
                    Supervisor { phase: Phase::Paused, child: None, ..noted },
                    Action::StopChild(s.child->0),
                )
            } else if !now && s.attached && s.phase == Phase::Paused {
                (Supervisor { phase: Phase::Starting, ..noted }, Action::Spawn)
            } else if s.phase == Phase::Exited {
                (noted, Action::Nothing)
            } else {
                // A tick that causes no transition still drains the
                // reaper: the periodic safety net for orphans whose
                // termination signal was missed or coalesced.
                (noted, Action::Reap)
            }
        },
        Event::ForwardSignal(signum) => if s.phase == Phase::Running
            || s.phase == Phase::Terminating {
            (s, Action::Forward(s.child->0, signum))
        } else {
            (s, Action::Nothing)
        },
    }
}

/// Executable mirror of the transition function.
fn step_of(s: Supervisor, event: Event) -> (r: (Supervisor, Action))
    requires
        s.wf(),
        event_wf(event),
    ensures
        r == spec_step(s, event),
{
    match event {
        Event::Spawned(pid) => if matches!(s.phase, Phase::Starting) {
            (Supervisor { phase: Phase::Running, child: Some(pid), ..s }, Action::Nothing)
        } else {
            (s, Action::Nothing)
        },
        Event::SpawnFailed => if matches!(s.phase, Phase::Starting) {
            (
                Supervisor { phase: Phase::Exited, exit_code: Some(FAILURE_CODE), ..s },
                Action::Exit(FAILURE_CODE),
            )
        } else {
            (s, Action::Nothing)
        },
        Event::ChildExited(outcome) => if matches!(s.phase, Phase::Running | Phase::Terminating) {
            let code = crate::events::exit_status_to_exit_code(outcome);
            (
                Supervisor { phase: Phase::Exited, child: None, exit_code: Some(code), ..s },
                Action::Exit(code),
            )
        } else {
            (s, Action::Nothing)
        },
        Event::OrphanActivity => if matches!(s.phase, Phase::Exited) {
            (s, Action::Nothing)
        } else {
            (s, Action::Reap)
        },
        Event::Shutdown => match s.phase {
            Phase::Running => {
                let pid = unwrap_pid(s.child);
                (Supervisor { phase: Phase::Terminating, ..s }, Action::GracefulStop(pid))
            },
            Phase::Terminating => (s, Action::Nothing),
            Phase::Exited => (s, Action::Nothing),
            _ => (
                Supervisor { phase: Phase::Exited, exit_code: Some(0), ..s },
                Action::Exit(0),
            ),
        },
        Event::PauseRequest => if matches!(s.phase, Phase::Running) {
            let pid = unwrap_pid(s.child);
            (Supervisor { phase: Phase::Paused, child: None, ..s }, Action::StopChild(pid))
        } else {
            (s, Action::Nothing)
        },
        Event::ResumeRequest => match s.phase {
            Phase::Paused => (Supervisor { phase: Phase::Starting, ..s }, Action::Spawn),
            Phase::Running => {
                let pid = unwrap_pid(s.child);
                (
                    Supervisor { phase: Phase::Starting, child: None, ..s },
                    Action::Restart(pid),
                )
            },
            _ => (s, Action::Nothing),
        },
        Event::DetectorReport(now) => {
            let noted = Supervisor { attached: now, ..s };
            if now && !s.attached && matches!(s.phase, Phase::Running) {
                let pid = unwrap_pid(s.child);
                (
                    Supervisor { phase: Phase::Paused, child: None, ..noted },
                    Action::StopChild(pid),
                )
            } else if !now && s.attached && matches!(s.phase, Phase::Paused) {
                (Supervisor { phase: Phase::Starting, ..noted }, Action::Spawn)
            } else if matches!(s.phase, Phase::Exited) {
                (noted, Action::Nothing)
            } else {
                (noted, Action::Reap)
            }
        },
        Event::ForwardSignal(signum) => if matches!(s.phase, Phase::Running | Phase::Terminating) {
            let pid = unwrap_pid(s.child);
            (s, Action::Forward(pid, signum))
        } else {
            (s, Action::Nothing)
        },
    }
}

/// Extract a tracked process id known to be present.
fn unwrap_pid(child: Option<i32>) -> (pid: i32)
    requires
        child is Some,
    ensures
        pid == child->0,
{
    match child {
        Some(pid) => pid,
        None => 0,
    }
}

/// Actions carrying a process id carry a usable (positive) one, and an
/// exit action carries the code the machine recorded.
pub open spec fn action_wf(action: Action) -> bool {
    match action {
        Action::Forward(pid, _) => pid > 0,
        Action::StopChild(pid) => pid > 0,
        Action::GracefulStop(pid) => pid > 0,
        Action::Restart(pid) => pid > 0,
        _ => true,
    }
}

/// One step from a well-formed state on a well-formed event leaves the
/// state well-formed and emits a well-formed action.
pub proof fn lemma_step_preserves_wf(s: Supervisor, event: Event)
    requires
        s.wf(),
        event_wf(event),
    ensures
        spec_step(s, event).0.wf(),
        action_wf(spec_step(s, event).1),
{
}

/// A tracked child is never discarded without its wait obligation being
/// discharged exactly once: when a step stops tracking the child, the
/// step's action either kills and waits on exactly that child (the pause
/// and restart paths), or the exit event that drove the step means the
/// child was already reaped by the poll that produced it.
pub proof fn lemma_child_never_abandoned(s: Supervisor, event: Event)
    requires
        s.wf(),
        event_wf(event),
        s.child is Some,
    ensures
        ({
            let (next, action) = spec_step(s, event);
            next.child != s.child ==> {
                ||| action == Action::StopChild(s.child->0)
                ||| action == Action::Restart(s.child->0)
                ||| (event matches Event::ChildExited(outcome) && action == Action::Exit(
                    spec_exit_code(outcome),
                ))
            }
        }),
{
}

/// Idempotent shutdown: a second shutdown request right after a first
/// leaves the supervisor exactly where the first left it — the same
/// phase and the same final exit code — and performs no action at all,
/// so no child is killed or waited on twice.
pub proof fn lemma_shutdown_idempotent(s: Supervisor)
    requires
        s.wf(),
    ensures
        spec_step(spec_step(s, Event::Shutdown).0, Event::Shutdown).0 == spec_step(
            s,
            Event::Shutdown,
        ).0,
        spec_step(spec_step(s, Event::Shutdown).0, Event::Shutdown).1 == Action::Nothing,
{
}

/// Pause/resume cycle: a pause request while running moves to a state
/// with no tracked child and stops exactly the old child (the stop
/// action kills it, waits on it and reaps); a resume request then asks
/// the launcher for a fresh child; a successful spawn returns to running
/// with the new child; and the exit status the supervisor finally
/// records reflects only the final child generation's outcome.
pub proof fn lemma_pause_resume_cycle(s: Supervisor, new_pid: i32, outcome: ExitOutcome)
    requires
        s.wf(),
        s.phase == Phase::Running,
        new_pid > 0,
    ensures
        ({
            let (paused, stop) = spec_step(s, Event::PauseRequest);
            let (starting, ask) = spec_step(paused, Event::ResumeRequest);
            let (running, noted) = spec_step(starting, Event::Spawned(new_pid));
            let (done, exit) = spec_step(running, Event::ChildExited(outcome));
            &&& paused.phase == Phase::Paused
            &&& paused.child is None
            &&& stop == Action::StopChild(s.child->0)
            &&& ask == Action::Spawn
            &&& running.phase == Phase::Running
            &&& running.child == Some(new_pid)
            &&& noted == Action::Nothing
            &&& done.phase == Phase::Exited
            &&& done.exit_code == Some(spec_exit_code(outcome))
            &&& exit == Action::Exit(spec_exit_code(outcome))
        }),
{
}

} // verus!
