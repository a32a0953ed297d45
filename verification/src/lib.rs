//! A minimal PID-1 (init) process supervisor library.
//!
//! The library holds the verified core of an init supervisor: the
//! signal-driven lifecycle state machine, the zombie reaper, the
//! debugger-attach detector, the command-line launch plan, and the
//! translation of child exit outcomes into supervisor exit codes.

pub mod control;
pub mod detector;
pub mod events;
pub mod launch;
pub mod machine;
pub mod reaper;
pub mod sys;

