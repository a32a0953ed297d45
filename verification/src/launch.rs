//! The launch plan: which command the supervisor's one child runs, taken
//! from the command line. The command is mandatory; everything after it
//! is passed through verbatim. Spawning itself is the process launcher's
//! job, outside this library.

use vstd::prelude::*;

verus! {

/// The child command and its arguments, passed through verbatim.
#[derive(Clone, Debug)]
pub struct LaunchPlan {
    pub command: String,
    pub args: Vec<String>,
}

/// A fatal startup failure: no child is spawned.
#[derive(Clone, Copy, Debug, PartialEq, Eq, Structural)]
pub enum StartupError {
    /// The command line names no command to run.
    MissingCommand,
}

/// Build the launch plan from the full argument list (the program's own
/// name first): the first argument after the program name is the command,
/// the rest are its arguments, verbatim and in order. With no command the
/// startup fails fatally and no child is spawned.
pub fn plan_launch(mut argv: Vec<String>) -> (plan: Result<LaunchPlan, StartupError>)
    ensures
        argv@.len() >= 2 ==> (plan matches Ok(p) && p.command == argv@[1] && p.args@ == argv@.skip(
            2,
        )),
        argv@.len() < 2 ==> plan == Result::<LaunchPlan, StartupError>::Err(
            StartupError::MissingCommand,
        ),
{
    let ghost orig = argv@;
    if argv.len() < 2 {
        return Err(StartupError::MissingCommand);
    }
    argv.remove(0);
    let command = argv.remove(0);
    proof {
        assert(argv@ =~= orig.skip(2));
    }
    Ok(LaunchPlan { command, args: argv })
}

} // verus!
