use vstd::prelude::*;
use crate::text::{join_spec, join_strings, opt_view, views};

verus! {

/// How an external process ended, as observed by the caller that ran it.
pub enum ProcessOutcome {
    /// The process could not be started at all.
    SpawnFailed,
    /// The process exited normally with the given status code.
    Exited(i32),
    /// The process ended without an exit code (killed by a signal).
    Terminated,
}

/// The failure that a command run is reported as.
#[derive(Debug, PartialEq, Eq)]
pub enum CommandError {
    /// The executable could not be started.
    SpawnFailed,
    /// The process exited with a non-zero code.
    Failed(i32),
    /// The process ended abnormally, with no exit code.
    Terminated,
}

pub open spec fn outcome_result(o: ProcessOutcome) -> Result<(), CommandError> {
    match o {
        ProcessOutcome::SpawnFailed => Err(CommandError::SpawnFailed),
        ProcessOutcome::Exited(code) => if code == 0 {
            Ok(())
        } else {
            Err(CommandError::Failed(code))
        },
        ProcessOutcome::Terminated => Err(CommandError::Terminated),
    }
}

/// Turns the way a process ended into success or a structured failure:
/// only an exit with code 0 is a success.
pub fn check_command_outcome(outcome: ProcessOutcome) -> (r: Result<(), CommandError>)
    ensures
        r == outcome_result(outcome),
{
    match outcome {
        ProcessOutcome::SpawnFailed => Err(CommandError::SpawnFailed),
        ProcessOutcome::Exited(code) => if code == 0 {
            Ok(())
        } else {
            Err(CommandError::Failed(code))
        },
        ProcessOutcome::Terminated => Err(CommandError::Terminated),
    }
}

/// An external program to run: its path, its arguments in order, and the
/// directory to run it in (the current one when absent).
pub struct CommandInvocation {
    pub program: String,
    pub args: Vec<String>,
    pub dir: Option<String>,
}

impl CommandInvocation {
    pub open spec fn is(
        &self,
        program: Seq<char>,
        args: Seq<Seq<char>>,
        dir: Option<Seq<char>>,
    ) -> bool {
        &&& self.program@ == program
        &&& views(self.args@) == args
        &&& opt_view(self.dir) == dir
    }
}

/// How a command is shown to the user: the program's file name, then the
/// arguments, all separated by spaces.
pub open spec fn command_text(program_name: Seq<char>, args: Seq<Seq<char>>) -> Seq<char> {
    program_name + " "@ + join_spec(args, " "@)
}

pub fn describe_command(program_name: &str, args: &Vec<String>) -> (r: String)
    ensures
        r@ == command_text(program_name@, views(args@)),
{
    let joined = join_strings(args, " ");
    let mut r = program_name.to_owned();
    r.append(" ");
    r.append(joined.as_str());
    r
}

} // verus!
