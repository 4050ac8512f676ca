//! What becomes of one run of the engine's binary.
use vstd::prelude::*;

use crate::text::{concat3, decode_lossy, lossy_of};

verus! {

/// The message of every operation whose child process was killed by a signal.
pub const INTERRUPT_MESSAGE: &'static str = "Interrupted.";

/// The separator between an operation's own message and the details of a failure.
pub const DETAILS: &'static str = "\nDetails: ";

/// One command for the engine's binary: its arguments and, when the run is
/// captured, the message shown beside the spinner while it runs.
pub struct Invocation {
    pub spinner: Option<String>,
    pub args: Vec<String>,
}

/// How a run of the engine's binary ended.
pub enum Outcome {
    /// The process could not be launched or waited for; the system's error text.
    Failed { details: String },
    /// The process ended: its exit code (none when a signal killed it) and
    /// what it wrote to its output streams (empty where they were not captured).
    Exited { code: Option<i32>, stdout: Vec<u8>, stderr: Vec<u8> },
}

pub open spec fn interrupt_message() -> Seq<char> {
    "Interrupted."@
}

/// An operation's message followed by the details of its failure.
pub open spec fn with_details(error: Seq<char>, details: Seq<char>) -> Seq<char> {
    error + "\nDetails: "@ + details
}

/// The process ended without an exit code: a signal killed it.
pub open spec fn killed(o: Outcome) -> bool {
    match o {
        Outcome::Exited { code: None, .. } => true,
        _ => false,
    }
}

/// The cancellation flag after a run: it falls once a signal has killed a child
/// and never rises again.
pub open spec fn running_after(running: bool, o: Outcome) -> bool {
    running && !killed(o)
}

/// What a captured run returns: its output on exit code zero, the fixed
/// interruption message when killed, else the operation's message with details.
pub open spec fn quiet_spec(error: Seq<char>, o: Outcome) -> Result<Seq<char>, Seq<char>> {
    match o {
        Outcome::Failed { details } => Err(with_details(error, details@)),
        Outcome::Exited { code, stdout, stderr } => match code {
            Some(c) => if c == 0 {
                Ok(lossy_of(stdout@))
            } else {
                Err(with_details(error, lossy_of(stderr@)))
            },
            None => Err(interrupt_message()),
        },
    }
}

/// What an attached run returns: nothing on exit code zero, the fixed
/// interruption message when killed, else the operation's message.
pub open spec fn attach_spec(error: Seq<char>, o: Outcome) -> Result<(), Seq<char>> {
    match o {
        Outcome::Failed { details } => Err(with_details(error, details@)),
        Outcome::Exited { code, .. } => match code {
            Some(c) => if c == 0 {
                Ok(())
            } else {
                Err(error)
            },
            None => Err(interrupt_message()),
        },
    }
}

pub open spec fn text_result(r: Result<String, String>) -> Result<Seq<char>, Seq<char>> {
    match r {
        Ok(s) => Ok(s@),
        Err(e) => Err(e@),
    }
}

pub open spec fn unit_result(r: Result<(), String>) -> Result<(), Seq<char>> {
    match r {
        Ok(u) => Ok(u),
        Err(e) => Err(e@),
    }
}

/// Drops the output of a captured run's result.
pub open spec fn without_output(r: Result<Seq<char>, Seq<char>>) -> Result<(), Seq<char>> {
    match r {
        Ok(_) => Ok(()),
        Err(e) => Err(e),
    }
}

/// A child killed by a signal always lowers the cancellation flag and always
/// yields the fixed interruption message, whatever the operation's own
/// failure message and whichever way its output was handled.
pub proof fn lemma_killed_is_interrupted(error: Seq<char>, running: bool, o: Outcome)
    requires
        killed(o),
    ensures
        !running_after(running, o),
        quiet_spec(error, o) == Err::<Seq<char>, Seq<char>>(interrupt_message()),
        attach_spec(error, o) == Err::<(), Seq<char>>(interrupt_message()),
{
}

fn with_details_string(error: &str, details: &str) -> (r: String)
    ensures
        r@ == with_details(error@, details@),
{
    proof {
        reveal_strlit("\nDetails: ");
    }
    concat3(error, DETAILS, details)
}

pub(crate) fn interrupted() -> (r: String)
    ensures
        r@ == interrupt_message(),
{
    proof {
        reveal_strlit("Interrupted.");
    }
    INTERRUPT_MESSAGE.to_owned()
}

/// Decides a captured run (standard output and error collected): returns the
/// decoded output on success, and lowers `running` when a signal killed the child.
pub fn run_quiet(error: &str, outcome: Outcome, running: &mut bool) -> (r: Result<String, String>)
    ensures
        text_result(r) == quiet_spec(error@, outcome),
        *final(running) == running_after(*old(running), outcome),
{
    match outcome {
        Outcome::Failed { details } => Err(with_details_string(error, details.as_str())),
        Outcome::Exited { code, stdout, stderr } => match code {
            Some(c) => if c == 0 {
                Ok(decode_lossy(&stdout))
            } else {
                let text = decode_lossy(&stderr);
                Err(with_details_string(error, text.as_str()))
            },
            None => {
                *running = false;
                Err(interrupted())
            },
        },
    }
}

/// Decides an attached run (output streams go to the terminal): lowers
/// `running` when a signal killed the child.
pub fn run_attach(error: &str, outcome: Outcome, running: &mut bool) -> (r: Result<(), String>)
    ensures
        unit_result(r) == attach_spec(error@, outcome),
        *final(running) == running_after(*old(running), outcome),
{
    match outcome {
        Outcome::Failed { details } => Err(with_details_string(error, details.as_str())),
        Outcome::Exited { code, .. } => match code {
            Some(c) => if c == 0 {
                Ok(())
            } else {
                Err(error.to_owned())
            },
            None => {
                *running = false;
                Err(interrupted())
            },
        },
    }
}

} // verus!
