//! What every process offers.

use tokio::sync::mpsc::Sender;
use vstd::prelude::*;
use vstd::string::StringExecFns;

verus! {

/// The output of a process that a pipe can be attached to.
#[derive(Clone, Copy, Debug, PartialEq, Eq, Structural)]
pub enum Pipe {
    STDOUT,
    STDERR,
}

/// Why a process failed.
#[derive(Debug)]
pub enum ProcessError {
    /// The process could not be run, or ended badly.
    Runtime(String),
    /// The build that comes before the run failed.
    Buildtime(String),
    /// A pipe could not be attached.
    Pipe(String),
}

impl ProcessError {
    /// The error in words.
    pub fn message(&self) -> (m: String)
        ensures
            self matches ProcessError::Runtime(e) ==> m@ == "failed to run process: "@ + e@,
            self matches ProcessError::Buildtime(e) ==> m@ == "failed to run build for process: "@
                + e@,
            self matches ProcessError::Pipe(e) ==> m@ == "failed to attach pipe: "@ + e@,
    {
        match self {
            ProcessError::Runtime(e) => String::from_str("failed to run process: ").concat(e.as_str()),
            ProcessError::Buildtime(e) => String::from_str(
                "failed to run build for process: ",
            ).concat(e.as_str()),
            ProcessError::Pipe(e) => String::from_str("failed to attach pipe: ").concat(e.as_str()),
        }
    }
}

/// A process to which pipes can be attached before it runs.
pub trait ProcessOperations: Sized {
    /// The senders attached to the given output, in the order of attachment.
    spec fn attached(&self, pipe: Pipe) -> Seq<Sender<String>>;

    /// Attaches `sender` to the given output of the process: from then on
    /// each line of that output goes to the sender too. The other output
    /// keeps its senders.
    fn pipe(&mut self, pipe: Pipe, sender: Sender<String>) -> (r: Result<(), ProcessError>)
        ensures
            r is Ok,
            final(self).attached(pipe) == old(self).attached(pipe).push(sender),
            forall|other: Pipe| other != pipe ==> final(self).attached(other) == old(self).attached(other),
    ;
}

} // verus!
