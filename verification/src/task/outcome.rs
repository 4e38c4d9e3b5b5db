//! A supervised task as its owner sees it.
//!
//! A task is running until its work reports how it ended: with an output,
//! cancelled, or with a failure of the scheduler. It ends once; what it ended
//! with stays.

use vstd::prelude::*;
use vstd::string::StringExecFns;

verus! {

/// A unique identifier for tasks.
#[derive(Debug, Clone, Copy, PartialEq, Eq, Hash, Structural)]
pub struct TaskId(pub u64);

/// The mark of work that was cancelled.
#[derive(Debug, Clone, Copy, PartialEq, Eq, Structural)]
pub struct Aborted;

/// A failure to run or join the work of a task.
#[derive(Debug)]
pub struct JoinFailure {
    /// Whether the work was cancelled by the scheduler, rather than having
    /// broken down.
    pub cancelled: bool,
    /// The scheduler's words for what happened.
    pub reason: String,
}

/// Why awaiting a task gave no output.
#[derive(Debug)]
pub enum TaskError {
    /// The work was cancelled.
    Aborted(Aborted),
    /// The scheduler could not run or join the work.
    Join(JoinFailure),
    /// Several tasks failed.
    MultipleErrors(Vec<TaskError>),
}

/// An output, or the mark that the work was cancelled.
#[derive(Debug)]
pub enum Maybe<T> {
    Value(T),
    Aborted(Aborted),
}

/// How the work of a task ended.
pub enum Joined<T> {
    /// With an output.
    Output(T),
    /// Cancelled.
    Aborted,
    /// Not at all: the scheduler failed to run or join it.
    Failed(JoinFailure),
}

/// The state of a task.
pub enum Lifecycle<T> {
    Running,
    Completed(T),
    Cancelled,
    Failed(JoinFailure),
}

impl<T> Lifecycle<T> {
    /// Whether the task has ended.
    pub open spec fn is_terminal(self) -> bool {
        !(self is Running)
    }

    /// The state after the work has reported how it ended. An ended task
    /// stays as it is.
    pub open spec fn ended(self, joined: Joined<T>) -> Lifecycle<T> {
        if self.is_terminal() {
            self
        } else {
            match joined {
                Joined::Output(v) => Lifecycle::Completed(v),
                Joined::Aborted => Lifecycle::Cancelled,
                Joined::Failed(f) => Lifecycle::Failed(f),
            }
        }
    }

    /// What awaiting the task gives, once it has ended.
    pub open spec fn awaited(self) -> Option<Result<T, TaskError>> {
        match self {
            Lifecycle::Running => None,
            Lifecycle::Completed(v) => Some(Ok(v)),
            Lifecycle::Cancelled => Some(Err(TaskError::Aborted(Aborted))),
            Lifecycle::Failed(f) => Some(Err(TaskError::Join(f))),
        }
    }
}

/// An awaited result with a cancellation turned into a value of its own.
pub open spec fn maybe_of<T>(awaited: Result<T, TaskError>) -> Result<Maybe<T>, TaskError> {
    match awaited {
        Ok(v) => Ok(Maybe::Value(v)),
        Err(TaskError::Aborted(mark)) => Ok(Maybe::Aborted(mark)),
        Err(e) => Err(e),
    }
}

/// An awaited result where cancellation counts as success: only a failure
/// of the scheduler that is no cancellation remains an error.
pub open spec fn allowing_abort<T>(awaited: Result<T, TaskError>) -> Result<(), TaskError> {
    match maybe_of(awaited) {
        Ok(_) => Ok(()),
        Err(TaskError::Join(f)) => if f.cancelled {
            Ok(())
        } else {
            Err(TaskError::Join(f))
        },
        Err(e) => Err(e),
    }
}

impl JoinFailure {
    /// Whether the work was cancelled by the scheduler.
    pub fn is_cancelled(&self) -> (b: bool)
        ensures
            b == self.cancelled,
    {
        self.cancelled
    }
}

impl TaskError {
    /// The error in words.
    pub fn message(&self) -> (m: String)
        ensures
            self matches TaskError::Aborted(_) ==> m@ == "task aborted: `Abortable` future has been aborted"@,
            self matches TaskError::Join(f) ==> m@ == "join error: "@ + f.reason@,
            self matches TaskError::MultipleErrors(_) ==> m@
                == "multiple errors encountered across tasks"@,
    {
        match self {
            TaskError::Aborted(_) => String::from_str(
                "task aborted: `Abortable` future has been aborted",
            ),
            TaskError::Join(f) => String::from_str("join error: ").concat(f.reason.as_str()),
            TaskError::MultipleErrors(_) => String::from_str(
                "multiple errors encountered across tasks",
            ),
        }
    }
}

/// Turns a cancellation into a value of its own.
pub fn maybe_result<T>(awaited: Result<T, TaskError>) -> (r: Result<Maybe<T>, TaskError>)
    ensures
        r == maybe_of(awaited),
{
    match awaited {
        Ok(v) => Ok(Maybe::Value(v)),
        Err(e) => match e {
            TaskError::Aborted(mark) => Ok(Maybe::Aborted(mark)),
            TaskError::Join(f) => Err(TaskError::Join(f)),
            TaskError::MultipleErrors(all) => Err(TaskError::MultipleErrors(all)),
        },
    }
}

/// Lets cancellation count as success.
pub fn allow_abort<T>(awaited: Result<T, TaskError>) -> (r: Result<(), TaskError>)
    ensures
        r == allowing_abort(awaited),
{
    match maybe_result(awaited) {
        Ok(_) => Ok(()),
        Err(TaskError::Join(f)) => {
            if f.is_cancelled() {
                Ok(())
            } else {
                Err(TaskError::Join(f))
            }
        },
        Err(e) => Err(e),
    }
}

/// A handle on supervised work.
pub struct Task<T> {
    id: TaskId,
    abort_requested: bool,
    state: Lifecycle<T>,
}

impl<T> Task<T> {
    /// The identifier given at the start.
    pub closed spec fn id(&self) -> TaskId {
        self.id
    }

    /// Whether cancellation has been requested.
    pub closed spec fn aborted(&self) -> bool {
        self.abort_requested
    }

    /// The state of the work.
    pub closed spec fn state(&self) -> Lifecycle<T> {
        self.state
    }

    /// The handle of work that has just been started.
    pub fn started(id: TaskId) -> (task: Task<T>)
        ensures
            task.id() == id,
            !task.aborted(),
            task.state() is Running,
    {
        Task { id, abort_requested: false, state: Lifecycle::Running }
    }

    /// The identifier given at the start.
    pub fn task_id(&self) -> (id: TaskId)
        ensures
            id == self.id(),
    {
        self.id
    }

    /// Requests cancellation. The request is noted; the state of the work
    /// changes only when the work reports, and not at all if it has ended.
    pub fn abort(&mut self)
        ensures
            final(self).aborted(),
            final(self).state() == old(self).state(),
            final(self).id() == old(self).id(),
    {
        self.abort_requested = true;
    }

    /// Whether cancellation has been requested.
    pub fn is_aborted(&self) -> (b: bool)
        ensures
            b == self.aborted(),
    {
        self.abort_requested
    }

    /// Whether the work has ended.
    pub fn is_finished(&self) -> (b: bool)
        ensures
            b == self.state().is_terminal(),
    {
        match self.state {
            Lifecycle::Running => false,
            _ => true,
        }
    }

    /// Takes in how the work ended. Only the first report counts.
    pub fn finish(&mut self, joined: Joined<T>)
        ensures
            final(self).state() == old(self).state().ended(joined),
            final(self).aborted() == old(self).aborted(),
            final(self).id() == old(self).id(),
    {
        if !self.is_finished() {
            self.state = match joined {
                Joined::Output(v) => Lifecycle::Completed(v),
                Joined::Aborted => Lifecycle::Cancelled,
                Joined::Failed(f) => Lifecycle::Failed(f),
            };
        }
    }

    /// What awaiting the task gives: `None` while the work is running.
    pub fn join(self) -> (r: Option<Result<T, TaskError>>)
        ensures
            r == self.state().awaited(),
    {
        match self.state {
            Lifecycle::Running => None,
            Lifecycle::Completed(v) => Some(Ok(v)),
            Lifecycle::Cancelled => Some(Err(TaskError::Aborted(Aborted))),
            Lifecycle::Failed(f) => Some(Err(TaskError::Join(f))),
        }
    }

    /// What awaiting the task gives, with a cancellation turned into a value
    /// of its own: `None` while the work is running.
    pub fn maybe(self) -> (r: Option<Result<Maybe<T>, TaskError>>)
        ensures
            r == match self.state().awaited() {
                Some(awaited) => Some(maybe_of(awaited)),
                None => None,
            },
    {
        match self.join() {
            Some(awaited) => Some(maybe_result(awaited)),
            None => None,
        }
    }

    /// What awaiting the task gives, where cancellation counts as success:
    /// `None` while the work is running.
    pub fn await_allow_abort(self) -> (r: Option<Result<(), TaskError>>)
        ensures
            r == match self.state().awaited() {
                Some(awaited) => Some(allowing_abort(awaited)),
                None => None,
            },
    {
        match self.join() {
            Some(awaited) => Some(allow_abort(awaited)),
            None => None,
        }
    }
}

/// The handle of work that has just been started under the identifier `id`.
pub fn task<T>(id: TaskId) -> (handle: Task<T>)
    ensures
        handle.id() == id,
        !handle.aborted(),
        handle.state() is Running,
{
    Task::started(id)
}

} // verus!
