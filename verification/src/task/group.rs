//! Joint operations over a set of tasks.
//!
//! The tasks of a set may differ in what they give, so a group speaks of them
//! by their place in the set. It says what to do next: request the
//! cancellation of a task, await a task, or stop. Whoever holds the tasks
//! does what the group says and reports what each await gave.

use crate::task::outcome::TaskError;
use vstd::prelude::*;

verus! {

/// What to do next.
#[derive(Clone, Copy, Debug, PartialEq, Eq, Structural)]
pub enum GroupStep {
    /// Request the cancellation of the task at this place. Do not wait.
    Abort(usize),
    /// Await the task at this place, letting cancellation count as success,
    /// and report what came of it.
    Await(usize),
    /// Nothing is left to do.
    Done,
}

/// A group in contracts.
pub struct GroupView {
    /// The number of tasks.
    pub count: usize,
    /// Whether the tasks are cancelled before they are awaited.
    pub cancel: bool,
    /// The number of tasks whose cancellation has been requested.
    pub aborted: usize,
    /// The number of tasks that have been awaited.
    pub awaited: usize,
    /// The first failure among the awaited tasks.
    pub failure: Option<TaskError>,
}

impl GroupView {
    pub open spec fn well_formed(self) -> bool {
        self.aborted <= self.count && self.awaited <= self.count
    }

    /// The group that cancels `count` tasks and then awaits them.
    pub open spec fn end(count: usize) -> GroupView {
        GroupView { count, cancel: true, aborted: 0, awaited: 0, failure: None }
    }

    /// The group that awaits `count` tasks.
    pub open spec fn await_allow_abort(count: usize) -> GroupView {
        GroupView { count, cancel: false, aborted: 0, awaited: 0, failure: None }
    }

    /// The group that cancels `count` tasks and awaits none.
    pub open spec fn abort(count: usize) -> GroupView {
        GroupView { count, cancel: true, aborted: 0, awaited: count, failure: None }
    }

    /// What the group says to do next: cancellations first, one task after
    /// the other; then awaits, one task after the other, as long as none has
    /// failed.
    pub open spec fn chosen(self) -> GroupStep {
        if self.cancel && self.aborted < self.count {
            GroupStep::Abort(self.aborted)
        } else if self.failure is None && self.awaited < self.count {
            GroupStep::Await(self.awaited)
        } else {
            GroupStep::Done
        }
    }

    /// The group after it has said what to do next: a cancellation counts as
    /// requested as soon as it is said.
    pub open spec fn asked(self) -> GroupView {
        if self.chosen() is Abort {
            GroupView { aborted: (self.aborted + 1) as usize, ..self }
        } else {
            self
        }
    }

    /// The group after a report of what the await it asked for gave. A report
    /// that was not asked for changes nothing.
    pub open spec fn reported(self, outcome: Result<(), TaskError>) -> GroupView {
        if self.chosen() is Await {
            GroupView {
                awaited: (self.awaited + 1) as usize,
                failure: match outcome {
                    Ok(_) => None,
                    Err(e) => Some(e),
                },
                ..self
            }
        } else {
            self
        }
    }

    /// What the group gives in the end: the first failure, or success.
    pub open spec fn result(self) -> Result<(), TaskError> {
        match self.failure {
            Some(e) => Err(e),
            None => Ok(()),
        }
    }

    /// The steps that the group asks for, one after the other, until nothing
    /// is left to do, where awaiting the task at place `i` gives
    /// `outcomes[i]`.
    pub open spec fn steps(self, outcomes: Seq<Result<(), TaskError>>) -> Seq<GroupStep>
        decreases (self.count - self.aborted) + (self.count - self.awaited),
    {
        if !self.well_formed() {
            Seq::empty()
        } else {
            match self.chosen() {
                GroupStep::Done => Seq::empty(),
                GroupStep::Abort(i) => seq![GroupStep::Abort(i)] + self.asked().steps(outcomes),
                GroupStep::Await(i) => seq![GroupStep::Await(i)] + self.reported(
                    outcomes[i as int],
                ).steps(outcomes),
            }
        }
    }

    /// The number of cancellations that are still to be requested.
    pub open spec fn aborts_left(self) -> int {
        if self.cancel {
            self.count - self.aborted
        } else {
            0
        }
    }
}

/// The steps of a group are its outstanding cancellations, in the order of
/// the tasks, followed by awaits only, in the order of the tasks.
pub proof fn lemma_steps_shape(g: GroupView, outcomes: Seq<Result<(), TaskError>>)
    requires
        g.well_formed(),
    ensures
        g.aborts_left() <= g.steps(outcomes).len() <= g.aborts_left() + (g.count - g.awaited),
        forall|k: int|
            0 <= k < g.aborts_left() ==> #[trigger] g.steps(outcomes)[k] == GroupStep::Abort(
                (g.aborted + k) as usize,
            ),
        forall|k: int|
            g.aborts_left() <= k < g.steps(outcomes).len() ==> #[trigger] g.steps(outcomes)[k]
                == GroupStep::Await((g.awaited + (k - g.aborts_left())) as usize),
    decreases (g.count - g.aborted) + (g.count - g.awaited),
{
    match g.chosen() {
        GroupStep::Done => {},
        GroupStep::Abort(i) => {
            lemma_steps_shape(g.asked(), outcomes);
            let rest = g.asked().steps(outcomes);
            assert forall|k: int| 0 <= k < g.aborts_left() implies #[trigger] g.steps(outcomes)[k]
                == GroupStep::Abort((g.aborted + k) as usize) by {
                if k > 0 {
                    assert(g.steps(outcomes)[k] == rest[k - 1]);
                }
            }
            assert forall|k: int| g.aborts_left() <= k < g.steps(outcomes).len() implies #[trigger]
                g.steps(outcomes)[k] == GroupStep::Await(
                (g.awaited + (k - g.aborts_left())) as usize,
            ) by {
                assert(g.steps(outcomes)[k] == rest[k - 1]);
            }
        },
        GroupStep::Await(i) => {
            let next = g.reported(outcomes[i as int]);
            lemma_steps_shape(next, outcomes);
            let rest = next.steps(outcomes);
            assert(g.aborts_left() == 0);
            assert(next.aborts_left() == 0);
            assert forall|k: int| 0 <= k < g.steps(outcomes).len() implies #[trigger] g.steps(
                outcomes,
            )[k] == GroupStep::Await((g.awaited + k) as usize) by {
                if k > 0 {
                    assert(g.steps(outcomes)[k] == rest[k - 1]);
                }
            }
        },
    }
}

/// Teardown ordering: the steps of "end" over `count` tasks begin with the
/// request to cancel each of the tasks, in their order, and every step after
/// these is an await. No task is awaited before all have been asked to stop.
pub proof fn lemma_end_cancels_before_awaiting(count: usize, outcomes: Seq<Result<(), TaskError>>)
    ensures
        count <= GroupView::end(count).steps(outcomes).len() <= 2 * count,
        forall|k: int|
            0 <= k < count ==> #[trigger] GroupView::end(count).steps(outcomes)[k]
                == GroupStep::Abort(k as usize),
        forall|k: int|
            count <= k < GroupView::end(count).steps(outcomes).len() ==> #[trigger] GroupView::end(
                count,
            ).steps(outcomes)[k] == GroupStep::Await((k - count) as usize),
{
    lemma_steps_shape(GroupView::end(count), outcomes);
}

/// The driver of a joint operation over a set of tasks.
pub struct Group {
    count: usize,
    cancel: bool,
    aborted: usize,
    awaited: usize,
    failure: Option<TaskError>,
}

impl View for Group {
    type V = GroupView;

    closed spec fn view(&self) -> GroupView {
        GroupView {
            count: self.count,
            cancel: self.cancel,
            aborted: self.aborted,
            awaited: self.awaited,
            failure: self.failure,
        }
    }
}

impl Group {
    #[verifier::type_invariant]
    closed spec fn counted(&self) -> bool {
        self.aborted <= self.count && self.awaited <= self.count
    }

    /// "End": cancels every one of `count` tasks, then awaits them in turn,
    /// letting cancellation count as success, up to the first failure.
    pub fn end(count: usize) -> (group: Group)
        ensures
            group@ == GroupView::end(count),
    {
        Group { count, cancel: true, aborted: 0, awaited: 0, failure: None }
    }

    /// "Await allowing abort": awaits `count` tasks in turn, letting
    /// cancellation count as success, up to the first failure.
    pub fn await_allow_abort(count: usize) -> (group: Group)
        ensures
            group@ == GroupView::await_allow_abort(count),
    {
        Group { count, cancel: false, aborted: 0, awaited: 0, failure: None }
    }

    /// "Abort": requests the cancellation of every one of `count` tasks and
    /// waits for none.
    pub fn abort(count: usize) -> (group: Group)
        ensures
            group@ == GroupView::abort(count),
    {
        Group { count, cancel: true, aborted: 0, awaited: count, failure: None }
    }

    /// What to do next.
    pub fn next(&mut self) -> (step: GroupStep)
        ensures
            old(self)@.well_formed(),
            step == old(self)@.chosen(),
            final(self)@ == old(self)@.asked(),
    {
        proof {
            use_type_invariant(&*self);
        }
        if self.cancel && self.aborted < self.count {
            let place = self.aborted;
            self.aborted = place + 1;
            GroupStep::Abort(place)
        } else if self.failure.is_none() && self.awaited < self.count {
            GroupStep::Await(self.awaited)
        } else {
            GroupStep::Done
        }
    }

    /// Takes in what the await that was asked for gave.
    pub fn report(&mut self, outcome: Result<(), TaskError>)
        ensures
            final(self)@ == old(self)@.reported(outcome),
    {
        proof {
            use_type_invariant(&*self);
        }
        let asked = !(self.cancel && self.aborted < self.count) && self.failure.is_none()
            && self.awaited < self.count;
        if asked {
            let place = self.awaited;
            let failure = match outcome {
                Ok(_) => None,
                Err(e) => Some(e),
            };
            *self = Group {
                count: self.count,
                cancel: self.cancel,
                aborted: self.aborted,
                awaited: place + 1,
                failure,
            };
        }
    }

    /// What the operation gives: the first failure, or success.
    pub fn result(self) -> (r: Result<(), TaskError>)
        ensures
            r == self@.result(),
    {
        match self.failure {
            Some(e) => Err(e),
            None => Ok(()),
        }
    }
}

} // verus!
