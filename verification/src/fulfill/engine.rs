//! The engine's state machine and the capabilities of a strategy.

use crate::state::cell::{State, WritableState};
use tokio::sync::mpsc::Sender;
use vstd::prelude::*;
use vstd::string::StringExecFns;

verus! {

/// Why a fulfillment did not give a value.
#[derive(Debug)]
pub enum FulfillError {
    /// The request could not be fulfilled.
    Fulfill(String),
    /// No sender could be had.
    Sender(String),
    /// Something else went wrong.
    Internal(String),
}

/// What a [`FulfillError`] is in contracts.
pub enum FulfillErrorView {
    Fulfill(Seq<char>),
    Sender(Seq<char>),
    Internal(Seq<char>),
}

impl View for FulfillError {
    type V = FulfillErrorView;

    open spec fn view(&self) -> FulfillErrorView {
        match self {
            FulfillError::Fulfill(m) => FulfillErrorView::Fulfill(m@),
            FulfillError::Sender(m) => FulfillErrorView::Sender(m@),
            FulfillError::Internal(m) => FulfillErrorView::Internal(m@),
        }
    }
}

impl FulfillError {
    /// The error of an attempt that found too little to go by.
    pub fn unable() -> (e: FulfillError)
        ensures
            e@ == FulfillErrorView::Fulfill("unable to fulfill request"@),
    {
        FulfillError::Fulfill(String::from_str("unable to fulfill request"))
    }

    /// The error of an attempt on an engine that has failed before.
    pub fn failed_before() -> (e: FulfillError)
        ensures
            e@ == FulfillErrorView::Internal("fulfillment has failed"@),
    {
        FulfillError::Internal(String::from_str("fulfillment has failed"))
    }

    /// The error in words.
    pub fn message(&self) -> (m: String)
        ensures
            m@ == match self@ {
                FulfillErrorView::Fulfill(e) => "failed to fulfill request: "@ + e,
                FulfillErrorView::Sender(e) => "failed to get sender: "@ + e,
                FulfillErrorView::Internal(e) => "internal fulfillment error: "@ + e,
            },
    {
        match self {
            FulfillError::Fulfill(e) => String::from_str("failed to fulfill request: ").concat(
                e.as_str(),
            ),
            FulfillError::Sender(e) => String::from_str("failed to get sender: ").concat(e.as_str()),
            FulfillError::Internal(e) => String::from_str("internal fulfillment error: ").concat(
                e.as_str(),
            ),
        }
    }
}

/// Where an engine stands.
#[derive(Clone, Copy, Debug, PartialEq, Eq, Structural)]
pub enum Stage {
    /// No attempt has been made.
    Idle,
    /// Attempts have been made; none was complete, none fatal.
    Attempting,
    /// The target cell holds a value.
    Fulfilled,
    /// An attempt was fatal.
    Failed,
}

/// What an engine has noted of its own attempts.
#[derive(Clone, Copy, Debug, PartialEq, Eq, Structural)]
pub enum Progress {
    Idle,
    Attempting,
    Failed,
}

/// What one attempt of a strategy gave.
pub enum Attempt<T> {
    /// A value.
    Complete(T),
    /// Not enough to go by yet.
    Incomplete,
    /// A failure that no later attempt can mend.
    Fatal(FulfillErrorView),
}

/// The attempt that a strategy's answer stands for.
pub open spec fn attempt_of<T>(answer: Result<Option<T>, FulfillError>) -> Attempt<T> {
    match answer {
        Ok(Some(v)) => Attempt::Complete(v),
        Ok(None) => Attempt::Incomplete,
        Err(e) => Attempt::Fatal(e@),
    }
}

/// An engine in contracts: the target cell, and what the engine has noted.
pub struct EngineView<T> {
    pub cell: crate::state::cell::CellView<T>,
    pub progress: Progress,
}

impl<T> EngineView<T> {
    /// Where the engine stands. A target cell that holds a value means
    /// `Fulfilled`, whatever was noted before.
    pub open spec fn stage(self) -> Stage {
        if self.cell.slot is Some {
            Stage::Fulfilled
        } else {
            match self.progress {
                Progress::Idle => Stage::Idle,
                Progress::Attempting => Stage::Attempting,
                Progress::Failed => Stage::Failed,
            }
        }
    }

    /// Whether the engine has come to its end.
    pub open spec fn is_terminal(self) -> bool {
        self.stage() is Fulfilled || self.stage() is Failed
    }

    /// The engine after an attempt. At its end nothing changes it; before, a
    /// complete attempt stores the value in the target cell, an incomplete one
    /// leaves it attempting, and a fatal one makes it fail.
    pub open spec fn settled(self, attempt: Attempt<T>) -> EngineView<T> {
        if self.is_terminal() {
            self
        } else {
            match attempt {
                Attempt::Complete(v) => EngineView { cell: self.cell.set(v), progress: self.progress },
                Attempt::Incomplete => EngineView { cell: self.cell, progress: Progress::Attempting },
                Attempt::Fatal(_) => EngineView { cell: self.cell, progress: Progress::Failed },
            }
        }
    }

    /// The engine after a sequence of attempts.
    pub open spec fn settled_all(self, attempts: Seq<Attempt<T>>) -> EngineView<T>
        decreases attempts.len(),
    {
        if attempts.len() == 0 {
            self
        } else {
            self.settled_all(attempts.drop_last()).settled(attempts.last())
        }
    }
}

/// The error with which an attempt ends on an engine that is not fulfilled
/// afterwards.
pub open spec fn refusal<T>(before: EngineView<T>, attempt: Attempt<T>) -> FulfillErrorView {
    if before.stage() is Failed {
        FulfillErrorView::Internal("fulfillment has failed"@)
    } else {
        match attempt {
            Attempt::Fatal(e) => e,
            _ => FulfillErrorView::Fulfill("unable to fulfill request"@),
        }
    }
}

/// Once fulfilled or failed, an engine stays as it is: no attempt writes the
/// target cell again.
pub proof fn lemma_terminal_is_final<T>(e: EngineView<T>, attempts: Seq<Attempt<T>>)
    requires
        e.is_terminal(),
    ensures
        e.settled_all(attempts) == e,
    decreases attempts.len(),
{
    if attempts.len() > 0 {
        lemma_terminal_is_final(e, attempts.drop_last());
    }
}

/// The index of the first attempt that is not incomplete, if there is one.
pub open spec fn first_decisive<T>(attempts: Seq<Attempt<T>>) -> Option<int>
    decreases attempts.len(),
{
    if attempts.len() == 0 {
        None
    } else {
        match first_decisive(attempts.drop_last()) {
            Some(k) => Some(k),
            None => if attempts.last() is Incomplete {
                None
            } else {
                Some(attempts.len() - 1)
            },
        }
    }
}

/// Single publish: whatever the attempts of an engine on an empty target
/// cell give, the cell is written at most once, and exactly once where the
/// first attempt that is not incomplete is complete: with the value of that
/// attempt. Incomplete attempts before it, and any attempts after it, write
/// nothing.
pub proof fn lemma_single_publish<T>(e: EngineView<T>, attempts: Seq<Attempt<T>>)
    requires
        e.cell.slot is None,
        !(e.progress is Failed),
    ensures
        match first_decisive(attempts) {
            Some(k) => 0 <= k < attempts.len() && match attempts[k] {
                Attempt::Complete(v) => e.settled_all(attempts).cell == e.cell.set(v),
                _ => e.settled_all(attempts).cell == e.cell && e.settled_all(attempts).stage()
                    is Failed,
            },
            None => e.settled_all(attempts).cell == e.cell && !e.settled_all(attempts).is_terminal(),
        },
    decreases attempts.len(),
{
    if attempts.len() > 0 {
        let front = attempts.drop_last();
        lemma_single_publish(e, front);
        match first_decisive(front) {
            Some(k) => {
                assert(front[k] == attempts[k]);
            },
            None => {},
        }
    }
}

/// The target cell of an engine and the engine's own notes.
pub struct Engine<T> {
    dependency: State<T>,
    progress: Progress,
}

impl<T> View for Engine<T> {
    type V = EngineView<T>;

    closed spec fn view(&self) -> EngineView<T> {
        EngineView { cell: self.dependency@, progress: self.progress }
    }
}

impl<T: Clone> Engine<T> {
    /// An engine that has made no attempt, for the target cell `dependency`.
    pub fn new(dependency: State<T>) -> (engine: Engine<T>)
        ensures
            engine@ == (EngineView { cell: dependency@, progress: Progress::Idle }),
    {
        Engine { dependency, progress: Progress::Idle }
    }

    /// Where the engine stands.
    pub fn stage(&self) -> (stage: Stage)
        ensures
            stage == self@.stage(),
    {
        if self.dependency.is_set() {
            Stage::Fulfilled
        } else {
            match self.progress {
                Progress::Idle => Stage::Idle,
                Progress::Attempting => Stage::Attempting,
                Progress::Failed => Stage::Failed,
            }
        }
    }

    /// How often the target cell has been written.
    pub fn publications(&self) -> (count: u64)
        ensures
            count == self@.cell.wakes,
    {
        self.dependency.wake_count()
    }

    /// The write facet of the target cell.
    pub fn dependency(&mut self) -> (facet: WritableState<'_, T>)
        ensures
            facet.cell() == old(self)@.cell,
            final(self)@ == (EngineView { cell: final(facet.borrowed())@, progress: old(self)@.progress }),
    {
        self.dependency.write()
    }

    /// The target cell, given up together with the engine.
    pub fn into_state(self) -> (cell: State<T>)
        ensures
            cell@ == self@.cell,
    {
        self.dependency
    }

    /// What an attempt would end with right away, because the engine has come
    /// to its end: a copy of the value, or the failure.
    pub fn resume(&self) -> (r: Option<Result<T, FulfillError>>)
        ensures
            r is Some == self@.is_terminal(),
            r matches Some(Ok(x)) ==> self@.stage() is Fulfilled && cloned(
                self@.cell.slot.unwrap(),
                x,
            ),
            r matches Some(Err(e)) ==> self@.stage() is Failed && e@ == FulfillErrorView::Internal(
                "fulfillment has failed"@,
            ),
    {
        match self.dependency.get() {
            Some(x) => Some(Ok(x)),
            None => match self.progress {
                Progress::Failed => Some(Err(FulfillError::failed_before())),
                _ => None,
            },
        }
    }

    /// Takes in the answer of a strategy. Before the engine's end, a value is
    /// published into the target cell and a copy of it returned, "not yet"
    /// is answered with the error `Fulfill`, and a failure is passed on and
    /// ends the engine. At the engine's end the answer counts for nothing.
    pub fn settle(&mut self, answer: Result<Option<T>, FulfillError>) -> (r: Result<T, FulfillError>)
        ensures
            final(self)@ == old(self)@.settled(attempt_of(answer)),
            r is Ok == final(self)@.stage() is Fulfilled,
            r matches Ok(x) ==> cloned(final(self)@.cell.slot.unwrap(), x),
            r matches Err(e) ==> e@ == refusal(old(self)@, attempt_of(answer)),
    {
        match self.resume() {
            Some(r) => r,
            None => match answer {
                Ok(Some(v)) => {
                    let copy = v.clone();
                    self.dependency.set(v);
                    Ok(copy)
                },
                Ok(None) => {
                    self.progress = Progress::Attempting;
                    Err(FulfillError::unable())
                },
                Err(e) => {
                    self.progress = Progress::Failed;
                    Err(e)
                },
            },
        }
    }
}

/// The states that a run passes through: one more than the calls it makes,
/// beginning with `first` and ending with `last`.
pub open spec fn passes_through<S>(states: Seq<S>, calls: nat, first: S, last: S) -> bool {
    states.len() == calls + 1 && states[0] == first && states[calls as int] == last
}

/// Whether `k` is the place of one of `calls` calls, counted from zero.
pub open spec fn counted(k: int, calls: nat) -> bool {
    0 <= k < calls
}

/// A strategy with its engine: the capabilities that drive a fulfillment.
pub trait Fulfill<T: Clone>: Sized {
    /// The engine: the target cell, and what has been noted of the attempts.
    spec fn engine(&self) -> EngineView<T>;

    /// The sending end of the line channel that the strategy takes its lines
    /// from.
    spec fn sender_end(&self) -> Sender<String>;

    /// A sender through which lines reach the strategy: a clone of the
    /// sending end of its line channel. A strategy that cannot give one
    /// fails, with [`FulfillError::Sender`] by custom.
    fn sender(&self) -> (r: Result<Sender<String>, FulfillError>)
        ensures
            r matches Ok(sender) ==> cloned(self.sender_end(), sender),
    ;

    /// The write facet of the target cell. A strategy that cannot reach its
    /// cell fails, and leaves the engine as it is.
    fn dependency(&mut self) -> (r: Result<WritableState<'_, T>, FulfillError>)
        ensures
            r matches Ok(facet) ==> facet.cell() == old(self).engine().cell && final(self).engine()
                == (EngineView {
                cell: final(facet.borrowed())@,
                progress: old(self).engine().progress,
            }),
            r is Err ==> final(self).engine() == old(self).engine(),
    ;

    /// Where the engine stands.
    fn stage(&self) -> (stage: Stage)
        ensures
            stage == self.engine().stage(),
    ;

    /// How often the target cell has been written: an attempt has published
    /// exactly if this has changed with it.
    fn publications(&self) -> (count: u64)
        ensures
            count == self.engine().cell.wakes,
    ;

    /// One attempt of the strategy: a value, "not yet", or a failure. An
    /// attempt does not touch the target cell.
    fn try_get(&mut self) -> (answer: Result<Option<T>, FulfillError>)
        ensures
            final(self).engine() == old(self).engine(),
    ;

    /// Takes in the answer of an attempt, as [`Engine::settle`] does.
    fn settle(&mut self, answer: Result<Option<T>, FulfillError>) -> (r: Result<T, FulfillError>)
        ensures
            final(self).engine() == old(self).engine().settled(attempt_of(answer)),
            r is Ok == final(self).engine().stage() is Fulfilled,
            r matches Ok(x) ==> cloned(final(self).engine().cell.slot.unwrap(), x),
            r matches Err(e) ==> e@ == refusal(old(self).engine(), attempt_of(answer)),
    ;

    /// One attempt to fulfill. An engine at its end makes no attempt and
    /// writes nothing. Before, the strategy is asked once, by `try_get`, and
    /// its answer is taken in once, by `settle`, on what the asking left.
    /// `Ok` is a copy of the value that the target cell holds.
    fn try_fulfill(&mut self) -> (r: Result<T, FulfillError>)
        ensures
            old(self).engine().is_terminal() ==> final(self).engine() == old(self).engine(),
            !old(self).engine().is_terminal() ==> exists|
                asked: &mut Self,
                answer: Result<Option<T>, FulfillError>,
                taken_in: &mut Self,
            |
                *asked == *old(self) && #[trigger] call_ensures(Self::try_get, (asked,), answer)
                    && *taken_in == *final(asked) && *final(taken_in) == *final(self)
                    && #[trigger] call_ensures(Self::settle, (taken_in, answer), r)
                    && final(self).engine() == old(self).engine().settled(attempt_of(answer))
                    && (r is Err ==> r->Err_0@ == refusal(
                    old(self).engine(),
                    attempt_of(answer),
                )),
            exists|attempt: Attempt<T>| #[trigger]
                old(self).engine().settled(attempt) == final(self).engine(),
            r is Ok == final(self).engine().stage() is Fulfilled,
            r matches Ok(x) ==> cloned(final(self).engine().cell.slot.unwrap(), x),
            r is Err && old(self).engine().stage() is Failed ==> r->Err_0@
                == FulfillErrorView::Internal("fulfillment has failed"@),
    {
        if self.stage() == Stage::Fulfilled || self.stage() == Stage::Failed {
            let r = self.settle(Ok(None));
            assert(old(self).engine().settled(Attempt::Incomplete) == self.engine());
            r
        } else {
            let answer = self.try_get();
            let ghost attempt = attempt_of(answer);
            let r = self.settle(answer);
            assert(old(self).engine().settled(attempt) == self.engine());
            r
        }
    }

    /// Attempts to fulfill until the engine has come to its end, at most
    /// `attempts` times: one call of `try_fulfill` after the other, each on
    /// what the one before left, and none after the engine has come to its
    /// end. `Some` is what the last call gave; `None` says that all
    /// `attempts` calls were made and the engine has not come to its end.
    fn run(&mut self, attempts: usize) -> (r: Option<Result<T, FulfillError>>)
        ensures
            exists|states: Seq<Self>, results: Seq<Result<T, FulfillError>>|
                #[trigger] passes_through(states, results.len(), *old(self), *final(self))
                    && results.len() <= attempts && (forall|k: int| #[trigger]
                    counted(k, results.len()) ==> exists|handed: &mut Self|
                        *handed == states[k] && *final(handed) == states[k + 1]
                            && #[trigger] call_ensures(Self::try_fulfill, (handed,), results[k]))
                    && (forall|k: int|
                    0 < k < results.len() ==> !(#[trigger] states[k]).engine().is_terminal())
                    && match r {
                    Some(last) => results.len() > 0 && last == results[results.len() - 1],
                    None => results.len() == attempts,
                },
            exists|made: Seq<Attempt<T>>| #[trigger]
                old(self).engine().settled_all(made) == final(self).engine() && made.len()
                    <= attempts,
            r is Some ==> final(self).engine().is_terminal(),
            r is None ==> !final(self).engine().is_terminal() || attempts == 0,
            r matches Some(Ok(x)) ==> final(self).engine().stage() is Fulfilled && cloned(
                final(self).engine().cell.slot.unwrap(),
                x,
            ),
            r matches Some(Err(_)) ==> final(self).engine().stage() is Failed,
    {
        let ghost mut made: Seq<Attempt<T>> = Seq::empty();
        let ghost mut states: Seq<Self> = seq![*self];
        let ghost mut results: Seq<Result<T, FulfillError>> = Seq::empty();
        let mut left = attempts;
        while left > 0
            invariant
                left <= attempts,
                made.len() == attempts - left,
                results.len() == attempts - left,
                old(self).engine().settled_all(made) == self.engine(),
                left < attempts ==> !self.engine().is_terminal(),
                passes_through(states, results.len(), *old(self), *self),
                forall|k: int| #[trigger]
                    counted(k, results.len()) ==> exists|handed: &mut Self|
                        *handed == states[k] && *final(handed) == states[k + 1]
                            && #[trigger] call_ensures(Self::try_fulfill, (handed,), results[k]),
                forall|k: int|
                    0 < k <= results.len() ==> !(#[trigger] states[k]).engine().is_terminal(),
            decreases left,
        {
            let ghost before = self.engine();
            let ghost earlier_states = states;
            let ghost earlier_results = results;
            let ghost earlier_self = *self;
            let r = self.try_fulfill();
            proof {
                let attempt = choose|attempt: Attempt<T>| #[trigger]
                    before.settled(attempt) == self.engine();
                assert(made.push(attempt).drop_last() =~= made);
                made = made.push(attempt);
                states = earlier_states.push(*self);
                results = earlier_results.push(r);
                assert forall|k: int| #[trigger] counted(k, results.len()) implies exists|
                    handed: &mut Self,
                |
                    *handed == states[k] && *final(handed) == states[k + 1]
                        && #[trigger] call_ensures(Self::try_fulfill, (handed,), results[k]) by {
                    if k < earlier_results.len() {
                        assert(counted(k, earlier_results.len()));
                        assert(results[k] == earlier_results[k]);
                        assert(states[k] == earlier_states[k]);
                        assert(states[k + 1] == earlier_states[k + 1]);
                    } else {
                        assert(results[k] == r);
                        assert(states[k] == earlier_self);
                        assert(states[k + 1] == *self);
                    }
                }
                assert forall|k: int| 0 < k < results.len() implies !(#[trigger] states[k]).engine().is_terminal() by {
                    assert(states[k] == earlier_states[k]);
                }
                assert(passes_through(states, results.len(), *old(self), *self));
            }
            left = left - 1;
            match self.stage() {
                Stage::Fulfilled => {
                    return Some(r);
                },
                Stage::Failed => {
                    return Some(r);
                },
                _ => {},
            }
        }
        None
    }
}

} // verus!
