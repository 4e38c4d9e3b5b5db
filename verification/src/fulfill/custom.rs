//! The strategy that leaves the attempt to its user.

use crate::channel::line_channel;
use crate::fulfill::engine::{Engine, Fulfill, FulfillError, Stage};
use crate::state::cell::{State, WritableState};
use tokio::sync::mpsc::{Receiver, Sender};
use vstd::prelude::*;

verus! {

/// An attempt written by the user. It has the receiving end of the line
/// channel to itself and decides what is enough to go by.
pub trait CustomProcessor<T> {
    /// A value, "not yet", or a failure.
    fn process_receiver(&self, receiver: &mut Receiver<String>) -> (answer: Result<
        Option<T>,
        FulfillError,
    >);
}

/// A strategy whose attempts are those of a [`CustomProcessor`].
pub struct Custom<T, P> where T: Clone, P: CustomProcessor<T> {
    sender: Sender<String>,
    receiver: Receiver<String>,
    state: Engine<T>,
    task: P,
}

impl<T, P> Custom<T, P> where T: Clone, P: CustomProcessor<T> {
    /// The receiving end of the strategy's line channel.
    pub closed spec fn receiver_end(&self) -> Receiver<String> {
        self.receiver
    }

    /// The user's attempt.
    pub closed spec fn processor(&self) -> P {
        self.task
    }

    /// A strategy for the target cell `state`, with the attempts of `task`,
    /// on a line channel of its own.
    pub fn new(state: State<T>, task: P) -> (custom: Custom<T, P>)
        ensures
            custom.engine() == (crate::fulfill::engine::EngineView {
                cell: state@,
                progress: crate::fulfill::engine::Progress::Idle,
            }),
            custom.processor() == task,
            crate::channel::line_ends(custom.sender_end(), custom.receiver_end()),
    {
        let (sender, receiver) = line_channel();
        Custom { sender, receiver, state: Engine::new(state), task }
    }

    /// The receiving end of the line channel and the user's attempt, for a
    /// scheduler that makes the attempt itself. What is done to the receiving
    /// end is done to the strategy's; the engine, the attempt and the sending
    /// end stay as they are.
    pub fn parts(&mut self) -> (parts: (&mut Receiver<String>, &P))
        ensures
            *parts.0 == old(self).receiver_end(),
            *parts.1 == old(self).processor(),
            final(self).receiver_end() == *final(parts.0),
            final(self).processor() == old(self).processor(),
            final(self).sender_end() == old(self).sender_end(),
            final(self).engine() == old(self).engine(),
    {
        (&mut self.receiver, &self.task)
    }

    /// The target cell, given up together with the strategy.
    pub fn into_state(self) -> (cell: State<T>)
        ensures
            cell@ == self.engine().cell,
    {
        self.state.into_state()
    }
}

impl<T, P> Fulfill<T> for Custom<T, P> where T: Clone, P: CustomProcessor<T> {
    closed spec fn engine(&self) -> crate::fulfill::engine::EngineView<T> {
        self.state@
    }

    closed spec fn sender_end(&self) -> Sender<String> {
        self.sender
    }

    fn sender(&self) -> (r: Result<Sender<String>, FulfillError>)
        ensures
            r is Ok,
    {
        Ok(self.sender.clone())
    }

    fn dependency(&mut self) -> (r: Result<WritableState<'_, T>, FulfillError>)
        ensures
            r is Ok,
    {
        Ok(self.state.dependency())
    }

    fn stage(&self) -> (stage: Stage) {
        self.state.stage()
    }

    fn publications(&self) -> (count: u64) {
        self.state.publications()
    }

    fn try_get(&mut self) -> (answer: Result<Option<T>, FulfillError>)
        ensures
            final(self).processor() == old(self).processor(),
            final(self).sender_end() == old(self).sender_end(),
            exists|handed: &mut Receiver<String>|
                *handed == old(self).receiver_end() && *final(handed) == final(self).receiver_end()
                    && #[trigger] call_ensures(
                    P::process_receiver,
                    (&old(self).processor(), handed),
                    answer,
                ),
    {
        self.task.process_receiver(&mut self.receiver)
    }

    fn settle(&mut self, answer: Result<Option<T>, FulfillError>) -> (r: Result<T, FulfillError>) {
        self.state.settle(answer)
    }
}

} // verus!
