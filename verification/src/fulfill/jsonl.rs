//! The strategy that accumulates `MARKER NAME = VALUE` lines and builds the
//! target once all of its required fields have come.

use crate::fulfill::engine::{Engine, Fulfill, FulfillError, Stage};
use crate::jsonlvar::filler::{JsonlFiller, JsonlFillerError};
use crate::state::cell::{State, WritableState};
use tokio::sync::mpsc::{Receiver, Sender};
use vstd::prelude::*;

verus! {

/// The marker of the lines that an engine takes its entries from: that of
/// the wire format.
pub const VAR_MARKER: &'static str = crate::jsonlvar::parser::MARKER;

/// What the outcome of a fill means as the answer of an attempt.
pub open spec fn answer_view<T>(
    fill: Result<Option<T>, crate::jsonlvar::target::JsonlErrorView>,
) -> crate::fulfill::engine::Attempt<T> {
    match fill {
        Ok(Some(target)) => crate::fulfill::engine::Attempt::Complete(target),
        Ok(None) => crate::fulfill::engine::Attempt::Incomplete,
        Err(e) => crate::fulfill::engine::Attempt::Fatal(
            crate::fulfill::engine::FulfillErrorView::Fulfill(
                "Failed to fill variable: "@ + match e {
                    crate::jsonlvar::target::JsonlErrorView::Json(m) => "JSON parsing error: "@ + m,
                    crate::jsonlvar::target::JsonlErrorView::MissingField(k) =>
                        "Missing or invalid field: "@ + k,
                },
            ),
        ),
    }
}

/// Whether `attempt` is what building a `T` from `entries` can amount to:
/// complete when all required fields are found and decode, incomplete when
/// one is missing, fatal when all are found and one does not decode.
pub open spec fn attempts<T: crate::jsonlvar::target::Jsonl>(
    entries: Map<Seq<char>, crate::jsonlvar::value::ValueView>,
    prefix: Option<Seq<char>>,
    attempt: crate::fulfill::engine::Attempt<T>,
) -> bool {
    exists|built: Result<T, crate::jsonlvar::target::JsonlErrorView>| #[trigger]
        crate::jsonlvar::target::builds::<T>(entries, prefix, built) && attempt == answer_view(
            crate::jsonlvar::filler::filled(built),
        )
}

/// Turns the outcome of a fill into the answer of an attempt.
pub fn fill_answer<T>(fill: Result<Option<T>, JsonlFillerError>) -> (answer: Result<
    Option<T>,
    FulfillError,
>)
    ensures
        crate::fulfill::engine::attempt_of(answer) == answer_view(
            crate::jsonlvar::filler::fill_view(fill),
        ),
{
    match fill {
        Ok(filled) => Ok(filled),
        Err(e) => Err(FulfillError::Fulfill(e.message())),
    }
}

/// A strategy that fills a `T` from key/value lines.
pub struct Jsonl<T> where T: crate::jsonlvar::target::Jsonl + Clone {
    filler: JsonlFiller,
    dependency: Engine<T>,
    var_prefix: Option<String>,
}

impl<T> Jsonl<T> where T: crate::jsonlvar::target::Jsonl + Clone {
    /// The entries accumulated so far.
    pub closed spec fn entries(&self) -> Map<Seq<char>, crate::jsonlvar::value::ValueView> {
        self.filler.entries()
    }

    /// The marker of the lines that count.
    pub closed spec fn marker(&self) -> Seq<char> {
        self.filler.marker()
    }

    /// The prefix under which fields are looked up first.
    pub closed spec fn prefix(&self) -> Option<Seq<char>> {
        crate::strings::text_view(self.var_prefix)
    }

    /// The receiving end of the strategy's line channel.
    pub closed spec fn receiver_end(&self) -> Receiver<String> {
        self.filler.receiver_end()
    }

    /// A strategy for the target cell `dependency`, without entries, for
    /// lines marked [`VAR_MARKER`].
    pub fn new(dependency: State<T>, var_prefix: Option<String>) -> (jsonl: Jsonl<T>)
        ensures
            jsonl.engine() == (crate::fulfill::engine::EngineView {
                cell: dependency@,
                progress: crate::fulfill::engine::Progress::Idle,
            }),
            jsonl.entries() == Map::<Seq<char>, crate::jsonlvar::value::ValueView>::empty(),
            jsonl.marker() == "KESTREL_VAR"@,
            jsonl.prefix() == crate::strings::text_view(var_prefix),
            crate::channel::line_ends(jsonl.sender_end(), jsonl.receiver_end()),
    {
        Jsonl {
            filler: JsonlFiller::with_marker(VAR_MARKER),
            dependency: Engine::new(dependency),
            var_prefix,
        }
    }

    /// A strategy for the target cell `dependency`, without entries, for
    /// lines marked with `marker`.
    pub fn with_marker(dependency: State<T>, var_prefix: Option<String>, marker: &str) -> (jsonl:
        Jsonl<T>)
        ensures
            jsonl.engine() == (crate::fulfill::engine::EngineView {
                cell: dependency@,
                progress: crate::fulfill::engine::Progress::Idle,
            }),
            jsonl.entries() == Map::<Seq<char>, crate::jsonlvar::value::ValueView>::empty(),
            jsonl.marker() == marker@,
            jsonl.prefix() == crate::strings::text_view(var_prefix),
            crate::channel::line_ends(jsonl.sender_end(), jsonl.receiver_end()),
    {
        Jsonl {
            filler: JsonlFiller::with_marker(marker),
            dependency: Engine::new(dependency),
            var_prefix,
        }
    }

    /// The target cell, given up together with the strategy.
    pub fn into_state(self) -> (cell: State<T>)
        ensures
            cell@ == self.engine().cell,
    {
        self.dependency.into_state()
    }

    /// The receiving end of the line channel, for a scheduler that waits for
    /// the next line. What is done to it is done to the strategy's receiving
    /// end; the entries, the engine and the sending end stay as they are.
    pub fn receiver(&mut self) -> (receiver: &mut Receiver<String>)
        ensures
            *receiver == old(self).receiver_end(),
            final(self).receiver_end() == *final(receiver),
            final(self).sender_end() == old(self).sender_end(),
            final(self).engine() == old(self).engine(),
            final(self).entries() == old(self).entries(),
            final(self).marker() == old(self).marker(),
            final(self).prefix() == old(self).prefix(),
    {
        self.filler.receiver()
    }

    /// One attempt on what a receive gave: the entries of a received line are
    /// set, and a `T` is built from all entries.
    pub fn try_get_with(&mut self, received: Option<String>) -> (answer: Result<
        Option<T>,
        FulfillError,
    >)
        ensures
            final(self).engine() == old(self).engine(),
            final(self).marker() == old(self).marker(),
            final(self).prefix() == old(self).prefix(),
            final(self).entries() == match received {
                Some(line) => crate::jsonlvar::parser::absorb_text(
                    old(self).entries(),
                    old(self).marker(),
                    line@,
                ),
                None => old(self).entries(),
            },
            attempts::<T>(
                final(self).entries(),
                old(self).prefix(),
                crate::fulfill::engine::attempt_of(answer),
            ),
    {
        let fill = match &self.var_prefix {
            Some(p) => self.filler.try_fill_with::<T>(received, Some(p.as_str())),
            None => self.filler.try_fill_with::<T>(received, None),
        };
        fill_answer(fill)
    }

    /// One attempt to fulfill on what a receive gave. An engine at its end
    /// takes nothing in. Before, the entries of a received line are set, and
    /// the target is built and published if all of its fields are there.
    pub fn try_fulfill_with(&mut self, received: Option<String>) -> (r: Result<T, FulfillError>)
        ensures
            final(self).marker() == old(self).marker(),
            final(self).prefix() == old(self).prefix(),
            final(self).entries() == if old(self).engine().is_terminal() {
                old(self).entries()
            } else {
                match received {
                    Some(line) => crate::jsonlvar::parser::absorb_text(
                        old(self).entries(),
                        old(self).marker(),
                        line@,
                    ),
                    None => old(self).entries(),
                }
            },
            old(self).engine().is_terminal() ==> final(self).engine() == old(self).engine(),
            !old(self).engine().is_terminal() ==> exists|attempt: crate::fulfill::engine::Attempt<T>|
                #[trigger] attempts::<T>(final(self).entries(), old(self).prefix(), attempt)
                    && final(self).engine() == old(self).engine().settled(attempt) && (r matches Err(
                    e,
                ) ==> e@ == crate::fulfill::engine::refusal(old(self).engine(), attempt)),
            r is Ok == final(self).engine().stage() is Fulfilled,
            r matches Ok(x) ==> cloned(final(self).engine().cell.slot.unwrap(), x),
            r is Err && old(self).engine().stage() is Failed ==> r->Err_0@
                == crate::fulfill::engine::FulfillErrorView::Internal("fulfillment has failed"@),
    {
        match self.dependency.stage() {
            Stage::Fulfilled => self.dependency.settle(Ok(None)),
            Stage::Failed => self.dependency.settle(Ok(None)),
            _ => {
                let answer = self.try_get_with(received);
                let ghost attempt = crate::fulfill::engine::attempt_of(answer);
                let r = self.dependency.settle(answer);
                assert(attempts::<T>(self.entries(), old(self).prefix(), attempt));
                r
            },
        }
    }
}

impl<T> Fulfill<T> for Jsonl<T> where T: crate::jsonlvar::target::Jsonl + Clone {
    closed spec fn engine(&self) -> crate::fulfill::engine::EngineView<T> {
        self.dependency@
    }

    closed spec fn sender_end(&self) -> Sender<String> {
        self.filler.sender_end()
    }

    fn sender(&self) -> (r: Result<Sender<String>, FulfillError>)
        ensures
            r is Ok,
    {
        Ok(self.filler.clone_sender())
    }

    fn dependency(&mut self) -> (r: Result<WritableState<'_, T>, FulfillError>)
        ensures
            r is Ok,
    {
        Ok(self.dependency.dependency())
    }

    fn stage(&self) -> (stage: Stage) {
        self.dependency.stage()
    }

    fn publications(&self) -> (count: u64) {
        self.dependency.publications()
    }

    fn try_get(&mut self) -> (answer: Result<Option<T>, FulfillError>)
        ensures
            final(self).marker() == old(self).marker(),
            final(self).prefix() == old(self).prefix(),
            attempts::<T>(
                final(self).entries(),
                old(self).prefix(),
                crate::fulfill::engine::attempt_of(answer),
            ),
    {
        let fill = match &self.var_prefix {
            Some(p) => self.filler.try_fill::<T>(Some(p.as_str())),
            None => self.filler.try_fill::<T>(None),
        };
        fill_answer(fill)
    }

    fn settle(&mut self, answer: Result<Option<T>, FulfillError>) -> (r: Result<T, FulfillError>) {
        self.dependency.settle(answer)
    }
}

} // verus!
