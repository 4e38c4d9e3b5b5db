//! Filling a target from lines as they arrive.
//!
//! Nothing here waits. `update` and `try_fill` take a line only if one is
//! waiting on the channel. A scheduler that waits for lines receives them
//! from `receiver` and hands each to `update_with` or `try_fill_with`.

use crate::channel::{line_channel, next_line};
use crate::jsonlvar::map::LineMap;
use crate::jsonlvar::parser::JsonlParser;
use crate::jsonlvar::target::{try_from_jsonl_map, Jsonl, JsonlError};
use tokio::sync::mpsc::{Receiver, Sender};
use vstd::prelude::*;
use vstd::string::StringExecFns;

verus! {

/// Why a fill failed for good.
#[derive(Debug)]
pub enum JsonlFillerError {
    /// A value was found for a field and does not decode into it.
    FillError(JsonlError),
}

impl View for JsonlFillerError {
    type V = crate::jsonlvar::target::JsonlErrorView;

    open spec fn view(&self) -> crate::jsonlvar::target::JsonlErrorView {
        match self {
            JsonlFillerError::FillError(e) => e@,
        }
    }
}

impl JsonlFillerError {
    /// The error in words.
    pub fn message(&self) -> (m: String)
        ensures
            m@ == "Failed to fill variable: "@ + match self@ {
                crate::jsonlvar::target::JsonlErrorView::Json(e) => "JSON parsing error: "@ + e,
                crate::jsonlvar::target::JsonlErrorView::MissingField(k) =>
                    "Missing or invalid field: "@ + k,
            },
    {
        match self {
            JsonlFillerError::FillError(e) => {
                let inner = e.message();
                String::from_str("Failed to fill variable: ").concat(inner.as_str())
            },
        }
    }
}

/// A fill's outcome with the error taken by its view.
pub open spec fn fill_view<T>(r: Result<Option<T>, JsonlFillerError>) -> Result<
    Option<T>,
    crate::jsonlvar::target::JsonlErrorView,
> {
    match r {
        Ok(filled) => Ok(filled),
        Err(e) => Err(e@),
    }
}

/// What a construction's outcome means for a fill: the target when it was
/// built, "not yet" when a field is missing, and failure when a value does
/// not decode.
pub open spec fn filled<T>(built: Result<T, crate::jsonlvar::target::JsonlErrorView>) -> Result<
    Option<T>,
    crate::jsonlvar::target::JsonlErrorView,
> {
    match built {
        Ok(target) => Ok(Some(target)),
        Err(crate::jsonlvar::target::JsonlErrorView::MissingField(_)) => Ok(None),
        Err(e) => Err(e),
    }
}

/// Turns a construction's outcome into a fill's: a missing field is no
/// failure, only a reason to wait for more lines.
pub fn fill_outcome<T>(built: Result<T, JsonlError>) -> (r: Result<Option<T>, JsonlFillerError>)
    ensures
        fill_view(r) == filled(crate::jsonlvar::target::outcome_view(built)),
{
    match built {
        Ok(target) => Ok(Some(target)),
        Err(JsonlError::MissingField(_)) => Ok(None),
        Err(e) => Err(JsonlFillerError::FillError(e)),
    }
}

/// Accumulates the entries of the lines it receives, and builds targets from
/// what has accumulated.
pub struct JsonlFiller {
    sender: Sender<String>,
    line_receiver: Receiver<String>,
    line_map: LineMap,
    parser: JsonlParser,
}

impl JsonlFiller {
    /// The entries accumulated so far.
    pub closed spec fn entries(&self) -> Map<Seq<char>, crate::jsonlvar::value::ValueView> {
        self.line_map@
    }

    /// The marker of the lines that count.
    pub closed spec fn marker(&self) -> Seq<char> {
        self.parser.marker()
    }

    /// The sending end of the filler's line channel, of which senders are
    /// handed out as clones.
    pub closed spec fn sender_end(&self) -> Sender<String> {
        self.sender
    }

    /// The receiving end of the filler's line channel.
    pub closed spec fn receiver_end(&self) -> Receiver<String> {
        self.line_receiver
    }

    /// A filler with no entries, for lines marked `KESTREL_VAR`, on a line channel
    /// of its own.
    pub fn new() -> (filler: JsonlFiller)
        ensures
            filler.entries() == Map::<Seq<char>, crate::jsonlvar::value::ValueView>::empty(),
            filler.marker() == "KESTREL_VAR"@,
            crate::channel::line_ends(filler.sender_end(), filler.receiver_end()),
    {
        let (sender, line_receiver) = line_channel();
        JsonlFiller { sender, line_receiver, line_map: LineMap::new(), parser: JsonlParser::new() }
    }

    /// A filler with no entries, for lines marked with `marker`, on a line
    /// channel of its own.
    pub fn with_marker(marker: &str) -> (filler: JsonlFiller)
        ensures
            filler.entries() == Map::<Seq<char>, crate::jsonlvar::value::ValueView>::empty(),
            filler.marker() == marker@,
            crate::channel::line_ends(filler.sender_end(), filler.receiver_end()),
    {
        let (sender, line_receiver) = line_channel();
        JsonlFiller {
            sender,
            line_receiver,
            line_map: LineMap::new(),
            parser: JsonlParser::with_marker(marker),
        }
    }

    /// A sender through which lines reach this filler: a clone of the
    /// sending end of its line channel.
    pub fn clone_sender(&self) -> (sender: Sender<String>)
        ensures
            cloned(self.sender_end(), sender),
    {
        self.sender.clone()
    }

    /// The receiving end of the line channel, for a scheduler that waits for
    /// the next line. What is done to it is done to the filler's receiving
    /// end; the entries, the marker and the sending end stay as they are.
    pub fn receiver(&mut self) -> (receiver: &mut Receiver<String>)
        ensures
            *receiver == old(self).receiver_end(),
            final(self).receiver_end() == *final(receiver),
            final(self).sender_end() == old(self).sender_end(),
            final(self).entries() == old(self).entries(),
            final(self).marker() == old(self).marker(),
    {
        &mut self.line_receiver
    }

    /// The entries accumulated so far.
    pub fn line_map(&self) -> (map: &LineMap)
        ensures
            map@ == self.entries(),
    {
        &self.line_map
    }

    /// Takes in what a receive gave: the entries of a received line are set,
    /// and nothing changes where nothing was received.
    pub fn update_with(&mut self, received: Option<String>)
        ensures
            final(self).marker() == old(self).marker(),
            final(self).sender_end() == old(self).sender_end(),
            final(self).receiver_end() == old(self).receiver_end(),
            final(self).entries() == match received {
                Some(line) => crate::jsonlvar::parser::absorb_text(
                    old(self).entries(),
                    old(self).marker(),
                    line@,
                ),
                None => old(self).entries(),
            },
    {
        match received {
            Some(line) => {
                self.parser.parse_into(&mut self.line_map, line.as_str());
            },
            None => {},
        }
    }

    /// Takes the next line off the channel, if one is waiting, and sets its
    /// entries. Never waits. The line is taken off the filler's own receiving
    /// end; where none was waiting, the entries stay as they are.
    pub fn update(&mut self)
        ensures
            final(self).marker() == old(self).marker(),
            final(self).sender_end() == old(self).sender_end(),
            exists|handed: &mut Receiver<String>, received: Option<String>|
                #[trigger] crate::channel::taken(handed, received)
                    && *handed == old(self).receiver_end()
                    && *final(handed) == final(self).receiver_end()
                    && final(self).entries() == match received {
                    Some(line) => crate::jsonlvar::parser::absorb_text(
                        old(self).entries(),
                        old(self).marker(),
                        line@,
                    ),
                    None => old(self).entries(),
                },
    {
        let received = next_line(&mut self.line_receiver);
        self.update_with(received);
    }

    /// Takes in what a receive gave, then builds a `T` from the entries:
    /// `Ok(None)` while a required field is missing.
    pub fn try_fill_with<T: Jsonl>(&mut self, received: Option<String>, var_prefix: Option<&str>) -> (r:
        Result<Option<T>, JsonlFillerError>)
        ensures
            final(self).marker() == old(self).marker(),
            final(self).entries() == match received {
                Some(line) => crate::jsonlvar::parser::absorb_text(
                    old(self).entries(),
                    old(self).marker(),
                    line@,
                ),
                None => old(self).entries(),
            },
            exists|built: Result<T, crate::jsonlvar::target::JsonlErrorView>| #[trigger]
                crate::jsonlvar::target::builds::<T>(
                    final(self).entries(),
                    crate::jsonlvar::target::prefix_view(var_prefix),
                    built,
                ) && fill_view(r) == filled(built),
    {
        self.update_with(received);
        let built = try_from_jsonl_map::<T>(&self.line_map, var_prefix);
        assert(crate::jsonlvar::target::builds::<T>(
            self.entries(),
            crate::jsonlvar::target::prefix_view(var_prefix),
            crate::jsonlvar::target::outcome_view(built),
        ));
        fill_outcome(built)
    }

    /// Takes the next line off the channel, if one is waiting, then builds a
    /// `T` from the entries: `Ok(None)` while a required field is missing.
    pub fn try_fill<T: Jsonl>(&mut self, var_prefix: Option<&str>) -> (r: Result<
        Option<T>,
        JsonlFillerError,
    >)
        ensures
            final(self).marker() == old(self).marker(),
            final(self).entries() == old(self).entries() || exists|line: Seq<char>|
                final(self).entries() == #[trigger] crate::jsonlvar::parser::absorb_text(
                    old(self).entries(),
                    old(self).marker(),
                    line,
                ),
            exists|built: Result<T, crate::jsonlvar::target::JsonlErrorView>| #[trigger]
                crate::jsonlvar::target::builds::<T>(
                    final(self).entries(),
                    crate::jsonlvar::target::prefix_view(var_prefix),
                    built,
                ) && fill_view(r) == filled(built),
    {
        let received = next_line(&mut self.line_receiver);
        let ghost before = self.entries();
        assert(before == old(self).entries());
        assert(self.marker() == old(self).marker());
        let ghost line = if received is Some {
            received->Some_0@
        } else {
            Seq::empty()
        };
        let r = self.try_fill_with(received, var_prefix);
        assert(self.entries() == before || self.entries()
            == crate::jsonlvar::parser::absorb_text(before, self.marker(), line));
        r
    }
}

} // verus!
