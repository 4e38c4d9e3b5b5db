//! The line channel: tokio's bounded multi-producer, single-consumer queue of
//! text lines. Producers hold senders; the one receiver belongs to whoever
//! consumes the lines.

use tokio::sync::mpsc::{Receiver, Sender};
use vstd::prelude::*;

verus! {

/// `tokio::sync::mpsc::Sender`, the sending end of a channel. The library
/// carries senders and never looks inside one.
#[verifier::external_type_specification]
#[verifier::external_body]
#[verifier::reject_recursive_types(T)]
pub struct ExSender<T>(tokio::sync::mpsc::Sender<T>);

/// `tokio::sync::mpsc::Receiver`, the receiving end of a channel. The
/// library carries receivers and never looks inside one.
#[verifier::external_type_specification]
#[verifier::external_body]
#[verifier::reject_recursive_types(T)]
pub struct ExReceiver<T>(tokio::sync::mpsc::Receiver<T>);

/// `tokio::sync::mpsc::channel` panics on a capacity of zero and on one above
/// the largest number of permits of a semaphore, an eighth of the range of
/// `usize`. Nothing is claimed of the two ends it returns.
pub assume_specification<T>[ tokio::sync::mpsc::channel::<T> ](buffer: usize) -> (ends: (
    tokio::sync::mpsc::Sender<T>,
    tokio::sync::mpsc::Receiver<T>,
))
    requires
        0 < buffer <= usize::MAX / 8,
;

/// `Sender::clone` gives another sender of the same channel. Nothing is
/// claimed of it.
pub assume_specification<T>[ <tokio::sync::mpsc::Sender<T> as Clone>::clone ](
    origin: &tokio::sync::mpsc::Sender<T>,
) -> (other: tokio::sync::mpsc::Sender<T>)
;

/// The number of lines a channel of this crate can hold before senders have
/// to wait.
pub const LINE_CAPACITY: usize = 100;

/// Calls `Receiver::try_recv`: the next line if one is waiting, `None` if the
/// channel is empty or closed. Which of these happens depends on what has
/// been sent, so nothing is claimed of the result.
#[verifier::external_body]
pub(crate) fn pending_line(receiver: &mut Receiver<String>) -> (line: Option<String>) {
    match receiver.try_recv() {
        Ok(line) => Some(line),
        Err(_) => None,
    }
}

/// Whether the two are the ends of one channel for lines: what
/// `tokio::sync::mpsc::channel` gives when asked for room for
/// [`LINE_CAPACITY`] lines.
pub open spec fn line_ends(sender: Sender<String>, receiver: Receiver<String>) -> bool {
    call_ensures(tokio::sync::mpsc::channel::<String>, (LINE_CAPACITY,), (sender, receiver))
}

/// Whether `line` is what taking the next waiting line off the receiver
/// behind `handed` can give.
pub closed spec fn taken(handed: &mut Receiver<String>, line: Option<String>) -> bool {
    call_ensures(pending_line, (handed,), line)
}

/// Takes the next line off the receiver, if one is waiting. Never waits.
pub fn next_line(receiver: &mut Receiver<String>) -> (line: Option<String>)
    ensures
        exists|handed: &mut Receiver<String>|
            *handed == *old(receiver) && *final(handed) == *final(receiver) && #[trigger] taken(
                handed,
                line,
            ),
{
    let line = pending_line(receiver);
    assert(forall|handed: &mut Receiver<String>| #[trigger]
        call_ensures(pending_line, (handed,), line) ==> taken(handed, line));
    line
}

/// A channel for lines, with room for [`LINE_CAPACITY`] of them.
pub fn line_channel() -> (ends: (Sender<String>, Receiver<String>))
    ensures
        line_ends(ends.0, ends.1),
{
    tokio::sync::mpsc::channel(LINE_CAPACITY)
}

} // verus!
