//! Waiting for a cell's value without losing the wake signal.
//!
//! A waiter reads the slot; if it is empty, registers for the next wake
//! signal; reads the slot again; and only then suspends. The second read
//! closes the gap in which a value stored between the first read and the
//! registration would go unnoticed.
//!
//! Each of these is one step. Between two steps of a waiter anything may
//! happen to the cell.

use crate::state::cell::{ReadOnlyState, WaitCondition, WaitError};
use vstd::prelude::*;

verus! {

/// Where a waiter stands in the protocol.
#[derive(Clone, Copy, Debug, PartialEq, Eq, Structural)]
pub enum WaitPhase {
    /// About to read the slot.
    Checking,
    /// Has found the slot empty; about to register for the next wake signal.
    Subscribing,
    /// Is registered; about to read the slot once more.
    Rechecking,
    /// Has found the slot empty again; suspended until a wake signal comes.
    Suspended,
    /// Has returned the value.
    Done,
}

/// A reader that waits for a cell's value.
#[derive(Clone, Copy, Debug)]
pub struct Waiter {
    pub phase: WaitPhase,
    /// The count of wake signals at the time of registration.
    pub ticket: u64,
}

/// The waiter after one step, taken when the cell's slot is `filled` and
/// `wakes` signals have been sent.
pub open spec fn stepped(w: Waiter, filled: bool, wakes: nat) -> Waiter {
    match w.phase {
        WaitPhase::Checking => if filled {
            Waiter { phase: WaitPhase::Done, ticket: w.ticket }
        } else {
            Waiter { phase: WaitPhase::Subscribing, ticket: w.ticket }
        },
        WaitPhase::Subscribing => Waiter { phase: WaitPhase::Rechecking, ticket: wakes as u64 },
        WaitPhase::Rechecking => if filled {
            Waiter { phase: WaitPhase::Done, ticket: w.ticket }
        } else {
            Waiter { phase: WaitPhase::Suspended, ticket: w.ticket }
        },
        WaitPhase::Suspended => if crate::state::cell::woken(w.ticket as nat, wakes) {
            Waiter { phase: WaitPhase::Checking, ticket: w.ticket }
        } else {
            w
        },
        WaitPhase::Done => w,
    }
}

/// Whether the step that a waiter takes on a cell whose slot is `filled`
/// returns the value.
pub open spec fn yields(w: Waiter, filled: bool) -> bool {
    filled && (w.phase is Checking || w.phase is Rechecking)
}

/// Whether the waiter can do nothing but sleep: it is suspended and no wake
/// signal has come since it registered.
pub open spec fn asleep(w: Waiter, wakes: nat) -> bool {
    w.phase is Suspended && !crate::state::cell::woken(w.ticket as nat, wakes)
}

/// The waiter after it has taken steps until it returned or fell asleep, on
/// a cell that did not change meanwhile.
pub open spec fn settled(w: Waiter, filled: bool, wakes: nat) -> Waiter {
    if w.phase is Done || asleep(w, wakes) {
        w
    } else if filled {
        Waiter {
            phase: WaitPhase::Done,
            ticket: if w.phase is Subscribing {
                wakes as u64
            } else {
                w.ticket
            },
        }
    } else {
        Waiter {
            phase: WaitPhase::Suspended,
            ticket: if w.phase is Rechecking {
                w.ticket
            } else {
                wakes as u64
            },
        }
    }
}

/// Settling is stepping until nothing moves: on a cell that holds a value
/// exactly if a wake signal has been sent, a waiter that is done or asleep is
/// settled as it is; any other waiter settles as its next step does; and a
/// settled waiter is done if the cell holds a value, and suspended if not.
pub proof fn lemma_settled_is_stepped(w: Waiter, filled: bool, wakes: nat)
    requires
        filled == (wakes > 0),
        wakes <= u64::MAX,
    ensures
        w.phase is Done || asleep(w, wakes) ==> settled(w, filled, wakes) == w,
        !(w.phase is Done) && !asleep(w, wakes) ==> settled(stepped(w, filled, wakes), filled, wakes)
            == settled(w, filled, wakes),
        !(w.phase is Done) && !asleep(w, wakes) ==> settled(w, filled, wakes).phase == if filled {
            WaitPhase::Done
        } else {
            WaitPhase::Suspended
        },
        !filled ==> asleep(settled(w, filled, wakes), wakes) || w.phase is Done,
{
}

impl Waiter {
    /// A waiter that has not looked at the cell yet.
    pub fn new() -> (w: Waiter)
        ensures
            w.phase is Checking,
            w.ticket == 0,
    {
        Waiter { phase: WaitPhase::Checking, ticket: 0 }
    }

    /// Whether the waiter has returned the value.
    pub fn is_done(&self) -> (b: bool)
        ensures
            b == (self.phase is Done),
    {
        match self.phase {
            WaitPhase::Done => true,
            _ => false,
        }
    }

    /// Whether the waiter is suspended.
    pub fn is_suspended(&self) -> (b: bool)
        ensures
            b == (self.phase is Suspended),
    {
        match self.phase {
            WaitPhase::Suspended => true,
            _ => false,
        }
    }
}

impl<'a, T: Clone> ReadOnlyState<'a, T> {
    /// One step of `waiter` on this cell. Returns a copy of the value when
    /// the step is a read that finds one.
    pub fn wait_step(&self, waiter: &mut Waiter) -> (value: Option<T>)
        ensures
            *final(waiter) == stepped(*old(waiter), self.cell().slot is Some, self.cell().wakes),
            value is Some == yields(*old(waiter), self.cell().slot is Some),
            value matches Some(v) ==> cloned(self.cell().slot.unwrap(), v),
    {
        proof {
            use_type_invariant(self.state);
            self.lemma_facet();
        }
        match waiter.phase {
            WaitPhase::Checking => {
                let value = self.get();
                if value.is_some() {
                    waiter.phase = WaitPhase::Done;
                } else {
                    waiter.phase = WaitPhase::Subscribing;
                }
                value
            },
            WaitPhase::Subscribing => {
                waiter.ticket = self.state.wake_count();
                waiter.phase = WaitPhase::Rechecking;
                None
            },
            WaitPhase::Rechecking => {
                let value = self.get();
                if value.is_some() {
                    waiter.phase = WaitPhase::Done;
                } else {
                    waiter.phase = WaitPhase::Suspended;
                }
                value
            },
            WaitPhase::Suspended => {
                if self.state.has_woken(waiter.ticket) {
                    waiter.phase = WaitPhase::Checking;
                }
                None
            },
            WaitPhase::Done => None,
        }
    }

    /// Lets `waiter` take steps until it returns the value or has to sleep.
    /// `Some` is a copy of the value; `None` says that the waiter is done
    /// already, or is suspended until the next wake signal.
    pub fn wait_forever(&self, waiter: &mut Waiter) -> (value: Option<T>)
        ensures
            *final(waiter) == settled(*old(waiter), self.cell().slot is Some, self.cell().wakes),
            value is Some == (self.cell().slot is Some && !(old(waiter).phase is Done) && !asleep(
                *old(waiter),
                self.cell().wakes,
            )),
            value matches Some(v) ==> cloned(self.cell().slot.unwrap(), v),
    {
        let ghost filled = self.cell().slot is Some;
        let ghost wakes = self.cell().wakes;
        proof {
            use_type_invariant(self.state);
            self.lemma_facet();
        }
        if waiter.is_done() || (waiter.is_suspended() && !self.state.has_woken(waiter.ticket)) {
            return None;
        }
        let mut budget: u8 = 4;
        while budget > 0
            invariant
                filled == (self.cell().slot is Some),
                wakes == self.cell().wakes,
                self.cell().consistent(),
                self.cell() == self.state@,
                !(waiter.phase is Done) && !asleep(*waiter, wakes),
                !(old(waiter).phase is Done) && !asleep(*old(waiter), wakes),
                settled(*waiter, filled, wakes) == settled(*old(waiter), filled, wakes),
                budget >= match waiter.phase {
                    WaitPhase::Suspended => 4u8,
                    WaitPhase::Checking => 3u8,
                    WaitPhase::Subscribing => 2u8,
                    WaitPhase::Rechecking => 1u8,
                    WaitPhase::Done => 1u8,
                },
            decreases budget,
        {
            let value = self.wait_step(waiter);
            if value.is_some() {
                return value;
            }
            if waiter.is_suspended() && !self.state.has_woken(waiter.ticket) {
                return None;
            }
            budget = budget - 1;
        }
        None
    }

    /// One round of a wait with a time limit, where `timer_fired` says whether
    /// the time has run out. The value wins over the timer: `Some(Ok(..))` is
    /// a copy of the value, `Some(Err(..))` the timeout, and `None` says that
    /// neither has happened yet (or that the waiter had returned before). A
    /// timeout leaves the cell as it is.
    pub fn wait_for_duration(&self, waiter: &mut Waiter, timer_fired: bool) -> (r: Option<
        Result<T, WaitError>,
    >)
        ensures
            *final(waiter) == settled(*old(waiter), self.cell().slot is Some, self.cell().wakes),
            r matches Some(Ok(_)) <==> self.cell().slot is Some && !(old(waiter).phase is Done)
                && !asleep(*old(waiter), self.cell().wakes),
            r matches Some(Err(_)) <==> !(r matches Some(Ok(_))) && !(old(waiter).phase is Done)
                && timer_fired,
            r matches Some(Ok(v)) ==> cloned(self.cell().slot.unwrap(), v),
            r matches Some(Err(e)) ==> e == WaitError::Condition(e->0) && e->0@ == "timeout"@,
    {
        if waiter.is_done() {
            return None;
        }
        match self.wait_forever(waiter) {
            Some(v) => Some(Ok(v)),
            None => {
                if timer_fired {
                    Some(Err(WaitError::timeout()))
                } else {
                    None
                }
            },
        }
    }

    /// One round of a wait under `condition`, where `timer_fired` says
    /// whether the time of a limited wait has run out. The value wins over
    /// the timer: `Some(Ok(..))` is a copy of the value, `Some(Err(..))` the
    /// timeout of a limited wait, and `None` says that neither has happened
    /// yet (or that the waiter had returned before). A timeout leaves the
    /// cell as it is.
    pub fn wait_for(&self, waiter: &mut Waiter, condition: &WaitCondition, timer_fired: bool) -> (r:
        Option<Result<T, WaitError>>)
        ensures
            *final(waiter) == settled(*old(waiter), self.cell().slot is Some, self.cell().wakes),
            r matches Some(Ok(_)) <==> self.cell().slot is Some && !(old(waiter).phase is Done)
                && !asleep(*old(waiter), self.cell().wakes),
            r matches Some(Err(_)) <==> !(r matches Some(Ok(_))) && !(old(waiter).phase is Done)
                && condition is Duration && timer_fired,
            r matches Some(Ok(v)) ==> cloned(self.cell().slot.unwrap(), v),
            r matches Some(Err(e)) ==> e == WaitError::Condition(e->0) && e->0@ == "timeout"@,
    {
        match condition {
            WaitCondition::Duration(_) => self.wait_for_duration(waiter, timer_fired),
            WaitCondition::Ever => match self.wait_forever(waiter) {
                Some(v) => Some(Ok(v)),
                None => None,
            },
        }
    }
}

} // verus!
