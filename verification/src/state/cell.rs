//! The cell and its two facets.
//!
//! A cell is plain storage. Facets borrow it: any number of read facets at a
//! time, or one write facet. Sharing a cell between concurrent units of work
//! is the business of whatever lock hands out those borrows.

use std::time::Duration;
use vstd::prelude::*;
use vstd::string::StringExecFns;

verus! {

/// What a cell holds: the slot, and the number of wake signals sent so far.
pub struct CellView<T> {
    pub slot: Option<T>,
    pub wakes: nat,
}

/// The count of wake signals after one more. The count stops at the largest
/// `u64`; from there on every waiter counts as woken.
pub open spec fn bumped(wakes: nat) -> nat {
    if wakes < u64::MAX {
        wakes + 1
    } else {
        wakes
    }
}

/// Whether a waiter that registered when `ticket` signals had been sent has
/// been sent a signal since.
pub open spec fn woken(ticket: nat, wakes: nat) -> bool {
    ticket < wakes || wakes >= u64::MAX
}

impl<T> CellView<T> {
    /// The empty cell.
    pub open spec fn empty() -> CellView<T> {
        CellView { slot: None, wakes: 0 }
    }

    /// The cell after `value` is stored: the slot holds the value, and one
    /// more wake signal has been sent.
    pub open spec fn set(self, value: T) -> CellView<T> {
        CellView { slot: Some(value), wakes: bumped(self.wakes) }
    }
}

/// A cell that holds at most one value.
pub struct State<T> {
    slot: Option<T>,
    wakes: u64,
}

impl<T> View for State<T> {
    type V = CellView<T>;

    closed spec fn view(&self) -> CellView<T> {
        CellView { slot: self.slot, wakes: self.wakes as nat }
    }
}

impl<T> CellView<T> {
    /// A wake signal has been sent exactly if a value has been stored: the
    /// two happen together, and the slot is never cleared.
    pub open spec fn consistent(self) -> bool {
        (self.slot is None) == (self.wakes == 0)
    }
}

impl<T> State<T> {
    #[verifier::type_invariant]
    pub closed spec fn well_formed(&self) -> bool {
        self@.consistent()
    }
}

/// The facet of a cell that can store a value and read it.
pub struct WritableState<'a, T> {
    state: &'a mut State<T>,
}

/// The facet of a cell that can read and wait, and nothing else.
pub struct ReadOnlyState<'a, T> {
    pub(crate) state: &'a State<T>,
}

impl<T> State<T> {
    /// An empty cell.
    pub fn new() -> (cell: State<T>)
        ensures
            cell@ == CellView::<T>::empty(),
    {
        State { slot: None, wakes: 0 }
    }

    /// The write facet of this cell. What is stored through the facet is in
    /// the cell once the facet is given up; [`WritableState::release`] gives
    /// it up in a way that says so.
    pub fn write(&mut self) -> (facet: WritableState<'_, T>)
        ensures
            facet.cell() == old(self)@,
            *final(self) == *final(facet.borrowed()),
    {
        WritableState { state: self }
    }

    /// A read facet of this cell.
    pub fn read(&self) -> (facet: ReadOnlyState<'_, T>)
        ensures
            facet.cell() == self@,
    {
        ReadOnlyState { state: self }
    }

    /// Stores `value`, replacing what the slot held, and sends a wake signal.
    pub fn set(&mut self, value: T)
        ensures
            final(self)@ == old(self)@.set(value),
    {
        let wakes = self.wakes.saturating_add(1);
        *self = State { slot: Some(value), wakes };
    }

    /// A copy of the value, if there is one.
    pub fn get(&self) -> (value: Option<T>) where T: Clone
        ensures
            value is Some == self@.slot is Some,
            value matches Some(v) ==> cloned(self@.slot.unwrap(), v),
    {
        match &self.slot {
            Some(v) => Some(v.clone()),
            None => None,
        }
    }

    /// Whether the cell holds a value.
    pub fn is_set(&self) -> (b: bool)
        ensures
            b == self@.slot is Some,
    {
        self.slot.is_some()
    }

    /// The number of wake signals sent so far: what a waiter keeps as its
    /// ticket when it registers.
    pub fn wake_count(&self) -> (wakes: u64)
        ensures
            wakes == self@.wakes,
            self@.consistent(),
    {
        proof {
            use_type_invariant(self);
        }
        self.wakes
    }

    /// Whether a wake signal has been sent since `ticket` was taken.
    pub fn has_woken(&self, ticket: u64) -> (b: bool)
        ensures
            b == woken(ticket as nat, self@.wakes),
    {
        ticket < self.wakes || self.wakes == u64::MAX
    }

    /// The value, taken out of a cell that is given up.
    pub fn into_inner(self) -> (value: Option<T>)
        ensures
            value == self@.slot,
    {
        self.slot
    }
}

impl<'a, T> WritableState<'a, T> {
    /// The borrow of the cell that the facet works through.
    pub closed spec fn borrowed(&self) -> &'a mut State<T> {
        self.state
    }

    /// What the cell holds now.
    pub open spec fn cell(&self) -> CellView<T> {
        (*self.borrowed())@
    }

    /// Stores `value`, replacing what the slot held, and sends a wake signal
    /// to every waiter registered so far. The facet stays on the same cell.
    pub fn set(&mut self, value: T)
        ensures
            final(self).cell() == old(self).cell().set(value),
            *final(final(self).borrowed()) == *final(old(self).borrowed()),
    {
        self.state.set(value);
    }

    /// A copy of the value, if there is one.
    pub fn get(&self) -> (value: Option<T>) where T: Clone
        ensures
            value is Some == self.cell().slot is Some,
            value matches Some(v) ==> cloned(self.cell().slot.unwrap(), v),
    {
        self.state.get()
    }

    /// Whether the cell holds a value.
    pub fn is_set(&self) -> (b: bool)
        ensures
            b == self.cell().slot is Some,
    {
        self.state.is_set()
    }

    /// Gives the facet up: the cell is left as the facet shows it.
    pub fn release(self)
        ensures
            *final(self.borrowed()) == *self.borrowed(),
    {
    }
}

impl<'a, T> ReadOnlyState<'a, T> {
    /// What the cell holds.
    pub closed spec fn cell(&self) -> CellView<T> {
        self.state@
    }

    /// The facet shows the cell it borrows, and a cell is consistent.
    pub(crate) proof fn lemma_facet(&self)
        requires
            self.state.well_formed(),
        ensures
            self.cell() == self.state@,
            self.cell().consistent(),
    {
    }

    /// A copy of the value, if there is one.
    pub fn get(&self) -> (value: Option<T>) where T: Clone
        ensures
            value is Some == self.cell().slot is Some,
            value matches Some(v) ==> cloned(self.cell().slot.unwrap(), v),
    {
        self.state.get()
    }

    /// Whether the cell holds a value.
    pub fn is_set(&self) -> (b: bool)
        ensures
            b == self.cell().slot is Some,
    {
        self.state.is_set()
    }
}

/// How long a wait may last.
pub enum WaitCondition {
    /// Up to the given time.
    Duration(Duration),
    /// Until the cell is set.
    Ever,
}

/// Waits until the cell is set.
pub const EVER: WaitCondition = WaitCondition::Ever;

impl From<Duration> for WaitCondition {
    fn from(duration: Duration) -> (condition: WaitCondition) {
        WaitCondition::Duration(duration)
    }
}

impl vstd::std_specs::convert::FromSpecImpl<Duration> for WaitCondition {
    open spec fn obeys_from_spec() -> bool {
        true
    }

    open spec fn from_spec(duration: Duration) -> WaitCondition {
        WaitCondition::Duration(duration)
    }
}

impl WaitCondition {
    /// Whether the wait has a time limit.
    pub fn is_limited(&self) -> (b: bool)
        ensures
            b == (self is Duration),
    {
        match self {
            WaitCondition::Duration(_) => true,
            WaitCondition::Ever => false,
        }
    }
}

/// Why a wait ended without a value.
#[derive(Debug)]
pub enum WaitError {
    /// The condition of the wait was not met: the reason.
    Condition(String),
}

impl WaitError {
    /// The error of a wait whose time ran out.
    pub fn timeout() -> (e: WaitError)
        ensures
            e == WaitError::Condition(e->0),
            e->0@ == "timeout"@,
    {
        WaitError::Condition(String::from_str("timeout"))
    }

    /// The error in words.
    pub fn message(&self) -> (m: String)
        ensures
            m@ == "condition not met: "@ + self->0@,
    {
        match self {
            WaitError::Condition(reason) => String::from_str("condition not met: ").concat(
                reason.as_str(),
            ),
        }
    }
}

} // verus!
