//! No wake signal is lost: a cell, one writer and any number of readers,
//! under every order in which their steps can interleave.
//!
//! The readers take the steps of the waiting protocol, the writer stores its
//! value; a schedule is any sequence of such moves. Whatever the schedule,
//! a reader that takes two steps after the value was stored has returned it.

use crate::state::wait::{WaitPhase, Waiter};
use vstd::prelude::*;

verus! {

/// One move of a schedule.
pub enum Move<T> {
    /// The writer stores a value.
    Store(T),
    /// The reader with this index takes its next step.
    Step(int),
}

/// A cell, its readers, and what each reader has returned.
pub struct Scene<T> {
    pub cell: crate::state::cell::CellView<T>,
    pub readers: Seq<Waiter>,
    pub results: Seq<Option<T>>,
}

/// An empty cell with `n` readers that have not looked at it yet.
pub open spec fn start<T>(n: nat) -> Scene<T> {
    Scene {
        cell: crate::state::cell::CellView::empty(),
        readers: Seq::new(n, |i: int| Waiter { phase: WaitPhase::Checking, ticket: 0 }),
        results: Seq::new(n, |i: int| None),
    }
}

/// The scene after one move.
pub open spec fn after<T>(s: Scene<T>, m: Move<T>) -> Scene<T> {
    match m {
        Move::Store(v) => Scene { cell: s.cell.set(v), readers: s.readers, results: s.results },
        Move::Step(i) => if 0 <= i < s.readers.len() {
            Scene {
                cell: s.cell,
                readers: s.readers.update(
                    i,
                    crate::state::wait::stepped(s.readers[i], s.cell.slot is Some, s.cell.wakes),
                ),
                results: if crate::state::wait::yields(s.readers[i], s.cell.slot is Some) {
                    s.results.update(i, s.cell.slot)
                } else {
                    s.results
                },
            }
        } else {
            s
        },
    }
}

/// The scene after a schedule.
pub open spec fn run<T>(s: Scene<T>, moves: Seq<Move<T>>) -> Scene<T>
    decreases moves.len(),
{
    if moves.len() == 0 {
        s
    } else {
        after(run(s, moves.drop_last()), moves.last())
    }
}

/// Whether the writer has stored a value in the course of the schedule.
pub open spec fn has_set<T>(moves: Seq<Move<T>>) -> bool {
    exists|k: int| 0 <= k < moves.len() && #[trigger] moves[k] is Store
}

/// Every value that the schedule stores is `v`.
pub open spec fn sets_only<T>(moves: Seq<Move<T>>, v: T) -> bool {
    forall|k: int| 0 <= k < moves.len() && #[trigger] moves[k] is Store ==> moves[k] == Move::Store(v)
}

/// The number of steps that reader `i` takes after the value was first
/// stored.
pub open spec fn steps_after_set<T>(moves: Seq<Move<T>>, i: int) -> nat
    decreases moves.len(),
{
    if moves.len() == 0 {
        0
    } else if moves.last() == Move::<T>::Step(i) && has_set(moves.drop_last()) {
        steps_after_set(moves.drop_last(), i) + 1
    } else {
        steps_after_set(moves.drop_last(), i)
    }
}

/// The number of steps a reader still has to take on a cell that holds a
/// value.
pub open spec fn remaining(w: Waiter) -> nat {
    match w.phase {
        WaitPhase::Done => 0,
        WaitPhase::Checking => 1,
        WaitPhase::Rechecking => 1,
        WaitPhase::Subscribing => 2,
        WaitPhase::Suspended => 2,
    }
}

/// What holds of every scene that a schedule can lead to. A reader is only
/// ever suspended with a ticket from before the first wake signal, so that
/// the signal which comes with a value finds it.
pub open spec fn sound<T>(s: Scene<T>) -> bool {
    &&& s.cell.consistent()
    &&& s.cell.wakes <= u64::MAX
    &&& s.results.len() == s.readers.len()
    &&& forall|i: int|
        0 <= i < s.readers.len() ==> {
            let w = #[trigger] s.readers[i];
            &&& (w.phase is Rechecking || w.phase is Suspended) ==> w.ticket <= s.cell.wakes
            &&& w.phase is Suspended ==> w.ticket == 0
        }
}

/// What holds of every scene where `v` is the only value stored: readers
/// that are done have returned `v`, and nobody else has returned anything.
pub open spec fn agrees<T>(s: Scene<T>, v: T) -> bool {
    &&& s.cell.slot is Some ==> s.cell.slot == Some(v)
    &&& forall|i: int|
        0 <= i < s.readers.len() ==> #[trigger] s.results[i] == if s.readers[i].phase is Done {
            Some(v)
        } else {
            None
        }
}

pub proof fn lemma_sound_step<T>(s: Scene<T>, m: Move<T>)
    requires
        sound(s),
    ensures
        sound(after(s, m)),
{
    let t = after(s, m);
    assert forall|i: int| 0 <= i < t.readers.len() implies {
        let w = #[trigger] t.readers[i];
        &&& (w.phase is Rechecking || w.phase is Suspended) ==> w.ticket <= t.cell.wakes
        &&& w.phase is Suspended ==> w.ticket == 0
    } by {
        let w = s.readers[i];
    }
}

/// Every schedule leads to a sound scene.
pub proof fn lemma_sound_run<T>(n: nat, moves: Seq<Move<T>>)
    ensures
        sound(run(start::<T>(n), moves)),
        run(start::<T>(n), moves).readers.len() == n,
    decreases moves.len(),
{
    if moves.len() > 0 {
        lemma_sound_run::<T>(n, moves.drop_last());
        lemma_sound_step(run(start::<T>(n), moves.drop_last()), moves.last());
    }
}

/// Where one value is stored, it is what the cell holds and what readers
/// return.
pub proof fn lemma_agrees_run<T>(n: nat, moves: Seq<Move<T>>, v: T)
    requires
        sets_only(moves, v),
    ensures
        agrees(run(start::<T>(n), moves), v),
        has_set(moves) ==> run(start::<T>(n), moves).cell.slot == Some(v),
    decreases moves.len(),
{
    if moves.len() > 0 {
        let front = moves.drop_last();
        assert(sets_only(front, v)) by {
            assert forall|k: int| 0 <= k < front.len() && #[trigger] front[k] is Store implies front[k]
                == Move::Store(v) by {
                assert(moves[k] is Store);
            }
        }
        lemma_agrees_run::<T>(n, front, v);
        lemma_sound_run::<T>(n, front);
        let s = run(start::<T>(n), front);
        let t = after(s, moves.last());
        if moves.last() is Store {
            assert(moves[moves.len() - 1] is Store);
        }
        if has_set(moves) {
            let k = choose|k: int| 0 <= k < moves.len() && #[trigger] moves[k] is Store;
            if k < moves.len() - 1 {
                assert(front[k] is Store);
            } else {
                assert(moves[moves.len() - 1] is Store);
            }
        }
        assert forall|i: int| 0 <= i < t.readers.len() implies #[trigger] t.results[i] == if t.readers[i].phase is Done {
            Some(v)
        } else {
            None
        } by {
            assert(s.results[i] == if s.readers[i].phase is Done {
                Some(v)
            } else {
                None::<T>
            });
        }
    }
}

/// On a cell that holds a value no reader is stuck: the next step of a
/// reader that is not done brings it one step closer to returning.
pub proof fn lemma_step_makes_progress<T>(s: Scene<T>, i: int)
    requires
        sound(s),
        s.cell.slot is Some,
        0 <= i < s.readers.len(),
        !(s.readers[i].phase is Done),
    ensures
        !crate::state::wait::asleep(s.readers[i], s.cell.wakes),
        remaining(after(s, Move::Step(i)).readers[i]) + 1 == remaining(s.readers[i]),
{
}

/// No lost wakeup: in every schedule of a writer that stores `v` and of `n`
/// readers, a reader that takes two steps after `v` was stored has returned
/// `v`. It does not matter where the reader stood when the value came:
/// before its first read, between its read and its registration, registered,
/// or suspended.
pub proof fn lemma_no_lost_wakeup<T>(n: nat, moves: Seq<Move<T>>, v: T, i: int)
    requires
        0 <= i < n,
        sets_only(moves, v),
    ensures
        has_set(moves) ==> remaining(run(start::<T>(n), moves).readers[i]) + steps_after_set(
            moves,
            i,
        ) <= 2 || run(start::<T>(n), moves).readers[i].phase is Done,
        steps_after_set(moves, i) >= 2 ==> {
            &&& run(start::<T>(n), moves).readers[i].phase is Done
            &&& run(start::<T>(n), moves).results[i] == Some(v)
        },
        steps_after_set(moves, i) > 0 ==> has_set(moves),
    decreases moves.len(),
{
    lemma_sound_run::<T>(n, moves);
    lemma_agrees_run::<T>(n, moves, v);
    if moves.len() > 0 {
        let front = moves.drop_last();
        assert(sets_only(front, v)) by {
            assert forall|k: int| 0 <= k < front.len() && #[trigger] front[k] is Store implies front[k]
                == Move::Store(v) by {
                assert(moves[k] is Store);
            }
        }
        lemma_no_lost_wakeup::<T>(n, front, v, i);
        lemma_sound_run::<T>(n, front);
        lemma_agrees_run::<T>(n, front, v);
        let s = run(start::<T>(n), front);
        if has_set(front) {
            let k = choose|k: int| 0 <= k < front.len() && #[trigger] front[k] is Store;
            assert(moves[k] is Store);
            if moves.last() == Move::<T>::Step(i) && !(s.readers[i].phase is Done) {
                lemma_step_makes_progress(s, i);
            }
        }
    }
}

} // verus!
