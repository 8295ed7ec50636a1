//! The pull-based row iterator: a two-state machine over a live cursor.
//! While open, each step takes the row the cursor yielded (or its end)
//! and either materializes the row and stays open, or moves to the
//! terminal exhausted state. Exhausted is absorbing: the cursor is never
//! pulled again, and every further step reports the end again.
use vstd::prelude::*;
use crate::rows::{clone_columns, column_names, materialize_row, materialize_spec, Column};
use crate::params::values_view;
use crate::stmt::Statement;
use crate::value::{CallerValue, Value};

verus! {

/// One step's outcome: a materialized row (`done` is false), or the end
/// of the sequence (`done` is true, no value).
#[derive(Debug, PartialEq)]
pub enum IterStep {
    Yielded(CallerValue),
    Done,
}

/// The iterator's state: the column descriptors and mode flags captured
/// at execution time, and whether the cursor has been seen to end.
#[derive(Debug)]
pub struct RowIterator {
    pub columns: Vec<Column>,
    pub raw: bool,
    pub pluck: bool,
    pub safe_ints: bool,
    pub exhausted: bool,
}

impl RowIterator {
    /// Well-formedness: raw mode only ever holds with at least one
    /// output column.
    pub open spec fn wf(&self) -> bool {
        self.raw ==> self.columns@.len() > 0
    }

    /// Whether the caller should pull the cursor once more: exactly while
    /// the iterator is open.
    pub fn should_fetch(&self) -> (r: bool)
        ensures
            r == !self.exhausted,
    {
        !self.exhausted
    }

    /// One iteration step. `fetched` is what the cursor yielded — an
    /// exhausted iterator pulls nothing, so it hands in `None`. A row
    /// materializes under the captured flags and the iterator stays open;
    /// an empty pull moves it to the terminal state, which is absorbing:
    /// every later step reports the end again and changes nothing.
    pub fn next(&mut self, fetched: Option<Vec<Value>>) -> (step: IterStep)
        requires
            old(self).wf(),
            old(self).exhausted ==> fetched is None,
            fetched matches Option::Some(row) ==> row@.len() == old(self).columns@.len(),
        ensures
            final(self).wf(),
            final(self).columns == old(self).columns,
            final(self).raw == old(self).raw,
            final(self).pluck == old(self).pluck,
            final(self).safe_ints == old(self).safe_ints,
            old(self).exhausted ==> *final(self) == *old(self) && step == IterStep::Done,
            (match fetched {
                Option::None => step == IterStep::Done && final(self).exhausted,
                Option::Some(row) => !final(self).exhausted && (step matches IterStep::Yielded(v)
                    && v@ == materialize_spec(
                    column_names(old(self).columns@),
                    values_view(row@),
                    old(self).raw,
                    old(self).pluck,
                    old(self).safe_ints,
                )),
            }),
    {
        match fetched {
            Option::None => {
                self.exhausted = true;
                IterStep::Done
            },
            Option::Some(row) => {
                let v = materialize_row(&self.columns, &row, self.raw, self.pluck, self.safe_ints);
                IterStep::Yielded(v)
            },
        }
    }
}

impl Statement {
    /// Starts a pull-based iteration: the iterator captures this
    /// statement's column descriptors and mode flags and begins open.
    pub fn iterate(&self) -> (it: RowIterator)
        requires
            self.wf(),
        ensures
            it.wf(),
            it.columns@ == self.columns@,
            it.raw == self.raw,
            it.pluck == self.pluck,
            it.safe_ints == self.safe_ints,
            !it.exhausted,
    {
        RowIterator {
            columns: clone_columns(&self.columns),
            raw: self.raw,
            pluck: self.pluck,
            safe_ints: self.safe_ints,
            exhausted: false,
        }
    }
}

/// The exhausted flag after a sequence of steps, where each entry of
/// `pulls` says whether that step saw a row: a step with a row leaves the
/// flag as it was, a step without one sets it, and it is never cleared —
/// exactly how `next` drives the flag.
pub open spec fn exhausted_after(pulls: Seq<bool>) -> bool
    decreases pulls.len(),
{
    if pulls.len() == 0 {
        false
    } else {
        exhausted_after(pulls.drop_last()) || !pulls.last()
    }
}

/// The iteration protocol: over a cursor yielding exactly `n` rows — the
/// first `n` steps see a row, every later one does not — a fresh
/// iterator stays open through the `n` yielded steps and is exhausted
/// from the first empty step on, however many more steps follow. With
/// the contract of `next` — an open step with a row materializes it, an
/// exhausted iterator pulls nothing, reports the end and never changes —
/// this gives exactly `n` yielded rows followed by an unbounded sequence
/// of terminal steps.
pub proof fn lemma_iteration_protocol(pulls: Seq<bool>, n: int)
    requires
        0 <= n <= pulls.len(),
        forall|i: int| 0 <= i < n ==> pulls[i],
        forall|i: int| n <= i < pulls.len() ==> !pulls[i],
    ensures
        exhausted_after(pulls) == (pulls.len() > n),
    decreases pulls.len(),
{
    if pulls.len() > 0 {
        if pulls.len() - 1 >= n {
            lemma_iteration_protocol(pulls.drop_last(), n);
        } else {
            lemma_iteration_protocol(pulls.drop_last(), n - 1);
        }
    }
}

} // verus!
