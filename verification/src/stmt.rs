//! The statement handle: the three mode flags with their fluent setters
//! and the reset-before-execute results — the `run` summary, the
//! single-row `get` with its timing metadata, and the row-set `all`.
//! The engine's prepared statement itself lives with the caller; this
//! handle carries what the marshalling logic needs: the column
//! descriptors, the declared parameter names, and the flags.
use vstd::prelude::*;
use vstd::string::StringExecFns;
use crate::errors::ShimError;
use crate::params::{map_params, map_params_spec, params_view, strings_view, values_view, Params};
use crate::rows::{
    clone_columns, column_names, convert_row, materialize_row, materialize_spec, record_set,
    record_set_exec, record_spec, Column,
};
use crate::value::{CallerValue, CallerValueV, Value};
use crate::errors::BindError;

verus! {

/// What a flag toggle argument means: an absent toggle turns the flag on.
pub open spec fn spec_toggle(o: Option<bool>) -> bool {
    match o {
        Option::Some(b) => b,
        Option::None => true,
    }
}

/// A prepared statement's caller-side state: column descriptors, declared
/// parameter names (sigils included), and the three mode flags.
#[derive(Debug)]
pub struct Statement {
    pub columns: Vec<Column>,
    pub parameter_names: Vec<String>,
    pub raw: bool,
    pub pluck: bool,
    pub safe_ints: bool,
}

/// The summary of one execution: the change count, the elapsed seconds as
/// the bit pattern of a double, and the last inserted row identifier.
#[derive(Clone, Copy, Debug, PartialEq, Eq, Structural)]
pub struct RunResult {
    pub changes: u64,
    pub duration_bits: u64,
    pub lastInsertRowid: i64,
}

/// The record entry that `get` nests its timing metadata under.
pub open spec fn metadata_entry(duration_bits: u64) -> CallerValueV {
    CallerValueV::Obj(seq![("duration"@, CallerValueV::Number(duration_bits))])
}

/// What a single-row fetch materializes to: raw and pluck rows as in the
/// general materializer; a keyed record additionally carries the elapsed
/// duration under the reserved metadata key.
pub open spec fn get_spec(
    names: Seq<Seq<char>>,
    vals: Seq<crate::value::ValueV>,
    raw: bool,
    pluck: bool,
    safe_ints: bool,
    duration_bits: u64,
) -> CallerValueV {
    if raw || pluck {
        materialize_spec(names, vals, raw, pluck, safe_ints)
    } else {
        CallerValueV::Obj(
            record_set(record_spec(names, vals, safe_ints), "_metadata"@, metadata_entry(
                duration_bits,
            )),
        )
    }
}

impl Statement {
    /// Well-formedness: raw mode is only ever set on a statement with at
    /// least one output column, and every declared parameter name carries
    /// its leading sigil.
    pub open spec fn wf(&self) -> bool {
        &&& (self.raw ==> self.columns@.len() > 0)
        &&& forall|i: int|
            0 <= i < self.parameter_names@.len() ==> (#[trigger] self.parameter_names@[i])@.len()
                >= 1
    }

    /// A freshly prepared statement: both output modes off, the
    /// safe-integer policy inherited from the connection's default.
    pub fn new(columns: Vec<Column>, parameter_names: Vec<String>, safe_ints: bool) -> (s:
        Statement)
        requires
            forall|i: int|
                0 <= i < parameter_names@.len() ==> (#[trigger] parameter_names@[i])@.len() >= 1,
        ensures
            s.wf(),
            s.columns == columns,
            s.parameter_names == parameter_names,
            !s.raw,
            !s.pluck,
            s.safe_ints == safe_ints,
    {
        Statement { columns, parameter_names, raw: false, pluck: false, safe_ints }
    }

    /// The column descriptors, in column order.
    pub fn columns(&self) -> (r: &Vec<Column>)
        ensures
            r == &self.columns,
    {
        &self.columns
    }

    /// Toggles raw mode. Raw mode is only for statements that return
    /// data: on a statement with no output columns this fails before any
    /// execution and changes nothing.
    pub fn raw(&mut self, raw: Option<bool>) -> (r: Result<(), ShimError>)
        requires
            old(self).wf(),
        ensures
            final(self).wf(),
            final(self).columns == old(self).columns,
            final(self).parameter_names == old(self).parameter_names,
            final(self).pluck == old(self).pluck,
            final(self).safe_ints == old(self).safe_ints,
            old(self).columns@.len() == 0 ==> (r matches Err(ShimError::RawNoColumns)
                && final(self).raw == old(self).raw),
            old(self).columns@.len() > 0 ==> r is Ok && final(self).raw == spec_toggle(raw),
    {
        if self.columns.len() == 0 {
            return Err(ShimError::RawNoColumns);
        }
        self.raw = match raw {
            Option::Some(b) => b,
            Option::None => true,
        };
        Ok(())
    }

    /// Toggles pluck mode.
    pub fn pluck(&mut self, pluck: Option<bool>)
        requires
            old(self).wf(),
        ensures
            final(self).wf(),
            final(self).columns == old(self).columns,
            final(self).parameter_names == old(self).parameter_names,
            final(self).raw == old(self).raw,
            final(self).safe_ints == old(self).safe_ints,
            final(self).pluck == spec_toggle(pluck),
    {
        self.pluck = match pluck {
            Option::Some(b) => b,
            Option::None => true,
        };
    }

    /// Toggles the safe-integer policy for this statement.
    pub fn safeIntegers(&mut self, toggle: Option<bool>)
        requires
            old(self).wf(),
        ensures
            final(self).wf(),
            final(self).columns == old(self).columns,
            final(self).parameter_names == old(self).parameter_names,
            final(self).raw == old(self).raw,
            final(self).pluck == old(self).pluck,
            final(self).safe_ints == spec_toggle(toggle),
    {
        self.safe_ints = match toggle {
            Option::Some(b) => b,
            Option::None => true,
        };
    }

    /// Binds one caller-supplied argument against this statement's
    /// declared parameter names.
    pub fn bind(&self, arg: Option<CallerValue>) -> (r: Result<Params, BindError>)
        requires
            self.wf(),
        ensures
            params_view(r) == map_params_spec(
                strings_view(self.parameter_names@),
                crate::params::opt_caller_view(arg),
            ),
    {
        map_params(&self.parameter_names, arg)
    }

    /// The summary of one execution, computed from the connection's
    /// cumulative change counter before and after the call, the change
    /// count the engine reported, the last inserted row identifier, and
    /// the elapsed time: the reported change count stands only when the
    /// cumulative counter moved, else the summary says zero.
    pub fn run(
        &self,
        total_changes_before: u64,
        total_changes_after: u64,
        changes: u64,
        last_insert_rowid: i64,
        duration_bits: u64,
    ) -> (r: RunResult)
        ensures
            r.changes == if total_changes_before == total_changes_after {
                0u64
            } else {
                changes
            },
            r.duration_bits == duration_bits,
            r.lastInsertRowid == last_insert_rowid,
    {
        let changes = if total_changes_after == total_changes_before {
            0
        } else {
            changes
        };
        RunResult { changes, duration_bits, lastInsertRowid: last_insert_rowid }
    }

    /// Materializes a single-row fetch: no row gives "undefined"; a raw
    /// or plucked row materializes as usual; a keyed record additionally
    /// carries the elapsed duration under the reserved metadata key.
    pub fn get(&self, row: Option<Vec<Value>>, duration_bits: u64) -> (r: CallerValue)
        requires
            self.wf(),
            row matches Option::Some(rr) ==> rr@.len() == self.columns@.len(),
        ensures
            (match row {
                Option::None => r@ == CallerValueV::Undefined,
                Option::Some(rr) => r@ == get_spec(
                    column_names(self.columns@),
                    values_view(rr@),
                    self.raw,
                    self.pluck,
                    self.safe_ints,
                    duration_bits,
                ),
            }),
    {
        match row {
            Option::None => CallerValue::Undefined,
            Option::Some(rr) => {
                if self.raw || self.pluck {
                    materialize_row(&self.columns, &rr, self.raw, self.pluck, self.safe_ints)
                } else {
                    let mut rec = convert_row(&self.columns, self.safe_ints, &rr);
                    let mut md: Vec<(String, CallerValue)> = Vec::new();
                    md.push(
                        (String::from_str("duration"), CallerValue::Number(duration_bits)),
                    );
                    let meta = CallerValue::Obj(md);
                    proof {
                        assert(crate::value::caller_value_view(md@[0].1)
                            == CallerValueV::Number(duration_bits));
                        assert(crate::value::caller_pair_seq_view(md@) =~= seq![
                            ("duration"@, CallerValueV::Number(duration_bits)),
                        ]);
                        assert(meta@ == metadata_entry(duration_bits));
                    }
                    let meta_key = String::from_str("_metadata");
                    record_set_exec(&mut rec, &meta_key, meta);
                    CallerValue::Obj(rec)
                }
            },
        }
    }

    /// Materializes every fetched row under the current mode flags, in
    /// fetch order.
    pub fn all(&self, rows: &Vec<Vec<Value>>) -> (r: Vec<CallerValue>)
        requires
            self.wf(),
            forall|i: int|
                0 <= i < rows@.len() ==> (#[trigger] rows@[i])@.len() == self.columns@.len(),
        ensures
            r@.len() == rows@.len(),
            forall|i: int|
                0 <= i < rows@.len() ==> crate::value::caller_seq_view(r@)[i] == materialize_spec(
                    column_names(self.columns@),
                    values_view((#[trigger] rows@[i])@),
                    self.raw,
                    self.pluck,
                    self.safe_ints,
                ),
    {
        let mut out: Vec<CallerValue> = Vec::new();
        let mut i: usize = 0;
        while i < rows.len()
            invariant
                self.wf(),
                i <= rows@.len(),
                out@.len() == i,
                forall|j: int|
                    0 <= j < rows@.len() ==> (#[trigger] rows@[j])@.len() == self.columns@.len(),
                forall|j: int|
                    0 <= j < i ==> crate::value::caller_seq_view(out@)[j] == materialize_spec(
                        column_names(self.columns@),
                        values_view((#[trigger] rows@[j])@),
                        self.raw,
                        self.pluck,
                        self.safe_ints,
                    ),
            decreases rows@.len() - i,
        {
            let v = materialize_row(&self.columns, &rows[i], self.raw, self.pluck, self.safe_ints);
            out.push(v);
            i = i + 1;
        }
        out
    }
}

/// The reported change count is zero exactly when the cumulative change
/// counter did not move, provided the engine reports at least one changed
/// row whenever the counter moved; the count is unsigned, so it is never
/// negative.
pub proof fn lemma_run_changes_zero_iff(
    total_changes_before: u64,
    total_changes_after: u64,
    changes: u64,
)
    requires
        total_changes_after != total_changes_before ==> changes >= 1,
    ensures
        ((if total_changes_before == total_changes_after {
            0u64
        } else {
            changes
        }) == 0) <==> total_changes_before == total_changes_after,
{
}

} // verus!
