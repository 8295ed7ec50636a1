//! The result materializer: turns one fetched row into a caller-facing
//! value under the three output modes. The default mode is a keyed record
//! in column order where a later column sharing a name overwrites the
//! earlier entry in place; raw mode is an ordered array of decoded values;
//! pluck mode overrides both and yields only the first column's value.
use vstd::prelude::*;
use crate::text::str_eq;
use vstd::pervasive::VecAdditionalExecFns;
use crate::value::{
    caller_pair_view, caller_value_view,
    caller_pair_seq_view, caller_seq_view, decode_spec, decode_value_ref, CallerValue,
    CallerValueV, Value, ValueV,
};
use crate::params::values_view;

verus! {

/// One column descriptor: the declared name and the nullable origin
/// column, origin table, origin database, and declared SQL type text.
#[derive(Clone, Debug, PartialEq)]
pub struct Column {
    pub name: String,
    pub origin_name: Option<String>,
    pub table_name: Option<String>,
    pub database_name: Option<String>,
    pub decl_type: Option<String>,
}

/// The mathematical model of a column descriptor.
#[verifier::ext_equal]
pub struct ColumnV {
    pub name: Seq<char>,
    pub origin_name: Option<Seq<char>>,
    pub table_name: Option<Seq<char>>,
    pub database_name: Option<Seq<char>>,
    pub decl_type: Option<Seq<char>>,
}

/// The model of a nullable string.
pub open spec fn opt_str_view(o: Option<String>) -> Option<Seq<char>> {
    match o {
        Option::None => Option::None,
        Option::Some(s) => Option::Some(s@),
    }
}

impl View for Column {
    type V = ColumnV;

    open spec fn view(&self) -> ColumnV {
        ColumnV {
            name: self.name@,
            origin_name: opt_str_view(self.origin_name),
            table_name: opt_str_view(self.table_name),
            database_name: opt_str_view(self.database_name),
            decl_type: opt_str_view(self.decl_type),
        }
    }
}

/// The declared names of a sequence of columns, in column order.
pub open spec fn column_names(cols: Seq<Column>) -> Seq<Seq<char>> {
    Seq::new(cols.len(), |i: int| cols[i].name@)
}

/// The index of the first entry of `rec` under `key`, or `rec.len()` when
/// no entry carries it.
pub open spec fn key_index(rec: Seq<(Seq<char>, CallerValueV)>, key: Seq<char>) -> int
    decreases rec.len(),
{
    if rec.len() == 0 {
        0
    } else if rec[0].0 == key {
        0
    } else {
        1 + key_index(rec.skip(1), key)
    }
}

/// Whether some entry of `rec` carries `key`.
pub open spec fn has_key(rec: Seq<(Seq<char>, CallerValueV)>, key: Seq<char>) -> bool {
    key_index(rec, key) < rec.len()
}

/// Setting a key of a record: an existing entry keeps its place and takes
/// the new value, a fresh key is appended.
pub open spec fn record_set(
    rec: Seq<(Seq<char>, CallerValueV)>,
    key: Seq<char>,
    val: CallerValueV,
) -> Seq<(Seq<char>, CallerValueV)> {
    if has_key(rec, key) {
        rec.update(key_index(rec, key), (rec[key_index(rec, key)].0, val))
    } else {
        rec.push((key, val))
    }
}

/// Folding one row into a record: each column's decoded value is set
/// under the column's name, in column order, on top of `acc`.
pub open spec fn record_fold(
    names: Seq<Seq<char>>,
    vals: Seq<ValueV>,
    safe_ints: bool,
    acc: Seq<(Seq<char>, CallerValueV)>,
) -> Seq<(Seq<char>, CallerValueV)>
    decreases names.len(),
{
    if names.len() == 0 {
        acc
    } else {
        record_fold(
            names.skip(1),
            vals.skip(1),
            safe_ints,
            record_set(acc, names[0], decode_spec(vals[0], safe_ints)),
        )
    }
}

/// The keyed record one fetched row materializes to.
pub open spec fn record_spec(
    names: Seq<Seq<char>>,
    vals: Seq<ValueV>,
    safe_ints: bool,
) -> Seq<(Seq<char>, CallerValueV)> {
    record_fold(names, vals, safe_ints, Seq::empty())
}

/// The ordered array one fetched row materializes to in raw mode.
pub open spec fn decoded_row(vals: Seq<ValueV>, safe_ints: bool) -> Seq<CallerValueV> {
    Seq::new(vals.len(), |i: int| decode_spec(vals[i], safe_ints))
}

/// No two entries of `rec` share a key.
pub open spec fn distinct_keys(rec: Seq<(Seq<char>, CallerValueV)>) -> bool {
    forall|j: int, k: int| 0 <= j < k < rec.len() ==> (#[trigger] rec[j]).0 != (#[trigger] rec[k]).0
}

/// The value an entry of `rec` carries under `key`.
pub open spec fn record_value(rec: Seq<(Seq<char>, CallerValueV)>, key: Seq<char>) -> CallerValueV {
    rec[key_index(rec, key)].1
}

/// `key_index` characterized: it points at the first entry under the
/// key, or past the end when no entry carries it.
proof fn lemma_key_index_props(rec: Seq<(Seq<char>, CallerValueV)>, key: Seq<char>)
    ensures
        0 <= key_index(rec, key) <= rec.len(),
        key_index(rec, key) < rec.len() ==> rec[key_index(rec, key)].0 == key,
        forall|m: int| 0 <= m < key_index(rec, key) ==> (#[trigger] rec[m]).0 != key,
        key_index(rec, key) == rec.len() ==> forall|m: int|
            0 <= m < rec.len() ==> (#[trigger] rec[m]).0 != key,
    decreases rec.len(),
{
    if rec.len() > 0 && rec[0].0 != key {
        lemma_key_index_props(rec.skip(1), key);
        let ki = key_index(rec, key);
        assert(ki == 1 + key_index(rec.skip(1), key));
        if ki < rec.len() {
            assert(rec[ki] == rec.skip(1)[ki - 1]);
        }
        assert forall|m: int| 0 <= m < ki implies (#[trigger] rec[m]).0 != key by {
            if m > 0 {
                assert(rec[m] == rec.skip(1)[m - 1]);
            }
        }
        if ki == rec.len() {
            assert forall|m: int| 0 <= m < rec.len() implies (#[trigger] rec[m]).0 != key by {
                if m > 0 {
                    assert(rec[m] == rec.skip(1)[m - 1]);
                }
            }
        }
    }
}

/// Replacing an entry's value moves no key, so `key_index` is unchanged.
proof fn lemma_key_index_update_value(
    rec: Seq<(Seq<char>, CallerValueV)>,
    i: int,
    v: CallerValueV,
    key: Seq<char>,
)
    requires
        0 <= i < rec.len(),
    ensures
        key_index(rec.update(i, (rec[i].0, v)), key) == key_index(rec, key),
    decreases rec.len(),
{
    let r = rec.update(i, (rec[i].0, v));
    assert(r[0].0 == rec[0].0);
    if rec[0].0 != key {
        if i == 0 {
            assert(r.skip(1) =~= rec.skip(1));
        } else {
            assert(r.skip(1) =~= rec.skip(1).update(i - 1, (rec.skip(1)[i - 1].0, v)));
            lemma_key_index_update_value(rec.skip(1), i - 1, v, key);
        }
    }
}

/// `key_index` after appending: an existing first match stays where it
/// was; otherwise the appended entry matches at the old length or the
/// key is still missing.
proof fn lemma_key_index_push(
    rec: Seq<(Seq<char>, CallerValueV)>,
    p: (Seq<char>, CallerValueV),
    key: Seq<char>,
)
    ensures
        key_index(rec.push(p), key) == if key_index(rec, key) < rec.len() {
            key_index(rec, key)
        } else if p.0 == key {
            rec.len() as int
        } else {
            (rec.len() + 1) as int
        },
    decreases rec.len(),
{
    lemma_key_index_props(rec, key);
    if rec.len() == 0 {
        assert(rec.push(p)[0] == p);
        assert(rec.push(p).skip(1) =~= Seq::<(Seq<char>, CallerValueV)>::empty());
        assert(key_index(rec.push(p).skip(1), key) == 0);
    } else {
        assert(rec.push(p)[0] == rec[0]);
        if rec[0].0 != key {
            assert(rec.push(p).skip(1) =~= rec.skip(1).push(p));
            lemma_key_index_push(rec.skip(1), p, key);
            assert(key_index(rec.push(p), key) == 1 + key_index(rec.skip(1).push(p), key));
            assert(key_index(rec, key) == 1 + key_index(rec.skip(1), key));
            assert(key_index(rec, key) < rec.len() <==> key_index(rec.skip(1), key) < rec.skip(
                1,
            ).len());
        }
    }
}

/// What setting a key does to a record with distinct keys: the key now
/// carries the value, every other key and its value are untouched, and
/// the keys stay distinct.
proof fn lemma_record_set_props(
    rec: Seq<(Seq<char>, CallerValueV)>,
    key: Seq<char>,
    val: CallerValueV,
)
    requires
        distinct_keys(rec),
    ensures
        ({
            let r = record_set(rec, key, val);
            &&& r.len() == if has_key(rec, key) {
                rec.len() as int
            } else {
                (rec.len() + 1) as int
            }
            &&& distinct_keys(r)
            &&& has_key(r, key)
            &&& record_value(r, key) == val
            &&& forall|k: Seq<char>|
                k != key ==> ((#[trigger] has_key(r, k)) <==> has_key(rec, k))
            &&& forall|k: Seq<char>|
                k != key && has_key(rec, k) ==> (#[trigger] record_value(r, k)) == record_value(
                    rec,
                    k,
                )
        }),
{
    let r = record_set(rec, key, val);
    lemma_key_index_props(rec, key);
    if has_key(rec, key) {
        let i = key_index(rec, key);
        assert(forall|m: int| 0 <= m < r.len() ==> (#[trigger] r[m]).0 == rec[m].0);
        lemma_key_index_update_value(rec, i, val, key);
        assert(record_value(r, key) == val);
        assert forall|k: Seq<char>| k != key implies ((#[trigger] has_key(r, k)) <==> has_key(
            rec,
            k,
        )) by {
            lemma_key_index_update_value(rec, i, val, k);
            lemma_key_index_props(rec, k);
        }
        assert forall|k: Seq<char>| k != key && has_key(rec, k) implies (
        #[trigger] record_value(r, k)) == record_value(rec, k) by {
            lemma_key_index_update_value(rec, i, val, k);
            lemma_key_index_props(rec, k);
            let ki = key_index(rec, k);
            if ki == i {
                assert(rec[i].0 == key);
                assert(rec[ki].0 == k);
            }
        }
    } else {
        assert(forall|m: int| 0 <= m < rec.len() ==> (#[trigger] rec[m]).0 != key);
        lemma_key_index_push(rec, (key, val), key);
        assert(key_index(r, key) == rec.len());
        assert(r[rec.len() as int] == (key, val));
        assert forall|k: Seq<char>| k != key implies ((#[trigger] has_key(r, k)) <==> has_key(
            rec,
            k,
        )) by {
            lemma_key_index_push(rec, (key, val), k);
            lemma_key_index_props(rec, k);
        }
        assert forall|k: Seq<char>| k != key && has_key(rec, k) implies (
        #[trigger] record_value(r, k)) == record_value(rec, k) by {
            lemma_key_index_push(rec, (key, val), k);
            lemma_key_index_props(rec, k);
        }
        assert forall|j: int, k: int| 0 <= j < k < r.len() implies (#[trigger] r[j]).0 != (
        #[trigger] r[k]).0 by {
            if k == rec.len() {
                assert(r[k].0 == key);
                assert(r[j].0 == rec[j].0);
            }
        }
    }
}

/// Membership in a nonempty sequence is membership at the head or in
/// the tail.
proof fn lemma_contains_head_tail(names: Seq<Seq<char>>, k: Seq<char>)
    requires
        names.len() >= 1,
    ensures
        names.contains(k) <==> (names[0] == k || names.skip(1).contains(k)),
{
    if names.contains(k) {
        let i = choose|i: int| 0 <= i < names.len() && names[i] == k;
        if i > 0 {
            assert(names.skip(1)[i - 1] == k);
        }
    }
    if names.skip(1).contains(k) {
        let i = choose|i: int| 0 <= i < names.skip(1).len() && names.skip(1)[i] == k;
        assert(names[i + 1] == k);
    }
}

/// The index of the last column bearing a name (meaningful only when
/// some column bears it).
pub open spec fn last_index(names: Seq<Seq<char>>, key: Seq<char>) -> int
    decreases names.len(),
{
    if names.len() == 0 {
        0
    } else if names.skip(1).contains(key) {
        1 + last_index(names.skip(1), key)
    } else {
        0
    }
}

/// `last_index` points at an occurrence, and at none later.
proof fn lemma_last_index_bounds(names: Seq<Seq<char>>, k: Seq<char>)
    requires
        names.contains(k),
    ensures
        0 <= last_index(names, k) < names.len(),
        names[last_index(names, k)] == k,
    decreases names.len(),
{
    lemma_contains_head_tail(names, k);
    if names.skip(1).contains(k) {
        lemma_last_index_bounds(names.skip(1), k);
        assert(names[1 + last_index(names.skip(1), k)] == names.skip(1)[last_index(
            names.skip(1),
            k,
        )]);
    }
}

/// Folding a row onto a record with distinct keys: keys stay distinct,
/// the result's keys are the accumulator's keys plus the column names, a
/// column name carries the decoded value of the last column bearing it,
/// and a key no column bears keeps its accumulator value.
proof fn lemma_record_fold_props(
    names: Seq<Seq<char>>,
    vals: Seq<ValueV>,
    safe_ints: bool,
    acc: Seq<(Seq<char>, CallerValueV)>,
)
    requires
        names.len() == vals.len(),
        distinct_keys(acc),
    ensures
        ({
            let r = record_fold(names, vals, safe_ints, acc);
            &&& distinct_keys(r)
            &&& forall|k: Seq<char>|
                (#[trigger] has_key(r, k)) <==> (has_key(acc, k) || names.contains(k))
            &&& forall|k: Seq<char>|
                #[trigger] names.contains(k) ==> record_value(r, k) == decode_spec(
                    vals[last_index(names, k)],
                    safe_ints,
                )
            &&& forall|k: Seq<char>|
                !names.contains(k) && has_key(acc, k) ==> (#[trigger] record_value(r, k))
                    == record_value(acc, k)
        }),
    decreases names.len(),
{
    if names.len() > 0 {
        let head = names[0];
        let hv = decode_spec(vals[0], safe_ints);
        let acc2 = record_set(acc, head, hv);
        lemma_record_set_props(acc, head, hv);
        lemma_record_fold_props(names.skip(1), vals.skip(1), safe_ints, acc2);
        let r = record_fold(names, vals, safe_ints, acc);
        assert(r == record_fold(names.skip(1), vals.skip(1), safe_ints, acc2));
        assert forall|k: Seq<char>| (#[trigger] has_key(r, k)) <==> (has_key(acc, k)
            || names.contains(k)) by {
            lemma_contains_head_tail(names, k);
        }
        assert forall|k: Seq<char>| #[trigger] names.contains(k) implies record_value(r, k)
            == decode_spec(vals[last_index(names, k)], safe_ints) by {
            lemma_contains_head_tail(names, k);
            if names.skip(1).contains(k) {
                lemma_last_index_bounds(names.skip(1), k);
                assert(record_value(r, k) == decode_spec(
                    vals.skip(1)[last_index(names.skip(1), k)],
                    safe_ints,
                ));
                assert(vals.skip(1)[last_index(names.skip(1), k)] == vals[1 + last_index(
                    names.skip(1),
                    k,
                )]);
                assert(last_index(names, k) == 1 + last_index(names.skip(1), k));
            } else {
                assert(k == head);
                assert(has_key(acc2, k));
                assert(record_value(r, k) == record_value(acc2, k));
                assert(record_value(acc2, k) == hv);
                assert(last_index(names, k) == 0);
            }
        }
        assert forall|k: Seq<char>| !names.contains(k) && has_key(acc, k) implies (
        #[trigger] record_value(r, k)) == record_value(acc, k) by {
            lemma_contains_head_tail(names, k);
            assert(k != head);
            assert(has_key(acc2, k));
            assert(record_value(r, k) == record_value(acc2, k));
            assert(record_value(acc2, k) == record_value(acc, k));
        }
    }
}

/// The record law: in the keyed record of one row, each column name
/// appears exactly once and carries the decoded value of the last column
/// bearing it — a later column sharing a name overwrites the earlier
/// entry — and no key beyond the column names appears.
pub proof fn lemma_record_last_wins(names: Seq<Seq<char>>, vals: Seq<ValueV>, safe_ints: bool)
    requires
        names.len() == vals.len(),
    ensures
        ({
            let rec = record_spec(names, vals, safe_ints);
            &&& distinct_keys(rec)
            &&& forall|k: Seq<char>| (#[trigger] has_key(rec, k)) <==> names.contains(k)
            &&& forall|k: Seq<char>|
                #[trigger] names.contains(k) ==> record_value(rec, k) == decode_spec(
                    vals[last_index(names, k)],
                    safe_ints,
                )
        }),
{
    lemma_record_fold_props(names, vals, safe_ints, Seq::empty());
    assert forall|k: Seq<char>| !has_key(Seq::<(Seq<char>, CallerValueV)>::empty(), k) by {
        assert(key_index(Seq::<(Seq<char>, CallerValueV)>::empty(), k) == 0);
    }
}

/// `key_index` finds the first match.
proof fn lemma_key_index_at(rec: Seq<(Seq<char>, CallerValueV)>, key: Seq<char>, j: int)
    requires
        0 <= j < rec.len(),
        rec[j].0 == key,
        forall|m: int| 0 <= m < j ==> (#[trigger] rec[m]).0 != key,
    ensures
        key_index(rec, key) == j,
    decreases j,
{
    if j > 0 {
        lemma_key_index_at(rec.skip(1), key, j - 1);
    }
}

/// `key_index` is the length when no entry matches.
proof fn lemma_key_index_missing(rec: Seq<(Seq<char>, CallerValueV)>, key: Seq<char>)
    requires
        forall|m: int| 0 <= m < rec.len() ==> (#[trigger] rec[m]).0 != key,
    ensures
        key_index(rec, key) == rec.len(),
    decreases rec.len(),
{
    if rec.len() > 0 {
        lemma_key_index_missing(rec.skip(1), key);
    }
}

/// Sets `key` to `val` on the record, overwriting the first entry under
/// the same key in place, else appending.
pub(crate) fn record_set_exec(rec: &mut Vec<(String, CallerValue)>, key: &String, val: CallerValue)
    ensures
        caller_pair_seq_view(final(rec)@) == record_set(
            caller_pair_seq_view(old(rec)@),
            key@,
            caller_value_view_of(val),
        ),
{
    let ghost model = caller_pair_seq_view(rec@);
    let ghost valv = caller_value_view_of(val);
    let n = rec.len();
    let mut j: usize = 0;
    while j < n
        invariant
            n == rec@.len(),
            j <= n,
            rec@ == old(rec)@,
            model == caller_pair_seq_view(rec@),
            valv == caller_value_view_of(val),
            forall|m: int| 0 <= m < j ==> (#[trigger] model[m]).0 != key@,
        decreases n - j,
    {
        if str_eq(rec[j].0.as_str(), key.as_str()) {
            proof {
                lemma_key_index_at(model, key@, j as int);
            }
            let new_pair = (key.clone(), val);
            proof {
                assert(caller_pair_view(new_pair) == (key@, valv));
            }
            rec.set(j, new_pair);
            proof {
                let newm = caller_pair_seq_view(rec@);
                assert(newm.len() == model.len());
                assert(newm[j as int] == (key@, valv));
                assert(forall|m: int|
                    0 <= m < model.len() && m != j ==> (#[trigger] newm[m]) == model[m]);
                assert(newm =~~= record_set(model, key@, valv));
            }
            return ;
        }
        j = j + 1;
    }
    proof {
        lemma_key_index_missing(model, key@);
    }
    rec.push((key.clone(), val));
    proof {
        assert(caller_pair_seq_view(rec@) =~~= record_set(model, key@, valv));
    }
}

/// The model of one caller value (a named form of the view, for use where
/// the value has been moved).
pub open spec fn caller_value_view_of(v: CallerValue) -> CallerValueV {
    crate::value::caller_value_view(v)
}

/// Copies a nullable string.
fn clone_opt_string(o: &Option<String>) -> (r: Option<String>)
    ensures
        r == o,
{
    match o {
        Option::None => Option::None,
        Option::Some(s) => Option::Some(s.clone()),
    }
}

/// Copies one column descriptor.
fn clone_column(c: &Column) -> (r: Column)
    ensures
        r == c,
{
    Column {
        name: c.name.clone(),
        origin_name: clone_opt_string(&c.origin_name),
        table_name: clone_opt_string(&c.table_name),
        database_name: clone_opt_string(&c.database_name),
        decl_type: clone_opt_string(&c.decl_type),
    }
}

/// Copies a vector of column descriptors.
pub fn clone_columns(cols: &Vec<Column>) -> (r: Vec<Column>)
    ensures
        r@ == cols@,
{
    let mut out: Vec<Column> = Vec::new();
    let mut i: usize = 0;
    while i < cols.len()
        invariant
            i <= cols@.len(),
            out@ == cols@.take(i as int),
        decreases cols@.len() - i,
    {
        out.push(clone_column(&cols[i]));
        i = i + 1;
        proof {
            assert(out@ =~= cols@.take(i as int));
        }
    }
    proof {
        assert(out@ =~= cols@);
    }
    out
}

/// Materializes one fetched row as a keyed record: column name to decoded
/// value, in column order, later same-named columns overwriting earlier
/// entries in place.
pub fn convert_row(columns: &Vec<Column>, safe_ints: bool, row: &Vec<Value>) -> (r: Vec<
    (String, CallerValue),
>)
    requires
        row@.len() == columns@.len(),
    ensures
        caller_pair_seq_view(r@) == record_spec(
            column_names(columns@),
            values_view(row@),
            safe_ints,
        ),
{
    let ghost names = column_names(columns@);
    let ghost vals = values_view(row@);
    let mut rec: Vec<(String, CallerValue)> = Vec::new();
    let mut i: usize = 0;
    proof {
        assert(names.skip(0) =~= names);
        assert(vals.skip(0) =~= vals);
        assert(caller_pair_seq_view(rec@) =~= Seq::<(Seq<char>, CallerValueV)>::empty());
    }
    while i < columns.len()
        invariant
            columns@.len() == names.len(),
            row@.len() == names.len(),
            names == column_names(columns@),
            vals == values_view(row@),
            i <= names.len(),
            record_fold(names.skip(i as int), vals.skip(i as int), safe_ints,
                caller_pair_seq_view(rec@)) == record_spec(names, vals, safe_ints),
        decreases names.len() - i,
    {
        let v = decode_value_ref(&row[i], safe_ints);
        record_set_exec(&mut rec, &columns[i].name, v);
        proof {
            assert(names.skip(i as int).skip(1) =~= names.skip(i + 1));
            assert(vals.skip(i as int).skip(1) =~= vals.skip(i + 1));
        }
        i = i + 1;
    }
    rec
}

/// Materializes one fetched row as an ordered array of decoded values,
/// one per column, in column order.
pub fn convert_row_raw(safe_ints: bool, row: &Vec<Value>) -> (r: Vec<CallerValue>)
    ensures
        caller_seq_view(r@) == decoded_row(values_view(row@), safe_ints),
{
    let mut out: Vec<CallerValue> = Vec::new();
    let mut i: usize = 0;
    while i < row.len()
        invariant
            i <= row@.len(),
            out@.len() == i,
            forall|m: int| 0 <= m < i ==> caller_seq_view(out@)[m] == decode_spec(
                (#[trigger] row@[m])@,
                safe_ints,
            ),
        decreases row@.len() - i,
    {
        out.push(decode_value_ref(&row[i], safe_ints));
        i = i + 1;
    }
    proof {
        assert(caller_seq_view(out@) =~= decoded_row(values_view(row@), safe_ints));
    }
    out
}

/// What one fetched row materializes to under the mode flags: raw mode
/// yields the ordered array, the default mode the keyed record, and pluck
/// overrides both with the first column's value — index zero of the raw
/// array, or the first entry of the record ("undefined" when the record
/// has no entries).
pub open spec fn materialize_spec(
    names: Seq<Seq<char>>,
    vals: Seq<ValueV>,
    raw: bool,
    pluck: bool,
    safe_ints: bool,
) -> CallerValueV {
    if raw {
        if pluck {
            decoded_row(vals, safe_ints)[0]
        } else {
            CallerValueV::List(decoded_row(vals, safe_ints))
        }
    } else {
        let rec = record_spec(names, vals, safe_ints);
        if pluck {
            if rec.len() == 0 {
                CallerValueV::Undefined
            } else {
                rec[0].1
            }
        } else {
            CallerValueV::Obj(rec)
        }
    }
}

/// Materializes one fetched row under the mode flags.
pub fn materialize_row(
    columns: &Vec<Column>,
    row: &Vec<Value>,
    raw: bool,
    pluck: bool,
    safe_ints: bool,
) -> (r: CallerValue)
    requires
        row@.len() == columns@.len(),
        raw && pluck ==> row@.len() > 0,
    ensures
        r@ == materialize_spec(column_names(columns@), values_view(row@), raw, pluck, safe_ints),
{
    if raw {
        let mut arr = convert_row_raw(safe_ints, row);
        if pluck {
            proof {
                assert(caller_seq_view(arr@).len() == arr@.len());
                assert(decoded_row(values_view(row@), safe_ints).len() == row@.len());
            }
            let first = arr.remove(0);
            proof {
                assert(first@ == decoded_row(values_view(row@), safe_ints)[0]);
            }
            first
        } else {
            CallerValue::List(arr)
        }
    } else {
        let mut rec = convert_row(columns, safe_ints, row);
        if pluck {
            if rec.len() == 0 {
                CallerValue::Undefined
            } else {
                let pair = rec.remove(0);
                pair.1
            }
        } else {
            CallerValue::Obj(rec)
        }
    }
}

} // verus!
