//! Schema reconciliation: reshaping an incoming record batch into the exact
//! columnar layout of a target schema, or failing with a precise mismatch.
//!
//! For each target field, a same-named input column is taken verbatim if its
//! type matches; a missing nullable field is filled with nulls; a missing
//! required field is an error.  Input columns that the target schema does not
//! mention are dropped — the ingestion path never implicitly widens the
//! stored schema — and the output always follows the target's field order,
//! whatever the caller's column order was.

use vstd::prelude::*;
use crate::batch::{Column, ColumnV, RecordBatch, RecordBatchV, Value, ValueV, value_conforms};
use crate::schema::{FieldV, Schema, SchemaError, SchemaErrorV, SchemaV};

verus! {

/// The first input column with the given name, if any.
pub open spec fn find_col(cols: Seq<ColumnV>, name: Seq<char>) -> Option<ColumnV>
    decreases cols.len(),
{
    if cols.len() == 0 {
        None
    } else if cols[0].name == name {
        Some(cols[0])
    } else {
        find_col(cols.drop_first(), name)
    }
}

/// A target field can be satisfied by the input columns: either a same-named
/// column exists with the declared type and every cell conforms, or no such
/// column exists and the field is nullable (so nulls can be filled in).
pub open spec fn field_ok(cols: Seq<ColumnV>, f: FieldV) -> bool {
    match find_col(cols, f.name) {
        None => f.nullable,
        Some(c) => c.ftype == f.ftype && forall|k: int|
            0 <= k < c.values.len() ==> value_conforms(#[trigger] c.values[k], f.ftype, f.nullable),
    }
}

/// The error reported for a target field that cannot be satisfied.
pub open spec fn field_error(cols: Seq<ColumnV>, f: FieldV) -> SchemaErrorV {
    match find_col(cols, f.name) {
        None => SchemaErrorV::MissingRequiredField(f.name),
        Some(_) => SchemaErrorV::IncompatibleType(f.name),
    }
}

/// Every target field can be satisfied by the input columns.
pub open spec fn all_fields_ok(cols: Seq<ColumnV>, fields: Seq<FieldV>) -> bool {
    forall|i: int| 0 <= i < fields.len() ==> field_ok(cols, #[trigger] fields[i])
}

/// The error a reconciliation reports: the one for the first target field (in
/// target order) that cannot be satisfied.
pub open spec fn reconcile_error(cols: Seq<ColumnV>, fields: Seq<FieldV>, e: SchemaErrorV) -> bool {
    exists|i: int| {
        &&& 0 <= i < fields.len()
        &&& !field_ok(cols, #[trigger] fields[i])
        &&& (forall|j: int| 0 <= j < i ==> field_ok(cols, fields[j]))
        &&& e == field_error(cols, fields[i])
    }
}

/// The output column produced for one target field: the matched input column's
/// cells verbatim, or all nulls when the (nullable) field has no input column.
pub open spec fn reconciled_column(cols: Seq<ColumnV>, f: FieldV, num_rows: nat) -> ColumnV {
    match find_col(cols, f.name) {
        None => ColumnV {
            name: f.name,
            ftype: f.ftype,
            values: Seq::new(num_rows, |k: int| ValueV::Null),
        },
        Some(c) => ColumnV { name: f.name, ftype: f.ftype, values: c.values },
    }
}

/// The whole reconciled batch: one output column per target field, in target
/// field order, with the input's row count.
pub open spec fn reconciled_batch(b: RecordBatchV, t: SchemaV) -> RecordBatchV {
    RecordBatchV {
        columns: Seq::new(t.fields.len(), |i: int| reconciled_column(b.columns, t.fields[i], b.num_rows)),
        num_rows: b.num_rows,
    }
}

/// Schema fidelity of the reconciled layout: there is exactly one output
/// column per target field, in target field order and with the target's
/// types — whatever extra columns the input carried are gone; a target field
/// with no input column comes back filled with nulls; a target field with an
/// input column keeps that column's cells verbatim.
pub proof fn lemma_schema_fidelity(b: RecordBatchV, t: SchemaV)
    ensures
        reconciled_batch(b, t).num_rows == b.num_rows,
        reconciled_batch(b, t).columns.len() == t.fields.len(),
        forall|i: int| 0 <= i < t.fields.len() ==> {
            let c = #[trigger] reconciled_batch(b, t).columns[i];
            &&& c.name == t.fields[i].name
            &&& c.ftype == t.fields[i].ftype
        },
        forall|i: int|
            0 <= i < t.fields.len() && find_col(b.columns, #[trigger] t.fields[i].name) is None
            ==> reconciled_batch(b, t).columns[i].values
                == Seq::new(b.num_rows, |k: int| ValueV::Null),
        forall|i: int|
            0 <= i < t.fields.len() && find_col(b.columns, #[trigger] t.fields[i].name) is Some
            ==> reconciled_batch(b, t).columns[i].values
                == (find_col(b.columns, t.fields[i].name)->0).values,
{
}

/// Reconciliation is canonicalizing: its output already is in the target
/// layout, so reconciling it against the same schema succeeds and returns it
/// unchanged.  Every batch the engine stages is therefore laid out
/// identically, whatever the caller's column order was.
pub proof fn lemma_reconcile_canonical(b: RecordBatchV, t: SchemaV)
    requires
        t.wf(),
        all_fields_ok(b.columns, t.fields),
    ensures
        all_fields_ok(reconciled_batch(b, t).columns, t.fields),
        reconciled_batch(reconciled_batch(b, t), t) == reconciled_batch(b, t),
{
    let out = reconciled_batch(b, t);
    assert forall|i: int| 0 <= i < t.fields.len() implies
        find_col(out.columns, #[trigger] t.fields[i].name) == Some(out.columns[i])
    by {
        assert forall|j: int| 0 <= j < i implies out.columns[j].name != t.fields[i].name by {
            assert(out.columns[j].name == t.fields[j].name);
        }
        lemma_find_col_at(out.columns, t.fields[i].name, i);
    }
    assert forall|i: int| 0 <= i < t.fields.len() implies
        field_ok(out.columns, #[trigger] t.fields[i])
    by {
        let f = t.fields[i];
        assert(field_ok(b.columns, f));
        match find_col(b.columns, f.name) {
            None => {
                assert(out.columns[i].values == Seq::new(b.num_rows, |k: int| ValueV::Null));
                assert forall|k: int| 0 <= k < out.columns[i].values.len() implies
                    value_conforms(#[trigger] out.columns[i].values[k], f.ftype, f.nullable)
                by {
                    assert(out.columns[i].values[k] == ValueV::Null);
                }
            },
            Some(c) => {
                assert(out.columns[i].values == c.values);
            },
        }
    }
    assert forall|i: int| 0 <= i < t.fields.len() implies
        reconciled_column(out.columns, t.fields[i], out.num_rows) == out.columns[i]
    by {
        let f = t.fields[i];
        assert(find_col(out.columns, f.name) == Some(out.columns[i]));
        assert(out.columns[i].name == f.name);
        assert(out.columns[i].ftype == f.ftype);
    }
    assert(reconciled_batch(out, t).columns =~= out.columns);
    assert(reconciled_batch(out, t) =~= out);
}

proof fn lemma_find_col_at(cols: Seq<ColumnV>, name: Seq<char>, i: int)
    requires
        0 <= i < cols.len(),
        cols[i].name == name,
        forall|j: int| 0 <= j < i ==> cols[j].name != name,
    ensures
        find_col(cols, name) == Some(cols[i]),
    decreases i,
{
    if i > 0 {
        lemma_find_col_at(cols.drop_first(), name, i - 1);
        assert(cols.drop_first()[i - 1] == cols[i]);
    }
}

proof fn lemma_find_col_name(cols: Seq<ColumnV>, name: Seq<char>)
    requires
        find_col(cols, name) is Some,
    ensures
        (find_col(cols, name)->0).name == name,
    decreases cols.len(),
{
    if cols.len() > 0 && cols[0].name != name {
        lemma_find_col_name(cols.drop_first(), name);
    }
}

proof fn lemma_find_col_none(cols: Seq<ColumnV>, name: Seq<char>)
    requires
        forall|j: int| 0 <= j < cols.len() ==> cols[j].name != name,
    ensures
        find_col(cols, name) is None,
    decreases cols.len(),
{
    if cols.len() > 0 {
        lemma_find_col_none(cols.drop_first(), name);
    }
}

/// Linear search for the first column with the given name.
fn find_column(records: &RecordBatch, name: &String) -> (r: Option<usize>)
    ensures
        r matches Some(ci) ==> {
            &&& ci < records@.columns.len()
            &&& find_col(records@.columns, name@) == Some(records@.columns[ci as int])
        },
        r is None ==> find_col(records@.columns, name@) is None,
{
    let mut i: usize = 0;
    while i < records.columns.len()
        invariant
            i <= records.columns.len(),
            forall|j: int| 0 <= j < i ==> records@.columns[j].name != name@,
        decreases records.columns.len() - i,
    {
        if records.columns[i].name == *name {
            proof {
                assert(records@.columns[i as int] == records.columns@[i as int]@);
                lemma_find_col_at(records@.columns, name@, i as int);
            }
            return Some(i);
        }
        proof {
            assert(records@.columns[i as int] == records.columns@[i as int]@);
        }
        i += 1;
    }
    proof {
        lemma_find_col_none(records@.columns, name@);
    }
    None
}

/// Converts the input batch into a columnar batch matching the target schema,
/// or fails with a precise description of the first mismatch in target field
/// order.
///
/// On success the output batch is exactly [`reconciled_batch`]: target field
/// order, matched columns taken verbatim, missing nullable fields filled with
/// nulls, unknown input columns dropped, and the input's row count preserved.
/// An empty input batch reconciles to an empty, schema-conformant batch.
#[verifier::loop_isolation(false)]
pub fn reconcile(records: &RecordBatch, target: &Schema) -> (r: Result<RecordBatch, SchemaError>)
    requires
        records@.wf(),
        target@.wf(),
    ensures
        r is Ok <==> all_fields_ok(records@.columns, target@.fields),
        r matches Ok(out) ==> out@ == reconciled_batch(records@, target@),
        r matches Ok(out) ==> out@.wf(),
        r matches Err(e) ==> reconcile_error(records@.columns, target@.fields, e@),
{
    let ghost cols = records@.columns;
    let ghost fields = target@.fields;
    let ghost rows = records@.num_rows;
    let mut out_cols: Vec<Column> = Vec::new();
    let mut i: usize = 0;
    while i < target.len()
        invariant
            records@.wf(),
            target@.wf(),
            cols == records@.columns,
            fields == target@.fields,
            rows == records@.num_rows,
            i <= fields.len(),
            out_cols@.len() == i,
            forall|j: int| 0 <= j < i ==> field_ok(cols, #[trigger] fields[j]),
            forall|j: int| 0 <= j < i ==> out_cols@[j]@ == reconciled_column(cols, #[trigger] fields[j], rows),
            forall|j: int| 0 <= j < i ==> out_cols@[j]@.values.len() == rows,
        decreases fields.len() - i,
    {
        let f = target.field_at(i);
        match find_column(records, &f.name) {
            None => {
                if f.nullable {
                    let mut vs: Vec<Value> = Vec::new();
                    let mut k: usize = 0;
                    while k < records.num_rows()
                        invariant
                            k <= records@.num_rows,
                            vs@.len() == k,
                            forall|m: int| 0 <= m < k ==> vs@[m]@ == ValueV::Null,
                        decreases records@.num_rows - k,
                    {
                        vs.push(Value::Null);
                        k += 1;
                    }
                    let filled = Column::new(f.name.clone(), f.ftype, vs);
                    proof {
                        assert(filled@.values =~= Seq::new(rows, |m: int| ValueV::Null));
                        assert(filled@ == reconciled_column(cols, fields[i as int], rows));
                        assert(field_ok(cols, fields[i as int]));
                    }
                    out_cols.push(filled);
                } else {
                    proof {
                        assert(!field_ok(cols, fields[i as int]));
                    }
                    return Err(SchemaError::MissingRequiredField(f.name.clone()));
                }
            },
            Some(ci) => {
                let c = records.column_at(ci);
                let ghost cv = records@.columns[ci as int];
                if c.ftype != f.ftype {
                    proof {
                        assert(!field_ok(cols, fields[i as int]));
                    }
                    return Err(SchemaError::IncompatibleType(f.name.clone()));
                }
                let mut k: usize = 0;
                while k < c.values.len()
                    invariant
                        c@ == cv,
                        k <= c.values.len(),
                        forall|m: int| 0 <= m < k ==> value_conforms(#[trigger] cv.values[m], f@.ftype, f@.nullable),
                    decreases c.values.len() - k,
                {
                    if !c.values[k].conforms_to(f.ftype, f.nullable) {
                        proof {
                            assert(cv.values[k as int] == c.values@[k as int]@);
                            assert(!value_conforms(cv.values[k as int], f@.ftype, f@.nullable));
                            assert(!field_ok(cols, fields[i as int]));
                        }
                        return Err(SchemaError::IncompatibleType(f.name.clone()));
                    }
                    proof {
                        assert(cv.values[k as int] == c.values@[k as int]@);
                    }
                    k += 1;
                }
                let taken = c.duplicate();
                proof {
                    lemma_find_col_name(cols, fields[i as int].name);
                    assert(field_ok(cols, fields[i as int]));
                    assert(cv.values.len() == rows);
                    assert(taken@.name == fields[i as int].name);
                    assert(taken@ == reconciled_column(cols, fields[i as int], rows));
                }
                out_cols.push(taken);
            },
        }
        i += 1;
    }
    let nr = records.num_rows();
    let out = RecordBatch { columns: out_cols, num_rows: nr };
    proof {
        assert(out@.columns =~= reconciled_batch(records@, target@).columns);
        assert(out@ =~= reconciled_batch(records@, target@));
    }
    Ok(out)
}

} // verus!
