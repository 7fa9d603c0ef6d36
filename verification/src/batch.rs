//! Record batches: the transient, caller-supplied table of typed columns that
//! the reconciler reshapes into a schema-conformant batch.

use vstd::prelude::*;
use crate::schema::FieldType;

verus! {

/// Mathematical model of a [`Value`].
pub enum ValueV {
    Null,
    Str(Seq<char>),
    Float(u64),
    TimestampNanos(i64),
}

/// One cell of a column.
///
/// A 64-bit float is carried as its raw bit pattern (`f64::to_bits`); the
/// ingestion path never performs arithmetic on cell contents, it only checks
/// their shape against a schema and moves them.
#[derive(Debug, PartialEq)]
pub enum Value {
    Null,
    Str(String),
    Float(u64),
    TimestampNanos(i64),
}

impl View for Value {
    type V = ValueV;

    open spec fn view(&self) -> ValueV {
        match self {
            Value::Null => ValueV::Null,
            Value::Str(s) => ValueV::Str(s@),
            Value::Float(b) => ValueV::Float(*b),
            Value::TimestampNanos(n) => ValueV::TimestampNanos(*n),
        }
    }
}

/// A value conforms to a field when its runtime shape is losslessly
/// convertible to the field's declared type: a null is allowed only for a
/// nullable field, and a non-null value must carry exactly the declared type.
pub open spec fn value_conforms(v: ValueV, ftype: FieldType, nullable: bool) -> bool {
    match v {
        ValueV::Null => nullable,
        ValueV::Str(_) => ftype == FieldType::Utf8,
        ValueV::Float(_) => ftype == FieldType::Float64,
        ValueV::TimestampNanos(_) => ftype == FieldType::TimestampNanos,
    }
}

impl Value {
    /// A deep copy.
    pub fn duplicate(&self) -> (r: Value)
        ensures
            r@ == self@,
    {
        match self {
            Value::Null => Value::Null,
            Value::Str(s) => Value::Str(s.clone()),
            Value::Float(b) => Value::Float(*b),
            Value::TimestampNanos(n) => Value::TimestampNanos(*n),
        }
    }

    /// Runtime check of [`value_conforms`].
    pub fn conforms_to(&self, ftype: FieldType, nullable: bool) -> (r: bool)
        ensures
            r == value_conforms(self@, ftype, nullable),
    {
        match self {
            Value::Null => nullable,
            Value::Str(_) => ftype == FieldType::Utf8,
            Value::Float(_) => ftype == FieldType::Float64,
            Value::TimestampNanos(_) => ftype == FieldType::TimestampNanos,
        }
    }
}

/// Deep view of a sequence of values.
pub open spec fn values_view(vs: Seq<Value>) -> Seq<ValueV> {
    vs.map_values(|v: Value| v@)
}

/// Mathematical model of a [`Column`].
pub struct ColumnV {
    pub name: Seq<char>,
    pub ftype: FieldType,
    pub values: Seq<ValueV>,
}

/// One named, typed column of cells.
#[derive(Debug)]
pub struct Column {
    pub name: String,
    pub ftype: FieldType,
    pub values: Vec<Value>,
}

impl View for Column {
    type V = ColumnV;

    open spec fn view(&self) -> ColumnV {
        ColumnV { name: self.name@, ftype: self.ftype, values: values_view(self.values@) }
    }
}

impl Column {
    /// Builds a column.
    pub fn new(name: String, ftype: FieldType, values: Vec<Value>) -> (r: Column)
        ensures
            r@ == (ColumnV { name: name@, ftype, values: values_view(values@) }),
    {
        Column { name, ftype, values }
    }

    /// A deep copy.
    pub fn duplicate(&self) -> (r: Column)
        ensures
            r@ == self@,
    {
        let mut vs: Vec<Value> = Vec::new();
        let mut i: usize = 0;
        while i < self.values.len()
            invariant
                i <= self.values.len(),
                vs@.len() == i,
                forall|j: int| 0 <= j < i ==> vs@[j]@ == self.values@[j]@,
            decreases self.values.len() - i,
        {
            vs.push(self.values[i].duplicate());
            i += 1;
        }
        let r = Column { name: self.name.clone(), ftype: self.ftype, values: vs };
        proof {
            assert(r@.values =~= self@.values);
            assert(r@ =~= self@);
        }
        r
    }
}

/// Deep view of a sequence of columns.
pub open spec fn columns_view(cs: Seq<Column>) -> Seq<ColumnV> {
    cs.map_values(|c: Column| c@)
}

/// Mathematical model of a [`RecordBatch`].
pub struct RecordBatchV {
    pub columns: Seq<ColumnV>,
    pub num_rows: nat,
}

impl RecordBatchV {
    /// Every column holds exactly `num_rows` cells.
    pub open spec fn wf(self) -> bool {
        forall|i: int| 0 <= i < self.columns.len() ==> #[trigger] self.columns[i].values.len() == self.num_rows
    }
}

/// A table of typed columns of equal length.
/// [`RecordBatch::try_new`] enforces the equal-length invariant.
#[derive(Debug)]
pub struct RecordBatch {
    pub columns: Vec<Column>,
    pub num_rows: usize,
}

impl View for RecordBatch {
    type V = RecordBatchV;

    open spec fn view(&self) -> RecordBatchV {
        RecordBatchV { columns: columns_view(self.columns@), num_rows: self.num_rows as nat }
    }
}

impl RecordBatch {
    /// Builds a batch of `num_rows` rows from columns that must each hold
    /// exactly `num_rows` cells; rejects ragged input.
    pub fn try_new(columns: Vec<Column>, num_rows: usize) -> (r: Option<RecordBatch>)
        ensures
            r is Some <==> (RecordBatchV {
                columns: columns_view(columns@),
                num_rows: num_rows as nat,
            }).wf(),
            r is Some ==> (r->0)@ == (RecordBatchV {
                columns: columns_view(columns@),
                num_rows: num_rows as nat,
            }),
            r is Some ==> (r->0)@.wf(),
    {
        let mut i: usize = 0;
        while i < columns.len()
            invariant
                i <= columns.len(),
                forall|j: int| 0 <= j < i ==> #[trigger] columns@[j]@.values.len() == num_rows as nat,
            decreases columns.len() - i,
        {
            if columns[i].values.len() != num_rows {
                proof {
                    assert(columns_view(columns@)[i as int].values.len() != num_rows as nat);
                }
                return None;
            }
            i += 1;
        }
        proof {
            assert forall|j: int| 0 <= j < columns@.len() implies
                #[trigger] columns_view(columns@)[j].values.len() == num_rows as nat
            by {
                assert(columns_view(columns@)[j] == columns@[j]@);
            }
        }
        Some(RecordBatch { columns, num_rows })
    }

    /// An empty batch of zero rows and no columns.
    pub fn empty() -> (r: RecordBatch)
        ensures
            r@.columns.len() == 0,
            r@.num_rows == 0,
            r@.wf(),
    {
        let r = RecordBatch { columns: Vec::new(), num_rows: 0 };
        proof {
            assert(r@.columns =~= Seq::<ColumnV>::empty());
        }
        r
    }

    /// The number of rows.
    pub fn num_rows(&self) -> (r: usize)
        ensures
            r as nat == self@.num_rows,
    {
        self.num_rows
    }

    /// The number of columns.
    pub fn num_columns(&self) -> (r: usize)
        ensures
            r == self@.columns.len(),
    {
        self.columns.len()
    }

    /// The column at a position.
    pub fn column_at(&self, i: usize) -> (r: &Column)
        requires
            i < self@.columns.len(),
        ensures
            r@ == self@.columns[i as int],
    {
        &self.columns[i]
    }

    /// A deep copy.
    pub fn duplicate(&self) -> (r: RecordBatch)
        ensures
            r@ == self@,
    {
        let mut cs: Vec<Column> = Vec::new();
        let mut i: usize = 0;
        while i < self.columns.len()
            invariant
                i <= self.columns.len(),
                cs@.len() == i,
                forall|j: int| 0 <= j < i ==> cs@[j]@ == self.columns@[j]@,
            decreases self.columns.len() - i,
        {
            cs.push(self.columns[i].duplicate());
            i += 1;
        }
        let r = RecordBatch { columns: cs, num_rows: self.num_rows };
        proof {
            assert(r@.columns =~= self@.columns);
            assert(r@ =~= self@);
        }
        r
    }
}

} // verus!
