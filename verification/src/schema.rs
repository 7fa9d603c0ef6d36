//! Table schemas: an ordered sequence of named, typed, nullable fields.
//!
//! A schema is immutable once attached to a committed snapshot; evolving it
//! creates a new schema version referenced by future snapshots.

use vstd::prelude::*;

verus! {

/// The semantic type of a field or of a column of values.
///
/// `Float64` values are carried through the ingestion path as their raw bit
/// pattern; the engine never performs arithmetic on them.
#[derive(Clone, Copy, PartialEq, Eq, Structural, Debug)]
pub enum FieldType {
    Utf8,
    Float64,
    TimestampNanos,
}

/// Mathematical model of a [`Field`].
pub struct FieldV {
    pub name: Seq<char>,
    pub ftype: FieldType,
    pub nullable: bool,
}

/// One schema field: name, semantic type, and nullability.
#[derive(Debug)]
pub struct Field {
    pub name: String,
    pub ftype: FieldType,
    pub nullable: bool,
}

impl View for Field {
    type V = FieldV;

    open spec fn view(&self) -> FieldV {
        FieldV { name: self.name@, ftype: self.ftype, nullable: self.nullable }
    }
}

impl Field {
    /// Builds a field.
    pub fn new(name: String, ftype: FieldType, nullable: bool) -> (r: Field)
        ensures
            r@ == (FieldV { name: name@, ftype, nullable }),
    {
        Field { name, ftype, nullable }
    }

    /// A deep copy.
    pub fn duplicate(&self) -> (r: Field)
        ensures
            r@ == self@,
    {
        Field { name: self.name.clone(), ftype: self.ftype, nullable: self.nullable }
    }
}

/// Mathematical model of a [`Schema`].
pub struct SchemaV {
    pub fields: Seq<FieldV>,
}

impl SchemaV {
    /// Field names are pairwise distinct.
    pub open spec fn wf(self) -> bool {
        forall|i: int, j: int|
            0 <= i < j < self.fields.len() ==> self.fields[i].name != self.fields[j].name
    }
}

/// An ordered sequence of fields with pairwise-distinct names.
/// [`Schema::try_new`] enforces the name-uniqueness invariant.
#[derive(Debug)]
pub struct Schema {
    pub fields: Vec<Field>,
}

impl View for Schema {
    type V = SchemaV;

    open spec fn view(&self) -> SchemaV {
        SchemaV { fields: self.fields@.map_values(|f: Field| f@) }
    }
}

impl Schema {
    /// Builds a schema, rejecting duplicate field names.
    pub fn try_new(fields: Vec<Field>) -> (r: Option<Schema>)
        ensures
            r is Some <==> (SchemaV { fields: fields@.map_values(|f: Field| f@) }).wf(),
            r is Some ==> (r->0)@ == (SchemaV { fields: fields@.map_values(|f: Field| f@) }),
    {
        let ghost model = SchemaV { fields: fields@.map_values(|f: Field| f@) };
        let n = fields.len();
        let mut i: usize = 0;
        while i < n
            invariant
                i <= n,
                n == fields.len(),
                model == (SchemaV { fields: fields@.map_values(|f: Field| f@) }),
                forall|a: int, b: int|
                    0 <= a < b < fields@.len() && a < i ==> model.fields[a].name != model.fields[b].name,
            decreases n - i,
        {
            let mut j: usize = i + 1;
            while j < n
                invariant
                    i < j <= n,
                    n == fields.len(),
                    model == (SchemaV { fields: fields@.map_values(|f: Field| f@) }),
                    forall|b: int| i < b < j ==> model.fields[i as int].name != model.fields[b].name,
                decreases n - j,
            {
                if fields[i].name == fields[j].name {
                    proof {
                        assert(model.fields[i as int].name == model.fields[j as int].name);
                        assert(!model.wf());
                    }
                    return None;
                }
                j += 1;
            }
            i += 1;
        }
        Some(Schema { fields })
    }

    /// The number of fields.
    pub fn len(&self) -> (r: usize)
        ensures
            r == self@.fields.len(),
    {
        self.fields.len()
    }

    /// The field at a position.
    pub fn field_at(&self, i: usize) -> (r: &Field)
        requires
            i < self@.fields.len(),
        ensures
            r@ == self@.fields[i as int],
    {
        &self.fields[i]
    }

    /// A deep copy.
    pub fn duplicate(&self) -> (r: Schema)
        ensures
            r@ == self@,
    {
        let mut fs: Vec<Field> = Vec::new();
        let mut i: usize = 0;
        while i < self.fields.len()
            invariant
                i <= self.fields.len(),
                fs@.len() == i,
                forall|j: int| 0 <= j < i ==> fs@[j]@ == self.fields@[j]@,
            decreases self.fields.len() - i,
        {
            fs.push(self.fields[i].duplicate());
            i += 1;
        }
        let r = Schema { fields: fs };
        proof {
            assert(r@.fields =~= self@.fields);
            assert(r@ =~= self@);
        }
        r
    }
}

/// A precise schema-reconciliation failure.
///
/// Both variants are fatal to an ingest attempt: schema mismatches do not
/// heal by retrying, so the engine never retries them.
#[derive(Debug)]
pub enum SchemaError {
    /// The input batch has no column for a non-nullable target field.
    MissingRequiredField(String),
    /// The input column for a target field has the wrong type, or holds a
    /// null value for a non-nullable target field.
    IncompatibleType(String),
}

/// Mathematical model of a [`SchemaError`].
pub enum SchemaErrorV {
    MissingRequiredField(Seq<char>),
    IncompatibleType(Seq<char>),
}

impl View for SchemaError {
    type V = SchemaErrorV;

    open spec fn view(&self) -> SchemaErrorV {
        match self {
            SchemaError::MissingRequiredField(n) => SchemaErrorV::MissingRequiredField(n@),
            SchemaError::IncompatibleType(n) => SchemaErrorV::IncompatibleType(n@),
        }
    }
}

impl SchemaError {
    /// The name of the offending field.
    pub fn field_name(&self) -> (r: &String)
        ensures
            self@ matches SchemaErrorV::MissingRequiredField(n) ==> r@ == n,
            self@ matches SchemaErrorV::IncompatibleType(n) ==> r@ == n,
    {
        match self {
            SchemaError::MissingRequiredField(n) => n,
            SchemaError::IncompatibleType(n) => n,
        }
    }
}

} // verus!
