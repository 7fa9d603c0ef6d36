//! Table metadata: schema versions, the snapshot history, and the pure
//! builder that appends a snapshot.
//!
//! Snapshot history is a singly-linked chain represented as an append-only
//! sequence in commit order plus a current-snapshot scalar.  Metadata is
//! never edited in place: [`TableMetadata::append_snapshot`] returns a fresh
//! value, so a writer can construct a candidate and discard it cheaply when
//! its commit loses a race.

use vstd::prelude::*;
use crate::schema::{Schema, SchemaV};

verus! {

/// Mathematical model of a [`DataFile`].
pub struct DataFileV {
    pub path: Seq<char>,
    pub row_count: u64,
    pub byte_size: u64,
}

/// Opaque reference to a staged columnar file; never mutated after staging.
#[derive(Debug, PartialEq)]
pub struct DataFile {
    pub path: String,
    pub row_count: u64,
    pub byte_size: u64,
}

impl View for DataFile {
    type V = DataFileV;

    open spec fn view(&self) -> DataFileV {
        DataFileV { path: self.path@, row_count: self.row_count, byte_size: self.byte_size }
    }
}

impl DataFile {
    /// A deep copy.
    pub fn duplicate(&self) -> (r: DataFile)
        ensures
            r@ == self@,
    {
        DataFile { path: self.path.clone(), row_count: self.row_count, byte_size: self.byte_size }
    }
}

/// Deep view of a sequence of data files.
pub open spec fn files_view(fs: Seq<DataFile>) -> Seq<DataFileV> {
    fs.map_values(|f: DataFile| f@)
}

/// Mathematical model of a [`Snapshot`].
pub struct SnapshotV {
    pub snapshot_id: u64,
    pub parent_snapshot_id: Option<u64>,
    pub schema_version: usize,
    pub data_files: Seq<DataFileV>,
    pub timestamp_ms: i64,
}

/// Immutable record of one committed state of the table.
#[derive(Debug)]
pub struct Snapshot {
    pub snapshot_id: u64,
    pub parent_snapshot_id: Option<u64>,
    pub schema_version: usize,
    pub data_files: Vec<DataFile>,
    pub timestamp_ms: i64,
}

impl View for Snapshot {
    type V = SnapshotV;

    open spec fn view(&self) -> SnapshotV {
        SnapshotV {
            snapshot_id: self.snapshot_id,
            parent_snapshot_id: self.parent_snapshot_id,
            schema_version: self.schema_version,
            data_files: files_view(self.data_files@),
            timestamp_ms: self.timestamp_ms,
        }
    }
}

impl Snapshot {
    /// A deep copy.
    pub fn duplicate(&self) -> (r: Snapshot)
        ensures
            r@ == self@,
    {
        let mut fs: Vec<DataFile> = Vec::new();
        let mut i: usize = 0;
        while i < self.data_files.len()
            invariant
                i <= self.data_files.len(),
                fs@.len() == i,
                forall|j: int| 0 <= j < i ==> fs@[j]@ == self.data_files@[j]@,
            decreases self.data_files.len() - i,
        {
            fs.push(self.data_files[i].duplicate());
            i += 1;
        }
        let r = Snapshot {
            snapshot_id: self.snapshot_id,
            parent_snapshot_id: self.parent_snapshot_id,
            schema_version: self.schema_version,
            data_files: fs,
            timestamp_ms: self.timestamp_ms,
        };
        proof {
            assert(r@.data_files =~= self@.data_files);
            assert(r@ =~= self@);
        }
        r
    }
}

/// Deep view of a sequence of snapshots.
pub open spec fn snapshots_view(ss: Seq<Snapshot>) -> Seq<SnapshotV> {
    ss.map_values(|s: Snapshot| s@)
}

/// Deep view of a sequence of schemas.
pub open spec fn schemas_view(ss: Seq<Schema>) -> Seq<SchemaV> {
    ss.map_values(|s: Schema| s@)
}

/// Mathematical model of a [`TableMetadata`].
pub struct TableMetadataV {
    pub schemas: Seq<SchemaV>,
    pub current_schema_version: usize,
    pub snapshots: Seq<SnapshotV>,
    pub current_snapshot_id: Option<u64>,
    pub metadata_version: u64,
}

impl TableMetadataV {
    /// Well-formedness of table metadata:
    /// - the current schema version indexes the schema list, and every schema
    ///   is well formed;
    /// - every snapshot references an existing schema version;
    /// - snapshot ids are strictly increasing in commit order (ids are minted
    ///   monotonically and never reused);
    /// - every snapshot after the first has the previous snapshot as parent,
    ///   so the history is a single chain;
    /// - a parent id is always strictly below its child's id;
    /// - the current snapshot id is the id of the last snapshot, or absent
    ///   when the table has no snapshot yet.
    pub open spec fn wf(self) -> bool {
        &&& (self.current_schema_version as int) < self.schemas.len()
        &&& forall|i: int| 0 <= i < self.schemas.len() ==> (#[trigger] self.schemas[i]).wf()
        &&& forall|i: int| 0 <= i < self.snapshots.len()
            ==> ((#[trigger] self.snapshots[i]).schema_version as int) < self.schemas.len()
        &&& forall|i: int, j: int| 0 <= i < j < self.snapshots.len()
            ==> self.snapshots[i].snapshot_id < self.snapshots[j].snapshot_id
        &&& forall|i: int| 1 <= i < self.snapshots.len()
            ==> (#[trigger] self.snapshots[i].parent_snapshot_id)
                == Some(self.snapshots[i - 1].snapshot_id)
        &&& forall|i: int| 0 <= i < self.snapshots.len()
            ==> ((#[trigger] self.snapshots[i].parent_snapshot_id) matches Some(p)
                ==> p < self.snapshots[i].snapshot_id)
        &&& self.current_snapshot_id == (if self.snapshots.len() > 0 {
            Some(self.snapshots.last().snapshot_id)
        } else {
            None::<u64>
        })
    }

    /// The id the next committed snapshot will carry.
    pub open spec fn next_snapshot_id(self) -> int {
        if self.snapshots.len() > 0 {
            self.snapshots.last().snapshot_id + 1
        } else {
            1
        }
    }

    /// The id counters have room left, so a snapshot can still be appended.
    pub open spec fn counters_ok(self) -> bool {
        &&& (self.snapshots.len() > 0 ==> self.snapshots.last().snapshot_id < u64::MAX)
        &&& self.metadata_version < u64::MAX
    }

    /// The current schema.
    pub open spec fn current_schema(self) -> SchemaV {
        self.schemas[self.current_schema_version as int]
    }
}

/// The metadata appended with one fresh snapshot holding the given files:
/// the new snapshot's id is one past the last, its parent is the current
/// snapshot, and it becomes current; a supplied schema version also becomes
/// current, otherwise the schema is unchanged.
pub open spec fn append_snapshot_spec(
    m: TableMetadataV,
    files: Seq<DataFileV>,
    new_schema_version: Option<usize>,
    timestamp_ms: i64,
) -> TableMetadataV {
    let sv = match new_schema_version {
        Some(v) => v,
        None => m.current_schema_version,
    };
    let snap = SnapshotV {
        snapshot_id: m.next_snapshot_id() as u64,
        parent_snapshot_id: m.current_snapshot_id,
        schema_version: sv,
        data_files: files,
        timestamp_ms,
    };
    TableMetadataV {
        schemas: m.schemas,
        current_schema_version: sv,
        snapshots: m.snapshots.push(snap),
        current_snapshot_id: Some(snap.snapshot_id),
        metadata_version: (m.metadata_version + 1) as u64,
    }
}

/// Appending preserves well-formedness, and the appended snapshot's parent is
/// exactly the metadata's current snapshot id.
pub proof fn lemma_append_snapshot_wf(
    m: TableMetadataV,
    files: Seq<DataFileV>,
    new_schema_version: Option<usize>,
    timestamp_ms: i64,
)
    requires
        m.wf(),
        m.counters_ok(),
        new_schema_version matches Some(v) ==> (v as int) < m.schemas.len(),
    ensures
        append_snapshot_spec(m, files, new_schema_version, timestamp_ms).wf(),
        append_snapshot_spec(m, files, new_schema_version, timestamp_ms).snapshots.last()
            .parent_snapshot_id == m.current_snapshot_id,
{
    let r = append_snapshot_spec(m, files, new_schema_version, timestamp_ms);
    let n = m.snapshots.len() as int;
    assert forall|i: int, j: int| 0 <= i < j < r.snapshots.len() implies
        r.snapshots[i].snapshot_id < r.snapshots[j].snapshot_id
    by {
        if j == n && i < n {
            if i < n - 1 {
                assert(m.snapshots[i].snapshot_id < m.snapshots[n - 1].snapshot_id);
            }
        }
    }
    assert forall|i: int| 1 <= i < r.snapshots.len() implies
        (#[trigger] r.snapshots[i]).parent_snapshot_id == Some(r.snapshots[i - 1].snapshot_id)
    by {
        if i < n {
            assert(m.snapshots[i].parent_snapshot_id == Some(m.snapshots[i - 1].snapshot_id));
        }
    }
}

/// Within one well-formed history the snapshots form a single chain: ids are
/// pairwise distinct and no two snapshots claim the same parent.
pub proof fn lemma_history_is_single_chain(m: TableMetadataV)
    requires
        m.wf(),
    ensures
        forall|i: int, j: int| 0 <= i < j < m.snapshots.len()
            ==> m.snapshots[i].snapshot_id != m.snapshots[j].snapshot_id,
        forall|i: int, j: int| 0 <= i < j < m.snapshots.len()
            ==> m.snapshots[i].parent_snapshot_id != m.snapshots[j].parent_snapshot_id,
{
    assert forall|i: int, j: int| 0 <= i < j < m.snapshots.len() implies
        m.snapshots[i].parent_snapshot_id != m.snapshots[j].parent_snapshot_id
    by {
        assert(m.snapshots[j].parent_snapshot_id == Some(m.snapshots[j - 1].snapshot_id));
        match m.snapshots[i].parent_snapshot_id {
            None => {},
            Some(p) => {
                assert(p < m.snapshots[i].snapshot_id);
                if i <= j - 1 {
                    if i < j - 1 {
                        assert(m.snapshots[i].snapshot_id < m.snapshots[j - 1].snapshot_id);
                    }
                    assert(p < m.snapshots[j - 1].snapshot_id);
                }
            },
        }
    }
}

/// One table's current metadata: schema versions, the snapshot history, and
/// the current pointers.  A writer only ever holds an immutable copy of this,
/// read from the catalog at load time.
#[derive(Debug)]
pub struct TableMetadata {
    pub schemas: Vec<Schema>,
    pub current_schema_version: usize,
    pub snapshots: Vec<Snapshot>,
    pub current_snapshot_id: Option<u64>,
    pub metadata_version: u64,
}

impl View for TableMetadata {
    type V = TableMetadataV;

    open spec fn view(&self) -> TableMetadataV {
        TableMetadataV {
            schemas: schemas_view(self.schemas@),
            current_schema_version: self.current_schema_version,
            snapshots: snapshots_view(self.snapshots@),
            current_snapshot_id: self.current_snapshot_id,
            metadata_version: self.metadata_version,
        }
    }
}

impl TableMetadata {
    /// Metadata for a table that has a schema but no snapshot yet.
    pub fn new_empty(schema: Schema) -> (r: TableMetadata)
        requires
            schema@.wf(),
        ensures
            r@.schemas == seq![schema@],
            r@.current_schema_version == 0,
            r@.snapshots.len() == 0,
            r@.current_snapshot_id is None,
            r@.metadata_version == 0,
            r@.wf(),
    {
        let mut schemas: Vec<Schema> = Vec::new();
        schemas.push(schema);
        let r = TableMetadata {
            schemas,
            current_schema_version: 0,
            snapshots: Vec::new(),
            current_snapshot_id: None,
            metadata_version: 0,
        };
        proof {
            assert(r@.schemas =~= seq![r.schemas@[0]@]);
            assert(r@.snapshots =~= Seq::<SnapshotV>::empty());
        }
        r
    }

    /// The schema that the next snapshot will be reconciled against.
    #[verifier::rlimit(50)]
    pub fn current_schema(&self) -> (r: &Schema)
        requires
            self@.wf(),
        ensures
            r@ == self@.current_schema(),
    {
        proof {
            assert(self@.schemas.len() == self.schemas@.len());
            assert((self.current_schema_version as int) < self.schemas@.len());
            assert(self@.schemas[self.current_schema_version as int]
                == self.schemas@[self.current_schema_version as int]@);
        }
        &self.schemas[self.current_schema_version]
    }

    /// The current snapshot, or `None` when the table has no snapshot yet.
    pub fn current_snapshot(&self) -> (r: Option<&Snapshot>)
        requires
            self@.wf(),
        ensures
            r is Some <==> self@.snapshots.len() > 0,
            r matches Some(s) ==> s@ == self@.snapshots.last(),
            r matches Some(s) ==> self@.current_snapshot_id == Some(s@.snapshot_id),
    {
        if self.snapshots.len() > 0 {
            Some(&self.snapshots[self.snapshots.len() - 1])
        } else {
            None
        }
    }

    /// The id the next appended snapshot will carry.
    pub fn next_snapshot_id(&self) -> (r: u64)
        requires
            self@.counters_ok(),
        ensures
            r as int == self@.next_snapshot_id(),
    {
        if self.snapshots.len() > 0 {
            self.snapshots[self.snapshots.len() - 1].snapshot_id + 1
        } else {
            1
        }
    }

    /// A deep copy.
    pub fn duplicate(&self) -> (r: TableMetadata)
        ensures
            r@ == self@,
    {
        let mut schemas: Vec<Schema> = Vec::new();
        let mut i: usize = 0;
        while i < self.schemas.len()
            invariant
                i <= self.schemas.len(),
                schemas@.len() == i,
                forall|j: int| 0 <= j < i ==> schemas@[j]@ == self.schemas@[j]@,
            decreases self.schemas.len() - i,
        {
            schemas.push(self.schemas[i].duplicate());
            i += 1;
        }
        let mut snapshots: Vec<Snapshot> = Vec::new();
        let mut k: usize = 0;
        while k < self.snapshots.len()
            invariant
                k <= self.snapshots.len(),
                snapshots@.len() == k,
                forall|j: int| 0 <= j < k ==> snapshots@[j]@ == self.snapshots@[j]@,
            decreases self.snapshots.len() - k,
        {
            snapshots.push(self.snapshots[k].duplicate());
            k += 1;
        }
        let r = TableMetadata {
            schemas,
            current_schema_version: self.current_schema_version,
            snapshots,
            current_snapshot_id: self.current_snapshot_id,
            metadata_version: self.metadata_version,
        };
        proof {
            assert(r@.schemas =~= self@.schemas);
            assert(r@.snapshots =~= self@.snapshots);
            assert(r@ =~= self@);
        }
        r
    }

    /// Pure builder: a fresh metadata value with one appended snapshot whose
    /// id is one past the last, whose parent is the current snapshot, and
    /// which holds the given data files.  The receiver is not mutated.
    pub fn append_snapshot(
        &self,
        data_files: Vec<DataFile>,
        new_schema_version: Option<usize>,
        timestamp_ms: i64,
    ) -> (r: TableMetadata)
        requires
            self@.wf(),
            self@.counters_ok(),
            new_schema_version matches Some(v) ==> (v as int) < self@.schemas.len(),
        ensures
            r@ == append_snapshot_spec(self@, files_view(data_files@), new_schema_version, timestamp_ms),
            r@.wf(),
    {
        let new_id = self.next_snapshot_id();
        let sv = match new_schema_version {
            Some(v) => v,
            None => self.current_schema_version,
        };
        let snap = Snapshot {
            snapshot_id: new_id,
            parent_snapshot_id: self.current_snapshot_id,
            schema_version: sv,
            data_files,
            timestamp_ms,
        };
        let base = self.duplicate();
        let mut snapshots = base.snapshots;
        snapshots.push(snap);
        let r = TableMetadata {
            schemas: base.schemas,
            current_schema_version: sv,
            snapshots,
            current_snapshot_id: Some(new_id),
            metadata_version: self.metadata_version + 1,
        };
        proof {
            let spec_r = append_snapshot_spec(
                self@,
                files_view(data_files@),
                new_schema_version,
                timestamp_ms,
            );
            assert(r@.snapshots =~= spec_r.snapshots);
            assert(r@ =~= spec_r);
            lemma_append_snapshot_wf(
                self@,
                files_view(data_files@),
                new_schema_version,
                timestamp_ms,
            );
        }
        r
    }
}

} // verus!
