//! The writer: orchestrates load → reconcile → stage → commit, retrying the
//! whole cycle on commit conflicts.
//!
//! The protocol is a state machine.  Each transition is a pure decision from
//! the current state and one event (metadata loaded, files staged, commit
//! conflicted, ...) to the next state; the surrounding runtime — whether the
//! in-memory [`ingest`] path below or an outer loop talking to a remote
//! catalog and object store — performs the actions and feeds the events back
//! in.  After a conflict the writer reloads and re-reconciles against the
//! possibly changed current schema, and rebuilds its candidate on top of the
//! new current snapshot, so the candidate's parent pointer is never stale.

use vstd::prelude::*;
use crate::batch::{RecordBatch, RecordBatchV};
use crate::catalog::{
    Catalog, CatalogEntryV, CatalogError, CommitError, has_entry, table_counters_ok, versions_ok,
};
use crate::ident::Identifier;
use crate::reconcile::{all_fields_ok, reconcile, reconcile_error, reconciled_batch};
use crate::schema::{SchemaError, SchemaErrorV};
use crate::table::{
    append_snapshot_spec, files_view, lemma_append_snapshot_wf, DataFile, DataFileV,
    TableMetadata, TableMetadataV,
};

verus! {

/// How often staging one batch may fail before the attempt is abandoned.
pub const MAX_STAGE_ATTEMPTS: u64 = 3;

/// The default bound on commit-conflict retries.
pub const DEFAULT_MAX_COMMIT_RETRIES: u64 = 3;

/// Ingestion configuration.
#[derive(Clone, Copy, PartialEq, Eq, Structural, Debug)]
pub struct IngestConfig {
    /// How many commit conflicts the engine absorbs by reloading and
    /// rebuilding before it gives up with `ConflictExhausted`.
    pub max_commit_retries: u64,
    /// Whether unknown input fields may trigger a schema-evolution path.
    /// The evolution path itself lies outside this engine; with the flag off
    /// (the default) unknown input fields are dropped silently.
    pub allow_schema_widening: bool,
}

impl Default for IngestConfig {
    fn default() -> (r: IngestConfig)
        ensures
            r.max_commit_retries == DEFAULT_MAX_COMMIT_RETRIES,
            !r.allow_schema_widening,
    {
        IngestConfig { max_commit_retries: DEFAULT_MAX_COMMIT_RETRIES, allow_schema_widening: false }
    }
}

/// Why an ingest attempt failed.
#[derive(Debug)]
pub enum IngestError {
    /// The identifier is unknown to the catalog.  Fatal, never retried.
    NotFound,
    /// The catalog could not be reached.  Surfaced immediately; retrying is
    /// the caller's decision, not the engine's.
    CatalogUnavailable,
    /// The batch does not fit the table's current schema.  Fatal: schema
    /// mismatches do not heal by retrying.
    Schema(SchemaError),
    /// Staging kept failing past its attempt bound.
    StagingError,
    /// Every conflict retry was used up; another writer kept winning.
    /// Carries the last-seen snapshot and schema state for diagnosis.
    ConflictExhausted { last_snapshot_id: Option<u64>, last_schema_version: usize },
}

/// Mathematical model of an [`IngestError`].
pub enum IngestErrorV {
    NotFound,
    CatalogUnavailable,
    Schema(SchemaErrorV),
    StagingError,
    ConflictExhausted { last_snapshot_id: Option<u64>, last_schema_version: usize },
}

impl View for IngestError {
    type V = IngestErrorV;

    open spec fn view(&self) -> IngestErrorV {
        match self {
            IngestError::NotFound => IngestErrorV::NotFound,
            IngestError::CatalogUnavailable => IngestErrorV::CatalogUnavailable,
            IngestError::Schema(e) => IngestErrorV::Schema(e@),
            IngestError::StagingError => IngestErrorV::StagingError,
            IngestError::ConflictExhausted { last_snapshot_id, last_schema_version } =>
                IngestErrorV::ConflictExhausted {
                    last_snapshot_id: *last_snapshot_id,
                    last_schema_version: *last_schema_version,
                },
        }
    }
}

/// The terminal result of a successful ingest attempt.
#[derive(Clone, Copy, PartialEq, Eq, Structural, Debug)]
pub enum IngestOutcome {
    /// A snapshot with this id was committed.
    Committed(u64),
    /// The reconciled batch had zero rows, so no snapshot was created and the
    /// table is untouched.
    NoOp,
}

/// Where one ingest attempt stands in the protocol.
#[derive(Debug)]
pub enum WriterState {
    /// Waiting for the catalog to resolve the identifier.
    Loading,
    /// The batch reconciled against the loaded schema; waiting for the
    /// storage layer to stage it.
    Staging { metadata: TableMetadata, version_token: u64, batch: RecordBatch },
    /// A candidate metadata value is built; waiting for the conditional
    /// write's answer.
    Committing {
        metadata: TableMetadata,
        version_token: u64,
        candidate: TableMetadata,
        new_snapshot_id: u64,
    },
    /// Terminal success.
    Done { outcome: IngestOutcome },
    /// Terminal failure.
    Failed { error: IngestError },
}

/// Mathematical model of a [`WriterState`].
pub enum WriterStateV {
    Loading,
    Staging { metadata: TableMetadataV, version_token: u64, batch: RecordBatchV },
    Committing {
        metadata: TableMetadataV,
        version_token: u64,
        candidate: TableMetadataV,
        new_snapshot_id: u64,
    },
    Done { outcome: IngestOutcome },
    Failed { error: IngestErrorV },
}

impl View for WriterState {
    type V = WriterStateV;

    open spec fn view(&self) -> WriterStateV {
        match self {
            WriterState::Loading => WriterStateV::Loading,
            WriterState::Staging { metadata, version_token, batch } => WriterStateV::Staging {
                metadata: metadata@,
                version_token: *version_token,
                batch: batch@,
            },
            WriterState::Committing { metadata, version_token, candidate, new_snapshot_id } =>
                WriterStateV::Committing {
                    metadata: metadata@,
                    version_token: *version_token,
                    candidate: candidate@,
                    new_snapshot_id: *new_snapshot_id,
                },
            WriterState::Done { outcome } => WriterStateV::Done { outcome: *outcome },
            WriterState::Failed { error } => WriterStateV::Failed { error: error@ },
        }
    }
}

/// Mathematical model of an [`IngestTask`].
pub struct IngestTaskV {
    pub records: RecordBatchV,
    pub config: IngestConfig,
    pub conflict_retries: u64,
    pub stage_attempts: u64,
    pub state: WriterStateV,
}

impl IngestTaskV {
    /// The protocol invariant: the input batch is well formed, the staging
    /// counter is below its bound, and each in-flight state carries exactly
    /// what the protocol put there — in `Staging` the batch is the
    /// reconciliation of the input against the loaded metadata's current
    /// schema and is non-empty; in `Committing` the candidate extends the
    /// loaded metadata by one snapshot whose parent is that metadata's
    /// current snapshot.
    pub open spec fn wf(self) -> bool {
        &&& self.records.wf()
        &&& self.stage_attempts < MAX_STAGE_ATTEMPTS
        &&& match self.state {
            WriterStateV::Loading => true,
            WriterStateV::Staging { metadata, version_token, batch } => {
                &&& metadata.wf()
                &&& all_fields_ok(self.records.columns, metadata.current_schema().fields)
                &&& batch == reconciled_batch(self.records, metadata.current_schema())
                &&& batch.num_rows > 0
            },
            WriterStateV::Committing { metadata, version_token, candidate, new_snapshot_id } => {
                &&& metadata.wf()
                &&& candidate.wf()
                &&& candidate.snapshots.len() > 0
                &&& candidate.snapshots.last().parent_snapshot_id == metadata.current_snapshot_id
                &&& candidate.current_snapshot_id == Some(new_snapshot_id)
                &&& new_snapshot_id == candidate.snapshots.last().snapshot_id
            },
            WriterStateV::Done { outcome } => true,
            WriterStateV::Failed { error } => true,
        }
    }
}

/// One ingest attempt: the caller's batch, the configuration, the retry
/// counters, and the protocol state.
#[derive(Debug)]
pub struct IngestTask {
    pub records: RecordBatch,
    pub config: IngestConfig,
    pub conflict_retries: u64,
    pub stage_attempts: u64,
    pub state: WriterState,
}

impl View for IngestTask {
    type V = IngestTaskV;

    open spec fn view(&self) -> IngestTaskV {
        IngestTaskV {
            records: self.records@,
            config: self.config,
            conflict_retries: self.conflict_retries,
            stage_attempts: self.stage_attempts,
            state: self.state@,
        }
    }
}

impl IngestTask {
    /// Begins an ingest attempt: the task waits for the catalog to resolve
    /// the identifier.
    pub fn start(records: RecordBatch, config: IngestConfig) -> (t: IngestTask)
        requires
            records@.wf(),
        ensures
            t@.records == records@,
            t@.config == config,
            t@.conflict_retries == 0,
            t@.stage_attempts == 0,
            t@.state == WriterStateV::Loading,
            t@.wf(),
    {
        IngestTask {
            records,
            config,
            conflict_retries: 0,
            stage_attempts: 0,
            state: WriterState::Loading,
        }
    }

    /// The catalog could not resolve the identifier: terminal failure, since
    /// neither outcome is a concurrency conflict.
    pub fn on_load_failed(self, error: CatalogError) -> (t: IngestTask)
        requires
            self@.wf(),
            self@.state is Loading,
        ensures
            t@.records == self@.records,
            t@.config == self@.config,
            t@.conflict_retries == self@.conflict_retries,
            t@.stage_attempts == self@.stage_attempts,
            error == CatalogError::NotFound
                ==> t@.state == (WriterStateV::Failed { error: IngestErrorV::NotFound }),
            error == CatalogError::CatalogUnavailable
                ==> t@.state == (WriterStateV::Failed { error: IngestErrorV::CatalogUnavailable }),
            t@.wf(),
    {
        let e = match error {
            CatalogError::NotFound => IngestError::NotFound,
            CatalogError::CatalogUnavailable => IngestError::CatalogUnavailable,
        };
        IngestTask { state: WriterState::Failed { error: e }, ..self }
    }

    /// The catalog resolved the identifier: reconcile the batch against the
    /// loaded metadata's current schema.  A schema mismatch is terminal; a
    /// reconciled batch of zero rows ends the attempt as a no-op without ever
    /// creating a snapshot; otherwise the attempt proceeds to staging.
    pub fn on_loaded(self, metadata: TableMetadata, version_token: u64) -> (t: IngestTask)
        requires
            self@.wf(),
            self@.state is Loading,
            metadata@.wf(),
        ensures
            t@.records == self@.records,
            t@.config == self@.config,
            t@.conflict_retries == self@.conflict_retries,
            t@.stage_attempts == self@.stage_attempts,
            !all_fields_ok(self@.records.columns, metadata@.current_schema().fields) ==> {
                &&& t@.state matches WriterStateV::Failed { error }
                &&& error matches IngestErrorV::Schema(se)
                &&& reconcile_error(self@.records.columns, metadata@.current_schema().fields, se)
            },
            all_fields_ok(self@.records.columns, metadata@.current_schema().fields)
                && self@.records.num_rows == 0
                ==> t@.state == (WriterStateV::Done { outcome: IngestOutcome::NoOp }),
            all_fields_ok(self@.records.columns, metadata@.current_schema().fields)
                && self@.records.num_rows > 0
                ==> t@.state == (WriterStateV::Staging {
                    metadata: metadata@,
                    version_token,
                    batch: reconciled_batch(self@.records, metadata@.current_schema()),
                }),
            t@.wf(),
    {
        let IngestTask { records, config, conflict_retries, stage_attempts, state: _ } = self;
        let r = reconcile(&records, metadata.current_schema());
        match r {
            Err(e) => IngestTask {
                records,
                config,
                conflict_retries,
                stage_attempts,
                state: WriterState::Failed { error: IngestError::Schema(e) },
            },
            Ok(batch) => {
                if batch.num_rows() == 0 {
                    IngestTask {
                        records,
                        config,
                        conflict_retries,
                        stage_attempts,
                        state: WriterState::Done { outcome: IngestOutcome::NoOp },
                    }
                } else {
                    IngestTask {
                        records,
                        config,
                        conflict_retries,
                        stage_attempts,
                        state: WriterState::Staging { metadata, version_token, batch },
                    }
                }
            },
        }
    }

    /// Staging failed once more.  Transient: the attempt stays in `Staging`
    /// until the attempt bound is used up, then fails with `StagingError`.
    pub fn on_stage_failed(self) -> (t: IngestTask)
        requires
            self@.wf(),
            self@.state is Staging,
        ensures
            t@.records == self@.records,
            t@.config == self@.config,
            t@.conflict_retries == self@.conflict_retries,
            self@.stage_attempts + 1 < MAX_STAGE_ATTEMPTS ==> {
                &&& t@.state == self@.state
                &&& t@.stage_attempts == self@.stage_attempts + 1
            },
            self@.stage_attempts + 1 >= MAX_STAGE_ATTEMPTS ==> {
                &&& t@.state == (WriterStateV::Failed { error: IngestErrorV::StagingError })
                &&& t@.stage_attempts == self@.stage_attempts
            },
            t@.wf(),
    {
        if self.stage_attempts + 1 < MAX_STAGE_ATTEMPTS {
            IngestTask { stage_attempts: self.stage_attempts + 1, ..self }
        } else {
            IngestTask { state: WriterState::Failed { error: IngestError::StagingError }, ..self }
        }
    }

    /// The storage layer staged the reconciled batch into the given files:
    /// build the candidate metadata.  The candidate appends one snapshot
    /// whose parent is the loaded metadata's current snapshot and whose id is
    /// the next id of that metadata.
    pub fn on_staged(self, files: Vec<DataFile>, timestamp_ms: i64) -> (t: IngestTask)
        requires
            self@.wf(),
            self@.state is Staging,
            self@.state matches WriterStateV::Staging { metadata, .. } ==> metadata.counters_ok(),
        ensures
            t@.records == self@.records,
            t@.config == self@.config,
            t@.conflict_retries == self@.conflict_retries,
            t@.stage_attempts == self@.stage_attempts,
            self@.state matches WriterStateV::Staging { metadata, version_token, batch }
                ==> t@.state == (WriterStateV::Committing {
                    metadata,
                    version_token,
                    candidate: append_snapshot_spec(metadata, files_view(files@), None, timestamp_ms),
                    new_snapshot_id: metadata.next_snapshot_id() as u64,
                }),
            t@.wf(),
    {
        let IngestTask { records, config, conflict_retries, stage_attempts, state } = self;
        match state {
            WriterState::Staging { metadata, version_token, batch: _ } => {
                let new_snapshot_id = metadata.next_snapshot_id();
                let candidate = metadata.append_snapshot(files, None, timestamp_ms);
                proof {
                    lemma_append_snapshot_wf(metadata@, files_view(files@), None, timestamp_ms);
                }
                IngestTask {
                    records,
                    config,
                    conflict_retries,
                    stage_attempts,
                    state: WriterState::Committing {
                        metadata,
                        version_token,
                        candidate,
                        new_snapshot_id,
                    },
                }
            },
            _ => vstd::pervasive::unreached(),
        }
    }

    /// The conditional write succeeded: terminal success with the committed
    /// snapshot id.
    pub fn on_commit_ok(self) -> (t: IngestTask)
        requires
            self@.wf(),
            self@.state is Committing,
        ensures
            t@.records == self@.records,
            t@.config == self@.config,
            t@.conflict_retries == self@.conflict_retries,
            t@.stage_attempts == self@.stage_attempts,
            self@.state matches WriterStateV::Committing { new_snapshot_id, .. }
                ==> t@.state == (WriterStateV::Done {
                    outcome: IngestOutcome::Committed(new_snapshot_id),
                }),
            t@.wf(),
    {
        let IngestTask { records, config, conflict_retries, stage_attempts, state } = self;
        match state {
            WriterState::Committing { new_snapshot_id, .. } => IngestTask {
                records,
                config,
                conflict_retries,
                stage_attempts,
                state: WriterState::Done {
                    outcome: IngestOutcome::Committed(new_snapshot_id),
                },
            },
            _ => vstd::pervasive::unreached(),
        }
    }

    /// The pointer moved — another writer committed first.  If retries
    /// remain the attempt goes back to `Loading`, to reload the metadata,
    /// re-reconcile against the possibly changed schema, and rebuild the
    /// candidate on the new current snapshot; otherwise it is exhausted.
    pub fn on_commit_conflict(self) -> (t: IngestTask)
        requires
            self@.wf(),
            self@.state is Committing,
        ensures
            t@.records == self@.records,
            t@.config == self@.config,
            self@.conflict_retries < self@.config.max_commit_retries ==> {
                &&& t@.state == WriterStateV::Loading
                &&& t@.conflict_retries == self@.conflict_retries + 1
                &&& t@.stage_attempts == 0
            },
            self@.conflict_retries >= self@.config.max_commit_retries ==> {
                &&& (self@.state matches WriterStateV::Committing { metadata, .. }
                    ==> t@.state == (WriterStateV::Failed {
                        error: IngestErrorV::ConflictExhausted {
                            last_snapshot_id: metadata.current_snapshot_id,
                            last_schema_version: metadata.current_schema_version,
                        },
                    }))
                &&& t@.conflict_retries == self@.conflict_retries
                &&& t@.stage_attempts == self@.stage_attempts
            },
            t@.wf(),
    {
        let IngestTask { records, config, conflict_retries, stage_attempts, state } = self;
        match state {
            WriterState::Committing { metadata, version_token: _, candidate: _, new_snapshot_id: _ } => {
                if conflict_retries < config.max_commit_retries {
                    IngestTask {
                        records,
                        config,
                        conflict_retries: conflict_retries + 1,
                        stage_attempts: 0,
                        state: WriterState::Loading,
                    }
                } else {
                    IngestTask {
                        records,
                        config,
                        conflict_retries,
                        stage_attempts,
                        state: WriterState::Failed {
                            error: IngestError::ConflictExhausted {
                                last_snapshot_id: metadata.current_snapshot_id,
                                last_schema_version: metadata.current_schema_version,
                            },
                        },
                    }
                }
            },
            _ => vstd::pervasive::unreached(),
        }
    }

    /// Hands the candidate to the catalog's conditional write: success
    /// commits the candidate and ends the attempt; a moved pointer costs one
    /// conflict retry (or exhausts the attempt); an entry that vanished is
    /// terminal.
    pub fn attempt_commit(self, catalog: &mut Catalog, identifier: &Identifier) -> (t: IngestTask)
        requires
            self@.wf(),
            self@.state is Committing,
            old(catalog).wf(),
            versions_ok(old(catalog)@),
        ensures
            t@.records == self@.records,
            t@.config == self@.config,
            final(catalog).wf(),
            final(catalog)@.len() == old(catalog)@.len(),
            self@.state matches WriterStateV::Committing { metadata, version_token, candidate, new_snapshot_id } ==> {
                &&& (!has_entry(old(catalog)@, identifier@) ==> {
                    &&& t@.state == (WriterStateV::Failed { error: IngestErrorV::NotFound })
                    &&& final(catalog)@ == old(catalog)@
                })
                &&& forall|i: int|
                    (0 <= i < old(catalog)@.len()
                        && (#[trigger] old(catalog)@[i]).identifier == identifier@) ==> {
                    &&& (old(catalog)@[i].version == version_token ==> {
                        &&& t@.state == (WriterStateV::Done {
                            outcome: IngestOutcome::Committed(new_snapshot_id),
                        })
                        &&& final(catalog)@ == old(catalog)@.update(i, CatalogEntryV {
                            identifier: old(catalog)@[i].identifier,
                            metadata: candidate,
                            version: (old(catalog)@[i].version + 1) as u64,
                        })
                    })
                    &&& (old(catalog)@[i].version != version_token ==> {
                        &&& final(catalog)@ == old(catalog)@
                        &&& (self@.conflict_retries < self@.config.max_commit_retries ==> {
                            &&& t@.state == WriterStateV::Loading
                            &&& t@.conflict_retries == self@.conflict_retries + 1
                        })
                        &&& (self@.conflict_retries >= self@.config.max_commit_retries
                            ==> t@.state == (WriterStateV::Failed {
                                error: IngestErrorV::ConflictExhausted {
                                    last_snapshot_id: metadata.current_snapshot_id,
                                    last_schema_version: metadata.current_schema_version,
                                },
                            }))
                    })
                }
            },
            t@.wf(),
    {
        let IngestTask { records, config, conflict_retries, stage_attempts, state } = self;
        match state {
            WriterState::Committing { metadata, version_token, candidate, new_snapshot_id } => {
                let answer = catalog.commit(identifier, version_token, candidate);
                match answer {
                    Ok(()) => IngestTask {
                        records,
                        config,
                        conflict_retries,
                        stage_attempts,
                        state: WriterState::Done {
                            outcome: IngestOutcome::Committed(new_snapshot_id),
                        },
                    },
                    Err(CommitError::NotFound) => IngestTask {
                        records,
                        config,
                        conflict_retries,
                        stage_attempts,
                        state: WriterState::Failed { error: IngestError::NotFound },
                    },
                    Err(CommitError::CommitConflict) => {
                        if conflict_retries < config.max_commit_retries {
                            IngestTask {
                                records,
                                config,
                                conflict_retries: conflict_retries + 1,
                                stage_attempts: 0,
                                state: WriterState::Loading,
                            }
                        } else {
                            IngestTask {
                                records,
                                config,
                                conflict_retries,
                                stage_attempts,
                                state: WriterState::Failed {
                                    error: IngestError::ConflictExhausted {
                                        last_snapshot_id: metadata.current_snapshot_id,
                                        last_schema_version: metadata.current_schema_version,
                                    },
                                },
                            }
                        }
                    },
                }
            },
            _ => vstd::pervasive::unreached(),
        }
    }
}

/// After a `CommitConflict` the writer rebuilds its candidate from freshly
/// reloaded metadata: the retried candidate's parent snapshot id equals the
/// new current snapshot id, never the stale one it loaded before the
/// conflict.
pub proof fn lemma_retry_parent_is_fresh(
    stale: TableMetadataV,
    fresh: TableMetadataV,
    files: Seq<DataFileV>,
    timestamp_ms: i64,
)
    requires
        fresh.wf(),
        fresh.counters_ok(),
    ensures
        append_snapshot_spec(fresh, files, None, timestamp_ms).snapshots.last().parent_snapshot_id
            == fresh.current_snapshot_id,
        stale.current_snapshot_id != fresh.current_snapshot_id
            ==> append_snapshot_spec(fresh, files, None, timestamp_ms).snapshots.last()
                .parent_snapshot_id != stale.current_snapshot_id,
{
    lemma_append_snapshot_wf(fresh, files, None, timestamp_ms);
}

/// The whole ingestion path against a catalog this writer holds exclusively:
/// load, reconcile, stage one data file, build the candidate, and commit.
///
/// The caller supplies what the out-of-scope collaborators would produce:
/// the storage layer's path and byte size for the staged file, and the
/// clock's commit timestamp.  Because the catalog is held exclusively for the
/// duration of the call, its conditional write cannot observe a moved
/// pointer, so the conflict-retry budget in `config` is never drawn on here;
/// runtimes whose writers share a catalog drive the [`IngestTask`] protocol
/// and spend that budget through [`IngestTask::on_commit_conflict`].
#[allow(unused_variables)]
pub fn ingest(
    catalog: &mut Catalog,
    identifier: &Identifier,
    records: &RecordBatch,
    config: IngestConfig,
    file_path: String,
    file_byte_size: u64,
    timestamp_ms: i64,
) -> (r: Result<IngestOutcome, IngestError>)
    requires
        old(catalog).wf(),
        versions_ok(old(catalog)@),
        table_counters_ok(old(catalog)@),
        records@.wf(),
    ensures
        final(catalog).wf(),
        final(catalog)@.len() == old(catalog)@.len(),
        !has_entry(old(catalog)@, identifier@) ==> {
            &&& r == Err::<IngestOutcome, IngestError>(IngestError::NotFound)
            &&& final(catalog)@ == old(catalog)@
        },
        r is Err ==> final(catalog)@ == old(catalog)@,
        r == Ok::<IngestOutcome, IngestError>(IngestOutcome::NoOp)
            ==> final(catalog)@ == old(catalog)@,
        forall|i: int|
            (0 <= i < old(catalog)@.len()
                && (#[trigger] old(catalog)@[i]).identifier == identifier@) ==> {
            let m = old(catalog)@[i].metadata;
            let fields = m.current_schema().fields;
            &&& (!all_fields_ok(records@.columns, fields) ==> {
                &&& r matches Err(e)
                &&& e matches IngestError::Schema(se)
                &&& reconcile_error(records@.columns, fields, se@)
            })
            &&& (all_fields_ok(records@.columns, fields) && records@.num_rows == 0
                ==> r == Ok::<IngestOutcome, IngestError>(IngestOutcome::NoOp))
            &&& (all_fields_ok(records@.columns, fields) && records@.num_rows > 0 ==> {
                &&& r == Ok::<IngestOutcome, IngestError>(IngestOutcome::Committed(
                    m.next_snapshot_id() as u64,
                ))
                &&& final(catalog)@ == old(catalog)@.update(i, CatalogEntryV {
                    identifier: old(catalog)@[i].identifier,
                    metadata: append_snapshot_spec(
                        m,
                        seq![DataFileV {
                            path: file_path@,
                            row_count: records@.num_rows as u64,
                            byte_size: file_byte_size,
                        }],
                        None,
                        timestamp_ms,
                    ),
                    version: (old(catalog)@[i].version + 1) as u64,
                })
            })
        },
{
    let loaded = catalog.load(identifier);
    match loaded {
        Err(_) => Err(IngestError::NotFound),
        Ok((metadata, version_token)) => {
            let ghost li = choose|i: int| {
                &&& 0 <= i < catalog@.len()
                &&& (#[trigger] catalog@[i]).identifier == identifier@
                &&& metadata@ == catalog@[i].metadata
                &&& version_token == catalog@[i].version
            };
            proof {
                assert forall|i: int|
                    0 <= i < catalog@.len() && (#[trigger] catalog@[i]).identifier == identifier@
                    implies i == li
                by {
                    if i != li {
                        assert(catalog@[i].identifier != catalog@[li].identifier);
                    }
                }
                assert(catalog@[li].metadata.counters_ok());
            }
            match reconcile(records, metadata.current_schema()) {
                Err(e) => Err(IngestError::Schema(e)),
                Ok(batch) => {
                    if batch.num_rows() == 0 {
                        Ok(IngestOutcome::NoOp)
                    } else {
                        let new_id = metadata.next_snapshot_id();
                        let df = DataFile {
                            path: file_path,
                            row_count: batch.num_rows() as u64,
                            byte_size: file_byte_size,
                        };
                        let mut files: Vec<DataFile> = Vec::new();
                        files.push(df);
                        proof {
                            assert(files_view(files@) =~= seq![DataFileV {
                                path: file_path@,
                                row_count: records@.num_rows as u64,
                                byte_size: file_byte_size,
                            }]);
                        }
                        let candidate = metadata.append_snapshot(files, None, timestamp_ms);
                        match catalog.commit(identifier, version_token, candidate) {
                            Ok(()) => Ok(IngestOutcome::Committed(new_id)),
                            Err(_) => {
                                proof {
                                    assert(false);
                                }
                                vstd::pervasive::unreached()
                            },
                        }
                    }
                },
            }
        },
    }
}

} // verus!
