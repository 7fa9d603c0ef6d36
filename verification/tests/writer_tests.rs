use table_ingest::batch::{Column, RecordBatch, Value};
use table_ingest::catalog::{Catalog, CatalogError};
use table_ingest::ident::Identifier;
use table_ingest::schema::{Field, FieldType, Schema, SchemaError};
use table_ingest::table::{DataFile, TableMetadata};
use table_ingest::writer::{
    ingest, IngestConfig, IngestError, IngestOutcome, IngestTask, WriterState,
};

fn schema() -> Schema {
    Schema::try_new(vec![
        Field::new("id".to_string(), FieldType::Utf8, false),
        Field::new("value".to_string(), FieldType::Float64, true),
    ])
    .unwrap()
}

fn ident(name: &str) -> Identifier {
    Identifier::try_new(vec!["sensors".to_string()], name.to_string()).unwrap()
}

/// A batch with rows [{id:"a", value:1.5}, {id:"b"}].
fn two_row_batch() -> RecordBatch {
    RecordBatch::try_new(
        vec![
            Column::new(
                "id".to_string(),
                FieldType::Utf8,
                vec![Value::Str("a".to_string()), Value::Str("b".to_string())],
            ),
            Column::new(
                "value".to_string(),
                FieldType::Float64,
                vec![Value::Float(1.5f64.to_bits()), Value::Null],
            ),
        ],
        2,
    )
    .unwrap()
}

/// A catalog holding one table whose current snapshot id is `n`.
fn catalog_at_snapshot(n: u64, name: &str) -> Catalog {
    let mut m = TableMetadata::new_empty(schema());
    for k in 0..n {
        m = m.append_snapshot(vec![], None, k as i64);
    }
    let mut catalog = Catalog::new();
    assert!(catalog.try_register(ident(name), m));
    catalog
}

fn config() -> IngestConfig {
    IngestConfig::default()
}

#[test]
fn ingest_two_rows_commits_next_snapshot() {
    // Current snapshot id 3; the batch [{id:"a", value:1.5}, {id:"b"}]
    // commits snapshot 4 with parent 3.
    let mut catalog = catalog_at_snapshot(3, "t");
    let outcome = ingest(
        &mut catalog,
        &ident("t"),
        &two_row_batch(),
        config(),
        "data-4".to_string(),
        128,
        999,
    )
    .unwrap();
    assert_eq!(outcome, IngestOutcome::Committed(4));
    let (m, tok) = catalog.load(&ident("t")).unwrap();
    assert_eq!(tok, 1);
    let s = m.current_snapshot().unwrap();
    assert_eq!(s.snapshot_id, 4);
    assert_eq!(s.parent_snapshot_id, Some(3));
    assert_eq!(s.timestamp_ms, 999);
    assert_eq!(s.data_files.len(), 1);
    assert_eq!(s.data_files[0], DataFile {
        path: "data-4".to_string(),
        row_count: 2,
        byte_size: 128,
    });
}

#[test]
fn ingest_zero_rows_is_a_no_op() {
    let mut catalog = catalog_at_snapshot(2, "t");
    let empty = RecordBatch::try_new(
        vec![
            Column::new("id".to_string(), FieldType::Utf8, vec![]),
            Column::new("value".to_string(), FieldType::Float64, vec![]),
        ],
        0,
    )
    .unwrap();
    let outcome = ingest(
        &mut catalog,
        &ident("t"),
        &empty,
        config(),
        "data-x".to_string(),
        0,
        50,
    )
    .unwrap();
    assert_eq!(outcome, IngestOutcome::NoOp);
    // No new snapshot, no version bump.
    let (m, tok) = catalog.load(&ident("t")).unwrap();
    assert_eq!(tok, 0);
    assert_eq!(m.current_snapshot().unwrap().snapshot_id, 2);
}

#[test]
fn ingest_missing_required_field_changes_nothing() {
    let mut catalog = catalog_at_snapshot(1, "t");
    let batch = RecordBatch::try_new(
        vec![Column::new(
            "value".to_string(),
            FieldType::Float64,
            vec![Value::Float(2.5f64.to_bits())],
        )],
        1,
    )
    .unwrap();
    let err = ingest(
        &mut catalog,
        &ident("t"),
        &batch,
        config(),
        "data-x".to_string(),
        0,
        50,
    )
    .unwrap_err();
    match err {
        IngestError::Schema(SchemaError::MissingRequiredField(name)) => assert_eq!(name, "id"),
        other => panic!("expected MissingRequiredField, got {:?}", other),
    }
    // The catalog's current pointer is untouched.
    let (m, tok) = catalog.load(&ident("t")).unwrap();
    assert_eq!(tok, 0);
    assert_eq!(m.current_snapshot().unwrap().snapshot_id, 1);
}

#[test]
fn ingest_unknown_identifier_fails_not_found() {
    let mut catalog = catalog_at_snapshot(1, "t");
    let err = ingest(
        &mut catalog,
        &ident("other"),
        &two_row_batch(),
        config(),
        "data-x".to_string(),
        0,
        50,
    )
    .unwrap_err();
    assert!(matches!(err, IngestError::NotFound));
}

#[test]
fn two_writers_race_loser_retries_on_top_of_winner() {
    // Two writers load snapshot id 5 concurrently; writer A commits snapshot
    // 6; writer B conflicts, reloads, and commits snapshot 7 with parent 6 —
    // not parent 5.
    let mut catalog = catalog_at_snapshot(5, "t");
    let (m_a, tok_a) = catalog.load(&ident("t")).unwrap();
    let (m_b, tok_b) = catalog.load(&ident("t")).unwrap();

    let task_a = IngestTask::start(two_row_batch(), config()).on_loaded(m_a, tok_a);
    assert!(matches!(task_a.state, WriterState::Staging { .. }));
    let task_a = task_a
        .on_staged(vec![DataFile { path: "a-6".to_string(), row_count: 2, byte_size: 128 }], 100)
        .attempt_commit(&mut catalog, &ident("t"));
    match &task_a.state {
        WriterState::Done { outcome } => assert_eq!(*outcome, IngestOutcome::Committed(6)),
        other => panic!("writer A should have committed, got {:?}", other),
    }

    let task_b = IngestTask::start(two_row_batch(), config())
        .on_loaded(m_b, tok_b)
        .on_staged(vec![DataFile { path: "b-6".to_string(), row_count: 2, byte_size: 128 }], 101)
        .attempt_commit(&mut catalog, &ident("t"));
    assert!(matches!(task_b.state, WriterState::Loading));
    assert_eq!(task_b.conflict_retries, 1);

    let (m_b2, tok_b2) = catalog.load(&ident("t")).unwrap();
    let task_b = task_b
        .on_loaded(m_b2, tok_b2)
        .on_staged(vec![DataFile { path: "b-7".to_string(), row_count: 2, byte_size: 128 }], 102)
        .attempt_commit(&mut catalog, &ident("t"));
    match &task_b.state {
        WriterState::Done { outcome } => assert_eq!(*outcome, IngestOutcome::Committed(7)),
        other => panic!("writer B should have committed on retry, got {:?}", other),
    }

    let (m_final, _) = catalog.load(&ident("t")).unwrap();
    let s7 = m_final.current_snapshot().unwrap();
    assert_eq!(s7.snapshot_id, 7);
    assert_eq!(s7.parent_snapshot_id, Some(6));
    assert_eq!(s7.data_files[0].path, "b-7");
}

#[test]
fn conflict_with_no_retries_left_is_exhausted() {
    let mut catalog = catalog_at_snapshot(1, "t");
    let (m_a, tok_a) = catalog.load(&ident("t")).unwrap();
    let (m_b, tok_b) = catalog.load(&ident("t")).unwrap();
    let zero_retries = IngestConfig { max_commit_retries: 0, allow_schema_widening: false };

    let task_a = IngestTask::start(two_row_batch(), zero_retries)
        .on_loaded(m_a, tok_a)
        .on_staged(vec![DataFile { path: "a".to_string(), row_count: 2, byte_size: 1 }], 1)
        .attempt_commit(&mut catalog, &ident("t"));
    assert!(matches!(task_a.state, WriterState::Done { .. }));

    let task_b = IngestTask::start(two_row_batch(), zero_retries)
        .on_loaded(m_b, tok_b)
        .on_staged(vec![DataFile { path: "b".to_string(), row_count: 2, byte_size: 1 }], 2)
        .attempt_commit(&mut catalog, &ident("t"));
    match &task_b.state {
        WriterState::Failed {
            error: IngestError::ConflictExhausted { last_snapshot_id, last_schema_version },
        } => {
            // The last-seen state is what writer B loaded before losing.
            assert_eq!(*last_snapshot_id, Some(1));
            assert_eq!(*last_schema_version, 0);
        },
        other => panic!("expected ConflictExhausted, got {:?}", other),
    }
}

#[test]
fn default_config_values() {
    let c = IngestConfig::default();
    assert_eq!(c.max_commit_retries, 3);
    assert!(!c.allow_schema_widening);
}

#[test]
fn retry_reconciles_against_concurrently_evolved_schema() {
    // The table knows two schema versions; version 0 (id only) is current.
    let v0 = Schema::try_new(vec![Field::new("id".to_string(), FieldType::Utf8, false)]).unwrap();
    let m = TableMetadata {
        schemas: vec![v0, schema()],
        current_schema_version: 0,
        snapshots: vec![],
        current_snapshot_id: None,
        metadata_version: 0,
    };
    let mut catalog = Catalog::new();
    assert!(catalog.try_register(ident("t"), m));

    // Writer B loads while version 0 is still current.
    let (m_b, tok_b) = catalog.load(&ident("t")).unwrap();

    // Writer A commits first and evolves the schema to version 1.
    let (m_a, tok_a) = catalog.load(&ident("t")).unwrap();
    let evolved = m_a.append_snapshot(
        vec![DataFile { path: "a-1".to_string(), row_count: 0, byte_size: 0 }],
        Some(1),
        10,
    );
    catalog.commit(&ident("t"), tok_a, evolved).unwrap();

    // B's batch has only the id column; against the evolved schema the
    // nullable value field is filled with nulls on the retry.
    let id_only = RecordBatch::try_new(
        vec![Column::new(
            "id".to_string(),
            FieldType::Utf8,
            vec![Value::Str("a".to_string())],
        )],
        1,
    )
    .unwrap();
    let task_b = IngestTask::start(id_only, config())
        .on_loaded(m_b, tok_b)
        .on_staged(vec![DataFile { path: "b-1".to_string(), row_count: 1, byte_size: 8 }], 11)
        .attempt_commit(&mut catalog, &ident("t"));
    assert!(matches!(task_b.state, WriterState::Loading));

    let (m_b2, tok_b2) = catalog.load(&ident("t")).unwrap();
    assert_eq!(m_b2.current_schema().fields.len(), 2);
    let task_b = task_b
        .on_loaded(m_b2, tok_b2)
        .on_staged(vec![DataFile { path: "b-2".to_string(), row_count: 1, byte_size: 8 }], 12)
        .attempt_commit(&mut catalog, &ident("t"));
    match &task_b.state {
        WriterState::Done { outcome } => assert_eq!(*outcome, IngestOutcome::Committed(2)),
        other => panic!("writer B should have committed on retry, got {:?}", other),
    }
    let (m_final, _) = catalog.load(&ident("t")).unwrap();
    assert_eq!(m_final.current_schema_version, 1);
    let s = m_final.current_snapshot().unwrap();
    assert_eq!(s.snapshot_id, 2);
    assert_eq!(s.parent_snapshot_id, Some(1));
    assert_eq!(s.schema_version, 1);
}

#[test]
fn load_failure_events_are_terminal() {
    let unavailable = IngestTask::start(two_row_batch(), config())
        .on_load_failed(CatalogError::CatalogUnavailable);
    match &unavailable.state {
        WriterState::Failed { error } => {
            assert!(matches!(error, IngestError::CatalogUnavailable))
        },
        other => panic!("expected CatalogUnavailable, got {:?}", other),
    }
    let not_found =
        IngestTask::start(two_row_batch(), config()).on_load_failed(CatalogError::NotFound);
    match &not_found.state {
        WriterState::Failed { error } => assert!(matches!(error, IngestError::NotFound)),
        other => panic!("expected NotFound, got {:?}", other),
    }
}

#[test]
fn staging_failures_exhaust_after_the_attempt_bound() {
    let mut catalog = catalog_at_snapshot(1, "t");
    let (m, tok) = catalog.load(&ident("t")).unwrap();
    let task = IngestTask::start(two_row_batch(), config()).on_loaded(m, tok);
    // Attempt bound is 3: two more failures keep staging, the third is fatal.
    let task = task.on_stage_failed();
    assert!(matches!(task.state, WriterState::Staging { .. }));
    assert_eq!(task.stage_attempts, 1);
    let task = task.on_stage_failed();
    assert!(matches!(task.state, WriterState::Staging { .. }));
    let task = task.on_stage_failed();
    match &task.state {
        WriterState::Failed { error } => assert!(matches!(error, IngestError::StagingError)),
        other => panic!("expected StagingError, got {:?}", other),
    }
}

#[test]
fn zero_row_reconciliation_ends_as_no_op_before_staging() {
    let mut catalog = catalog_at_snapshot(4, "t");
    let empty = RecordBatch::try_new(
        vec![Column::new("id".to_string(), FieldType::Utf8, vec![])],
        0,
    )
    .unwrap();
    let (m, tok) = catalog.load(&ident("t")).unwrap();
    let task = IngestTask::start(empty, config()).on_loaded(m, tok);
    match &task.state {
        WriterState::Done { outcome } => assert_eq!(*outcome, IngestOutcome::NoOp),
        other => panic!("expected NoOp, got {:?}", other),
    }
}
