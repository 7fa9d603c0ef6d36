use table_ingest::catalog::{Catalog, CatalogError, CommitError};
use table_ingest::ident::Identifier;
use table_ingest::schema::{Field, FieldType, Schema};
use table_ingest::table::{DataFile, TableMetadata};

fn schema() -> Schema {
    Schema::try_new(vec![
        Field::new("id".to_string(), FieldType::Utf8, false),
        Field::new("value".to_string(), FieldType::Float64, true),
    ])
    .unwrap()
}

fn ident(name: &str) -> Identifier {
    Identifier::try_new(vec!["sensors".to_string()], name.to_string()).unwrap()
}

fn file(path: &str, rows: u64) -> DataFile {
    DataFile { path: path.to_string(), row_count: rows, byte_size: 64 * rows }
}

#[test]
fn identifier_rejects_empty_parts() {
    assert!(Identifier::try_new(vec![], "t".to_string()).is_none());
    assert!(Identifier::try_new(vec!["ns".to_string()], "".to_string()).is_none());
    assert!(Identifier::try_new(vec!["ns".to_string()], "t".to_string()).is_some());
}

#[test]
fn identifier_accessors_and_equality() {
    let id = Identifier::try_new(vec!["a".to_string(), "b".to_string()], "t".to_string()).unwrap();
    assert_eq!(id.name().as_str(), "t");
    assert_eq!(id.namespace().len(), 2);
    assert_eq!(id.namespace()[1].as_str(), "b");
    assert!(id.same_as(&id.duplicate()));
    let other = Identifier::try_new(vec!["a".to_string()], "t".to_string()).unwrap();
    assert!(!id.same_as(&other));
}

#[test]
fn append_snapshot_mints_monotonic_ids_and_parents() {
    let m0 = TableMetadata::new_empty(schema());
    assert!(m0.current_snapshot().is_none());
    let m1 = m0.append_snapshot(vec![file("f1", 10)], None, 1000);
    let m2 = m1.append_snapshot(vec![file("f2", 20)], None, 2000);
    // The receiver is never mutated: m1 still points at snapshot 1.
    assert_eq!(m1.current_snapshot().unwrap().snapshot_id, 1);
    assert_eq!(m1.current_snapshot().unwrap().parent_snapshot_id, None);
    let s2 = m2.current_snapshot().unwrap();
    assert_eq!(s2.snapshot_id, 2);
    assert_eq!(s2.parent_snapshot_id, Some(1));
    assert_eq!(s2.timestamp_ms, 2000);
    assert_eq!(s2.data_files.len(), 1);
    assert_eq!(s2.data_files[0], file("f2", 20));
    assert_eq!(m2.metadata_version, 2);
}

#[test]
fn load_unknown_identifier_is_not_found() {
    let catalog = Catalog::new();
    match catalog.load(&ident("nope")) {
        Err(CatalogError::NotFound) => {},
        other => panic!("expected NotFound, got {:?}", other),
    }
}

#[test]
fn register_load_round_trip() {
    let mut catalog = Catalog::new();
    assert!(catalog.try_register(ident("t"), TableMetadata::new_empty(schema())));
    // A second registration under the same identifier is refused.
    assert!(!catalog.try_register(ident("t"), TableMetadata::new_empty(schema())));
    let (m, tok) = catalog.load(&ident("t")).unwrap();
    assert_eq!(tok, 0);
    assert!(m.current_snapshot().is_none());
    assert_eq!(m.current_schema().fields.len(), 2);
}

#[test]
fn commit_with_current_token_succeeds_and_bumps_version() {
    let mut catalog = Catalog::new();
    catalog.try_register(ident("t"), TableMetadata::new_empty(schema()));
    let (m, tok) = catalog.load(&ident("t")).unwrap();
    let candidate = m.append_snapshot(vec![file("f1", 5)], None, 10);
    catalog.commit(&ident("t"), tok, candidate).unwrap();
    let (m2, tok2) = catalog.load(&ident("t")).unwrap();
    assert_eq!(tok2, 1);
    assert_eq!(m2.current_snapshot().unwrap().snapshot_id, 1);
}

#[test]
fn commit_with_stale_token_conflicts_and_changes_nothing() {
    let mut catalog = Catalog::new();
    catalog.try_register(ident("t"), TableMetadata::new_empty(schema()));
    let (m, tok) = catalog.load(&ident("t")).unwrap();
    let winner = m.append_snapshot(vec![file("a", 1)], None, 1);
    catalog.commit(&ident("t"), tok, winner).unwrap();
    // A second writer still holding the old token loses the race.
    let loser = m.append_snapshot(vec![file("b", 2)], None, 2);
    match catalog.commit(&ident("t"), tok, loser) {
        Err(CommitError::CommitConflict) => {},
        other => panic!("expected CommitConflict, got {:?}", other),
    }
    let (m2, tok2) = catalog.load(&ident("t")).unwrap();
    assert_eq!(tok2, 1);
    let s = m2.current_snapshot().unwrap();
    assert_eq!(s.snapshot_id, 1);
    assert_eq!(s.data_files[0].path, "a");
}

#[test]
fn commit_unknown_identifier_is_not_found() {
    let mut catalog = Catalog::new();
    let m = TableMetadata::new_empty(schema());
    let candidate = m.append_snapshot(vec![], None, 0);
    match catalog.commit(&ident("ghost"), 0, candidate) {
        Err(CommitError::NotFound) => {},
        other => panic!("expected NotFound, got {:?}", other),
    }
}
