use table_ingest::batch::{Column, RecordBatch, Value};
use table_ingest::reconcile::reconcile;
use table_ingest::schema::{Field, FieldType, Schema, SchemaError};

fn target_schema() -> Schema {
    Schema::try_new(vec![
        Field::new("id".to_string(), FieldType::Utf8, false),
        Field::new("value".to_string(), FieldType::Float64, true),
    ])
    .unwrap()
}

fn str_col(name: &str, vals: &[&str]) -> Column {
    Column::new(
        name.to_string(),
        FieldType::Utf8,
        vals.iter().map(|s| Value::Str(s.to_string())).collect(),
    )
}

#[test]
fn superset_batch_drops_extras_and_keeps_target_order() {
    // Input carries an extra column and lists its columns in a different
    // order than the target schema.
    let batch = RecordBatch::try_new(
        vec![
            Column::new(
                "value".to_string(),
                FieldType::Float64,
                vec![Value::Float(1.0f64.to_bits()), Value::Float(2.0f64.to_bits())],
            ),
            str_col("extra", &["x", "y"]),
            str_col("id", &["a", "b"]),
        ],
        2,
    )
    .unwrap();
    let out = reconcile(&batch, &target_schema()).unwrap();
    assert_eq!(out.num_columns(), 2);
    assert_eq!(out.num_rows(), 2);
    assert_eq!(out.column_at(0).name, "id");
    assert_eq!(out.column_at(1).name, "value");
    assert_eq!(out.column_at(0).values[0], Value::Str("a".to_string()));
    assert_eq!(out.column_at(0).values[1], Value::Str("b".to_string()));
    assert_eq!(out.column_at(1).values[0], Value::Float(1.0f64.to_bits()));
}

#[test]
fn missing_nullable_field_fills_nulls() {
    let batch = RecordBatch::try_new(vec![str_col("id", &["a", "b", "c"])], 3).unwrap();
    let out = reconcile(&batch, &target_schema()).unwrap();
    assert_eq!(out.num_columns(), 2);
    assert_eq!(out.column_at(1).name, "value");
    for k in 0..3 {
        assert_eq!(out.column_at(1).values[k], Value::Null);
    }
}

#[test]
fn missing_required_field_fails() {
    let batch = RecordBatch::try_new(
        vec![Column::new(
            "value".to_string(),
            FieldType::Float64,
            vec![Value::Float(1.5f64.to_bits())],
        )],
        1,
    )
    .unwrap();
    let err = reconcile(&batch, &target_schema()).unwrap_err();
    match err {
        SchemaError::MissingRequiredField(name) => assert_eq!(name, "id"),
        other => panic!("expected MissingRequiredField, got {:?}", other),
    }
}

#[test]
fn wrong_column_type_fails_incompatible() {
    let batch = RecordBatch::try_new(
        vec![
            Column::new(
                "id".to_string(),
                FieldType::Float64,
                vec![Value::Float(3.0f64.to_bits())],
            ),
            Column::new(
                "value".to_string(),
                FieldType::Float64,
                vec![Value::Float(4.0f64.to_bits())],
            ),
        ],
        1,
    )
    .unwrap();
    let err = reconcile(&batch, &target_schema()).unwrap_err();
    match err {
        SchemaError::IncompatibleType(name) => assert_eq!(name, "id"),
        other => panic!("expected IncompatibleType, got {:?}", other),
    }
}

#[test]
fn null_in_required_column_fails_incompatible() {
    let batch = RecordBatch::try_new(
        vec![Column::new(
            "id".to_string(),
            FieldType::Utf8,
            vec![Value::Str("a".to_string()), Value::Null],
        )],
        2,
    )
    .unwrap();
    let err = reconcile(&batch, &target_schema()).unwrap_err();
    match err {
        SchemaError::IncompatibleType(name) => assert_eq!(name, "id"),
        other => panic!("expected IncompatibleType, got {:?}", other),
    }
}

#[test]
fn null_in_nullable_column_is_kept() {
    let batch = RecordBatch::try_new(
        vec![
            str_col("id", &["a", "b"]),
            Column::new(
                "value".to_string(),
                FieldType::Float64,
                vec![Value::Float(1.5f64.to_bits()), Value::Null],
            ),
        ],
        2,
    )
    .unwrap();
    let out = reconcile(&batch, &target_schema()).unwrap();
    assert_eq!(out.column_at(1).values[0], Value::Float(1.5f64.to_bits()));
    assert_eq!(out.column_at(1).values[1], Value::Null);
}

#[test]
fn empty_batch_reconciles_to_empty_conformant_batch() {
    let batch = RecordBatch::try_new(vec![str_col("id", &[])], 0).unwrap();
    let out = reconcile(&batch, &target_schema()).unwrap();
    assert_eq!(out.num_rows(), 0);
    assert_eq!(out.num_columns(), 2);
    assert_eq!(out.column_at(0).name, "id");
    assert_eq!(out.column_at(1).name, "value");
}

#[test]
fn columnless_batch_fails_on_required_fields_only() {
    // A batch with no columns at all cannot satisfy a required field...
    let err = reconcile(&RecordBatch::empty(), &target_schema()).unwrap_err();
    assert!(matches!(err, SchemaError::MissingRequiredField(_)));
    // ...but reconciles cleanly against an all-nullable schema.
    let lenient = Schema::try_new(vec![
        Field::new("id".to_string(), FieldType::Utf8, true),
        Field::new("value".to_string(), FieldType::Float64, true),
    ])
    .unwrap();
    let out = reconcile(&RecordBatch::empty(), &lenient).unwrap();
    assert_eq!(out.num_rows(), 0);
    assert_eq!(out.num_columns(), 2);
}

#[test]
fn ragged_columns_are_rejected() {
    assert!(RecordBatch::try_new(vec![str_col("id", &["a", "b"])], 3).is_none());
}

#[test]
fn duplicate_schema_field_names_are_rejected() {
    let dup = Schema::try_new(vec![
        Field::new("id".to_string(), FieldType::Utf8, false),
        Field::new("id".to_string(), FieldType::Float64, true),
    ]);
    assert!(dup.is_none());
}
