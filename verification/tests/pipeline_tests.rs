use std::sync::Arc;

use arrow_array::{ArrayRef, Float64Array, Int32Array, RecordBatch, StringArray};
use arrow_ipc::writer::StreamWriter;
use arrow_schema::{DataType as ArrowDataType, Field as ArrowField, Schema as ArrowSchema};

use flight_ingest::decoder::{decode_stream, DecodeError};
use flight_ingest::processor::{DataProcessor, FramedMessage, IngestError};
use flight_ingest::schema::{schema_eq, DataTypeTag, Field, Schema};
use flight_ingest::validator::{SchemaValidator, ValidationError};

fn expected_arrow_schema() -> Arc<ArrowSchema> {
    Arc::new(ArrowSchema::new(vec![
        ArrowField::new("id", ArrowDataType::Int32, false),
        ArrowField::new("name", ArrowDataType::Utf8, false),
        ArrowField::new("amount", ArrowDataType::Float64, false),
    ]))
}

/// Serializes one columnar stream with the expected schema and one batch of
/// `rows` rows per entry of `batch_rows`.
fn valid_body(batch_rows: &[usize]) -> Vec<u8> {
    let schema = expected_arrow_schema();
    let mut buf: Vec<u8> = Vec::new();
    {
        let mut writer = StreamWriter::try_new(&mut buf, schema.as_ref()).unwrap();
        for rows in batch_rows {
            let ids: Vec<i32> = (0..*rows as i32).collect();
            let names: Vec<String> = (0..*rows).map(|i| format!("row{i}")).collect();
            let amounts: Vec<f64> = (0..*rows).map(|i| i as f64 * 1.5).collect();
            let batch = RecordBatch::try_new(
                schema.clone(),
                vec![
                    Arc::new(Int32Array::from(ids)) as ArrayRef,
                    Arc::new(StringArray::from(names)) as ArrayRef,
                    Arc::new(Float64Array::from(amounts)) as ArrayRef,
                ],
            )
            .unwrap();
            writer.write(&batch).unwrap();
        }
        writer.finish().unwrap();
    }
    buf
}

/// Serializes one columnar stream whose schema is missing the `amount`
/// field.
fn body_missing_amount() -> Vec<u8> {
    let schema = Arc::new(ArrowSchema::new(vec![
        ArrowField::new("id", ArrowDataType::Int32, false),
        ArrowField::new("name", ArrowDataType::Utf8, false),
    ]));
    let mut buf: Vec<u8> = Vec::new();
    {
        let mut writer = StreamWriter::try_new(&mut buf, schema.as_ref()).unwrap();
        let batch = RecordBatch::try_new(
            schema.clone(),
            vec![
                Arc::new(Int32Array::from(vec![1, 2])) as ArrayRef,
                Arc::new(StringArray::from(vec!["a", "b"])) as ArrayRef,
            ],
        )
        .unwrap();
        writer.write(&batch).unwrap();
        writer.finish().unwrap();
    }
    buf
}

fn message(header: Vec<u8>, body: Vec<u8>) -> FramedMessage {
    FramedMessage {
        data_header: header,
        data_body: body,
        app_metadata: Vec::new(),
        flight_descriptor: None,
    }
}

fn library_expected_schema() -> Schema {
    Schema {
        fields: vec![
            Field {
                name: "id".to_owned(),
                data_type: DataTypeTag::Int32,
                nullable: false,
            },
            Field {
                name: "name".to_owned(),
                data_type: DataTypeTag::Utf8,
                nullable: false,
            },
            Field {
                name: "amount".to_owned(),
                data_type: DataTypeTag::Float64,
                nullable: false,
            },
        ],
    }
}

#[test]
fn round_trip_schema_matches_contract() {
    let body = valid_body(&[2]);
    let decoded = decode_stream(&body).unwrap();
    assert!(schema_eq(&decoded.schema, &library_expected_schema()));
    let validator = SchemaValidator::new_with_default_schema();
    assert!(validator.validate(&decoded.schema));
}

#[test]
fn decode_reports_exact_batch_shape() {
    let body = valid_body(&[5]);
    let decoded = decode_stream(&body).unwrap();
    assert_eq!(decoded.batches.len(), 1);
    assert_eq!(decoded.batches[0].rows, 5);
    assert_eq!(decoded.batches[0].cols, 3);
}

#[test]
fn unconfigured_validator_accepts_anything() {
    let validator = SchemaValidator { data_schema: None };
    let body = body_missing_amount();
    let decoded = decode_stream(&body).unwrap();
    assert!(validator.validate(&decoded.schema));
}

#[test]
fn validator_rejects_missing_amount_field() {
    let validator = SchemaValidator::new_with_default_schema();
    let body = body_missing_amount();
    let decoded = decode_stream(&body).unwrap();
    assert!(!validator.validate(&decoded.schema));
}

#[test]
fn single_message_total_bytes() {
    let body = valid_body(&[1]);
    let body_len = body.len();
    let processor = DataProcessor::new();
    let result = processor
        .process_flight_data(vec![message(vec![9, 9, 9], body)])
        .unwrap();
    assert_eq!(result.message_count, 1);
    assert_eq!(result.total_bytes, 3 + body_len);
}

#[test]
fn message_count_counts_empty_bodies() {
    let processor = DataProcessor::new();
    let result = processor
        .process_flight_data(vec![
            message(vec![1], Vec::new()),
            message(Vec::new(), Vec::new()),
            message(vec![2, 2], Vec::new()),
        ])
        .unwrap();
    assert_eq!(result.message_count, 3);
    assert_eq!(result.total_bytes, 3);
    assert_eq!(result.total_batches, 0);
    assert_eq!(result.total_rows, 0);
}

#[test]
fn two_messages_of_five_rows_each() {
    let processor = DataProcessor::new();
    let messages = vec![
        message(Vec::new(), valid_body(&[5])),
        message(Vec::new(), valid_body(&[5])),
    ];
    let result = processor.process_flight_data(messages).unwrap();
    assert_eq!(result.message_count, 2);
    assert_eq!(result.total_batches, 2);
    assert_eq!(result.total_rows, 10);
    let ack = result.to_put_result(7);
    assert!(ack.app_metadata.contains("\"status\":\"success\""));
    assert!(ack.app_metadata.contains("\"messages_received\":2"));
    assert!(ack.app_metadata.contains("\"total_batches\":2"));
    assert!(ack.app_metadata.contains("\"total_rows\":10"));
}

#[test]
fn schema_mismatch_aborts_whole_call() {
    let processor = DataProcessor::new();
    let messages = vec![
        message(Vec::new(), valid_body(&[5])),
        message(Vec::new(), body_missing_amount()),
        message(Vec::new(), valid_body(&[5])),
    ];
    let err = processor.process_flight_data(messages).unwrap_err();
    match err {
        IngestError::Validation(ValidationError::SchemaMismatch { expected, actual }) => {
            assert_eq!(expected.fields.len(), 3);
            assert_eq!(actual.fields.len(), 2);
            assert!(schema_eq(&expected, &library_expected_schema()));
        }
        IngestError::Decode(_) => panic!("expected a schema mismatch"),
    }
}

#[test]
fn malformed_body_aborts_whole_call() {
    let processor = DataProcessor::new();
    let messages = vec![message(Vec::new(), vec![7, 13, 42])];
    let err = processor.process_flight_data(messages).unwrap_err();
    match err {
        IngestError::Decode(DecodeError::MalformedStream(reason)) => {
            assert!(!reason.is_empty());
        }
        _ => panic!("expected a malformed stream error"),
    }
}

#[test]
fn batch_failure_keeps_batches_already_read() {
    // A body whose schema message is intact but whose batch data is cut off:
    // decoding still succeeds, iteration just stops early.
    let schema = expected_arrow_schema();
    let mut schema_only: Vec<u8> = Vec::new();
    {
        let mut writer = StreamWriter::try_new(&mut schema_only, schema.as_ref()).unwrap();
        writer.finish().unwrap();
    }
    let full = valid_body(&[5]);
    assert!(full.len() > schema_only.len());
    let truncated = full[..schema_only.len()].to_vec();
    let decoded = decode_stream(&truncated).unwrap();
    assert_eq!(decoded.batches.len(), 0);
    assert!(schema_eq(&decoded.schema, &library_expected_schema()));
}

#[test]
fn empty_body_among_valid_messages() {
    let processor = DataProcessor::new();
    let with_empty = vec![
        message(vec![1, 2], valid_body(&[3])),
        message(vec![3, 4, 5], Vec::new()),
        message(vec![6], valid_body(&[2, 4])),
    ];
    let without_empty = vec![
        message(vec![1, 2], valid_body(&[3])),
        message(vec![6], valid_body(&[2, 4])),
    ];
    let with_result = processor.process_flight_data(with_empty).unwrap();
    let without_result = processor.process_flight_data(without_empty).unwrap();
    assert_eq!(with_result.message_count, 3);
    assert_eq!(without_result.message_count, 2);
    assert_eq!(with_result.total_bytes, without_result.total_bytes + 3);
    assert_eq!(with_result.total_batches, without_result.total_batches);
    assert_eq!(with_result.total_rows, without_result.total_rows);
    assert_eq!(with_result.total_batches, 3);
    assert_eq!(with_result.total_rows, 9);
}
