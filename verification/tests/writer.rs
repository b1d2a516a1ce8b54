use arrow::array::{
    Array, Float64Array, StringArray, TimestampMillisecondArray, UInt32Array,
};
use arrow::datatypes::{DataType, TimeUnit};
use arrow::record_batch::RecordBatch;
use lake_ingest::columnar::{Column, ColumnarBatch};
use lake_ingest::error::PipelineError;
use lake_ingest::pipeline::transform::coerce;
use lake_ingest::schema::{orders_schema, ColumnSpec, ColumnType, EntityType};
use lake_ingest::sink::encoding::{encode_parquet, text_bytes, to_record_batch};
use lake_ingest::sink::parquet_writer::{
    date_text_of, part_label_text, partition_path, ParquetSink,
};
use parquet::arrow::arrow_reader::ParquetRecordBatchReaderBuilder;
use serde_json::Value;

fn doc(text: &str) -> Value {
    serde_json::from_str(text).unwrap()
}

fn read_back(bytes: Vec<u8>) -> Vec<RecordBatch> {
    let reader = ParquetRecordBatchReaderBuilder::try_new(bytes::Bytes::from(bytes))
        .unwrap()
        .build()
        .unwrap();
    reader.map(|b| b.unwrap()).collect()
}

fn strings(batch: &RecordBatch, column: usize) -> Vec<String> {
    let array = batch.column(column).as_any().downcast_ref::<StringArray>().unwrap();
    assert_eq!(array.null_count(), 0);
    (0..array.len()).map(|i| array.value(i).to_string()).collect()
}

fn floats(batch: &RecordBatch, column: usize) -> Vec<f64> {
    let array = batch.column(column).as_any().downcast_ref::<Float64Array>().unwrap();
    assert_eq!(array.null_count(), 0);
    (0..array.len()).map(|i| array.value(i)).collect()
}

fn stamps(batch: &RecordBatch, column: usize) -> Vec<i64> {
    let array =
        batch.column(column).as_any().downcast_ref::<TimestampMillisecondArray>().unwrap();
    assert_eq!(array.null_count(), 0);
    (0..array.len()).map(|i| array.value(i)).collect()
}

fn unsigned(batch: &RecordBatch, column: usize) -> Vec<u32> {
    let array = batch.column(column).as_any().downcast_ref::<UInt32Array>().unwrap();
    assert_eq!(array.null_count(), 0);
    (0..array.len()).map(|i| array.value(i)).collect()
}

#[test]
fn a_written_file_reads_back_with_values_and_defaults() {
    let rows = vec![
        doc(
            r#"{"id":"o1","variety":"shiitake","quantity_in_kg":12.5,"delivery_date":"2024-05-01","price_in_euro":99.25}"#,
        ),
        doc(r#"{"id":"o2"}"#),
    ];
    let batch = coerce(EntityType::Order, &rows, 1_700_000_000_123);
    let sink = ParquetSink::new("lake", "warehouse");
    let file = sink.write("farm", "orders", &batch).unwrap();
    assert_eq!(file.row_count, 2);
    let batches = read_back(file.bytes);
    assert_eq!(batches.len(), 1);
    let read = &batches[0];
    assert_eq!(read.num_rows(), 2);
    assert_eq!(read.num_columns(), 6);
    assert_eq!(strings(read, 0), vec!["o1", "o2"]);
    assert_eq!(strings(read, 1), vec!["shiitake", ""]);
    assert_eq!(floats(read, 2), vec![12.5, 0.0]);
    assert_eq!(strings(read, 3), vec!["2024-05-01", ""]);
    assert_eq!(floats(read, 4), vec![99.25, 0.0]);
    assert_eq!(stamps(read, 5), vec![1_700_000_000_123, 1_700_000_000_123]);
}

#[test]
fn the_file_carries_the_schema_of_the_entity() {
    let rows = vec![doc(
        r#"{"id":"b1","quantity_planted":40,"quantity_harvested":3.5,"created_at":"2024-01-02 03:04:05"}"#,
    )];
    let batch = coerce(EntityType::Batch, &rows, 11);
    let sink = ParquetSink::new("lake", "warehouse");
    let file = sink.write("farm", "batches", &batch).unwrap();
    let batches = read_back(file.bytes);
    let read = &batches[0];
    let schema = read.schema();
    let expected = lake_ingest::schema::batches_schema();
    assert_eq!(schema.fields().len(), expected.len());
    for (field, column) in schema.fields().iter().zip(expected.iter()) {
        assert_eq!(field.name(), &column.name);
        assert_eq!(field.is_nullable(), column.nullable);
        let kind = match field.data_type() {
            DataType::Utf8 => ColumnType::Utf8,
            DataType::Float64 => ColumnType::Float64,
            DataType::UInt32 => ColumnType::UInt32,
            DataType::Timestamp(TimeUnit::Millisecond, None) => ColumnType::TimestampMillis,
            other => panic!("unexpected type {:?}", other),
        };
        assert_eq!(kind, column.kind);
    }
    assert_eq!(unsigned(read, 6), vec![40]);
    assert_eq!(floats(read, 7), vec![3.5]);
    assert_eq!(stamps(read, 9), vec![1_704_164_645_000]);
    assert_eq!(stamps(read, 10), vec![0]);
    assert_eq!(stamps(read, 11), vec![11]);
}

#[test]
fn float_bit_patterns_survive_the_file() {
    let values = [0.1f64, -0.0, 1.0e300, 5e-324, -7.25];
    let columns =
        vec![Column::Float64(values.iter().map(|v| v.to_bits()).collect())];
    let schema = vec![ColumnSpec {
        name: "x".to_string(),
        kind: ColumnType::Float64,
        nullable: false,
    }];
    let batch = ColumnarBatch { schema, columns, ingest_ts_ms: 0 };
    let made = to_record_batch(&batch).unwrap();
    let bytes = encode_parquet(&made).unwrap();
    let batches = read_back(bytes);
    let back: Vec<u64> = floats(&batches[0], 0).iter().map(|v| v.to_bits()).collect();
    let sent: Vec<u64> = values.iter().map(|v| v.to_bits()).collect();
    assert_eq!(back, sent);
}

#[test]
fn an_empty_batch_still_makes_a_file_with_the_schema() {
    let rows: Vec<Value> = Vec::new();
    let batch = coerce(EntityType::Order, &rows, 3);
    let sink = ParquetSink::new("lake", "warehouse");
    let file = sink.write("farm", "orders", &batch).unwrap();
    assert_eq!(file.row_count, 0);
    let builder =
        ParquetRecordBatchReaderBuilder::try_new(bytes::Bytes::from(file.bytes)).unwrap();
    assert_eq!(builder.schema().fields().len(), 6);
    assert_eq!(builder.metadata().file_metadata().num_rows(), 0);
}

#[test]
fn the_path_follows_the_partition_layout() {
    let rows = vec![doc(r#"{"id":"o1"}"#)];
    let batch = coerce(EntityType::Order, &rows, 3);
    let sink = ParquetSink::new("lake", "warehouse");
    let file = sink.write("farm", "orders", &batch).unwrap();
    assert_eq!(
        file.path,
        format!(
            "warehouse/farm/orders/data/ingest_date={}/run_id={}/part-000.parquet",
            file.ingest_date, file.run_id
        )
    );
    assert_eq!(file.part, 0);
    let date: Vec<char> = file.ingest_date.chars().collect();
    assert_eq!(date.len(), 10);
    for (i, c) in date.iter().enumerate() {
        if i == 4 || i == 7 {
            assert_eq!(*c, '-');
        } else {
            assert!(c.is_ascii_digit());
        }
    }
    let run: Vec<char> = file.run_id.chars().collect();
    assert_eq!(run.len(), 36);
    for (i, c) in run.iter().enumerate() {
        if i == 8 || i == 13 || i == 18 || i == 23 {
            assert_eq!(*c, '-');
        } else {
            assert!(c.is_ascii_digit() || ('a'..='f').contains(c));
        }
    }
    assert_eq!(run[14], '4');
}

#[test]
fn two_writes_of_the_same_batch_get_different_paths() {
    let rows = vec![doc(r#"{"id":"o1"}"#)];
    let batch = coerce(EntityType::Order, &rows, 3);
    let sink = ParquetSink::new("lake", "warehouse");
    let first = sink.write("farm", "orders", &batch).unwrap();
    let second = sink.write("farm", "orders", &batch).unwrap();
    assert_ne!(first.run_id, second.run_id);
    assert_ne!(first.path, second.path);
}

#[test]
fn the_storage_path_is_the_layout_as_the_object_store_addresses_it() {
    let sink = ParquetSink::new("lake", "/raw//zone/");
    let file = sink.file_at(
        "farm",
        "orders",
        "2024-05-01".to_string(),
        "0b0e7a2c-5f0e-4d1b-9c57-3a8f3c1d2e4f".to_string(),
        7,
        vec![1, 2, 3],
        5,
    );
    assert_eq!(
        file.path,
        "raw/zone/farm/orders/data/ingest_date=2024-05-01/run_id=0b0e7a2c-5f0e-4d1b-9c57-3a8f3c1d2e4f/part-007.parquet"
    );
    assert_eq!(file.bytes, vec![1, 2, 3]);
    assert_eq!(file.byte_len(), 3);
    assert_eq!(file.row_count, 5);
    assert_eq!(file.ingest_date, "2024-05-01");
    assert_eq!(file.part, 7);
    let odd = ParquetSink::new("lake", "my lake#1");
    let escaped =
        odd.file_at("farm", "orders", "d".to_string(), "r".to_string(), 0, Vec::new(), 0);
    assert_eq!(
        escaped.path,
        "my lake%231/farm/orders/data/ingest_date=d/run_id=r/part-000.parquet"
    );
}

#[test]
fn a_plain_layout_is_stored_letter_for_letter() {
    let sink = ParquetSink::new("lake", "warehouse/raw zone/v1.2");
    let file = sink.file_at(
        "farm",
        "orders",
        "2024-05-01".to_string(),
        "0b0e7a2c-5f0e-4d1b-9c57-3a8f3c1d2e4f".to_string(),
        0,
        Vec::new(),
        0,
    );
    assert_eq!(
        file.path,
        partition_path(
            "warehouse/raw zone/v1.2",
            "farm",
            "orders",
            "2024-05-01",
            "0b0e7a2c-5f0e-4d1b-9c57-3a8f3c1d2e4f",
            0
        )
    );
    let dotted = ParquetSink::new("lake", "warehouse/..");
    let escaped =
        dotted.file_at("farm", "orders", "d".to_string(), "r".to_string(), 0, Vec::new(), 0);
    assert_eq!(
        escaped.path,
        "warehouse/%2E%2E/farm/orders/data/ingest_date=d/run_id=r/part-000.parquet"
    );
}

#[test]
fn partition_paths_are_exact() {
    assert_eq!(
        partition_path("warehouse", "farm", "orders", "2024-05-01", "abc", 0),
        "warehouse/farm/orders/data/ingest_date=2024-05-01/run_id=abc/part-000.parquet"
    );
    assert_eq!(
        partition_path("", "n", "t", "", "", 12),
        "/n/t/data/ingest_date=/run_id=/part-012.parquet"
    );
}

#[test]
fn part_labels_are_filled_to_three_digits() {
    assert_eq!(part_label_text(0), "000");
    assert_eq!(part_label_text(7), "007");
    assert_eq!(part_label_text(10), "010");
    assert_eq!(part_label_text(42), "042");
    assert_eq!(part_label_text(99), "099");
    assert_eq!(part_label_text(100), "100");
    assert_eq!(part_label_text(123), "123");
    assert_eq!(part_label_text(1000), "1000");
    assert_eq!(part_label_text(u32::MAX), "4294967295");
}

#[test]
fn object_urls_name_scheme_and_bucket() {
    let sink = ParquetSink::new("lake", "warehouse");
    assert_eq!(sink.object_url("warehouse/farm/x.parquet"), "gs://lake/warehouse/farm/x.parquet");
    assert_eq!(sink.bucket, "lake");
    assert_eq!(sink.prefix, "warehouse");
}

#[test]
fn a_batch_that_does_not_fit_its_schema_is_a_serialization_error() {
    let sink = ParquetSink::new("lake", "warehouse");
    let missing = ColumnarBatch { schema: orders_schema(), columns: Vec::new(), ingest_ts_ms: 0 };
    assert_eq!(sink.write("farm", "orders", &missing).unwrap_err(), PipelineError::Serialization);
    let mistyped = ColumnarBatch {
        schema: vec![ColumnSpec { name: "x".to_string(), kind: ColumnType::Utf8, nullable: false }],
        columns: vec![Column::UInt32(vec![1])],
        ingest_ts_ms: 0,
    };
    assert_eq!(to_record_batch(&mistyped).err(), Some(PipelineError::Serialization));
    let ragged = ColumnarBatch {
        schema: vec![
            ColumnSpec { name: "x".to_string(), kind: ColumnType::UInt32, nullable: false },
            ColumnSpec { name: "y".to_string(), kind: ColumnType::UInt32, nullable: false },
        ],
        columns: vec![Column::UInt32(vec![1]), Column::UInt32(vec![1, 2])],
        ingest_ts_ms: 0,
    };
    assert_eq!(to_record_batch(&ragged).err(), Some(PipelineError::Serialization));
}

#[test]
fn a_batch_without_a_column_is_a_serialization_error() {
    let empty = ColumnarBatch { schema: Vec::new(), columns: Vec::new(), ingest_ts_ms: 0 };
    assert_eq!(to_record_batch(&empty).err(), Some(PipelineError::Serialization));
    let sink = ParquetSink::new("lake", "warehouse");
    assert_eq!(sink.write("farm", "orders", &empty).unwrap_err(), PipelineError::Serialization);
}

#[test]
fn a_well_formed_batch_with_a_column_is_always_built() {
    let schema = vec![
        ColumnSpec { name: "a".to_string(), kind: ColumnType::Utf8, nullable: false },
        ColumnSpec { name: "b".to_string(), kind: ColumnType::TimestampMillis, nullable: true },
    ];
    let none = ColumnarBatch {
        schema,
        columns: vec![Column::Utf8(Vec::new()), Column::TimestampMillis(Vec::new())],
        ingest_ts_ms: 0,
    };
    assert!(to_record_batch(&none).is_ok());
    let one = ColumnarBatch {
        schema: vec![ColumnSpec {
            name: "n".to_string(),
            kind: ColumnType::UInt32,
            nullable: false,
        }],
        columns: vec![Column::UInt32(vec![7, 8, 9])],
        ingest_ts_ms: 0,
    };
    let made = to_record_batch(&one).unwrap();
    let back = read_back(encode_parquet(&made).unwrap());
    assert_eq!(unsigned(&back[0], 0), vec![7, 8, 9]);
}

#[test]
fn dates_are_written_as_the_calendar_library_writes_them() {
    for (year, month, day) in [
        (2024, 5, 1),
        (1970, 1, 1),
        (1999, 12, 31),
        (0, 1, 1),
        (9999, 12, 31),
        (10000, 1, 1),
        (123456, 7, 8),
        (262142, 12, 31),
        (-1, 3, 4),
        (-42, 11, 30),
        (-12345, 2, 28),
        (-262143, 1, 1),
        (7, 10, 9),
        (850, 6, 15),
    ] {
        let expected = chrono::NaiveDate::from_ymd_opt(year, month, day).unwrap().to_string();
        assert_eq!(date_text_of(year, month, day), expected, "for {}-{}-{}", year, month, day);
    }
    assert_eq!(date_text_of(2024, 5, 1), "2024-05-01");
    assert_eq!(date_text_of(10000, 1, 1), "+10000-01-01");
    assert_eq!(date_text_of(-1, 3, 4), "-0001-03-04");
    assert_eq!(date_text_of(i32::MIN, 1, 1), "-2147483648-01-01");
    assert_eq!(date_text_of(i32::MAX, 12, 31), "+2147483647-12-31");
}

#[test]
fn the_ingestion_date_is_today_in_utc() {
    let rows = vec![doc(r#"{"id":"o1"}"#)];
    let batch = coerce(EntityType::Order, &rows, 3);
    let sink = ParquetSink::new("lake", "warehouse");
    let before = chrono::Utc::now().date_naive().to_string();
    let file = sink.write("farm", "orders", &batch).unwrap();
    let after = chrono::Utc::now().date_naive().to_string();
    assert!(file.ingest_date == before || file.ingest_date == after);
}

#[test]
fn text_bytes_are_counted_in_utf8() {
    assert_eq!(text_bytes(&Vec::new()), Some(0));
    assert_eq!(text_bytes(&vec!["abc".to_string(), "".to_string(), "é€".to_string()]), Some(8));
}
