use lake_ingest::columnar::Column;
use lake_ingest::pipeline::transform::{coerce, coerce_now};
use lake_ingest::schema::{
    batches_schema, inventory_transactions_schema, materials_schema, orders_schema,
    to_batches_batch, to_inventory_transactions_batch, to_materials_batch, to_orders_batch,
    to_varieties_batch, to_variety_inventory_batch, varieties_schema, variety_inventory_schema,
    ColumnType, EntityType,
};
use lake_ingest::schema::ColumnType::{Float64, TimestampMillis, UInt32, Utf8};
use serde_json::Value;

fn doc(text: &str) -> Value {
    serde_json::from_str(text).unwrap()
}

fn texts(column: &Column) -> Vec<String> {
    match column {
        Column::Utf8(v) => v.clone(),
        other => panic!("not a text column: {:?}", other),
    }
}

fn floats(column: &Column) -> Vec<f64> {
    match column {
        Column::Float64(v) => v.iter().map(|b| f64::from_bits(*b)).collect(),
        other => panic!("not a float column: {:?}", other),
    }
}

fn uints(column: &Column) -> Vec<u32> {
    match column {
        Column::UInt32(v) => v.clone(),
        other => panic!("not an integer column: {:?}", other),
    }
}

fn millis(column: &Column) -> Vec<i64> {
    match column {
        Column::TimestampMillis(v) => v.clone(),
        other => panic!("not a timestamp column: {:?}", other),
    }
}

#[test]
fn order_with_all_fields_is_reproduced() {
    let rows = vec![doc(
        r#"{"id":"o1","variety":"shiitake","quantity_in_kg":12.5,"delivery_date":"2024-05-01","price_in_euro":99.0}"#,
    )];
    let batch = coerce(EntityType::Order, &rows, 1_700_000_000_123);
    assert_eq!(batch.num_columns(), 6);
    assert_eq!(batch.num_rows(), 1);
    assert_eq!(texts(&batch.columns[0]), vec!["o1"]);
    assert_eq!(texts(&batch.columns[1]), vec!["shiitake"]);
    assert_eq!(floats(&batch.columns[2]), vec![12.5]);
    assert_eq!(texts(&batch.columns[3]), vec!["2024-05-01"]);
    assert_eq!(floats(&batch.columns[4]), vec![99.0]);
    assert_eq!(millis(&batch.columns[5]), vec![1_700_000_000_123]);
    assert_eq!(batch.ingest_ts_ms, 1_700_000_000_123);
}

#[test]
fn order_missing_fields_take_defaults() {
    let rows = vec![doc(r#"{"id":"o2"}"#)];
    let batch = coerce(EntityType::Order, &rows, 5);
    assert_eq!(texts(&batch.columns[0]), vec!["o2"]);
    assert_eq!(texts(&batch.columns[1]), vec![""]);
    assert_eq!(floats(&batch.columns[2]), vec![0.0]);
    assert_eq!(texts(&batch.columns[3]), vec![""]);
    assert_eq!(floats(&batch.columns[4]), vec![0.0]);
    match &batch.columns[2] {
        Column::Float64(bits) => assert_eq!(bits[0], 0u64),
        _ => unreachable!(),
    }
}

#[test]
fn mistyped_fields_take_defaults() {
    let rows = vec![doc(
        r#"{"id":17,"variety":null,"quantity_in_kg":"heavy","delivery_date":false,"price_in_euro":[1]}"#,
    )];
    let batch = coerce(EntityType::Order, &rows, 5);
    assert_eq!(texts(&batch.columns[0]), vec![""]);
    assert_eq!(texts(&batch.columns[1]), vec![""]);
    assert_eq!(floats(&batch.columns[2]), vec![0.0]);
    assert_eq!(texts(&batch.columns[3]), vec![""]);
    assert_eq!(floats(&batch.columns[4]), vec![0.0]);
}

#[test]
fn a_record_that_is_no_object_takes_all_defaults() {
    let rows = vec![doc("[1,2,3]"), doc("\"text\""), Value::Null];
    let batch = coerce(EntityType::Material, &rows, 9);
    assert_eq!(batch.num_rows(), 3);
    assert_eq!(texts(&batch.columns[0]), vec!["", "", ""]);
    assert_eq!(floats(&batch.columns[3]), vec![0.0, 0.0, 0.0]);
    assert_eq!(millis(&batch.columns[4]), vec![0, 0, 0]);
    assert_eq!(millis(&batch.columns[6]), vec![9, 9, 9]);
}

#[test]
fn camel_case_aliases_are_read_when_the_primary_name_is_absent() {
    let rows = vec![doc(
        r#"{"id":"o3","variety":"enoki","quantityInKg":3.25,"deliveryDate":"2024-06-02","priceInEuro":7.5}"#,
    )];
    let batch = coerce(EntityType::Order, &rows, 1);
    assert_eq!(floats(&batch.columns[2]), vec![3.25]);
    assert_eq!(texts(&batch.columns[3]), vec!["2024-06-02"]);
    assert_eq!(floats(&batch.columns[4]), vec![7.5]);
}

#[test]
fn the_primary_name_wins_over_an_alias() {
    let rows = vec![doc(r#"{"quantity_in_kg":1.0,"quantityInKg":2.0}"#)];
    let batch = coerce(EntityType::Order, &rows, 1);
    assert_eq!(floats(&batch.columns[2]), vec![1.0]);
}

#[test]
fn an_alias_is_read_when_the_primary_field_is_mistyped() {
    let rows = vec![doc(r#"{"quantity_in_kg":"n/a","quantityInKg":2.0}"#)];
    let batch = coerce(EntityType::Order, &rows, 1);
    assert_eq!(floats(&batch.columns[2]), vec![2.0]);
}

#[test]
fn integers_are_read_as_floats() {
    let rows = vec![doc(r#"{"quantity_in_kg":64,"price_in_euro":-3}"#)];
    let batch = coerce(EntityType::Order, &rows, 1);
    assert_eq!(floats(&batch.columns[2]), vec![64.0]);
    assert_eq!(floats(&batch.columns[4]), vec![-3.0]);
}

#[test]
fn timestamps_are_parsed_with_the_fixed_pattern() {
    let rows = vec![
        doc(r#"{"id":"v1","name":"a","created_at":"1970-01-01 00:00:01","updated_at":"2024-01-02 03:04:05.678"}"#),
        doc(r#"{"id":"v2","name":"b","created_at":"2024-01-02T03:04:05Z","updated_at":"yesterday"}"#),
        doc(r#"{"id":"v3","name":"c","created_at":12345}"#),
    ];
    let batch = coerce(EntityType::Variety, &rows, 77);
    assert_eq!(millis(&batch.columns[3]), vec![1000, 0, 0]);
    assert_eq!(millis(&batch.columns[4]), vec![1_704_164_645_678, 0, 0]);
    assert_eq!(millis(&batch.columns[5]), vec![77, 77, 77]);
}

#[test]
fn unsigned_columns_read_non_negative_integers() {
    let rows = vec![
        doc(r#"{"quantity_planted":120}"#),
        doc(r#"{"quantity_planted":-4}"#),
        doc(r#"{"quantity_planted":2.5}"#),
        doc(r#"{"quantity_planted":"12"}"#),
        doc(r#"{}"#),
        doc(r#"{"quantity_planted":4294967295}"#),
        doc(r#"{"quantity_planted":4294967296}"#),
        doc(r#"{"quantity_planted":4294967297}"#),
        doc(r#"{"quantity_planted":4294967301}"#),
        doc(r#"{"quantity_planted":18446744073709551615}"#),
    ];
    let batch = coerce(EntityType::Batch, &rows, 1);
    assert_eq!(uints(&batch.columns[6]), vec![120, 0, 0, 0, 0, 4294967295, 0, 0, 0, 0]);
}

#[test]
fn a_number_that_does_not_fit_the_column_takes_the_default() {
    let rows = vec![doc(r#"{"id":"b1","quantity_planted":4294967297}"#)];
    let batch = to_batches_batch(&rows);
    assert_eq!(batch.num_rows(), 1);
    assert_eq!(texts(&batch.columns[0]), vec!["b1"]);
    assert_eq!(uints(&batch.columns[6]), vec![0u32]);
}

#[test]
fn an_empty_batch_has_every_column_and_no_row() {
    let rows: Vec<Value> = Vec::new();
    let batch = coerce(EntityType::InventoryTransaction, &rows, 1);
    assert_eq!(batch.num_columns(), 12);
    assert_eq!(batch.num_rows(), 0);
    for column in &batch.columns {
        assert_eq!(column.len(), 0);
    }
}

#[test]
fn the_ingestion_stamp_is_one_per_batch() {
    let rows = vec![doc(r#"{"id":"a"}"#), doc(r#"{"id":"b"}"#), doc(r#"{"id":"c"}"#)];
    let batch = coerce_now(EntityType::Order, &rows);
    let stamps = millis(&batch.columns[5]);
    assert_eq!(stamps, vec![batch.ingest_ts_ms; 3]);
    assert!(batch.ingest_ts_ms > 1_600_000_000_000);
}

#[test]
fn columns_match_the_schema_in_order_and_type() {
    for entity in [
        EntityType::Order,
        EntityType::Variety,
        EntityType::VarietyInventory,
        EntityType::Material,
        EntityType::Batch,
        EntityType::InventoryTransaction,
    ] {
        let rows = vec![doc(r#"{"id":"x"}"#)];
        let batch = coerce(entity, &rows, 3);
        assert_eq!(batch.schema.len(), batch.columns.len());
        for (spec, column) in batch.schema.iter().zip(batch.columns.iter()) {
            assert_eq!(spec.kind, column.column_type());
            assert_eq!(column.len(), 1);
        }
        let last = batch.schema.last().unwrap();
        assert_eq!(last.name, "_ingest_ts_ms");
        assert_eq!(last.kind, ColumnType::TimestampMillis);
        assert!(!last.nullable);
    }
}

fn names(schema: &[lake_ingest::schema::ColumnSpec]) -> Vec<(String, ColumnType, bool)> {
    schema.iter().map(|c| (c.name.clone(), c.kind, c.nullable)).collect()
}

fn col(name: &str, kind: ColumnType, nullable: bool) -> (String, ColumnType, bool) {
    (name.to_string(), kind, nullable)
}

#[test]
fn orders_schema_is_fixed() {
    assert_eq!(
        names(&orders_schema()),
        vec![
            col("id", Utf8, false),
            col("variety", Utf8, false),
            col("quantity_in_kg", Float64, true),
            col("delivery_date", Utf8, true),
            col("price_in_euro", Float64, true),
            col("_ingest_ts_ms", TimestampMillis, false),
        ]
    );
}

#[test]
fn varieties_schema_is_fixed() {
    assert_eq!(
        names(&varieties_schema()),
        vec![
            col("id", Utf8, false),
            col("name", Utf8, false),
            col("description", Utf8, true),
            col("created_at", TimestampMillis, false),
            col("updated_at", TimestampMillis, false),
            col("_ingest_ts_ms", TimestampMillis, false),
        ]
    );
}

#[test]
fn variety_inventory_schema_is_fixed() {
    assert_eq!(
        names(&variety_inventory_schema()),
        vec![
            col("id", Utf8, false),
            col("variety_id", Utf8, false),
            col("quantity_in_stock", Float64, false),
            col("unit", Utf8, false),
            col("last_updated", TimestampMillis, false),
            col("created_at", TimestampMillis, false),
            col("updated_at", TimestampMillis, false),
            col("_ingest_ts_ms", TimestampMillis, false),
        ]
    );
}

#[test]
fn materials_schema_is_fixed() {
    assert_eq!(
        names(&materials_schema()),
        vec![
            col("id", Utf8, false),
            col("name", Utf8, false),
            col("unit", Utf8, false),
            col("quantity_in_stock", Float64, false),
            col("created_at", TimestampMillis, false),
            col("updated_at", TimestampMillis, false),
            col("_ingest_ts_ms", TimestampMillis, false),
        ]
    );
}

#[test]
fn batches_schema_is_fixed() {
    assert_eq!(
        names(&batches_schema()),
        vec![
            col("id", Utf8, false),
            col("variety_id", Utf8, false),
            col("status", Utf8, false),
            col("inoculation_date", Utf8, false),
            col("expected_harvest_date", Utf8, false),
            col("actual_harvest_date", Utf8, true),
            col("quantity_planted", UInt32, false),
            col("quantity_harvested", Float64, true),
            col("notes", Utf8, true),
            col("created_at", TimestampMillis, false),
            col("updated_at", TimestampMillis, false),
            col("_ingest_ts_ms", TimestampMillis, false),
        ]
    );
}

#[test]
fn inventory_transactions_schema_is_fixed() {
    assert_eq!(
        names(&inventory_transactions_schema()),
        vec![
            col("id", Utf8, false),
            col("transaction_type", Utf8, false),
            col("material_id", Utf8, true),
            col("variety_id", Utf8, true),
            col("quantity", Float64, false),
            col("unit", Utf8, false),
            col("reason", Utf8, false),
            col("batch_id", Utf8, true),
            col("order_id", Utf8, true),
            col("created_at", TimestampMillis, false),
            col("updated_at", TimestampMillis, false),
            col("_ingest_ts_ms", TimestampMillis, false),
        ]
    );
}

#[test]
fn each_entity_function_coerces_under_its_own_schema() {
    let rows = vec![doc(
        r#"{"id":"k","name":"n","variety":"v","unit":"kg","quantity_in_stock":4.5,"quantity":2.5,"status":"growing","transaction_type":"in","quantity_planted":7,"reason":"r"}"#,
    )];
    let orders = to_orders_batch(&rows);
    assert_eq!(names(&orders.schema), names(&orders_schema()));
    assert_eq!(texts(&orders.columns[1]), vec!["v"]);
    let varieties = to_varieties_batch(&rows);
    assert_eq!(names(&varieties.schema), names(&varieties_schema()));
    assert_eq!(texts(&varieties.columns[1]), vec!["n"]);
    let inventory = to_variety_inventory_batch(&rows);
    assert_eq!(names(&inventory.schema), names(&variety_inventory_schema()));
    assert_eq!(floats(&inventory.columns[2]), vec![4.5]);
    let materials = to_materials_batch(&rows);
    assert_eq!(names(&materials.schema), names(&materials_schema()));
    assert_eq!(texts(&materials.columns[2]), vec!["kg"]);
    let batches = to_batches_batch(&rows);
    assert_eq!(names(&batches.schema), names(&batches_schema()));
    assert_eq!(uints(&batches.columns[6]), vec![7]);
    let transactions = to_inventory_transactions_batch(&rows);
    assert_eq!(names(&transactions.schema), names(&inventory_transactions_schema()));
    assert_eq!(floats(&transactions.columns[4]), vec![2.5]);
    assert_eq!(millis(&transactions.columns[11]), vec![transactions.ingest_ts_ms]);
}
