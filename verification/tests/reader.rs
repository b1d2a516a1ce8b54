use lake_ingest::consumer::reader::Reader;

fn listing(paths: &[&str]) -> Vec<String> {
    paths.iter().map(|p| p.to_string()).collect()
}

#[test]
fn the_data_prefix_follows_the_layout() {
    let reader = Reader::new("lake", "warehouse");
    assert_eq!(reader.data_prefix("farm", "orders"), "warehouse/farm/orders/data");
    assert_eq!(reader.bucket, "lake");
    assert_eq!(reader.prefix, "warehouse");
}

#[test]
fn the_data_prefix_is_normalized_as_the_object_store_does() {
    let reader = Reader::new("lake", "/raw//zone");
    assert_eq!(reader.data_prefix("farm", "orders"), "raw/zone/farm/orders/data");
}

#[test]
fn only_data_files_are_scanned_in_listing_order() {
    let reader = Reader::new("lake", "warehouse");
    let plan = reader
        .read(&listing(&[
            "warehouse/farm/orders/data/ingest_date=2024-05-01/run_id=a/part-000.parquet",
            "warehouse/farm/orders/data/_SUCCESS",
            "warehouse/farm/orders/data/ingest_date=2024-05-02/run_id=b/part-000.parquet",
            "warehouse/farm/orders/data/notes.parquet.tmp",
            "warehouse/farm/orders/data/x.PARQUET",
            ".parquet",
        ]))
        .unwrap();
    assert_eq!(
        plan.files,
        vec![
            "gs://lake/warehouse/farm/orders/data/ingest_date=2024-05-01/run_id=a/part-000.parquet",
            "gs://lake/warehouse/farm/orders/data/ingest_date=2024-05-02/run_id=b/part-000.parquet",
            "gs://lake/.parquet",
        ]
    );
    assert_eq!(plan.order_by, "_ingest_ts_ms");
    assert!(plan.descending);
}

#[test]
fn without_data_files_there_is_no_plan() {
    let reader = Reader::new("lake", "warehouse");
    assert!(reader.read(&Vec::new()).is_none());
    assert!(reader.read(&listing(&["a/b/c.csv", "parquet", "x.parque"])).is_none());
}
