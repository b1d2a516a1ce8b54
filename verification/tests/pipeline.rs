use arrow::array::Array;
use lake_ingest::config::Config;
use lake_ingest::error::{CatalogFault, PipelineError};
use lake_ingest::pipeline::process::{
    upload_wait_ms, Pipeline, PipelineAction, PipelineEvent,
};
use lake_ingest::schema::EntityType;
use lake_ingest::sink::catalog::MemoryCatalog;
use lake_ingest::sink::commit_protocol::{CatalogReply, CatalogRequest};
use parquet::arrow::arrow_reader::ParquetRecordBatchReaderBuilder;
use serde_json::Value;

fn config(max_rows: &str, max_seconds: &str) -> Config {
    Config::from_settings(
        Some("proj".to_string()),
        Some("lake".to_string()),
        None,
        Some("memory://".to_string()),
        None,
        Some(max_rows.to_string()),
        Some(max_seconds.to_string()),
    )
    .unwrap()
}

fn order(id: &str) -> Value {
    serde_json::from_str(&format!(r#"{{"id":"{}","variety":"v","quantity_in_kg":1.5}}"#, id))
        .unwrap()
}

fn ids_in(bytes: &[u8]) -> Vec<String> {
    let reader = ParquetRecordBatchReaderBuilder::try_new(bytes::Bytes::from(bytes.to_vec()))
        .unwrap()
        .build()
        .unwrap();
    let mut ids = Vec::new();
    for batch in reader {
        let batch = batch.unwrap();
        let column = batch
            .column(0)
            .as_any()
            .downcast_ref::<arrow::array::StringArray>()
            .unwrap()
            .clone();
        for i in 0..column.len() {
            ids.push(column.value(i).to_string());
        }
    }
    ids
}

struct World {
    source: Vec<PipelineEvent>,
    storage: Vec<(String, Vec<u8>)>,
    catalog: MemoryCatalog,
    upload_failures: u32,
    waits: Vec<u64>,
    asked: Vec<CatalogRequest>,
    scripted: Vec<CatalogReply>,
}

impl World {
    fn new(source: Vec<PipelineEvent>) -> World {
        let mut source = source;
        source.reverse();
        World {
            source,
            storage: Vec::new(),
            catalog: MemoryCatalog::new(),
            upload_failures: 0,
            waits: Vec::new(),
            asked: Vec::new(),
            scripted: Vec::new(),
        }
    }

    fn run(&mut self, pipeline: &mut Pipeline) -> PipelineAction {
        let mut action = pipeline.action();
        for _ in 0..10_000 {
            let event = match action {
                PipelineAction::Pull => self.source.pop().unwrap_or(PipelineEvent::SourceEnded),
                PipelineAction::Upload { wait_ms } => {
                    self.waits.push(wait_ms);
                    if self.upload_failures > 0 {
                        self.upload_failures -= 1;
                        PipelineEvent::UploadFailed
                    } else {
                        let file = pipeline.file().unwrap();
                        self.storage.push((file.path.clone(), file.bytes.clone()));
                        PipelineEvent::Uploaded
                    }
                },
                PipelineAction::Ask(request) => {
                    self.asked.push(request);
                    let target = pipeline.target().unwrap();
                    if self.scripted.is_empty() {
                        PipelineEvent::Catalog(self.catalog.answer(request, &target))
                    } else {
                        PipelineEvent::Catalog(self.scripted.remove(0))
                    }
                },
                PipelineAction::Done | PipelineAction::Failed(_) => return action,
            };
            action = pipeline.handle(event);
        }
        panic!("the pipeline did not come to an end");
    }
}

#[test]
fn seven_records_make_three_files_and_three_commits_in_order() {
    let source: Vec<PipelineEvent> = ["r1", "r2", "r3", "r4", "r5", "r6", "r7"]
        .iter()
        .map(|id| PipelineEvent::Record(order(id), 0))
        .collect();
    let mut world = World::new(source);
    let mut pipeline = Pipeline::new(EntityType::Order, &config("3", "3600"), 0);
    assert_eq!(world.run(&mut pipeline), PipelineAction::Done);
    let sizes: Vec<Vec<String>> = world.storage.iter().map(|(_, bytes)| ids_in(bytes)).collect();
    assert_eq!(sizes, vec![vec!["r1", "r2", "r3"], vec!["r4", "r5", "r6"], vec!["r7"]]);
    let registered = world.catalog.file_paths("farm", "orders").unwrap();
    let uploaded: Vec<String> =
        world.storage.iter().map(|(path, _)| format!("gs://lake/{}", path)).collect();
    assert_eq!(registered, uploaded);
    assert_eq!(
        world.asked,
        vec![
            CatalogRequest::LoadTable,
            CatalogRequest::CreateNamespace,
            CatalogRequest::CreateTable,
            CatalogRequest::AppendFile { base: 0 },
            CatalogRequest::LoadTable,
            CatalogRequest::AppendFile { base: 1 },
            CatalogRequest::LoadTable,
            CatalogRequest::AppendFile { base: 2 },
        ]
    );
    assert!(pipeline.orphans().is_empty());
    assert_eq!(world.waits, vec![0, 0, 0]);
}

#[test]
fn a_tick_flushes_the_first_record_and_the_end_of_the_source_the_second() {
    let source = vec![
        PipelineEvent::Record(order("r1"), 0),
        PipelineEvent::Tick(5_000),
        PipelineEvent::Record(order("r2"), 6_000),
        PipelineEvent::SourceEnded,
    ];
    let mut world = World::new(source);
    let mut pipeline = Pipeline::new(EntityType::Order, &config("1000", "5"), 0);
    assert_eq!(world.run(&mut pipeline), PipelineAction::Done);
    let files: Vec<Vec<String>> = world.storage.iter().map(|(_, bytes)| ids_in(bytes)).collect();
    assert_eq!(files, vec![vec!["r1"], vec!["r2"]]);
    assert_eq!(world.catalog.file_paths("farm", "orders").unwrap().len(), 2);
}

#[test]
fn an_empty_source_writes_nothing() {
    let mut world = World::new(vec![PipelineEvent::SourceEnded]);
    let mut pipeline = Pipeline::new(EntityType::Material, &config("3", "5"), 0);
    assert_eq!(pipeline.action(), PipelineAction::Pull);
    assert!(pipeline.file().is_none());
    assert!(pipeline.target().is_none());
    assert_eq!(world.run(&mut pipeline), PipelineAction::Done);
    assert!(world.storage.is_empty());
    assert_eq!(world.catalog.table_count(), 0);
    assert_eq!(pipeline.handle(PipelineEvent::Record(order("late"), 1)), PipelineAction::Done);
}

#[test]
fn the_commit_target_names_the_file_with_scheme_and_bucket() {
    let mut pipeline = Pipeline::new(EntityType::Order, &config("1", "3600"), 0);
    let action = pipeline.handle(PipelineEvent::Record(order("r1"), 0));
    assert_eq!(action, PipelineAction::Upload { wait_ms: 0 });
    assert!(pipeline.target().is_none());
    let (path, len) = {
        let file = pipeline.file().unwrap();
        assert_eq!(file.row_count, 1);
        assert!(file.path.starts_with("warehouse/farm/orders/data/ingest_date="));
        (file.path.clone(), file.bytes.len())
    };
    assert_eq!(pipeline.handle(PipelineEvent::Uploaded), PipelineAction::Ask(CatalogRequest::LoadTable));
    let target = pipeline.target().unwrap();
    assert_eq!(target.namespace, "farm");
    assert_eq!(target.table, "orders");
    assert_eq!(target.schema.len(), 6);
    assert_eq!(target.file.path, format!("gs://lake/{}", path));
    assert_eq!(target.file.len_bytes, len as i64);
    assert_eq!(target.file.row_count, 1);
}

#[test]
fn a_failed_upload_is_repeated_after_a_growing_wait() {
    let mut world = World::new(vec![PipelineEvent::Record(order("r1"), 0)]);
    world.upload_failures = 3;
    let mut pipeline = Pipeline::new(EntityType::Order, &config("1", "3600"), 0);
    assert_eq!(world.run(&mut pipeline), PipelineAction::Done);
    assert_eq!(world.waits, vec![0, 200, 400, 800]);
    assert_eq!(world.storage.len(), 1);
    assert_eq!(world.catalog.file_paths("farm", "orders").unwrap().len(), 1);
}

#[test]
fn an_upload_that_keeps_failing_is_fatal() {
    let mut world = World::new(vec![
        PipelineEvent::Record(order("r1"), 0),
        PipelineEvent::Record(order("r2"), 0),
    ]);
    world.upload_failures = 4;
    let mut pipeline = Pipeline::new(EntityType::Order, &config("1", "3600"), 0);
    assert_eq!(world.run(&mut pipeline), PipelineAction::Failed(PipelineError::Upload));
    assert_eq!(world.waits, vec![0, 200, 400, 800]);
    assert!(world.storage.is_empty());
    assert!(pipeline.orphans().is_empty());
    assert_eq!(
        pipeline.handle(PipelineEvent::Uploaded),
        PipelineAction::Failed(PipelineError::Upload)
    );
}

#[test]
fn other_limits_can_be_set_before_the_first_upload() {
    let mut world = World::new(vec![PipelineEvent::Record(order("r1"), 0)]);
    world.upload_failures = 2;
    let mut pipeline =
        Pipeline::new(EntityType::Order, &config("1", "3600"), 0).with_limits(1, 50, 0);
    assert_eq!(world.run(&mut pipeline), PipelineAction::Failed(PipelineError::Upload));
    assert_eq!(world.waits, vec![0, 50]);
}

#[test]
fn a_file_that_cannot_be_registered_is_put_down_as_an_orphan() {
    let mut world = World::new(vec![PipelineEvent::Record(order("r1"), 0)]);
    world.scripted = vec![CatalogReply::TableFound { snapshot: 3 }, CatalogReply::Failed];
    let mut pipeline = Pipeline::new(EntityType::Order, &config("1", "3600"), 0);
    assert_eq!(
        world.run(&mut pipeline),
        PipelineAction::Failed(PipelineError::Catalog(CatalogFault::Rejected))
    );
    assert_eq!(world.storage.len(), 1);
    assert_eq!(pipeline.orphans(), &vec![world.storage[0].0.clone()]);
}

#[test]
fn conflicts_beyond_the_retries_orphan_the_file() {
    let mut world = World::new(vec![PipelineEvent::Record(order("r1"), 0)]);
    world.scripted = vec![
        CatalogReply::TableFound { snapshot: 3 },
        CatalogReply::Conflict,
        CatalogReply::TableFound { snapshot: 4 },
        CatalogReply::Conflict,
    ];
    let mut pipeline =
        Pipeline::new(EntityType::Order, &config("1", "3600"), 0).with_limits(0, 1, 1);
    assert_eq!(
        world.run(&mut pipeline),
        PipelineAction::Failed(PipelineError::Catalog(CatalogFault::ConflictsExhausted))
    );
    assert_eq!(pipeline.orphans().len(), 1);
    assert_eq!(world.asked.len(), 4);
}

#[test]
fn a_failing_source_stops_the_pipeline() {
    let mut world = World::new(vec![
        PipelineEvent::Record(order("r1"), 0),
        PipelineEvent::SourceFailed,
    ]);
    let mut pipeline = Pipeline::new(EntityType::Order, &config("10", "3600"), 0);
    assert_eq!(world.run(&mut pipeline), PipelineAction::Failed(PipelineError::Source));
    assert!(world.storage.is_empty());
}

#[test]
fn events_that_do_not_answer_the_action_change_nothing() {
    let mut pipeline = Pipeline::new(EntityType::Order, &config("2", "3600"), 0);
    assert_eq!(pipeline.handle(PipelineEvent::Uploaded), PipelineAction::Pull);
    assert_eq!(
        pipeline.handle(PipelineEvent::Catalog(CatalogReply::TableMissing)),
        PipelineAction::Pull
    );
    assert_eq!(pipeline.handle(PipelineEvent::Record(order("r1"), 0)), PipelineAction::Pull);
    assert_eq!(
        pipeline.handle(PipelineEvent::Record(order("r2"), 0)),
        PipelineAction::Upload { wait_ms: 0 }
    );
    assert_eq!(
        pipeline.handle(PipelineEvent::Record(order("r3"), 0)),
        PipelineAction::Upload { wait_ms: 0 }
    );
    assert_eq!(ids_in(&pipeline.file().unwrap().bytes), vec!["r1", "r2"]);
    assert_eq!(
        pipeline.handle(PipelineEvent::Uploaded),
        PipelineAction::Ask(CatalogRequest::LoadTable)
    );
    assert_eq!(
        pipeline.handle(PipelineEvent::UploadFailed),
        PipelineAction::Ask(CatalogRequest::LoadTable)
    );
}

#[test]
fn an_unknown_collection_has_no_pipeline() {
    let made = Pipeline::for_collection("invoices", &config("3", "5"), 0);
    assert_eq!(made.err(), Some(PipelineError::UnknownEntity));
    let known = Pipeline::for_collection("varieties", &config("3", "5"), 0);
    assert!(known.is_ok());
    assert_eq!(known.ok().unwrap().action(), PipelineAction::Pull);
}

#[test]
fn upload_waits_double_and_saturate() {
    assert_eq!(upload_wait_ms(200, 0), 0);
    assert_eq!(upload_wait_ms(200, 1), 200);
    assert_eq!(upload_wait_ms(200, 2), 400);
    assert_eq!(upload_wait_ms(200, 5), 3200);
    assert_eq!(upload_wait_ms(0, 9), 0);
    assert_eq!(upload_wait_ms(1, 64), 1u64 << 63);
    assert_eq!(upload_wait_ms(1, 65), u64::MAX);
    assert_eq!(upload_wait_ms(3, 64), u64::MAX);
    assert_eq!(upload_wait_ms(u64::MAX, 1), u64::MAX);
    assert_eq!(upload_wait_ms(u64::MAX, 2), u64::MAX);
}
