//! One pipeline from source to table, as a state machine.
//!
//! The pipeline decides; its caller acts. The caller asks the pipeline for
//! the next action, performs it, and reports what came of it as an event:
//! a record, a tick of the timer or the end of the source after a pull, the
//! fate of an upload, the catalog's reply to a request. One record is
//! accepted and one batch is processed at a time, so batches are written and
//! committed in the order in which they were formed.

use vstd::prelude::*;
use crate::columnar::Cell;
use crate::config::Config;
use crate::error::PipelineError;
use crate::pipeline::batcher::{AccumulatorModel, BatchAccumulator};
use crate::pipeline::transform::{coerce_now, coerced_table};
use crate::schema::{
    collection_of, column_models, entity_rules, schema_for, schema_of, stamp_is_last_and_only,
    texts, ColumnModel, EntityType,
};
use crate::sink::catalog::{CommitTarget, DataFile};
use crate::sink::commit_protocol::{
    CatalogReply, CatalogRequest, CommitAttempt, CommitState, DEFAULT_COMMIT_RETRIES,
};
use crate::sink::encoding::{columns_with_schema, parquet_of, parquet_refuses, text_too_large};
use crate::sink::parquet_writer::{
    at_layout, is_date_text, is_plain_route, is_run_id, object_url_text, storage_path,
    ColumnarFile, ParquetSink,
};

verus! {

/// What the world reports to a pipeline.
#[derive(Debug)]
pub enum PipelineEvent {
    /// The source delivered a record at the given instant.
    Record(serde_json::Value, u64),
    /// The timer ticked at the given instant.
    Tick(u64),
    /// The source is exhausted.
    SourceEnded,
    /// The source failed.
    SourceFailed,
    /// The file is in storage.
    Uploaded,
    /// Storage refused the file.
    UploadFailed,
    /// The catalog answered.
    Catalog(CatalogReply),
}

/// What a pipeline asks its caller to do next.
#[derive(Clone, Copy, Debug, PartialEq, Eq, Structural)]
pub enum PipelineAction {
    /// Wait for the source or the timer and report a record, a tick, the end
    /// of the source or its failure.
    Pull,
    /// Wait for `wait_ms` milliseconds, then put the pipeline's file into
    /// storage in one piece.
    Upload { wait_ms: u64 },
    /// Send this request to the catalog, for the pipeline's commit target.
    Ask(CatalogRequest),
    /// Nothing: the source is exhausted and everything it gave is committed.
    Done,
    /// Nothing: the pipeline has failed.
    Failed(PipelineError),
}

/// Where a pipeline stands.
pub enum StageModel {
    /// Collecting records.
    Accumulating,
    /// A file is written and waits to be in storage. `failures` counts the
    /// uploads of it that failed.
    Uploading { path: Seq<char>, failures: u32 },
    /// The file is in storage and waits to be registered. `asked` is the
    /// request that the commit waits on.
    Committing { path: Seq<char>, attempt: CommitAttempt, asked: CatalogRequest },
    /// The source is exhausted and everything is committed.
    Done,
    /// The pipeline has failed.
    Failed { error: PipelineError },
}

/// The limits of a pipeline.
pub struct Limits {
    /// How many times an upload is tried again before it is fatal.
    pub upload_retries: u32,
    /// The wait before the first repeated upload; it doubles with each
    /// further one.
    pub upload_backoff_ms: u64,
    /// How many times a commit starts over after a conflict.
    pub commit_retries: u32,
}

/// The state of a pipeline.
pub struct PipelineModel {
    pub stage: StageModel,
    pub limits: Limits,
    /// The accumulator.
    pub buffer: AccumulatorModel<serde_json::Value>,
    /// The source has reported its end.
    pub source_ended: bool,
    /// Every record accepted so far, in order of arrival.
    pub accepted: Seq<serde_json::Value>,
    /// The batch that is being written, uploaded or committed, or that could
    /// not be; empty where there is none.
    pub in_flight: Seq<serde_json::Value>,
    /// The batches committed so far, in order.
    pub committed: Seq<Seq<serde_json::Value>>,
    /// The paths of files that reached storage and could not be registered.
    pub orphans: Seq<Seq<char>>,
}

/// The wait before an upload that follows `failures` failed ones: none
/// before the first upload, then the configured wait, doubled with each
/// further failure, and never more than a 64-bit number holds.
pub open spec fn backoff_ms(base_ms: u64, failures: u32) -> u64
    decreases failures,
{
    if failures == 0 {
        0
    } else if failures == 1 {
        base_ms
    } else {
        let before = backoff_ms(base_ms, (failures - 1) as u32);
        if before > u64::MAX / 2 {
            u64::MAX
        } else {
            (2 * before) as u64
        }
    }
}

impl StageModel {
    /// The path of the file that waits to be in storage.
    pub open spec fn upload_path_of(self) -> Option<Seq<char>> {
        match self {
            StageModel::Uploading { path, .. } => Some(path),
            _ => None,
        }
    }
}

impl PipelineModel {
    /// A pipeline that has accepted nothing yet.
    pub open spec fn fresh(limits: Limits, buffer: AccumulatorModel<serde_json::Value>) -> PipelineModel {
        PipelineModel {
            stage: StageModel::Accumulating,
            limits,
            buffer,
            source_ended: false,
            accepted: Seq::empty(),
            in_flight: Seq::empty(),
            committed: Seq::empty(),
            orphans: Seq::empty(),
        }
    }

    /// The path of the file that the pipeline works on.
    pub open spec fn file_path(self) -> Option<Seq<char>> {
        match self.stage {
            StageModel::Uploading { path, .. } => Some(path),
            StageModel::Committing { path, .. } => Some(path),
            _ => None,
        }
    }

    /// The path of the file that waits to be in storage.
    pub open spec fn upload_path(self) -> Option<Seq<char>> {
        self.stage.upload_path_of()
    }

    /// The action that the pipeline asks for.
    pub open spec fn action(self) -> PipelineAction {
        match self.stage {
            StageModel::Accumulating => PipelineAction::Pull,
            StageModel::Uploading { failures, .. } => PipelineAction::Upload {
                wait_ms: backoff_ms(self.limits.upload_backoff_ms, failures),
            },
            StageModel::Committing { asked, .. } => PipelineAction::Ask(asked),
            StageModel::Done => PipelineAction::Done,
            StageModel::Failed { error } => PipelineAction::Failed(error),
        }
    }

    /// The pipeline after the accumulator has taken an event. A batch that
    /// left the accumulator is written at once: `written` is the path of the
    /// file, or `None` where the batch could not be serialized, which is
    /// fatal.
    pub open spec fn after_feed(
        self,
        fed: (AccumulatorModel<serde_json::Value>, Option<Seq<serde_json::Value>>),
        written: Option<Seq<char>>,
    ) -> PipelineModel {
        match fed.1 {
            None => PipelineModel { buffer: fed.0, ..self },
            Some(batch) => PipelineModel {
                buffer: fed.0,
                in_flight: batch,
                stage: match written {
                    Some(path) => StageModel::Uploading { path, failures: 0 },
                    None => StageModel::Failed { error: PipelineError::Serialization },
                },
                ..self
            },
        }
    }

    /// The pipeline after an event, where `written` is the path of the file
    /// that the event caused to be written, if it caused one.
    ///
    /// An event that does not answer the pipeline's action changes nothing.
    pub open spec fn next(self, event: PipelineEvent, written: Option<Seq<char>>) -> PipelineModel {
        match self.stage {
            StageModel::Accumulating => match event {
                PipelineEvent::Record(record, at_ms) => PipelineModel {
                    accepted: self.accepted.push(record),
                    ..self
                }.after_feed(self.buffer.accept(record, at_ms), written),
                PipelineEvent::Tick(at_ms) => self.after_feed(self.buffer.tick(at_ms), written),
                PipelineEvent::SourceEnded => {
                    let ended = PipelineModel { source_ended: true, ..self };
                    if self.buffer.pending.len() > 0 {
                        ended.after_feed(self.buffer.drain(), written)
                    } else {
                        PipelineModel { stage: StageModel::Done, ..ended }
                    }
                },
                PipelineEvent::SourceFailed => PipelineModel {
                    stage: StageModel::Failed { error: PipelineError::Source },
                    ..self
                },
                _ => self,
            },
            StageModel::Uploading { path, failures } => match event {
                PipelineEvent::Uploaded => PipelineModel {
                    stage: StageModel::Committing {
                        path,
                        attempt: CommitAttempt::initial(self.limits.commit_retries),
                        asked: CatalogRequest::LoadTable,
                    },
                    ..self
                },
                PipelineEvent::UploadFailed => if failures < self.limits.upload_retries {
                    PipelineModel {
                        stage: StageModel::Uploading { path, failures: (failures + 1) as u32 },
                        ..self
                    }
                } else {
                    PipelineModel {
                        stage: StageModel::Failed { error: PipelineError::Upload },
                        ..self
                    }
                },
                _ => self,
            },
            StageModel::Committing { path, attempt, .. } => match event {
                PipelineEvent::Catalog(reply) => {
                    let after = attempt.next(reply);
                    match after.request_spec() {
                        Some(asked) => PipelineModel {
                            stage: StageModel::Committing { path, attempt: after, asked },
                            ..self
                        },
                        None => match after.state {
                            CommitState::Failed { fault } => PipelineModel {
                                stage: StageModel::Failed { error: PipelineError::Catalog(fault) },
                                orphans: self.orphans.push(path),
                                ..self
                            },
                            _ => PipelineModel {
                                stage: if self.source_ended {
                                    StageModel::Done
                                } else {
                                    StageModel::Accumulating
                                },
                                committed: self.committed.push(self.in_flight),
                                in_flight: Seq::empty(),
                                ..self
                            },
                        },
                    }
                },
                _ => self,
            },
            StageModel::Done => self,
            StageModel::Failed { .. } => self,
        }
    }

    /// Nothing is lost and nothing is processed twice: the committed batches,
    /// then the batch in flight, then the buffer are exactly the records
    /// accepted, in order. A commit in progress has not ended.
    pub open spec fn wf(self) -> bool {
        &&& self.buffer.wf()
        &&& self.committed.flatten() + self.in_flight + self.buffer.pending == self.accepted
        &&& self.stage matches StageModel::Committing { attempt, asked, .. }
            ==> attempt.request_spec() == Some(asked)
        &&& self.source_ended ==> self.buffer.pending.len() == 0
        &&& self.stage is Accumulating ==> self.in_flight.len() == 0 && !self.source_ended
        &&& self.stage is Done ==> self.in_flight.len() == 0 && self.buffer.pending.len() == 0
            && self.source_ended
        &&& self.stage matches StageModel::Uploading { failures, .. } ==> failures
            <= self.limits.upload_retries
    }
}

/// No event loses a record, and none makes the pipeline process one twice:
/// after every event the committed batches, the batch in flight and the
/// buffer are still exactly the records accepted, in order.
pub proof fn next_keeps_records(
    state: PipelineModel,
    event: PipelineEvent,
    written: Option<Seq<char>>,
)
    requires
        state.wf(),
    ensures
        state.next(event, written).wf(),
        state.next(event, written).limits == state.limits,
{
    state.committed.lemma_flatten_push(state.in_flight);
}

/// A file that has reached storage is never dropped in silence: after every
/// event its commit is still under way, or its batch has joined the committed
/// ones, or its path has been put down as an orphan.
pub proof fn stored_file_is_committed_or_kept(
    state: PipelineModel,
    event: PipelineEvent,
    written: Option<Seq<char>>,
    path: Seq<char>,
)
    requires
        state.wf(),
        state.stage is Committing,
        state.file_path() == Some(path),
    ensures
        ({
            let after = state.next(event, written);
            ||| after.stage is Committing && after.file_path() == Some(path)
            ||| after.committed == state.committed.push(state.in_flight)
            ||| after.orphans == state.orphans.push(path)
        }),
{
}

/// A batch that has left the accumulator stays in flight until it is
/// committed: no event but the catalog's word that the file is registered
/// empties it, and none changes it.
pub proof fn batch_in_flight_stays(
    state: PipelineModel,
    event: PipelineEvent,
    written: Option<Seq<char>>,
)
    requires
        state.wf(),
        state.in_flight.len() > 0,
    ensures
        ({
            let after = state.next(event, written);
            ||| after.in_flight == state.in_flight && after.committed == state.committed
            ||| after.in_flight.len() == 0 && after.committed == state.committed.push(
                state.in_flight,
            )
        }),
{
}

/// The columns of a batch of records of one entity, coerced at `now_ms`: each
/// column of the schema with its values.
pub open spec fn entity_columns(
    entity: EntityType,
    records: Seq<serde_json::Value>,
    now_ms: i64,
) -> Seq<(ColumnModel, Seq<Cell>)> {
    Seq::new(
        entity_rules(entity).len(),
        |c: int|
            (schema_of(entity)[c], coerced_table(entity_rules(entity), records, now_ms)[c]),
    )
}

/// The file lies at its place in the layout of a table: under the prefix, the
/// namespace and the table, as part 0 of a run with an identifier of the UUID
/// shape, under a date as its ingestion date, at the path that belongs to
/// its partition key.
pub open spec fn placed(
    file: &ColumnarFile,
    prefix: Seq<char>,
    namespace: Seq<char>,
    table: Seq<char>,
) -> bool {
    &&& file.part == 0
    &&& is_date_text(file.ingest_date@)
    &&& is_run_id(file.run_id@)
    &&& file.path@ == storage_path(
        prefix,
        namespace,
        table,
        file.ingest_date@,
        file.run_id@,
        0,
    )
    &&& is_plain_route(prefix, namespace, table) ==> at_layout(file, prefix, namespace, table)
}

/// The file holds the given records of the entity: it has one row for each,
/// and its bytes are the Parquet image of a record batch whose columns are
/// the records coerced under the entity's schema at one instant.
pub open spec fn encodes(
    file: &ColumnarFile,
    entity: EntityType,
    records: Seq<serde_json::Value>,
) -> bool {
    &&& file.row_count == records.len()
    &&& exists|now_ms: i64| parquet_of(entity_columns(entity, records, now_ms), file.bytes@)
}

/// The records of the entity cannot be serialized: coerced at some instant,
/// the texts of one of their columns take more bytes than Arrow can address,
/// or the Parquet writer refuses the record batch made of them. Nothing else
/// keeps a batch of an entity from being written.
pub open spec fn unserializable(entity: EntityType, records: Seq<serde_json::Value>) -> bool {
    exists|now_ms: i64|
        #![trigger coerced_table(entity_rules(entity), records, now_ms)]
        text_too_large(coerced_table(entity_rules(entity), records, now_ms)) || parquet_refuses(
            entity_columns(entity, records, now_ms),
        )
}

/// Where a pipeline stands, with the file it is working on.
enum Stage {
    Accumulating,
    Uploading { file: ColumnarFile, failures: u32 },
    Committing { file: ColumnarFile, attempt: CommitAttempt, asked: CatalogRequest },
    Done,
    Failed { error: PipelineError },
}

impl View for Stage {
    type V = StageModel;

    closed spec fn view(&self) -> StageModel {
        match self {
            Stage::Accumulating => StageModel::Accumulating,
            Stage::Uploading { file, failures } => StageModel::Uploading {
                path: file.path@,
                failures: *failures,
            },
            Stage::Committing { file, attempt, asked } => StageModel::Committing {
                path: file.path@,
                attempt: *attempt,
                asked: *asked,
            },
            Stage::Done => StageModel::Done,
            Stage::Failed { error } => StageModel::Failed { error: *error },
        }
    }
}

impl Stage {
    /// The file that the stage works on.
    spec fn file(&self) -> Option<ColumnarFile> {
        match self {
            Stage::Uploading { file, .. } => Some(*file),
            Stage::Committing { file, .. } => Some(*file),
            _ => None,
        }
    }
}

/// How many times an upload is tried again, unless told otherwise.
pub const DEFAULT_UPLOAD_RETRIES: u32 = 3;

/// The wait before the first repeated upload, in milliseconds, unless told
/// otherwise.
pub const DEFAULT_UPLOAD_BACKOFF_MS: u64 = 200;

/// The limits that a pipeline starts with.
pub open spec fn default_limits() -> Limits {
    Limits {
        upload_retries: DEFAULT_UPLOAD_RETRIES,
        upload_backoff_ms: DEFAULT_UPLOAD_BACKOFF_MS,
        commit_retries: DEFAULT_COMMIT_RETRIES,
    }
}

/// The wait before an upload that follows `failures` failed ones.
pub fn upload_wait_ms(base_ms: u64, failures: u32) -> (wait_ms: u64)
    ensures
        wait_ms == backoff_ms(base_ms, failures),
{
    if failures == 0 {
        return 0;
    }
    let mut wait_ms: u64 = base_ms;
    let mut done: u32 = 1;
    while done < failures
        invariant
            1 <= done <= failures,
            wait_ms == backoff_ms(base_ms, done),
        decreases failures - done,
    {
        if wait_ms > u64::MAX / 2 {
            wait_ms = u64::MAX;
        } else {
            wait_ms = 2 * wait_ms;
        }
        done += 1;
    }
    wait_ms
}

/// A count as a signed 64-bit number, or the largest such number where the
/// count exceeds it.
pub open spec fn clamped(n: nat) -> i64 {
    if n <= i64::MAX {
        n as i64
    } else {
        i64::MAX
    }
}

fn clamp(n: usize) -> (out: i64)
    ensures
        out == clamped(n as nat),
{
    let wide = n as u64;
    if wide <= 0x7fff_ffff_ffff_ffff {
        wide as i64
    } else {
        i64::MAX
    }
}

/// Coerces and writes a batch that has left the accumulator. The batch comes
/// back where it could not be serialized.
fn write_batch(
    entity: EntityType,
    namespace: &str,
    sink: &ParquetSink,
    records: Vec<serde_json::Value>,
) -> (out: (Stage, Vec<serde_json::Value>))
    ensures
        out.0 is Uploading || out.0 is Failed,
        out.0 matches Stage::Uploading { file, failures } ==> failures == 0 && encodes(
            &file,
            entity,
            records@,
        ) && placed(&file, sink.prefix@, namespace@, collection_of(entity)),
        out.0 matches Stage::Failed { error } ==> error == PipelineError::Serialization && out.1@
            == records@ && unserializable(entity, records@),
{
    let batch = coerce_now(entity, records.as_slice());
    proof {
        assert(batch.table().len() == batch.columns.len());
        assert(columns_with_schema(&batch) =~= entity_columns(
            entity,
            records@,
            batch.ingest_ts_ms,
        ));
        stamp_is_last_and_only(entity);
    }
    match sink.write(namespace, entity.collection_name(), &batch) {
        Ok(file) => (Stage::Uploading { file, failures: 0 }, Vec::new()),
        Err(_) => {
            assert(text_too_large(
                coerced_table(entity_rules(entity), records@, batch.ingest_ts_ms),
            ) || parquet_refuses(entity_columns(entity, records@, batch.ingest_ts_ms)));
            (Stage::Failed { error: PipelineError::Serialization }, records)
        },
    }
}

/// One pipeline: the records of one entity on their way into one table.
pub struct Pipeline {
    entity: EntityType,
    namespace: String,
    sink: ParquetSink,
    accumulator: BatchAccumulator<serde_json::Value>,
    stage: Stage,
    upload_retries: u32,
    upload_backoff_ms: u64,
    commit_retries: u32,
    source_ended: bool,
    orphans: Vec<String>,
    unwritten: Vec<serde_json::Value>,
    accepted: Ghost<Seq<serde_json::Value>>,
    in_flight: Ghost<Seq<serde_json::Value>>,
    committed: Ghost<Seq<Seq<serde_json::Value>>>,
}

impl View for Pipeline {
    type V = PipelineModel;

    closed spec fn view(&self) -> PipelineModel {
        PipelineModel {
            stage: self.stage@,
            limits: Limits {
                upload_retries: self.upload_retries,
                upload_backoff_ms: self.upload_backoff_ms,
                commit_retries: self.commit_retries,
            },
            buffer: self.accumulator@,
            source_ended: self.source_ended,
            accepted: self.accepted@,
            in_flight: self.in_flight@,
            committed: self.committed@,
            orphans: texts(self.orphans@),
        }
    }
}

impl Pipeline {
    /// The entity that this pipeline ingests.
    pub closed spec fn entity_spec(&self) -> EntityType {
        self.entity
    }

    /// The namespace of the destination table.
    pub closed spec fn namespace_spec(&self) -> Seq<char> {
        self.namespace@
    }

    /// The bucket that receives the files.
    pub closed spec fn bucket_spec(&self) -> Seq<char> {
        self.sink.bucket@
    }

    /// The path prefix inside the bucket.
    pub closed spec fn prefix_spec(&self) -> Seq<char> {
        self.sink.prefix@
    }

    /// The file that the pipeline works on.
    pub closed spec fn file_spec(&self) -> Option<ColumnarFile> {
        self.stage.file()
    }

    /// The batch that was kept because it could not be serialized.
    pub closed spec fn unwritten_spec(&self) -> Seq<serde_json::Value> {
        self.unwritten@
    }

    /// Every pipeline is consistent at all times: no record is lost or
    /// doubled, the file it works on holds the batch in flight and lies at
    /// its place in the table's layout, and a pipeline that has failed in
    /// serializing a batch has kept that batch and failed for good reason:
    /// the batch cannot be serialized.
    #[verifier::type_invariant]
    pub open spec fn inv(&self) -> bool {
        &&& self@.wf()
        &&& self.file_spec() matches Some(file) ==> self@.file_path() == Some(file.path@)
            && encodes(&file, self.entity_spec(), self@.in_flight) && placed(
            &file,
            self.prefix_spec(),
            self.namespace_spec(),
            collection_of(self.entity_spec()),
        )
        &&& self@.file_path() is Some ==> self.file_spec() is Some
        &&& self@.stage == (StageModel::Failed { error: PipelineError::Serialization })
            ==> self.unwritten_spec() == self@.in_flight && unserializable(
            self.entity_spec(),
            self@.in_flight,
        )
    }

    /// The same pipeline in another state.
    pub open spec fn same_route(&self, other: &Pipeline) -> bool {
        &&& self.entity_spec() == other.entity_spec()
        &&& self.namespace_spec() == other.namespace_spec()
        &&& self.bucket_spec() == other.bucket_spec()
        &&& self.prefix_spec() == other.prefix_spec()
    }

    /// A pipeline for one entity under the given configuration, with its
    /// timer started at `now_ms`.
    pub fn new(entity: EntityType, config: &Config, now_ms: u64) -> (made: Pipeline)
        ensures
            made.inv(),
            made.entity_spec() == entity,
            made.namespace_spec() == config.table_ns@,
            made.bucket_spec() == config.gcs_bucket@,
            made.prefix_spec() == config.gcs_prefix@,
            made@ == PipelineModel::fresh(
                default_limits(),
                AccumulatorModel::fresh(
                    config.batch_max_rows as nat,
                    config.batch_max_seconds as nat,
                    now_ms as nat,
                ),
            ),
    {
        let namespace = config.table_ns.clone();
        let sink = ParquetSink::new(config.gcs_bucket.as_str(), config.gcs_prefix.as_str());
        let accumulator = BatchAccumulator::new(
            config.batch_max_rows,
            config.batch_max_seconds,
            now_ms,
        );
        let orphans: Vec<String> = Vec::new();
        proof {
            assert(texts(orphans@) =~= Seq::<Seq<char>>::empty());
        }
        Pipeline {
            entity,
            namespace,
            sink,
            accumulator,
            stage: Stage::Accumulating,
            upload_retries: DEFAULT_UPLOAD_RETRIES,
            upload_backoff_ms: DEFAULT_UPLOAD_BACKOFF_MS,
            commit_retries: DEFAULT_COMMIT_RETRIES,
            source_ended: false,
            orphans,
            unwritten: Vec::new(),
            accepted: Ghost(Seq::empty()),
            in_flight: Ghost(Seq::empty()),
            committed: Ghost(Seq::empty()),
        }
    }

    /// A pipeline for the entity that a collection holds. A collection that
    /// belongs to no entity is an error, reported before anything is read or
    /// written.
    pub fn for_collection(collection: &str, config: &Config, now_ms: u64) -> (made: Result<
        Pipeline,
        PipelineError,
    >)
        ensures
            made is Ok <==> exists|entity: EntityType| collection_of(entity) == collection@,
            made matches Err(e) ==> e == PipelineError::UnknownEntity,
            made matches Ok(pipeline) ==> {
                &&& pipeline.inv()
                &&& collection_of(pipeline.entity_spec()) == collection@
                &&& pipeline.namespace_spec() == config.table_ns@
                &&& pipeline.bucket_spec() == config.gcs_bucket@
                &&& pipeline.prefix_spec() == config.gcs_prefix@
                &&& pipeline@ == PipelineModel::fresh(
                    default_limits(),
                    AccumulatorModel::fresh(
                        config.batch_max_rows as nat,
                        config.batch_max_seconds as nat,
                        now_ms as nat,
                    ),
                )
            },
    {
        match EntityType::from_collection(collection) {
            Ok(entity) => Ok(Pipeline::new(entity, config, now_ms)),
            Err(e) => Err(e),
        }
    }

    /// The same pipeline with other limits. Only a pipeline that is
    /// collecting records takes them; any other stays as it is.
    pub fn with_limits(self, upload_retries: u32, upload_backoff_ms: u64, commit_retries: u32) -> (made:
        Pipeline)
        ensures
            made.inv(),
            made.same_route(&self),
            self@.stage is Accumulating ==> made@ == (PipelineModel {
                limits: Limits { upload_retries, upload_backoff_ms, commit_retries },
                ..self@
            }),
            !(self@.stage is Accumulating) ==> made@ == self@,
    {
        proof {
            use_type_invariant(&self);
        }
        match self.stage {
            Stage::Accumulating => Pipeline {
                upload_retries,
                upload_backoff_ms,
                commit_retries,
                stage: Stage::Accumulating,
                entity: self.entity,
                namespace: self.namespace,
                sink: self.sink,
                accumulator: self.accumulator,
                source_ended: self.source_ended,
                orphans: self.orphans,
                unwritten: self.unwritten,
                accepted: self.accepted,
                in_flight: self.in_flight,
                committed: self.committed,
            },
            _ => self,
        }
    }

    /// The action that the pipeline asks for.
    pub fn action(&self) -> (action: PipelineAction)
        ensures
            action == self@.action(),
    {
        match &self.stage {
            Stage::Accumulating => PipelineAction::Pull,
            Stage::Uploading { failures, .. } => PipelineAction::Upload {
                wait_ms: upload_wait_ms(self.upload_backoff_ms, *failures),
            },
            Stage::Committing { asked, .. } => PipelineAction::Ask(*asked),
            Stage::Done => PipelineAction::Done,
            Stage::Failed { error } => PipelineAction::Failed(*error),
        }
    }

    /// The file that the pipeline works on: the one to upload, or the one
    /// whose commit is under way. It holds the batch in flight.
    pub fn file(&self) -> (file: Option<&ColumnarFile>)
        ensures
            self.inv(),
            file is Some <==> self@.stage is Uploading || self@.stage is Committing,
            file matches Some(f) ==> Some(*f) == self.file_spec(),
    {
        proof {
            use_type_invariant(self);
        }
        match &self.stage {
            Stage::Uploading { file, .. } => Some(file),
            Stage::Committing { file, .. } => Some(file),
            _ => None,
        }
    }

    /// What the commit under way is about: the table of the entity in the
    /// pipeline's namespace, the entity's schema, and the file by its address
    /// with scheme and bucket, its length and its number of rows.
    pub fn target(&self) -> (target: Option<CommitTarget>)
        ensures
            self.inv(),
            target is Some <==> self@.stage is Committing,
            target matches Some(t) ==> {
                &&& t.namespace@ == self.namespace_spec()
                &&& t.table@ == collection_of(self.entity_spec())
                &&& column_models(t.schema@) == schema_of(self.entity_spec())
                &&& self@.file_path() matches Some(path) && t.file@.path == object_url_text(
                    self.bucket_spec(),
                    path,
                )
                &&& self.file_spec() matches Some(f) && t.file@.len_bytes == clamped(f.bytes@.len())
                &&& t.file@.row_count == clamped(self@.in_flight.len())
            },
    {
        proof {
            use_type_invariant(self);
        }
        match &self.stage {
            Stage::Committing { file, .. } => Some(
                CommitTarget {
                    namespace: self.namespace.clone(),
                    table: self.entity.collection_name().to_owned(),
                    schema: schema_for(self.entity),
                    file: DataFile {
                        path: self.sink.object_url(file.path.as_str()),
                        len_bytes: clamp(file.bytes.len()),
                        row_count: clamp(file.row_count),
                    },
                },
            ),
            _ => None,
        }
    }

    /// The paths of the files that reached storage and could not be
    /// registered.
    pub fn orphans(&self) -> (paths: &Vec<String>)
        ensures
            texts(paths@) == self@.orphans,
    {
        &self.orphans
    }

    /// The batch that was kept because it could not be serialized.
    pub fn unwritten(&self) -> (records: &Vec<serde_json::Value>)
        ensures
            self.inv(),
            records@ == self.unwritten_spec(),
    {
        proof {
            use_type_invariant(self);
        }
        &self.unwritten
    }

    /// A pipeline that has failed before it began. It stands in for a
    /// pipeline that is being worked on.
    fn idle() -> (made: Pipeline)
        ensures
            made.inv(),
    {
        let orphans: Vec<String> = Vec::new();
        let accumulator: BatchAccumulator<serde_json::Value> = BatchAccumulator::new(0, 0, 0);
        Pipeline {
            entity: EntityType::Order,
            namespace: String::new(),
            sink: ParquetSink::new("", ""),
            accumulator,
            stage: Stage::Failed { error: PipelineError::Source },
            upload_retries: 0,
            upload_backoff_ms: 0,
            commit_retries: 0,
            source_ended: false,
            orphans,
            unwritten: Vec::new(),
            accepted: Ghost(Seq::empty()),
            in_flight: Ghost(Seq::empty()),
            committed: Ghost(Seq::empty()),
        }
    }

    /// The pipeline after an event.
    fn after(self, event: PipelineEvent) -> (next: Pipeline)
        ensures
            next.inv(),
            next@ == self@.next(event, next@.upload_path()),
            next.same_route(&self),
    {
        proof {
            use_type_invariant(&self);
        }
        let ghost before = self@;
        let Pipeline {
            entity,
            namespace,
            sink,
            accumulator,
            stage,
            upload_retries,
            upload_backoff_ms,
            commit_retries,
            source_ended,
            orphans,
            unwritten,
            accepted,
            in_flight,
            committed,
        } = self;
        let mut accumulator = accumulator;
        let mut source_ended = source_ended;
        let mut orphans = orphans;
        let mut unwritten = unwritten;
        let mut accepted = accepted;
        let mut in_flight = in_flight;
        let mut committed = committed;
        let new_stage = match stage {
            Stage::Accumulating => {
                let batch = match event {
                    PipelineEvent::Record(record, at_ms) => {
                        accepted = Ghost(accepted@.push(record));
                        (true, accumulator.accept(record, at_ms))
                    },
                    PipelineEvent::Tick(at_ms) => (true, accumulator.tick(at_ms)),
                    PipelineEvent::SourceEnded => {
                        source_ended = true;
                        (true, accumulator.drain())
                    },
                    PipelineEvent::SourceFailed => (false, None),
                    _ => (true, None),
                };
                match batch {
                    (true, Some(records)) => {
                        in_flight = Ghost(records@);
                        let (written, kept) = write_batch(
                            entity,
                            namespace.as_str(),
                            &sink,
                            records,
                        );
                        unwritten = kept;
                        written
                    },
                    (true, None) => if source_ended {
                        Stage::Done
                    } else {
                        Stage::Accumulating
                    },
                    (false, _) => Stage::Failed { error: PipelineError::Source },
                }
            },
            Stage::Uploading { file, failures } => match event {
                PipelineEvent::Uploaded => Stage::Committing {
                    file,
                    attempt: CommitAttempt::start(commit_retries),
                    asked: CatalogRequest::LoadTable,
                },
                PipelineEvent::UploadFailed => if failures < upload_retries {
                    Stage::Uploading { file, failures: failures + 1 }
                } else {
                    Stage::Failed { error: PipelineError::Upload }
                },
                _ => Stage::Uploading { file, failures },
            },
            Stage::Committing { file, attempt, asked } => match event {
                PipelineEvent::Catalog(reply) => {
                    let after = attempt.advance(reply);
                    match after.request() {
                        Some(next) => Stage::Committing { file, attempt: after, asked: next },
                        None => match after.state {
                            CommitState::Failed { fault } => {
                                let ghost listed = texts(orphans@);
                                orphans.push(file.path);
                                assert(texts(orphans@) =~= listed.push(file.path@));
                                Stage::Failed { error: PipelineError::Catalog(fault) }
                            },
                            _ => {
                                committed = Ghost(committed@.push(in_flight@));
                                in_flight = Ghost(Seq::empty());
                                if source_ended {
                                    Stage::Done
                                } else {
                                    Stage::Accumulating
                                }
                            },
                        },
                    }
                },
                _ => Stage::Committing { file, attempt, asked },
            },
            Stage::Done => Stage::Done,
            Stage::Failed { error } => Stage::Failed { error },
        };
        proof {
            next_keeps_records(before, event, new_stage@.upload_path_of());
        }
        Pipeline {
            entity,
            namespace,
            sink,
            accumulator,
            stage: new_stage,
            upload_retries,
            upload_backoff_ms,
            commit_retries,
            source_ended,
            orphans,
            unwritten,
            accepted,
            in_flight,
            committed,
        }
    }

    /// Takes what came of the last action and decides the next one.
    ///
    /// A record or a tick goes to the accumulator; a batch that leaves it is
    /// coerced and written at once and waits for its upload. An upload that
    /// failed is repeated after a growing wait until the retries are used
    /// up. Once the file is in storage the commit protocol runs; when it has
    /// registered the file the pipeline pulls again, or is done if the source
    /// has ended. A file that is in storage and cannot be registered is put
    /// down as an orphan. An event that does not answer the action asked for
    /// changes nothing.
    ///
    /// Writing a batch fails only where the batch cannot be serialized: the
    /// texts of one of its columns are more than Arrow can address, or the
    /// Parquet writer refuses it. The invariant says so of every pipeline
    /// that has failed in serializing.
    pub fn handle(&mut self, event: PipelineEvent) -> (action: PipelineAction)
        ensures
            old(self).inv(),
            final(self).inv(),
            final(self)@ == old(self)@.next(event, final(self)@.upload_path()),
            action == final(self)@.action(),
            final(self).same_route(old(self)),
    {
        proof {
            use_type_invariant(&*self);
        }
        let mut taken = Pipeline::idle();
        core::mem::swap(&mut taken, self);
        *self = taken.after(event);
        self.action()
    }
}

} // verus!
