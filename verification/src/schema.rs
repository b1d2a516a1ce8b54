//! The entity schema registry: for each entity type its fixed column schema
//! and the rule by which each column is filled from a record.

use vstd::prelude::*;
use crate::columnar::ColumnarBatch;
use crate::error::PipelineError;
use crate::pipeline::transform::{coerce_now, coerced_table};
use crate::text::same_text;

verus! {

/// The closed set of entity types that the pipeline ingests.
#[derive(Clone, Copy, Debug, PartialEq, Eq, Structural)]
pub enum EntityType {
    Order,
    Variety,
    VarietyInventory,
    Material,
    Batch,
    InventoryTransaction,
}

/// The semantic type of a column.
#[derive(Clone, Copy, Debug, PartialEq, Eq, Structural)]
pub enum ColumnType {
    /// UTF-8 text.
    Utf8,
    /// A 64-bit float.
    Float64,
    /// An unsigned 32-bit integer.
    UInt32,
    /// Milliseconds since the Unix epoch, without a time zone.
    TimestampMillis,
}

/// One column of a schema.
#[derive(Debug)]
pub struct ColumnSpec {
    pub name: String,
    pub kind: ColumnType,
    pub nullable: bool,
}

/// The mathematical content of a `ColumnSpec`.
pub struct ColumnModel {
    pub name: Seq<char>,
    pub kind: ColumnType,
    pub nullable: bool,
}

impl View for ColumnSpec {
    type V = ColumnModel;

    open spec fn view(&self) -> ColumnModel {
        ColumnModel { name: self.name@, kind: self.kind, nullable: self.nullable }
    }
}

impl ColumnSpec {
    /// A copy of this column.
    pub fn duplicate(&self) -> (copy: ColumnSpec)
        ensures
            copy@ == self@,
    {
        ColumnSpec { name: self.name.clone(), kind: self.kind, nullable: self.nullable }
    }
}

/// Where a column's values come from, and how they are read. The variant
/// fixes the column's type.
///
/// Where a variant carries field names they are tried in order, the primary
/// name first and the aliases after it; the first that holds a value of the
/// right kind wins.
#[derive(Debug)]
pub enum Source {
    /// The field's string, as it is.
    Text(Vec<String>),
    /// The field's number, as a 64-bit float.
    Number(Vec<String>),
    /// The field's number, where it is a non-negative integer that fits 32
    /// bits.
    Unsigned(Vec<String>),
    /// The field's string, parsed as a timestamp.
    Timestamp(Vec<String>),
    /// The clock: the instant at which the batch was coerced.
    IngestClock,
}

/// The mathematical content of a `Source`.
pub enum SourceModel {
    Text(Seq<Seq<char>>),
    Number(Seq<Seq<char>>),
    Unsigned(Seq<Seq<char>>),
    Timestamp(Seq<Seq<char>>),
    IngestClock,
}

/// The characters of each string of a list.
pub open spec fn texts(names: Seq<String>) -> Seq<Seq<char>> {
    Seq::new(names.len(), |i: int| names[i]@)
}

impl View for Source {
    type V = SourceModel;

    open spec fn view(&self) -> SourceModel {
        match self {
            Source::Text(keys) => SourceModel::Text(texts(keys@)),
            Source::Number(keys) => SourceModel::Number(texts(keys@)),
            Source::Unsigned(keys) => SourceModel::Unsigned(texts(keys@)),
            Source::Timestamp(keys) => SourceModel::Timestamp(texts(keys@)),
            Source::IngestClock => SourceModel::IngestClock,
        }
    }
}

/// The type of the column that a source fills.
pub open spec fn kind_of(source: SourceModel) -> ColumnType {
    match source {
        SourceModel::Text(_) => ColumnType::Utf8,
        SourceModel::Number(_) => ColumnType::Float64,
        SourceModel::Unsigned(_) => ColumnType::UInt32,
        SourceModel::Timestamp(_) => ColumnType::TimestampMillis,
        SourceModel::IngestClock => ColumnType::TimestampMillis,
    }
}

/// The source that reads a value of the given type from the given fields.
pub open spec fn reading(kind: ColumnType, keys: Seq<Seq<char>>) -> SourceModel {
    match kind {
        ColumnType::Utf8 => SourceModel::Text(keys),
        ColumnType::Float64 => SourceModel::Number(keys),
        ColumnType::UInt32 => SourceModel::Unsigned(keys),
        ColumnType::TimestampMillis => SourceModel::Timestamp(keys),
    }
}

/// One column of an entity: its name, whether it may hold nulls, and the rule
/// that fills it.
#[derive(Debug)]
pub struct ColumnRule {
    pub name: String,
    pub nullable: bool,
    pub source: Source,
}

/// The mathematical content of a `ColumnRule`.
pub struct RuleModel {
    pub name: Seq<char>,
    pub nullable: bool,
    pub source: SourceModel,
}

impl View for ColumnRule {
    type V = RuleModel;

    open spec fn view(&self) -> RuleModel {
        RuleModel { name: self.name@, nullable: self.nullable, source: self.source@ }
    }
}

impl RuleModel {
    /// The column that this rule fills.
    pub open spec fn column(self) -> ColumnModel {
        ColumnModel { name: self.name, kind: kind_of(self.source), nullable: self.nullable }
    }
}

impl Source {
    /// The type of the column that this source fills.
    pub fn kind(&self) -> (kind: ColumnType)
        ensures
            kind == kind_of(self@),
    {
        match self {
            Source::Text(_) => ColumnType::Utf8,
            Source::Number(_) => ColumnType::Float64,
            Source::Unsigned(_) => ColumnType::UInt32,
            Source::Timestamp(_) => ColumnType::TimestampMillis,
            Source::IngestClock => ColumnType::TimestampMillis,
        }
    }
}

impl ColumnRule {
    /// The column that this rule fills.
    pub fn column(&self) -> (column: ColumnSpec)
        ensures
            column@ == self@.column(),
    {
        ColumnSpec { name: self.name.clone(), kind: self.source.kind(), nullable: self.nullable }
    }
}

/// The contents of a list of rules.
pub open spec fn rule_models(rules: Seq<ColumnRule>) -> Seq<RuleModel> {
    Seq::new(rules.len(), |i: int| rules[i]@)
}

/// The contents of a list of columns.
pub open spec fn column_models(columns: Seq<ColumnSpec>) -> Seq<ColumnModel> {
    Seq::new(columns.len(), |i: int| columns[i]@)
}

/// A column read from the field of the same name.
pub open spec fn plain(name: Seq<char>, kind: ColumnType, nullable: bool) -> RuleModel {
    RuleModel { name, nullable, source: reading(kind, seq![name]) }
}

/// A column read from the field of the same name or, failing that, from an
/// alias.
pub open spec fn aliased(
    name: Seq<char>,
    alias: Seq<char>,
    kind: ColumnType,
    nullable: bool,
) -> RuleModel {
    RuleModel { name, nullable, source: reading(kind, seq![name, alias]) }
}

/// The synthetic last column of every schema: the ingestion instant.
pub open spec fn ingest_stamp() -> RuleModel {
    RuleModel { name: "_ingest_ts_ms"@, nullable: false, source: SourceModel::IngestClock }
}

/// The columns of orders. Quantity, delivery date and price are also read from
/// the camel-case names that some sources write.
pub open spec fn order_rules() -> Seq<RuleModel> {
    seq![
        plain("id"@, ColumnType::Utf8, false),
        plain("variety"@, ColumnType::Utf8, false),
        aliased("quantity_in_kg"@, "quantityInKg"@, ColumnType::Float64, true),
        aliased("delivery_date"@, "deliveryDate"@, ColumnType::Utf8, true),
        aliased("price_in_euro"@, "priceInEuro"@, ColumnType::Float64, true),
        ingest_stamp(),
    ]
}

/// The columns of varieties.
pub open spec fn variety_rules() -> Seq<RuleModel> {
    seq![
        plain("id"@, ColumnType::Utf8, false),
        plain("name"@, ColumnType::Utf8, false),
        plain("description"@, ColumnType::Utf8, true),
        plain("created_at"@, ColumnType::TimestampMillis, false),
        plain("updated_at"@, ColumnType::TimestampMillis, false),
        ingest_stamp(),
    ]
}

/// The columns of the per-variety inventory.
pub open spec fn variety_inventory_rules() -> Seq<RuleModel> {
    seq![
        plain("id"@, ColumnType::Utf8, false),
        plain("variety_id"@, ColumnType::Utf8, false),
        plain("quantity_in_stock"@, ColumnType::Float64, false),
        plain("unit"@, ColumnType::Utf8, false),
        plain("last_updated"@, ColumnType::TimestampMillis, false),
        plain("created_at"@, ColumnType::TimestampMillis, false),
        plain("updated_at"@, ColumnType::TimestampMillis, false),
        ingest_stamp(),
    ]
}

/// The columns of materials.
pub open spec fn material_rules() -> Seq<RuleModel> {
    seq![
        plain("id"@, ColumnType::Utf8, false),
        plain("name"@, ColumnType::Utf8, false),
        plain("unit"@, ColumnType::Utf8, false),
        plain("quantity_in_stock"@, ColumnType::Float64, false),
        plain("created_at"@, ColumnType::TimestampMillis, false),
        plain("updated_at"@, ColumnType::TimestampMillis, false),
        ingest_stamp(),
    ]
}

/// The columns of cultivation batches.
pub open spec fn batch_rules() -> Seq<RuleModel> {
    seq![
        plain("id"@, ColumnType::Utf8, false),
        plain("variety_id"@, ColumnType::Utf8, false),
        plain("status"@, ColumnType::Utf8, false),
        plain("inoculation_date"@, ColumnType::Utf8, false),
        plain("expected_harvest_date"@, ColumnType::Utf8, false),
        plain("actual_harvest_date"@, ColumnType::Utf8, true),
        plain("quantity_planted"@, ColumnType::UInt32, false),
        plain("quantity_harvested"@, ColumnType::Float64, true),
        plain("notes"@, ColumnType::Utf8, true),
        plain("created_at"@, ColumnType::TimestampMillis, false),
        plain("updated_at"@, ColumnType::TimestampMillis, false),
        ingest_stamp(),
    ]
}

/// The columns of inventory transactions.
pub open spec fn inventory_transaction_rules() -> Seq<RuleModel> {
    seq![
        plain("id"@, ColumnType::Utf8, false),
        plain("transaction_type"@, ColumnType::Utf8, false),
        plain("material_id"@, ColumnType::Utf8, true),
        plain("variety_id"@, ColumnType::Utf8, true),
        plain("quantity"@, ColumnType::Float64, false),
        plain("unit"@, ColumnType::Utf8, false),
        plain("reason"@, ColumnType::Utf8, false),
        plain("batch_id"@, ColumnType::Utf8, true),
        plain("order_id"@, ColumnType::Utf8, true),
        plain("created_at"@, ColumnType::TimestampMillis, false),
        plain("updated_at"@, ColumnType::TimestampMillis, false),
        ingest_stamp(),
    ]
}

/// The registry: the rules of each entity type, in column order.
pub open spec fn entity_rules(entity: EntityType) -> Seq<RuleModel> {
    match entity {
        EntityType::Order => order_rules(),
        EntityType::Variety => variety_rules(),
        EntityType::VarietyInventory => variety_inventory_rules(),
        EntityType::Material => material_rules(),
        EntityType::Batch => batch_rules(),
        EntityType::InventoryTransaction => inventory_transaction_rules(),
    }
}

/// Every entity's last column is the ingestion stamp, and no other column is
/// filled from the clock.
pub proof fn stamp_is_last_and_only(entity: EntityType)
    ensures
        entity_rules(entity).len() > 0,
        entity_rules(entity).last() == ingest_stamp(),
        forall|c: int|
            0 <= c < entity_rules(entity).len() - 1 ==> (#[trigger] entity_rules(entity)[c]).source
                != SourceModel::IngestClock,
{
}

/// The columns of a list of rules.
pub open spec fn columns_of(rules: Seq<RuleModel>) -> Seq<ColumnModel> {
    Seq::new(rules.len(), |i: int| rules[i].column())
}

/// The fixed schema of an entity type.
pub open spec fn schema_of(entity: EntityType) -> Seq<ColumnModel> {
    columns_of(entity_rules(entity))
}

fn reading_source(kind: ColumnType, keys: Vec<String>) -> (source: Source)
    ensures
        source@ == reading(kind, texts(keys@)),
{
    match kind {
        ColumnType::Utf8 => Source::Text(keys),
        ColumnType::Float64 => Source::Number(keys),
        ColumnType::UInt32 => Source::Unsigned(keys),
        ColumnType::TimestampMillis => Source::Timestamp(keys),
    }
}

fn plain_rule(name: &str, kind: ColumnType, nullable: bool) -> (rule: ColumnRule)
    ensures
        rule@ == plain(name@, kind, nullable),
{
    let mut keys: Vec<String> = Vec::new();
    keys.push(name.to_owned());
    assert(texts(keys@) =~= seq![name@]);
    ColumnRule { name: name.to_owned(), nullable, source: reading_source(kind, keys) }
}

fn aliased_rule(name: &str, alias: &str, kind: ColumnType, nullable: bool) -> (rule: ColumnRule)
    ensures
        rule@ == aliased(name@, alias@, kind, nullable),
{
    let mut keys: Vec<String> = Vec::new();
    keys.push(name.to_owned());
    keys.push(alias.to_owned());
    assert(texts(keys@) =~= seq![name@, alias@]);
    ColumnRule { name: name.to_owned(), nullable, source: reading_source(kind, keys) }
}

fn stamp_rule() -> (rule: ColumnRule)
    ensures
        rule@ == ingest_stamp(),
{
    ColumnRule { name: "_ingest_ts_ms".to_owned(), nullable: false, source: Source::IngestClock }
}

fn order_descriptor() -> (rules: Vec<ColumnRule>)
    ensures
        rule_models(rules@) == order_rules(),
{
    let mut rules: Vec<ColumnRule> = Vec::new();
    rules.push(plain_rule("id", ColumnType::Utf8, false));
    rules.push(plain_rule("variety", ColumnType::Utf8, false));
    rules.push(aliased_rule("quantity_in_kg", "quantityInKg", ColumnType::Float64, true));
    rules.push(aliased_rule("delivery_date", "deliveryDate", ColumnType::Utf8, true));
    rules.push(aliased_rule("price_in_euro", "priceInEuro", ColumnType::Float64, true));
    rules.push(stamp_rule());
    rules
}

fn variety_descriptor() -> (rules: Vec<ColumnRule>)
    ensures
        rule_models(rules@) == variety_rules(),
{
    let mut rules: Vec<ColumnRule> = Vec::new();
    rules.push(plain_rule("id", ColumnType::Utf8, false));
    rules.push(plain_rule("name", ColumnType::Utf8, false));
    rules.push(plain_rule("description", ColumnType::Utf8, true));
    rules.push(plain_rule("created_at", ColumnType::TimestampMillis, false));
    rules.push(plain_rule("updated_at", ColumnType::TimestampMillis, false));
    rules.push(stamp_rule());
    rules
}

fn variety_inventory_descriptor() -> (rules: Vec<ColumnRule>)
    ensures
        rule_models(rules@) == variety_inventory_rules(),
{
    let mut rules: Vec<ColumnRule> = Vec::new();
    rules.push(plain_rule("id", ColumnType::Utf8, false));
    rules.push(plain_rule("variety_id", ColumnType::Utf8, false));
    rules.push(plain_rule("quantity_in_stock", ColumnType::Float64, false));
    rules.push(plain_rule("unit", ColumnType::Utf8, false));
    rules.push(plain_rule("last_updated", ColumnType::TimestampMillis, false));
    rules.push(plain_rule("created_at", ColumnType::TimestampMillis, false));
    rules.push(plain_rule("updated_at", ColumnType::TimestampMillis, false));
    rules.push(stamp_rule());
    rules
}

fn material_descriptor() -> (rules: Vec<ColumnRule>)
    ensures
        rule_models(rules@) == material_rules(),
{
    let mut rules: Vec<ColumnRule> = Vec::new();
    rules.push(plain_rule("id", ColumnType::Utf8, false));
    rules.push(plain_rule("name", ColumnType::Utf8, false));
    rules.push(plain_rule("unit", ColumnType::Utf8, false));
    rules.push(plain_rule("quantity_in_stock", ColumnType::Float64, false));
    rules.push(plain_rule("created_at", ColumnType::TimestampMillis, false));
    rules.push(plain_rule("updated_at", ColumnType::TimestampMillis, false));
    rules.push(stamp_rule());
    rules
}

fn batch_descriptor() -> (rules: Vec<ColumnRule>)
    ensures
        rule_models(rules@) == batch_rules(),
{
    let mut rules: Vec<ColumnRule> = Vec::new();
    rules.push(plain_rule("id", ColumnType::Utf8, false));
    rules.push(plain_rule("variety_id", ColumnType::Utf8, false));
    rules.push(plain_rule("status", ColumnType::Utf8, false));
    rules.push(plain_rule("inoculation_date", ColumnType::Utf8, false));
    rules.push(plain_rule("expected_harvest_date", ColumnType::Utf8, false));
    rules.push(plain_rule("actual_harvest_date", ColumnType::Utf8, true));
    rules.push(plain_rule("quantity_planted", ColumnType::UInt32, false));
    rules.push(plain_rule("quantity_harvested", ColumnType::Float64, true));
    rules.push(plain_rule("notes", ColumnType::Utf8, true));
    rules.push(plain_rule("created_at", ColumnType::TimestampMillis, false));
    rules.push(plain_rule("updated_at", ColumnType::TimestampMillis, false));
    rules.push(stamp_rule());
    rules
}

fn inventory_transaction_descriptor() -> (rules: Vec<ColumnRule>)
    ensures
        rule_models(rules@) == inventory_transaction_rules(),
{
    let mut rules: Vec<ColumnRule> = Vec::new();
    rules.push(plain_rule("id", ColumnType::Utf8, false));
    rules.push(plain_rule("transaction_type", ColumnType::Utf8, false));
    rules.push(plain_rule("material_id", ColumnType::Utf8, true));
    rules.push(plain_rule("variety_id", ColumnType::Utf8, true));
    rules.push(plain_rule("quantity", ColumnType::Float64, false));
    rules.push(plain_rule("unit", ColumnType::Utf8, false));
    rules.push(plain_rule("reason", ColumnType::Utf8, false));
    rules.push(plain_rule("batch_id", ColumnType::Utf8, true));
    rules.push(plain_rule("order_id", ColumnType::Utf8, true));
    rules.push(plain_rule("created_at", ColumnType::TimestampMillis, false));
    rules.push(plain_rule("updated_at", ColumnType::TimestampMillis, false));
    rules.push(stamp_rule());
    rules
}

/// The descriptor of an entity type: its rules, in column order.
pub fn descriptor(entity: EntityType) -> (rules: Vec<ColumnRule>)
    ensures
        rule_models(rules@) == entity_rules(entity),
{
    match entity {
        EntityType::Order => order_descriptor(),
        EntityType::Variety => variety_descriptor(),
        EntityType::VarietyInventory => variety_inventory_descriptor(),
        EntityType::Material => material_descriptor(),
        EntityType::Batch => batch_descriptor(),
        EntityType::InventoryTransaction => inventory_transaction_descriptor(),
    }
}

/// The columns of a descriptor, in order.
pub fn columns_of_rules(rules: &Vec<ColumnRule>) -> (columns: Vec<ColumnSpec>)
    ensures
        column_models(columns@) == columns_of(rule_models(rules@)),
{
    let mut columns: Vec<ColumnSpec> = Vec::new();
    let mut i: usize = 0;
    while i < rules.len()
        invariant
            i <= rules.len(),
            columns.len() == i,
            forall|k: int| 0 <= k < i ==> columns[k]@ == rules[k]@.column(),
        decreases rules.len() - i,
    {
        columns.push(rules[i].column());
        i += 1;
    }
    columns
}

/// The fixed schema of an entity type.
pub fn schema_for(entity: EntityType) -> (schema: Vec<ColumnSpec>)
    ensures
        column_models(schema@) == schema_of(entity),
{
    let rules = descriptor(entity);
    columns_of_rules(&rules)
}

/// The schema of orders.
pub fn orders_schema() -> (schema: Vec<ColumnSpec>)
    ensures
        column_models(schema@) == schema_of(EntityType::Order),
{
    schema_for(EntityType::Order)
}

/// The schema of varieties.
pub fn varieties_schema() -> (schema: Vec<ColumnSpec>)
    ensures
        column_models(schema@) == schema_of(EntityType::Variety),
{
    schema_for(EntityType::Variety)
}

/// The schema of the per-variety inventory.
pub fn variety_inventory_schema() -> (schema: Vec<ColumnSpec>)
    ensures
        column_models(schema@) == schema_of(EntityType::VarietyInventory),
{
    schema_for(EntityType::VarietyInventory)
}

/// The schema of materials.
pub fn materials_schema() -> (schema: Vec<ColumnSpec>)
    ensures
        column_models(schema@) == schema_of(EntityType::Material),
{
    schema_for(EntityType::Material)
}

/// The schema of cultivation batches.
pub fn batches_schema() -> (schema: Vec<ColumnSpec>)
    ensures
        column_models(schema@) == schema_of(EntityType::Batch),
{
    schema_for(EntityType::Batch)
}

/// The schema of inventory transactions.
pub fn inventory_transactions_schema() -> (schema: Vec<ColumnSpec>)
    ensures
        column_models(schema@) == schema_of(EntityType::InventoryTransaction),
{
    schema_for(EntityType::InventoryTransaction)
}

/// Coerces a batch of orders. The ingestion instant is read from the wall
/// clock once and stamped on every row.
pub fn to_orders_batch(rows: &[serde_json::Value]) -> (batch: ColumnarBatch)
    ensures
        batch.wf(),
        batch.schema_model() == schema_of(EntityType::Order),
        batch.table() == coerced_table(entity_rules(EntityType::Order), rows@, batch.ingest_ts_ms),
        batch.rows() == rows.len(),
{
    coerce_now(EntityType::Order, rows)
}

/// Coerces a batch of varieties. The ingestion instant is read from the wall
/// clock once and stamped on every row.
pub fn to_varieties_batch(rows: &[serde_json::Value]) -> (batch: ColumnarBatch)
    ensures
        batch.wf(),
        batch.schema_model() == schema_of(EntityType::Variety),
        batch.table() == coerced_table(entity_rules(EntityType::Variety), rows@, batch.ingest_ts_ms),
        batch.rows() == rows.len(),
{
    coerce_now(EntityType::Variety, rows)
}

/// Coerces a batch of per-variety inventory records. The ingestion instant is read from the wall
/// clock once and stamped on every row.
pub fn to_variety_inventory_batch(rows: &[serde_json::Value]) -> (batch: ColumnarBatch)
    ensures
        batch.wf(),
        batch.schema_model() == schema_of(EntityType::VarietyInventory),
        batch.table() == coerced_table(entity_rules(EntityType::VarietyInventory), rows@, batch.ingest_ts_ms),
        batch.rows() == rows.len(),
{
    coerce_now(EntityType::VarietyInventory, rows)
}

/// Coerces a batch of materials. The ingestion instant is read from the wall
/// clock once and stamped on every row.
pub fn to_materials_batch(rows: &[serde_json::Value]) -> (batch: ColumnarBatch)
    ensures
        batch.wf(),
        batch.schema_model() == schema_of(EntityType::Material),
        batch.table() == coerced_table(entity_rules(EntityType::Material), rows@, batch.ingest_ts_ms),
        batch.rows() == rows.len(),
{
    coerce_now(EntityType::Material, rows)
}

/// Coerces a batch of cultivation batches. The ingestion instant is read from the wall
/// clock once and stamped on every row.
pub fn to_batches_batch(rows: &[serde_json::Value]) -> (batch: ColumnarBatch)
    ensures
        batch.wf(),
        batch.schema_model() == schema_of(EntityType::Batch),
        batch.table() == coerced_table(entity_rules(EntityType::Batch), rows@, batch.ingest_ts_ms),
        batch.rows() == rows.len(),
{
    coerce_now(EntityType::Batch, rows)
}

/// Coerces a batch of inventory transactions. The ingestion instant is read from the wall
/// clock once and stamped on every row.
pub fn to_inventory_transactions_batch(rows: &[serde_json::Value]) -> (batch: ColumnarBatch)
    ensures
        batch.wf(),
        batch.schema_model() == schema_of(EntityType::InventoryTransaction),
        batch.table() == coerced_table(entity_rules(EntityType::InventoryTransaction), rows@, batch.ingest_ts_ms),
        batch.rows() == rows.len(),
{
    coerce_now(EntityType::InventoryTransaction, rows)
}

/// The name of the collection, and of the table, that holds an entity type.
pub open spec fn collection_of(entity: EntityType) -> Seq<char> {
    match entity {
        EntityType::Order => "orders"@,
        EntityType::Variety => "varieties"@,
        EntityType::VarietyInventory => "variety_inventory"@,
        EntityType::Material => "materials"@,
        EntityType::Batch => "batches"@,
        EntityType::InventoryTransaction => "inventory_transactions"@,
    }
}

impl EntityType {
    /// The name of the collection, and of the table, that holds this entity
    /// type.
    pub fn collection_name(&self) -> (name: &'static str)
        ensures
            name@ == collection_of(*self),
    {
        match self {
            EntityType::Order => "orders",
            EntityType::Variety => "varieties",
            EntityType::VarietyInventory => "variety_inventory",
            EntityType::Material => "materials",
            EntityType::Batch => "batches",
            EntityType::InventoryTransaction => "inventory_transactions",
        }
    }

    /// The entity type held by a collection. A name that belongs to no
    /// descriptor is an error.
    pub fn from_collection(name: &str) -> (found: Result<EntityType, PipelineError>)
        ensures
            found is Ok <==> exists|entity: EntityType| collection_of(entity) == name@,
            found matches Ok(entity) ==> collection_of(entity) == name@,
            found matches Err(e) ==> e == PipelineError::UnknownEntity && forall|entity: EntityType|
                collection_of(entity) != name@,
    {
        let found = if same_text(name, "orders") {
            Ok(EntityType::Order)
        } else if same_text(name, "varieties") {
            Ok(EntityType::Variety)
        } else if same_text(name, "variety_inventory") {
            Ok(EntityType::VarietyInventory)
        } else if same_text(name, "materials") {
            Ok(EntityType::Material)
        } else if same_text(name, "batches") {
            Ok(EntityType::Batch)
        } else if same_text(name, "inventory_transactions") {
            Ok(EntityType::InventoryTransaction)
        } else {
            Err(PipelineError::UnknownEntity)
        };
        proof {
            if let Ok(entity) = found {
                assert(collection_of(entity) == name@);
            }
        }
        found
    }
}

/// No two entity types share a collection name, so a collection name
/// determines its entity type.
pub proof fn collection_names_distinct(a: EntityType, b: EntityType)
    requires
        collection_of(a) == collection_of(b),
    ensures
        a == b,
{
    reveal_strlit("orders");
    reveal_strlit("varieties");
    reveal_strlit("variety_inventory");
    reveal_strlit("materials");
    reveal_strlit("batches");
    reveal_strlit("inventory_transactions");
    assert("orders"@.len() == 6);
    assert("varieties"@.len() == 9);
    assert("variety_inventory"@.len() == 17);
    assert("materials"@.len() == 9);
    assert("batches"@.len() == 7);
    assert("inventory_transactions"@.len() == 22);
    assert("varieties"@[0] == 'v');
    assert("materials"@[0] == 'm');
}

} // verus!
