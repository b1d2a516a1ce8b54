//! The record coercer: one routine, driven by an entity's descriptor, that
//! turns a batch of records into a typed columnar batch.
//!
//! Coercion is total. A field that is missing or of the wrong type yields the
//! column's default: the empty string, zero, or the epoch. A number that
//! does not fit an unsigned 32-bit column is of the wrong type for it.

use vstd::prelude::*;
pub use crate::schema::{orders_schema, to_orders_batch};
use crate::clock::{now_millis, parse_millis, parsed_millis, timestamp_pattern};
use crate::columnar::{Cell, Column, ColumnarBatch};
use crate::record::{
    number_at, number_field, record_fields, text_at, text_field, unsigned_at, unsigned_field,
    FieldValue,
};
use crate::schema::{
    columns_of, columns_of_rules, descriptor, entity_rules, kind_of, rule_models, schema_of, texts,
    ColumnRule, EntityType, RuleModel, Source, SourceModel,
};

verus! {

/// The string under the first of `keys` that holds a string.
pub open spec fn first_text(fields: Map<Seq<char>, FieldValue>, keys: Seq<Seq<char>>) -> Option<
    Seq<char>,
>
    decreases keys.len(),
{
    if keys.len() == 0 {
        None
    } else {
        match text_at(fields, keys[0]) {
            Some(s) => Some(s),
            None => first_text(fields, keys.drop_first()),
        }
    }
}

/// The float, by its bit pattern, under the first of `keys` that holds a
/// number.
pub open spec fn first_number(fields: Map<Seq<char>, FieldValue>, keys: Seq<Seq<char>>) -> Option<
    u64,
>
    decreases keys.len(),
{
    if keys.len() == 0 {
        None
    } else {
        match number_at(fields, keys[0]) {
            Some(bits) => Some(bits),
            None => first_number(fields, keys.drop_first()),
        }
    }
}

/// An unsigned integer as a value of an unsigned 32-bit column. A number
/// that does not fit 32 bits is of another type than the column, as a string
/// or a fraction is: it gives no value.
pub open spec fn fitting(n: Option<u64>) -> Option<u32> {
    match n {
        Some(v) => if v <= u32::MAX {
            Some(v as u32)
        } else {
            None
        },
        None => None,
    }
}

/// The integer under `key`, if the record has that field and it is a
/// non-negative integer that fits 32 bits.
pub open spec fn small_unsigned_at(fields: Map<Seq<char>, FieldValue>, key: Seq<char>) -> Option<
    u32,
> {
    fitting(unsigned_at(fields, key))
}

/// The integer under the first of `keys` that holds a non-negative integer
/// that fits 32 bits.
pub open spec fn first_unsigned(
    fields: Map<Seq<char>, FieldValue>,
    keys: Seq<Seq<char>>,
) -> Option<u32>
    decreases keys.len(),
{
    if keys.len() == 0 {
        None
    } else {
        match small_unsigned_at(fields, keys[0]) {
            Some(n) => Some(n),
            None => first_unsigned(fields, keys.drop_first()),
        }
    }
}

/// The instant that a timestamp text names, or the epoch where it names none.
pub open spec fn millis_or_epoch(text: Option<Seq<char>>) -> i64 {
    match text {
        Some(s) => match parsed_millis(s, timestamp_pattern()) {
            Some(at) => at,
            None => 0,
        },
        None => 0,
    }
}

/// The value that a rule gives to one record, coerced at instant `now_ms`.
pub open spec fn coerced_cell(
    source: SourceModel,
    fields: Map<Seq<char>, FieldValue>,
    now_ms: i64,
) -> Cell {
    match source {
        SourceModel::Text(keys) => Cell::Text(
            match first_text(fields, keys) {
                Some(s) => s,
                None => Seq::empty(),
            },
        ),
        SourceModel::Number(keys) => Cell::Float(
            match first_number(fields, keys) {
                Some(bits) => bits,
                None => 0,
            },
        ),
        SourceModel::Unsigned(keys) => Cell::UInt(
            match first_unsigned(fields, keys) {
                Some(n) => n,
                None => 0,
            },
        ),
        SourceModel::Timestamp(keys) => Cell::Millis(millis_or_epoch(first_text(fields, keys))),
        SourceModel::IngestClock => Cell::Millis(now_ms),
    }
}

/// The column that a rule gives to a batch of records.
pub open spec fn coerced_column(
    source: SourceModel,
    records: Seq<serde_json::Value>,
    now_ms: i64,
) -> Seq<Cell> {
    Seq::new(records.len(), |r: int| coerced_cell(source, record_fields(records[r]), now_ms))
}

/// The columns that a descriptor gives to a batch of records.
pub open spec fn coerced_table(
    rules: Seq<RuleModel>,
    records: Seq<serde_json::Value>,
    now_ms: i64,
) -> Seq<Seq<Cell>> {
    Seq::new(rules.len(), |c: int| coerced_column(rules[c].source, records, now_ms))
}

fn fit_u32(n: Option<u64>) -> (fit: Option<u32>)
    ensures
        fit == fitting(n),
{
    match n {
        Some(v) => if v <= 0xffff_ffff {
            Some(v as u32)
        } else {
            None
        },
        None => None,
    }
}

fn lookup_text(record: &serde_json::Value, keys: &Vec<String>) -> (found: Option<String>)
    ensures
        found.is_some() == first_text(record_fields(*record), texts(keys@)).is_some(),
        found matches Some(s) ==> first_text(record_fields(*record), texts(keys@)) == Some(s@),
{
    let ghost fields = record_fields(*record);
    let ghost all = texts(keys@);
    assert(all.skip(0) =~= all);
    let mut i: usize = 0;
    while i < keys.len()
        invariant
            i <= keys.len(),
            fields == record_fields(*record),
            all == texts(keys@),
            first_text(fields, all) == first_text(fields, all.skip(i as int)),
        decreases keys.len() - i,
    {
        let found = text_field(record, keys[i].as_str());
        proof {
            assert(all.skip(i as int).drop_first() =~= all.skip(i as int + 1));
        }
        if found.is_some() {
            return found;
        }
        i += 1;
    }
    None
}

fn lookup_number(record: &serde_json::Value, keys: &Vec<String>) -> (found: Option<u64>)
    ensures
        found == first_number(record_fields(*record), texts(keys@)),
{
    let ghost fields = record_fields(*record);
    let ghost all = texts(keys@);
    assert(all.skip(0) =~= all);
    let mut i: usize = 0;
    while i < keys.len()
        invariant
            i <= keys.len(),
            fields == record_fields(*record),
            all == texts(keys@),
            first_number(fields, all) == first_number(fields, all.skip(i as int)),
        decreases keys.len() - i,
    {
        let found = number_field(record, keys[i].as_str());
        proof {
            assert(all.skip(i as int).drop_first() =~= all.skip(i as int + 1));
        }
        if found.is_some() {
            return found;
        }
        i += 1;
    }
    None
}

fn lookup_unsigned(record: &serde_json::Value, keys: &Vec<String>) -> (found: Option<u32>)
    ensures
        found == first_unsigned(record_fields(*record), texts(keys@)),
{
    let ghost fields = record_fields(*record);
    let ghost all = texts(keys@);
    assert(all.skip(0) =~= all);
    let mut i: usize = 0;
    while i < keys.len()
        invariant
            i <= keys.len(),
            fields == record_fields(*record),
            all == texts(keys@),
            first_unsigned(fields, all) == first_unsigned(fields, all.skip(i as int)),
        decreases keys.len() - i,
    {
        let found = fit_u32(unsigned_field(record, keys[i].as_str()));
        proof {
            assert(all.skip(i as int).drop_first() =~= all.skip(i as int + 1));
        }
        if found.is_some() {
            return found;
        }
        i += 1;
    }
    None
}

fn text_column(keys: &Vec<String>, rows: &[serde_json::Value], now_ms: i64) -> (column: Column)
    ensures
        column.kind() == kind_of(SourceModel::Text(texts(keys@))),
        column.cells() == coerced_column(SourceModel::Text(texts(keys@)), rows@, now_ms),
{
    let ghost source = SourceModel::Text(texts(keys@));
    let mut values: Vec<String> = Vec::new();
    let mut r: usize = 0;
    while r < rows.len()
        invariant
            r <= rows.len(),
            values.len() == r,
            source == SourceModel::Text(texts(keys@)),
            forall|k: int|
                0 <= k < r ==> Cell::Text(values[k]@) == coerced_cell(
                    source,
                    record_fields(rows[k]),
                    now_ms,
                ),
        decreases rows.len() - r,
    {
        let value = match lookup_text(&rows[r], keys) {
            Some(s) => s,
            None => String::new(),
        };
        values.push(value);
        r += 1;
    }
    Column::Utf8(values)
}

fn number_column(keys: &Vec<String>, rows: &[serde_json::Value], now_ms: i64) -> (column:
    Column)
    ensures
        column.kind() == kind_of(SourceModel::Number(texts(keys@))),
        column.cells() == coerced_column(SourceModel::Number(texts(keys@)), rows@, now_ms),
{
    let ghost source = SourceModel::Number(texts(keys@));
    let mut values: Vec<u64> = Vec::new();
    let mut r: usize = 0;
    while r < rows.len()
        invariant
            r <= rows.len(),
            values.len() == r,
            source == SourceModel::Number(texts(keys@)),
            forall|k: int|
                0 <= k < r ==> Cell::Float(values[k]) == coerced_cell(
                    source,
                    record_fields(rows[k]),
                    now_ms,
                ),
        decreases rows.len() - r,
    {
        let value: u64 = match lookup_number(&rows[r], keys) {
            Some(bits) => bits,
            None => 0,
        };
        values.push(value);
        r += 1;
    }
    Column::Float64(values)
}

fn unsigned_column(keys: &Vec<String>, rows: &[serde_json::Value], now_ms: i64) -> (column:
    Column)
    ensures
        column.kind() == kind_of(SourceModel::Unsigned(texts(keys@))),
        column.cells() == coerced_column(SourceModel::Unsigned(texts(keys@)), rows@, now_ms),
{
    let ghost source = SourceModel::Unsigned(texts(keys@));
    let mut values: Vec<u32> = Vec::new();
    let mut r: usize = 0;
    while r < rows.len()
        invariant
            r <= rows.len(),
            values.len() == r,
            source == SourceModel::Unsigned(texts(keys@)),
            forall|k: int|
                0 <= k < r ==> Cell::UInt(values[k]) == coerced_cell(
                    source,
                    record_fields(rows[k]),
                    now_ms,
                ),
        decreases rows.len() - r,
    {
        let value: u32 = match lookup_unsigned(&rows[r], keys) {
            Some(n) => n,
            None => 0,
        };
        values.push(value);
        r += 1;
    }
    Column::UInt32(values)
}

fn timestamp_column(keys: &Vec<String>, rows: &[serde_json::Value], now_ms: i64) -> (column:
    Column)
    ensures
        column.kind() == kind_of(SourceModel::Timestamp(texts(keys@))),
        column.cells() == coerced_column(SourceModel::Timestamp(texts(keys@)), rows@, now_ms),
{
    let ghost source = SourceModel::Timestamp(texts(keys@));
    let mut values: Vec<i64> = Vec::new();
    let mut r: usize = 0;
    while r < rows.len()
        invariant
            r <= rows.len(),
            values.len() == r,
            source == SourceModel::Timestamp(texts(keys@)),
            forall|k: int|
                0 <= k < r ==> Cell::Millis(values[k]) == coerced_cell(
                    source,
                    record_fields(rows[k]),
                    now_ms,
                ),
        decreases rows.len() - r,
    {
        let value: i64 = match lookup_text(&rows[r], keys) {
            Some(s) => match parse_millis(s.as_str(), "%Y-%m-%d %H:%M:%S%.f") {
                Some(at) => at,
                None => 0,
            },
            None => 0,
        };
        values.push(value);
        r += 1;
    }
    Column::TimestampMillis(values)
}

fn stamp_column(rows: &[serde_json::Value], now_ms: i64) -> (column: Column)
    ensures
        column.kind() == kind_of(SourceModel::IngestClock),
        column.cells() == coerced_column(SourceModel::IngestClock, rows@, now_ms),
{
    let mut values: Vec<i64> = Vec::new();
    let mut r: usize = 0;
    while r < rows.len()
        invariant
            r <= rows.len(),
            values.len() == r,
            forall|k: int| 0 <= k < r ==> values[k] == now_ms,
        decreases rows.len() - r,
    {
        values.push(now_ms);
        r += 1;
    }
    Column::TimestampMillis(values)
}

/// Fills one column from a batch of records.
pub fn coerce_column(source: &Source, rows: &[serde_json::Value], now_ms: i64) -> (column:
    Column)
    ensures
        column.kind() == kind_of(source@),
        column.cells() == coerced_column(source@, rows@, now_ms),
{
    match source {
        Source::Text(keys) => text_column(keys, rows, now_ms),
        Source::Number(keys) => number_column(keys, rows, now_ms),
        Source::Unsigned(keys) => unsigned_column(keys, rows, now_ms),
        Source::Timestamp(keys) => timestamp_column(keys, rows, now_ms),
        Source::IngestClock => stamp_column(rows, now_ms),
    }
}

/// Coerces a batch of records under a descriptor, stamping every row with the
/// instant `now_ms`.
pub fn coerce_with(rules: &Vec<ColumnRule>, rows: &[serde_json::Value], now_ms: i64) -> (batch:
    ColumnarBatch)
    ensures
        batch.wf(),
        batch.schema_model() == columns_of(rule_models(rules@)),
        batch.table() == coerced_table(rule_models(rules@), rows@, now_ms),
        batch.ingest_ts_ms == now_ms,
        rules.len() > 0 ==> batch.rows() == rows.len(),
{
    let schema = columns_of_rules(rules);
    let mut columns: Vec<Column> = Vec::new();
    let mut c: usize = 0;
    while c < rules.len()
        invariant
            c <= rules.len(),
            columns.len() == c,
            forall|k: int|
                0 <= k < c ==> (#[trigger] columns[k]).kind() == kind_of(rules[k]@.source),
            forall|k: int|
                0 <= k < c ==> (#[trigger] columns[k]).cells() == coerced_column(
                    rules[k]@.source,
                    rows@,
                    now_ms,
                ),
        decreases rules.len() - c,
    {
        columns.push(coerce_column(&rules[c].source, rows, now_ms));
        c += 1;
    }
    let batch = ColumnarBatch { schema, columns, ingest_ts_ms: now_ms };
    proof {
        assert(columns_of(rule_models(rules@)).len() == rules.len());
        assert forall|k: int| 0 <= k < batch.columns.len() implies (#[trigger] batch.columns[k]).kind()
            == batch.schema[k].kind by {
            assert(columns_of(rule_models(rules@))[k] == rules[k]@.column());
        }
    }
    batch
}

/// Coerces a batch of records of one entity type, stamping every row with the
/// instant `now_ms`.
pub fn coerce(entity: EntityType, rows: &[serde_json::Value], now_ms: i64) -> (batch:
    ColumnarBatch)
    ensures
        batch.wf(),
        batch.schema_model() == schema_of(entity),
        batch.table() == coerced_table(entity_rules(entity), rows@, now_ms),
        batch.ingest_ts_ms == now_ms,
        batch.rows() == rows.len(),
{
    let rules = descriptor(entity);
    coerce_with(&rules, rows, now_ms)
}

/// The value that a column of the given type takes where the record offers
/// nothing usable: the empty string, zero, or the epoch.
pub open spec fn default_cell(source: SourceModel) -> Cell {
    match source {
        SourceModel::Text(_) => Cell::Text(Seq::empty()),
        SourceModel::Number(_) => Cell::Float(0),
        SourceModel::Unsigned(_) => Cell::UInt(0),
        SourceModel::Timestamp(_) => Cell::Millis(0),
        SourceModel::IngestClock => Cell::Millis(0),
    }
}

/// The field names that a source reads, the primary name first.
pub open spec fn keys_of(source: SourceModel) -> Seq<Seq<char>> {
    match source {
        SourceModel::Text(keys) => keys,
        SourceModel::Number(keys) => keys,
        SourceModel::Unsigned(keys) => keys,
        SourceModel::Timestamp(keys) => keys,
        SourceModel::IngestClock => Seq::empty(),
    }
}

/// A field holds a value of the kind that the source reads.
pub open spec fn usable(source: SourceModel, fields: Map<Seq<char>, FieldValue>, key: Seq<char>) -> bool {
    match source {
        SourceModel::Text(_) => text_at(fields, key).is_some(),
        SourceModel::Number(_) => number_at(fields, key).is_some(),
        SourceModel::Unsigned(_) => small_unsigned_at(fields, key).is_some(),
        SourceModel::Timestamp(_) => text_at(fields, key).is_some(),
        SourceModel::IngestClock => false,
    }
}

proof fn nothing_found(fields: Map<Seq<char>, FieldValue>, keys: Seq<Seq<char>>)
    ensures
        (forall|k: int| 0 <= k < keys.len() ==> text_at(fields, #[trigger] keys[k]).is_none())
            ==> first_text(fields, keys).is_none(),
        (forall|k: int| 0 <= k < keys.len() ==> number_at(fields, #[trigger] keys[k]).is_none())
            ==> first_number(fields, keys).is_none(),
        (forall|k: int|
            0 <= k < keys.len() ==> small_unsigned_at(fields, #[trigger] keys[k]).is_none())
            ==> first_unsigned(fields, keys).is_none(),
    decreases keys.len(),
{
    if keys.len() > 0 {
        nothing_found(fields, keys.drop_first());
    }
}

/// A record in which none of a column's field names holds a usable value, be
/// it because the field is missing or because it is of another type, gets the
/// column's default.
pub proof fn unusable_fields_take_default(
    source: SourceModel,
    fields: Map<Seq<char>, FieldValue>,
    now_ms: i64,
)
    requires
        source != SourceModel::IngestClock,
        forall|k: int|
            0 <= k < keys_of(source).len() ==> !usable(source, fields, #[trigger] keys_of(source)[k]),
    ensures
        coerced_cell(source, fields, now_ms) == default_cell(source),
{
    nothing_found(fields, keys_of(source));
}

/// A record that lacks every field name of a column gets the column's
/// default.
pub proof fn missing_fields_take_default(
    source: SourceModel,
    fields: Map<Seq<char>, FieldValue>,
    now_ms: i64,
)
    requires
        source != SourceModel::IngestClock,
        forall|k: int|
            0 <= k < keys_of(source).len() ==> !fields.contains_key(#[trigger] keys_of(source)[k]),
    ensures
        coerced_cell(source, fields, now_ms) == default_cell(source),
{
    unusable_fields_take_default(source, fields, now_ms);
}

/// A record whose primary field holds a value of the right kind keeps that
/// value: a string as it is, a number by its bit pattern, an unsigned integer
/// that fits 32 bits as it is, and a timestamp text as the instant it names.
pub proof fn present_field_is_kept(
    source: SourceModel,
    fields: Map<Seq<char>, FieldValue>,
    now_ms: i64,
)
    requires
        keys_of(source).len() > 0,
        usable(source, fields, keys_of(source)[0]),
    ensures
        coerced_cell(source, fields, now_ms) == match source {
            SourceModel::Text(keys) => Cell::Text(text_at(fields, keys[0]).unwrap()),
            SourceModel::Number(keys) => Cell::Float(number_at(fields, keys[0]).unwrap()),
            SourceModel::Unsigned(keys) => Cell::UInt(unsigned_at(fields, keys[0]).unwrap() as u32),
            SourceModel::Timestamp(keys) => Cell::Millis(
                millis_or_epoch(text_at(fields, keys[0])),
            ),
            SourceModel::IngestClock => Cell::Millis(now_ms),
        },
        source is Unsigned ==> unsigned_at(fields, keys_of(source)[0]).unwrap() <= u32::MAX,
{
}

/// An unsigned integer that does not fit 32 bits is of another type than the
/// column: where a column has one field name and the record holds such a
/// number under it, the cell is the default, zero.
pub proof fn unsigned_out_of_range_takes_default(
    key: Seq<char>,
    fields: Map<Seq<char>, FieldValue>,
    now_ms: i64,
    n: u64,
)
    requires
        unsigned_at(fields, key) == Some(n),
        n > u32::MAX,
    ensures
        coerced_cell(SourceModel::Unsigned(seq![key]), fields, now_ms) == Cell::UInt(0),
{
    unusable_fields_take_default(SourceModel::Unsigned(seq![key]), fields, now_ms);
}

/// Every row of a coerced batch carries the same ingestion instant: the stamp
/// column does not depend on the record.
pub proof fn stamp_is_per_batch(
    a: Map<Seq<char>, FieldValue>,
    b: Map<Seq<char>, FieldValue>,
    now_ms: i64,
)
    ensures
        coerced_cell(SourceModel::IngestClock, a, now_ms) == coerced_cell(
            SourceModel::IngestClock,
            b,
            now_ms,
        ),
        coerced_cell(SourceModel::IngestClock, a, now_ms) == Cell::Millis(now_ms),
{
}

/// Coerces a batch of records of one entity type, stamping every row with one
/// reading of the wall clock, taken here.
pub fn coerce_now(entity: EntityType, rows: &[serde_json::Value]) -> (batch: ColumnarBatch)
    ensures
        batch.wf(),
        batch.schema_model() == schema_of(entity),
        batch.table() == coerced_table(entity_rules(entity), rows@, batch.ingest_ts_ms),
        batch.rows() == rows.len(),
{
    let now_ms = now_millis();
    coerce(entity, rows, now_ms)
}

} // verus!
