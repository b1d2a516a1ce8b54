//! From a columnar batch to the bytes of a Parquet file, by way of an Arrow
//! record batch. Arrow and Parquet do the work; this module hands them the
//! columns one by one and keeps track of what the values they hand back hold.

use vstd::prelude::*;
use std::sync::Arc;
use arrow::array::{
    make_array, Array, ArrayData, ArrayRef, Float64Array, StringArray, TimestampMillisecondArray,
    UInt32Array,
};
use arrow::buffer::Buffer;
use arrow::datatypes::{Field, Schema};
use arrow::error::ArrowError;
use arrow::record_batch::RecordBatch;
use parquet::arrow::ArrowWriter;
use parquet::basic::Compression;
use parquet::errors::ParquetError;
use parquet::file::properties::WriterProperties;
use crate::columnar::{Cell, Column, ColumnarBatch};
use crate::error::PipelineError;
use crate::schema::{ColumnModel, ColumnSpec, ColumnType};

verus! {

/// `ArrayData` of arrow: the buffers of one array, with its type and length.
#[verifier::external_type_specification]
#[verifier::external_body]
pub struct ExArrayData(ArrayData);

/// `RecordBatch` of arrow: columns of equal length under a schema. The batch
/// itself is arrow's; this type only holds it, and only `to_record_batch`
/// makes one.
#[verifier::external_body]
pub struct ArrowBatch {
    inner: RecordBatch,
}

/// `ArrowError` of arrow. Its cases are not told apart here.
#[verifier::external_type_specification]
#[verifier::external_body]
pub struct ExArrowError(ArrowError);

/// `ParquetError` of parquet. Its cases are not told apart here.
#[verifier::external_type_specification]
#[verifier::external_body]
pub struct ExParquetError(ParquetError);

/// The values that an Arrow array holds, row by row.
pub uninterp spec fn array_cells(data: ArrayData) -> Seq<Cell>;

/// The type of the values that an Arrow array holds.
pub uninterp spec fn array_kind(data: ArrayData) -> ColumnType;

/// The number of rows of an Arrow array that are null.
pub uninterp spec fn array_nulls(data: ArrayData) -> nat;

/// The columns that an Arrow record batch holds, in order: for each its
/// field, as name, type and nullability, and its values.
pub uninterp spec fn batch_columns(batch: ArrowBatch) -> Seq<(ColumnModel, Seq<Cell>)>;

/// The bytes of the Parquet file that the Arrow writer of the parquet crate
/// makes of a record batch, with Snappy compression and its other settings
/// left at their defaults; `None` where the writer refuses the batch.
pub uninterp spec fn parquet_image(batch: ArrowBatch) -> Option<Seq<u8>>;

/// The number of bytes that a text takes in UTF-8, as `str::len` reports it.
pub open spec fn byte_len(text: Seq<char>) -> nat {
    (vstd::utf8::encode_utf8(text).len() as usize) as nat
}

/// The number of bytes that the texts among the cells of a column take
/// together. Cells of the other types take none.
pub open spec fn cell_bytes(cells: Seq<Cell>) -> nat
    decreases cells.len(),
{
    if cells.len() == 0 {
        0
    } else {
        cell_bytes(cells.drop_last()) + match cells.last() {
            Cell::Text(text) => byte_len(text),
            _ => 0,
        }
    }
}

/// The cells of a text column with the given values.
pub open spec fn text_cells(values: Seq<String>) -> Seq<Cell> {
    Seq::new(values.len(), |i: int| Cell::Text(values[i]@))
}

/// The most bytes that the texts of one column may take together: Arrow
/// addresses them with 32-bit offsets.
pub const MAX_TEXT_BYTES: usize = 2147483647;

/// `StringArray::from` of arrow on a list of strings, taken apart into its
/// array data: a text array with one value per string, none of them null.
/// Arrow panics where the strings take more bytes than a 32-bit offset
/// reaches, so the caller rules that out.
#[verifier::external_body]
fn text_array(values: &Vec<String>) -> (data: ArrayData)
    requires
        cell_bytes(text_cells(values@)) <= MAX_TEXT_BYTES,
    ensures
        array_kind(data) == ColumnType::Utf8,
        array_nulls(data) == 0,
        array_cells(data) == text_cells(values@),
{
    StringArray::from(values.clone()).into_data()
}

/// `Float64Array::new` of arrow on a buffer of 64-bit words, taken apart into
/// its array data: a float array whose values have the given bit patterns,
/// none of them null.
#[verifier::external_body]
fn float_array(bits: &Vec<u64>) -> (data: ArrayData)
    ensures
        array_kind(data) == ColumnType::Float64,
        array_nulls(data) == 0,
        array_cells(data) == Seq::new(bits.len() as nat, |i: int| Cell::Float(bits[i])),
{
    let words = Buffer::from_vec(bits.clone());
    Float64Array::new(words.into(), None).into_data()
}

/// `UInt32Array::from` of arrow on a list of integers, taken apart into its
/// array data: an array of those integers, none of them null.
#[verifier::external_body]
fn unsigned_array(values: &Vec<u32>) -> (data: ArrayData)
    ensures
        array_kind(data) == ColumnType::UInt32,
        array_nulls(data) == 0,
        array_cells(data) == Seq::new(values.len() as nat, |i: int| Cell::UInt(values[i])),
{
    UInt32Array::from(values.clone()).into_data()
}

/// `TimestampMillisecondArray::from` of arrow on a list of instants, taken
/// apart into its array data: an array of those instants, without a time
/// zone, none of them null.
#[verifier::external_body]
fn timestamp_array(values: &Vec<i64>) -> (data: ArrayData)
    ensures
        array_kind(data) == ColumnType::TimestampMillis,
        array_nulls(data) == 0,
        array_cells(data) == Seq::new(values.len() as nat, |i: int| Cell::Millis(values[i])),
{
    TimestampMillisecondArray::from(values.clone()).into_data()
}

/// The columns that `assemble` puts into a record batch: each array under
/// the name and nullability of the schema entry at its position, with the
/// array's own type.
pub open spec fn assembled(schema: Seq<ColumnSpec>, arrays: Seq<ArrayData>) -> Seq<
    (ColumnModel, Seq<Cell>),
> {
    Seq::new(
        arrays.len(),
        |i: int|
            (
                ColumnModel {
                    name: schema[i].name@,
                    kind: array_kind(arrays[i]),
                    nullable: schema[i].nullable,
                },
                array_cells(arrays[i]),
            ),
    )
}

/// Arrow accepts the columns that `assemble` hands it: there is at least one,
/// all have as many rows as the first, and none holds a null under a schema
/// entry that allows none. The types cannot clash, as each field takes its
/// type from its array.
pub open spec fn acceptable(schema: Seq<ColumnSpec>, arrays: Seq<ArrayData>) -> bool {
    &&& arrays.len() > 0
    &&& forall|i: int|
        0 <= i < arrays.len() ==> array_cells(#[trigger] arrays[i]).len() == array_cells(
            arrays[0],
        ).len() && (array_nulls(arrays[i]) == 0 || schema[i].nullable)
}

/// `RecordBatch::try_new` of arrow, on one field per array. Each field takes
/// its name and nullability from the schema entry at the array's position and
/// its type from the array. Arrow accepts the columns exactly where there is
/// at least one, all are of one length, and no column under a field that is
/// not nullable holds a null; the batch then holds exactly them, in order.
#[verifier::external_body]
fn assemble(schema: &Vec<ColumnSpec>, arrays: Vec<ArrayData>) -> (out: Result<
    ArrowBatch,
    ArrowError,
>)
    requires
        schema.len() == arrays.len(),
    ensures
        out is Ok <==> acceptable(schema@, arrays@),
        out matches Ok(batch) ==> batch_columns(batch) == assembled(schema@, arrays@),
{
    let fields: Vec<Field> = schema.iter().zip(arrays.iter()).map(
        |(column, array)| Field::new(column.name.as_str(), array.data_type().clone(), column.nullable),
    ).collect();
    let columns: Vec<ArrayRef> = arrays.into_iter().map(make_array).collect();
    match RecordBatch::try_new(Arc::new(Schema::new(fields)), columns) {
        Ok(inner) => Ok(ArrowBatch { inner }),
        Err(e) => Err(e),
    }
}

/// `ArrowWriter` of parquet, from `try_new` over `write` to `close`, on an
/// in-memory buffer and with Snappy compression: the whole file, built before
/// any of it leaves. What the writer makes depends on the batch alone, so the
/// result has a name; nothing else is claimed of it.
#[verifier::external_body]
fn parquet_bytes(batch: &ArrowBatch) -> (out: Result<
    Vec<u8>,
    ParquetError,
>)
    ensures
        out matches Ok(bytes) ==> parquet_image(*batch) == Some(bytes@),
        out is Err ==> parquet_image(*batch) is None,
{
    let props = WriterProperties::builder().set_compression(Compression::SNAPPY).build();
    let mut buffer: Vec<u8> = Vec::new();
    let mut writer = ArrowWriter::try_new(&mut buffer, batch.inner.schema(), Some(props))?;
    writer.write(&batch.inner)?;
    writer.close()?;
    Ok(buffer)
}

/// The bytes that the texts of a column take together, or `None` where they
/// are more than Arrow can address.
pub fn text_bytes(values: &Vec<String>) -> (total: Option<usize>)
    ensures
        total matches Some(n) ==> n == cell_bytes(text_cells(values@)) && n <= MAX_TEXT_BYTES,
        total is None ==> cell_bytes(text_cells(values@)) > MAX_TEXT_BYTES,
{
    let ghost cells = text_cells(values@);
    let mut sum: usize = 0;
    let mut i: usize = 0;
    while i < values.len()
        invariant
            i <= values.len(),
            cells == text_cells(values@),
            sum == cell_bytes(cells.take(i as int)),
            sum <= MAX_TEXT_BYTES,
        decreases values.len() - i,
    {
        let n = values[i].as_str().len();
        proof {
            assert(cells.take(i + 1).drop_last() =~= cells.take(i as int));
            assert(cells.take(i + 1).last() == Cell::Text(values[i as int]@));
            cell_bytes_grow(cells, i + 1);
        }
        if n > MAX_TEXT_BYTES - sum {
            return None;
        }
        sum = sum + n;
        i += 1;
    }
    assert(cells.take(values.len() as int) =~= cells);
    Some(sum)
}

proof fn cell_bytes_grow(cells: Seq<Cell>, n: int)
    requires
        0 <= n <= cells.len(),
    ensures
        cell_bytes(cells.take(n)) <= cell_bytes(cells),
    decreases cells.len() - n,
{
    if n < cells.len() {
        cell_bytes_grow(cells, n + 1);
        assert(cells.take(n + 1).drop_last() =~= cells.take(n));
    } else {
        assert(cells.take(n) =~= cells);
    }
}

/// Cells that are no texts take no bytes.
proof fn no_text_no_bytes(cells: Seq<Cell>)
    requires
        forall|i: int| 0 <= i < cells.len() ==> !((#[trigger] cells[i]) is Text),
    ensures
        cell_bytes(cells) == 0,
    decreases cells.len(),
{
    if cells.len() > 0 {
        no_text_no_bytes(cells.drop_last());
    }
}

/// The texts of the column take more bytes than Arrow can address.
pub open spec fn oversized(cells: Seq<Cell>) -> bool {
    cell_bytes(cells) > MAX_TEXT_BYTES
}

/// The texts of some column take more bytes than Arrow can address.
pub open spec fn text_too_large(table: Seq<Seq<Cell>>) -> bool {
    exists|c: int| 0 <= c < table.len() && oversized(#[trigger] table[c])
}

/// The columns of a batch, each with its schema entry.
pub open spec fn columns_with_schema(batch: &ColumnarBatch) -> Seq<(ColumnModel, Seq<Cell>)> {
    Seq::new(batch.columns.len() as nat, |c: int| (batch.schema[c]@, batch.columns[c].cells()))
}

/// The Arrow array of one column, or `None` where the column is text that
/// takes more bytes than Arrow can address.
fn column_array(column: &Column) -> (made: Option<ArrayData>)
    ensures
        made matches Some(data) ==> array_kind(data) == column.kind() && array_cells(data)
            == column.cells() && array_nulls(data) == 0,
        made is None <==> oversized(column.cells()),
{
    match column {
        Column::Utf8(values) => {
            assert(column.cells() =~= text_cells(values@));
            match text_bytes(values) {
                Some(_) => Some(text_array(values)),
                None => None,
            }
        },
        Column::Float64(bits) => {
            proof {
                no_text_no_bytes(column.cells());
            }
            Some(float_array(bits))
        },
        Column::UInt32(values) => {
            proof {
                no_text_no_bytes(column.cells());
            }
            Some(unsigned_array(values))
        },
        Column::TimestampMillis(values) => {
            proof {
                no_text_no_bytes(column.cells());
            }
            Some(timestamp_array(values))
        },
    }
}

/// Arrow takes the batch: it is well-formed, it has a column, and the texts
/// of no column take more bytes than Arrow can address.
pub open spec fn fits_arrow(batch: &ColumnarBatch) -> bool {
    batch.wf() && batch.columns.len() > 0 && !text_too_large(batch.table())
}

/// Builds the Arrow record batch of a columnar batch.
///
/// The record batch is built exactly where the batch is well-formed, has at
/// least one column, and has no text column too large for Arrow. It then
/// holds exactly the columns of the batch, each under its schema entry.
pub fn to_record_batch(batch: &ColumnarBatch) -> (out: Result<ArrowBatch, PipelineError>)
    ensures
        out is Ok <==> fits_arrow(batch),
        out matches Ok(made) ==> batch_columns(made) == columns_with_schema(batch),
        out matches Err(e) ==> e == PipelineError::Serialization,
{
    if batch.columns.len() != batch.schema.len() || batch.columns.len() == 0 {
        return Err(PipelineError::Serialization);
    }
    let rows = batch.num_rows();
    let mut arrays: Vec<ArrayData> = Vec::new();
    let mut c: usize = 0;
    while c < batch.columns.len()
        invariant
            c <= batch.columns.len(),
            batch.columns.len() == batch.schema.len(),
            rows == batch.rows(),
            arrays.len() == c,
            forall|k: int|
                0 <= k < c ==> (#[trigger] batch.columns[k]).kind() == batch.schema[k].kind,
            forall|k: int| 0 <= k < c ==> (#[trigger] batch.columns[k]).cells().len() == rows,
            forall|k: int| 0 <= k < c ==> !oversized((#[trigger] batch.columns[k]).cells()),
            forall|k: int|
                0 <= k < c ==> array_kind(#[trigger] arrays[k]) == batch.columns[k].kind()
                    && array_cells(arrays[k]) == batch.columns[k].cells() && array_nulls(arrays[k])
                    == 0,
        decreases batch.columns.len() - c,
    {
        if batch.columns[c].column_type() != batch.schema[c].kind {
            return Err(PipelineError::Serialization);
        }
        if batch.columns[c].len() != rows {
            return Err(PipelineError::Serialization);
        }
        match column_array(&batch.columns[c]) {
            Some(data) => {
                arrays.push(data);
            },
            None => {
                assert(oversized(batch.table()[c as int]));
                return Err(PipelineError::Serialization);
            },
        }
        c += 1;
    }
    proof {
        assert forall|k: int| 0 <= k < batch.table().len() implies !oversized(
            #[trigger] batch.table()[k],
        ) by {
            assert(batch.table()[k] == batch.columns[k].cells());
        }
    }
    match assemble(&batch.schema, arrays) {
        Ok(made) => Ok(made),
        Err(_) => Err(PipelineError::Serialization),
    }
}

/// The bytes are the Parquet file of a record batch that holds exactly the
/// given columns.
pub open spec fn parquet_of(columns: Seq<(ColumnModel, Seq<Cell>)>, bytes: Seq<u8>) -> bool {
    exists|made: ArrowBatch| batch_columns(made) == columns && parquet_image(made) == Some(bytes)
}

/// The Parquet writer refuses a record batch that holds exactly the given
/// columns.
pub open spec fn parquet_refuses(columns: Seq<(ColumnModel, Seq<Cell>)>) -> bool {
    exists|made: ArrowBatch| batch_columns(made) == columns && parquet_image(made) is None
}

/// Encodes a record batch as one Parquet file, held in memory.
pub fn encode_parquet(batch: &ArrowBatch) -> (out: Result<Vec<u8>, PipelineError>)
    ensures
        out matches Ok(bytes) ==> parquet_image(*batch) == Some(bytes@),
        out matches Err(e) ==> e == PipelineError::Serialization && parquet_image(*batch) is None,
{
    match parquet_bytes(batch) {
        Ok(bytes) => Ok(bytes),
        Err(_) => Err(PipelineError::Serialization),
    }
}

} // verus!
