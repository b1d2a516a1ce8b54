//! Typed, column-oriented batches: what coercion produces and the file
//! writer consumes.

use vstd::prelude::*;
use crate::schema::{column_models, ColumnModel, ColumnSpec, ColumnType};

verus! {

/// One value of a typed column.
pub enum Cell {
    /// A string.
    Text(Seq<char>),
    /// A 64-bit float, by its IEEE-754 bit pattern.
    Float(u64),
    /// An unsigned 32-bit integer.
    UInt(u32),
    /// Milliseconds since the Unix epoch.
    Millis(i64),
}

/// The values of one column, one per row. Floats are held by their IEEE-754
/// bit patterns.
#[derive(Debug)]
pub enum Column {
    Utf8(Vec<String>),
    Float64(Vec<u64>),
    UInt32(Vec<u32>),
    TimestampMillis(Vec<i64>),
}

impl Column {
    /// The type of the values.
    pub open spec fn kind(&self) -> ColumnType {
        match self {
            Column::Utf8(_) => ColumnType::Utf8,
            Column::Float64(_) => ColumnType::Float64,
            Column::UInt32(_) => ColumnType::UInt32,
            Column::TimestampMillis(_) => ColumnType::TimestampMillis,
        }
    }

    /// The values, row by row.
    pub open spec fn cells(&self) -> Seq<Cell> {
        match self {
            Column::Utf8(v) => Seq::new(v.len() as nat, |i: int| Cell::Text(v[i]@)),
            Column::Float64(v) => Seq::new(v.len() as nat, |i: int| Cell::Float(v[i])),
            Column::UInt32(v) => Seq::new(v.len() as nat, |i: int| Cell::UInt(v[i])),
            Column::TimestampMillis(v) => Seq::new(v.len() as nat, |i: int| Cell::Millis(v[i])),
        }
    }

    /// The type of the values.
    pub fn column_type(&self) -> (kind: ColumnType)
        ensures
            kind == self.kind(),
    {
        match self {
            Column::Utf8(_) => ColumnType::Utf8,
            Column::Float64(_) => ColumnType::Float64,
            Column::UInt32(_) => ColumnType::UInt32,
            Column::TimestampMillis(_) => ColumnType::TimestampMillis,
        }
    }

    /// The number of rows.
    pub fn len(&self) -> (n: usize)
        ensures
            n == self.cells().len(),
    {
        match self {
            Column::Utf8(v) => v.len(),
            Column::Float64(v) => v.len(),
            Column::UInt32(v) => v.len(),
            Column::TimestampMillis(v) => v.len(),
        }
    }
}

/// The cells of each column of a list.
pub open spec fn table_of(columns: Seq<Column>) -> Seq<Seq<Cell>> {
    Seq::new(columns.len(), |c: int| columns[c].cells())
}

/// A batch of rows in columnar form, with the schema it was built for and the
/// instant at which it was built.
#[derive(Debug)]
pub struct ColumnarBatch {
    pub schema: Vec<ColumnSpec>,
    pub columns: Vec<Column>,
    pub ingest_ts_ms: i64,
}

impl ColumnarBatch {
    /// The schema.
    pub open spec fn schema_model(&self) -> Seq<ColumnModel> {
        column_models(self.schema@)
    }

    /// The cells, column by column.
    pub open spec fn table(&self) -> Seq<Seq<Cell>> {
        table_of(self.columns@)
    }

    /// The number of rows: the length of the first column, or zero where
    /// there is no column.
    pub open spec fn rows(&self) -> nat {
        if self.columns.len() == 0 {
            0
        } else {
            self.columns[0].cells().len()
        }
    }

    /// There is one column per schema entry, of that entry's type, and all
    /// columns have the same number of rows.
    pub open spec fn wf(&self) -> bool {
        &&& self.columns.len() == self.schema.len()
        &&& forall|c: int|
            0 <= c < self.columns.len() ==> (#[trigger] self.columns[c]).kind()
                == self.schema[c].kind
        &&& forall|c: int|
            0 <= c < self.columns.len() ==> (#[trigger] self.columns[c]).cells().len()
                == self.rows()
    }

    /// The number of rows.
    pub fn num_rows(&self) -> (n: usize)
        ensures
            n == self.rows(),
    {
        if self.columns.len() == 0 {
            0
        } else {
            self.columns[0].len()
        }
    }

    /// The number of columns.
    pub fn num_columns(&self) -> (n: usize)
        ensures
            n == self.columns.len(),
    {
        self.columns.len()
    }
}

} // verus!
