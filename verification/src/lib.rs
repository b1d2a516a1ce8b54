//! The core of an ingestion service that turns a feed of loosely typed JSON
//! records, one feed per entity type, into versioned columnar table storage.
//!
//! - [`schema`] is the registry: for each entity type its fixed column schema
//!   and the rules by which its columns are filled.
//! - [`pipeline::batcher`] buffers records and decides when a batch leaves.
//! - [`pipeline::transform`] coerces a batch of records into typed columns.
//! - [`sink::parquet_writer`] gives each batch a place in the partition
//!   layout and builds its Parquet file; [`sink::encoding`] is its way through
//!   Arrow.
//! - [`sink::commit_protocol`] is the protocol by which a file is registered
//!   with its table, [`sink::catalog`] a catalog held in memory, and
//!   [`sink::iceberg_commit`] the coordinator that runs the one against the
//!   other.
//! - [`pipeline::process`] ties the stages together into one pipeline that
//!   tells its caller what to do next.
//! - [`consumer::reader`] plans the reading of a table for inspection.
//!
//! Apart from reading the wall clock and drawing run identifiers the library
//! performs no input or output. Reading the source, uploading files and
//! talking to a remote catalog are its caller's part.

pub mod clock;
pub mod columnar;
pub mod config;
pub mod consumer;
pub mod error;
pub mod pipeline;
pub mod record;
pub mod schema;
pub mod sink;
pub mod text;
