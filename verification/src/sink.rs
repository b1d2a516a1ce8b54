//! The sinks: the columnar file writer and the table commit coordinator.

pub mod catalog;
pub mod commit_protocol;
pub mod encoding;
pub mod iceberg_commit;
pub mod parquet_writer;
