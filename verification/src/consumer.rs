//! Consumers of the tables that the pipeline writes.

pub mod reader;
