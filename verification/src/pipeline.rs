//! The stages between the source and the sinks: batching and coercion, and
//! the pipeline that ties them to the sinks.

pub mod batcher;
pub mod process;
pub mod transform;
