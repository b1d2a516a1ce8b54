//! The ways in which a pipeline can fail.

use vstd::prelude::*;

verus! {

/// Why a commit to the catalog did not go through.
#[derive(Clone, Copy, Debug, PartialEq, Eq, Structural)]
pub enum CatalogFault {
    /// The catalog reported a failure of its own.
    Rejected,
    /// Every attempt lost against a concurrent writer.
    ConflictsExhausted,
    /// The catalog answered a request with a reply that belongs to another
    /// request.
    UnexpectedReply,
}

/// The error taxonomy of the pipeline.
#[derive(Clone, Copy, Debug, PartialEq, Eq, Structural)]
pub enum PipelineError {
    /// Fetching records from the source failed.
    Source,
    /// The entity asked for has no descriptor in the registry.
    UnknownEntity,
    /// Reserved for a strict coercion mode; never raised by the default mode.
    Coercion,
    /// The columnar encoder refused the batch.
    Serialization,
    /// Durable storage refused the file.
    Upload,
    /// The catalog did not register the file.
    Catalog(CatalogFault),
}

} // verus!
