//! Failures of the pipeline, and which operation gives which.

use vstd::prelude::*;

verus! {

/// The ways in which the pipeline fails.
#[derive(Clone, Copy, Debug, PartialEq, Eq, Structural)]
pub enum ErrorKind {
    /// The embedding engine is not loaded, or inference failed.
    ModelError,
    /// The vector store cannot be reached.
    StoreUnavailable,
    /// The store rejected a point.
    WriteFailed,
    /// The store rejected a search.
    QueryFailed,
    /// A collection's dimension disagrees with the engine's.
    ConfigMismatch,
}

/// The steps of the pipeline that can fail.
#[derive(Clone, Copy, Debug, PartialEq, Eq, Structural)]
pub enum Operation {
    /// Loading the embedding engine.
    Initialize,
    /// Reading the engine's output dimension.
    Dimension,
    /// Embedding one text.
    Embed,
    /// Asking the store whether it is alive.
    HealthCheck,
    /// Establishing a collection.
    EnsureCollection,
    /// Deleting a collection.
    DropCollection,
    /// Writing a point.
    Upsert,
    /// Searching a collection.
    Query,
}

impl Operation {
    /// The kind of error that a failure of this operation is.
    pub open spec fn failure_kind(self) -> ErrorKind {
        match self {
            Operation::Initialize | Operation::Dimension | Operation::Embed => ErrorKind::ModelError,
            Operation::HealthCheck | Operation::EnsureCollection | Operation::DropCollection =>
                ErrorKind::StoreUnavailable,
            Operation::Upsert => ErrorKind::WriteFailed,
            Operation::Query => ErrorKind::QueryFailed,
        }
    }

    /// Computes [`Operation::failure_kind`].
    pub fn kind_of_failure(self) -> (kind: ErrorKind)
        ensures
            kind == self.failure_kind(),
    {
        match self {
            Operation::Initialize | Operation::Dimension | Operation::Embed => ErrorKind::ModelError,
            Operation::HealthCheck | Operation::EnsureCollection | Operation::DropCollection =>
                ErrorKind::StoreUnavailable,
            Operation::Upsert => ErrorKind::WriteFailed,
            Operation::Query => ErrorKind::QueryFailed,
        }
    }
}

/// An error as plain values.
pub struct ErrorView {
    pub kind: ErrorKind,
    pub operation: Operation,
    pub collection: Seq<char>,
    pub cause: Seq<char>,
}

/// A failure with what is needed to diagnose it.
#[derive(Clone, Debug, PartialEq, Eq)]
pub struct PipelineError {
    pub kind: ErrorKind,
    /// The operation that was aborted.
    pub operation: Operation,
    /// The collection that the operation was aimed at; empty where it was
    /// aimed at none.
    pub collection: String,
    /// What the engine or the store reported.
    pub cause: String,
}

impl View for PipelineError {
    type V = ErrorView;

    open spec fn view(&self) -> ErrorView {
        ErrorView {
            kind: self.kind,
            operation: self.operation,
            collection: self.collection@,
            cause: self.cause@,
        }
    }
}

/// The error that a failure of `operation` on `collection` is.
pub open spec fn failure_of(operation: Operation, collection: Seq<char>, cause: Seq<char>) -> ErrorView {
    ErrorView { kind: operation.failure_kind(), operation, collection, cause }
}

/// Whether an outcome is the expected one: the same value, or an error that
/// says the same.
pub open spec fn agrees<T>(outcome: Result<T, PipelineError>, expected: Result<T, ErrorView>) -> bool {
    match expected {
        Ok(value) => outcome == Ok::<T, PipelineError>(value),
        Err(error) => outcome is Err && outcome->Err_0@ == error,
    }
}

/// What a reply of the engine or the store means for the operation that
/// asked for it: a value is handed on as it came, a failure becomes the
/// error of that operation.
pub open spec fn settled<T>(
    operation: Operation,
    collection: Seq<char>,
    reply: Result<T, String>,
) -> Result<T, ErrorView> {
    match reply {
        Ok(value) => Ok(value),
        Err(cause) => Err(failure_of(operation, collection, cause@)),
    }
}

impl PipelineError {
    /// The error of an operation that the engine or the store failed.
    pub fn failed(operation: Operation, collection: &str, cause: String) -> (error: PipelineError)
        ensures
            error@ == failure_of(operation, collection@, cause@),
    {
        PipelineError {
            kind: operation.kind_of_failure(),
            operation,
            collection: collection.to_owned(),
            cause,
        }
    }
}

/// Settles a reply: no failure is swallowed and no value is changed.
pub fn settle<T>(
    operation: Operation,
    collection: &str,
    reply: Result<T, String>,
) -> (outcome: Result<T, PipelineError>)
    ensures
        agrees(outcome, settled(operation, collection@, reply)),
{
    match reply {
        Ok(value) => Ok(value),
        Err(cause) => Err(PipelineError::failed(operation, collection, cause)),
    }
}

} // verus!
