//! What can go wrong in the engine and its collaborators.

use vstd::prelude::*;

verus! {

/// A configuration that the engine refuses.
#[derive(Debug, Clone, Copy, PartialEq, Eq, Structural)]
pub enum ConfigError {
    /// The overlap is not smaller than the chunk size.
    OverlapNotBelowChunkSize,
    /// The similarity threshold is not a number between 0 and 1.
    ThresholdOutOfRange,
}

impl ConfigError {
    /// A sentence that says what is wrong.
    pub fn message(&self) -> (text: &'static str)
        ensures
            text@ == match *self {
                ConfigError::OverlapNotBelowChunkSize => "chunk overlap must be smaller than chunk size"@,
                ConfigError::ThresholdOutOfRange => "similarity threshold must lie between 0 and 1"@,
            },
    {
        match self {
            ConfigError::OverlapNotBelowChunkSize => "chunk overlap must be smaller than chunk size",
            ConfigError::ThresholdOutOfRange => "similarity threshold must lie between 0 and 1",
        }
    }
}

/// A failure of the embedding model.
#[derive(Debug, Clone)]
pub enum ModelError {
    /// The model could not be loaded; the cause is given.
    LoadFailed(String),
    /// The model ran and failed; the cause is given.
    InferenceFailed(String),
    /// The model is not loaded although it should be.
    NotInitialized,
    /// The model answered a single text with no vector at all.
    NoEmbedding,
    /// The model answered a batch with another number of vectors than texts.
    WrongCount,
}

impl ModelError {
    /// A sentence that says what failed, without the cause.
    pub fn message(&self) -> (text: &'static str)
        ensures
            text@ == match *self {
                ModelError::LoadFailed(_) => "Failed to initialize embedding model"@,
                ModelError::InferenceFailed(_) => "Failed to generate embeddings"@,
                ModelError::NotInitialized => "Model not initialized"@,
                ModelError::NoEmbedding => "No embedding generated"@,
                ModelError::WrongCount => "Embedding count does not match input count"@,
            },
    {
        match self {
            ModelError::LoadFailed(_) => "Failed to initialize embedding model",
            ModelError::InferenceFailed(_) => "Failed to generate embeddings",
            ModelError::NotInitialized => "Model not initialized",
            ModelError::NoEmbedding => "No embedding generated",
            ModelError::WrongCount => "Embedding count does not match input count",
        }
    }
}

/// The operations of the vector index.
#[derive(Debug, Clone, Copy, PartialEq, Eq, Structural)]
pub enum IndexOperation {
    Connect,
    CheckCollection,
    CreateCollection,
    Upsert,
    UpsertBatch,
    Search,
    Delete,
}

/// A failure of the vector index: the operation that failed, and the cause.
#[derive(Debug, Clone)]
pub struct IndexError {
    pub operation: IndexOperation,
    pub cause: String,
}

impl IndexError {
    /// A sentence that says what failed, without the cause.
    pub fn message(&self) -> (text: &'static str)
        ensures
            text@ == match self.operation {
                IndexOperation::Connect => "Failed to connect to Qdrant"@,
                IndexOperation::CheckCollection => "Failed to check collection existence"@,
                IndexOperation::CreateCollection => "Failed to create collection"@,
                IndexOperation::Upsert => "Failed to upsert point"@,
                IndexOperation::UpsertBatch => "Failed to batch upsert points"@,
                IndexOperation::Search => "Failed to search vectors"@,
                IndexOperation::Delete => "Failed to delete points"@,
            },
    {
        match self.operation {
            IndexOperation::Connect => "Failed to connect to Qdrant",
            IndexOperation::CheckCollection => "Failed to check collection existence",
            IndexOperation::CreateCollection => "Failed to create collection",
            IndexOperation::Upsert => "Failed to upsert point",
            IndexOperation::UpsertBatch => "Failed to batch upsert points",
            IndexOperation::Search => "Failed to search vectors",
            IndexOperation::Delete => "Failed to delete points",
        }
    }
}

/// A failure of an ingestion or a query.
#[derive(Debug, Clone)]
pub enum RagError {
    Model(ModelError),
    Index(IndexError),
    /// A collaborator that the request needs was never configured; its name
    /// is given.
    NotConfigured(String),
    /// An event arrived that the flow was not waiting for.
    UnexpectedEvent,
}

} // verus!
