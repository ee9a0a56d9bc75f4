//! Shared vocabulary of the pipeline: stage versions and the status and
//! category enums the catalog records carry.
use vstd::prelude::*;

verus! {

/// Text normalization stage version.
pub const NORMALIZATION_VERSION: &'static str = "norm-v1";

/// Chunker version.
pub const CHUNKER_VERSION: &'static str = "chunker-v1";

/// Keyword index text builder version.
pub const KEYWORD_TEXT_BUILDER_VERSION: &'static str = "kw-text-v1";

/// Embedding text builder version.
pub const EMBEDDING_TEXT_BUILDER_VERSION: &'static str = "embed-text-v1";

/// Lifecycle class of stored data.
#[derive(Debug, Clone, Copy, PartialEq, Eq, Structural)]
pub enum DataClass {
    /// Derived from source files; safe to delete and rebuild.
    RebuildableIndex,
    /// Short-lived; safe to drop at any time.
    EphemeralCache,
}

/// Storage accounting categories, in the order the Storage view lists
/// them.
#[derive(Debug, Clone, Copy, PartialEq, Eq, Structural)]
pub enum StorageCategory {
    PersistentCatalog,
    KeywordIndex,
    VectorIndex,
    SnippetCache,
    SearchCache,
    TemporaryExtraction,
    Logs,
    ModelFiles,
}

/// Kinds of index job.
#[derive(Debug, Clone, Copy, PartialEq, Eq, Structural)]
pub enum JobType {
    Extract,
    Chunk,
    KeywordIndex,
    Embed,
}

/// Index job states.
#[derive(Debug, Clone, Copy, PartialEq, Eq, Structural)]
pub enum JobStatus {
    Queued,
    Running,
    Succeeded,
    Failed,
    Canceled,
}

/// Catalog states of a file.
#[derive(Debug, Clone, Copy, PartialEq, Eq, Structural)]
pub enum FileStatus {
    Indexed,
    Stale,
    Failed,
    Missing,
    Deleted,
}

} // verus!
