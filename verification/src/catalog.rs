//! Catalog records: what the persistent catalog stores about files,
//! index jobs, storage use and application events.
use vstd::prelude::*;
use crate::ids::{FileId, JobId, SourceId};
use crate::vocab::{FileStatus, JobStatus, JobType, StorageCategory};

verus! {

/// A queued or running index job.
#[derive(Debug, Clone)]
pub struct JobRecord {
    pub job_id: JobId,
    pub source_id: Option<SourceId>,
    pub file_id: Option<FileId>,
    pub job_type: JobType,
    pub status: JobStatus,
}

/// One storage accounting row per category.
#[derive(Debug, Clone)]
pub struct StorageRow {
    pub category: StorageCategory,
    pub size_bytes: u64,
    pub item_count: u64,
    pub updated_at: String,
}

/// A cataloged file.
#[derive(Debug, Clone)]
pub struct FileRecord {
    pub file_id: FileId,
    pub source_id: SourceId,
    pub original_path: String,
    pub canonical_path: String,
    pub display_path: String,
    pub extension: Option<String>,
    pub file_size_bytes: u64,
    pub modified_at: Option<String>,
    pub platform_file_key: Option<String>,
    pub content_hash: Option<String>,
    pub hash_algorithm: Option<String>,
    pub file_status: FileStatus,
    pub last_seen_at: String,
    pub last_indexed_at: Option<String>,
}

/// Parameters for inserting a newly discovered file.
#[derive(Debug, Clone)]
pub struct NewFile {
    pub source_id: SourceId,
    pub original_path: String,
    pub canonical_path: String,
    pub display_path: String,
    pub extension: Option<String>,
    pub metadata: ObservedMetadata,
    pub status: FileStatus,
}

/// Metadata observed on disk during a scan (the fast change check).
#[derive(Debug, Clone)]
pub struct ObservedMetadata {
    pub file_size_bytes: u64,
    pub modified_at: Option<String>,
    pub platform_file_key: Option<String>,
    pub content_hash: Option<String>,
}

impl Default for ObservedMetadata {
    fn default() -> (m: ObservedMetadata)
        ensures
            m.file_size_bytes == 0,
            m.modified_at is None,
            m.platform_file_key is None,
            m.content_hash is None,
    {
        ObservedMetadata {
            file_size_bytes: 0,
            modified_at: None,
            platform_file_key: None,
            content_hash: None,
        }
    }
}

/// The hash algorithm recorded beside a content hash: `sha256` when
/// there is a hash, nothing otherwise.
pub fn hash_algorithm_for(metadata: &ObservedMetadata) -> (r: Option<&'static str>)
    ensures
        metadata.content_hash is Some ==> r is Some && r->0@ == "sha256"@,
        metadata.content_hash is None ==> r is None,
{
    match &metadata.content_hash {
        Some(_) => Some("sha256"),
        None => None,
    }
}

/// Event severity.
#[derive(Debug, Clone, Copy, PartialEq, Eq, Structural)]
pub enum Severity {
    Debug,
    Info,
    Warning,
    Error,
}

impl Severity {
    /// The stored spelling of a severity.
    pub open spec fn text(self) -> Seq<char> {
        match self {
            Severity::Debug => "debug"@,
            Severity::Info => "info"@,
            Severity::Warning => "warning"@,
            Severity::Error => "error"@,
        }
    }

    pub fn as_str(&self) -> (s: &'static str)
        ensures
            s@ == self.text(),
    {
        match self {
            Severity::Debug => "debug",
            Severity::Info => "info",
            Severity::Warning => "warning",
            Severity::Error => "error",
        }
    }
}

/// What the measuring queries found, per storage category.
#[derive(Debug, Clone, Copy, PartialEq, Eq, Structural)]
pub struct StorageCounts {
    /// Size of the catalog database (file size, or page count times page
    /// size when it lives in memory).
    pub catalog_bytes: u64,
    /// Sources not removed.
    pub sources: u64,
    /// Active keyword index records.
    pub keyword_records: u64,
    /// Active embeddings and the total length of their vectors.
    pub embeddings: u64,
    pub embedding_bytes: u64,
    /// Snippet cache rows and their stored sizes.
    pub snippets: u64,
    pub snippet_bytes: u64,
    /// Search result cache rows.
    pub search_cache_rows: u64,
    /// Size of the local extraction cache database.
    pub cache_db_bytes: u64,
    /// Succeeded extractions.
    pub extractions: u64,
    /// Application events.
    pub events: u64,
}

/// The size of a catalog that lives in memory: its page count times its
/// page size, as SQLite reports them, read as an unsigned byte count.
pub fn in_memory_catalog_bytes(page_count: i64, page_size: i64) -> (b: u64)
    requires
        i64::MIN <= page_count * page_size <= i64::MAX,
    ensures
        b == (page_count * page_size) as u64,
{
    let product = page_count * page_size;
    product as u64
}

/// Approximate bytes per keyword index record (FTS overhead).
pub const KEYWORD_RECORD_BYTES: u64 = 256;

/// Estimated bytes per cached search result.
pub const SEARCH_RESULT_BYTES: u64 = 512;

/// Estimated bytes per logged event.
pub const EVENT_BYTES: u64 = 256;

/// The accounting rows for measured counts: (category, bytes, items).
pub open spec fn accounting(c: StorageCounts) -> Seq<(StorageCategory, int, int)> {
    seq![
        (StorageCategory::PersistentCatalog, c.catalog_bytes as int, c.sources as int),
        (StorageCategory::KeywordIndex, c.keyword_records * 256, c.keyword_records as int),
        (StorageCategory::VectorIndex, c.embedding_bytes as int, c.embeddings as int),
        (StorageCategory::SnippetCache, c.snippet_bytes as int, c.snippets as int),
        (StorageCategory::SearchCache, c.search_cache_rows * 512, c.search_cache_rows as int),
        (StorageCategory::TemporaryExtraction, c.cache_db_bytes as int, c.extractions as int),
        (StorageCategory::Logs, c.events * 256, c.events as int),
        (StorageCategory::ModelFiles, 0int, 0int),
    ]
}

/// The rows as integers.
pub open spec fn row_values(rows: Seq<(StorageCategory, u64, u64)>) -> Seq<
    (StorageCategory, int, int),
> {
    rows.map_values(|r: (StorageCategory, u64, u64)| (r.0, r.1 as int, r.2 as int))
}

/// Storage accounting for the Storage view, approximate on purpose:
/// catalog, vector and snippet sizes as measured, keyword records at 256
/// bytes each, cached search results at 512, events at 256; model files
/// are not tracked yet. One row per category, in category order.
pub fn storage_accounting_rows(c: &StorageCounts) -> (rows: Vec<(StorageCategory, u64, u64)>)
    requires
        c.keyword_records * 256 <= u64::MAX,
        c.search_cache_rows * 512 <= u64::MAX,
        c.events * 256 <= u64::MAX,
    ensures
        row_values(rows@) == accounting(*c),
{
    let mut rows: Vec<(StorageCategory, u64, u64)> = Vec::new();
    rows.push((StorageCategory::PersistentCatalog, c.catalog_bytes, c.sources));
    rows.push(
        (StorageCategory::KeywordIndex, c.keyword_records * KEYWORD_RECORD_BYTES, c.keyword_records),
    );
    rows.push((StorageCategory::VectorIndex, c.embedding_bytes, c.embeddings));
    rows.push((StorageCategory::SnippetCache, c.snippet_bytes, c.snippets));
    rows.push(
        (
            StorageCategory::SearchCache,
            c.search_cache_rows * SEARCH_RESULT_BYTES,
            c.search_cache_rows,
        ),
    );
    rows.push((StorageCategory::TemporaryExtraction, c.cache_db_bytes, c.extractions));
    rows.push((StorageCategory::Logs, c.events * EVENT_BYTES, c.events));
    rows.push((StorageCategory::ModelFiles, 0, 0));
    assert(row_values(rows@) =~= accounting(*c));
    rows
}

/// Every category is accounted exactly once.
pub proof fn law_accounting_covers_each_category_once(c: StorageCounts, cat: StorageCategory)
    ensures
        exists|k: int| 0 <= k < 8 && (#[trigger] accounting(c)[k]).0 == cat,
        forall|j: int, k: int|
            0 <= j < k < 8 ==> (#[trigger] accounting(c)[j]).0 != (#[trigger] accounting(c)[k]).0,
{
    let a = accounting(c);
    match cat {
        StorageCategory::PersistentCatalog => assert(a[0].0 == cat),
        StorageCategory::KeywordIndex => assert(a[1].0 == cat),
        StorageCategory::VectorIndex => assert(a[2].0 == cat),
        StorageCategory::SnippetCache => assert(a[3].0 == cat),
        StorageCategory::SearchCache => assert(a[4].0 == cat),
        StorageCategory::TemporaryExtraction => assert(a[5].0 == cat),
        StorageCategory::Logs => assert(a[6].0 == cat),
        StorageCategory::ModelFiles => assert(a[7].0 == cat),
    }
}

} // verus!
