//! Text extraction: extractors turn a source file's bytes into
//! normalized, line-located segments.
pub mod types;
pub mod decode;
pub mod markdown;
pub mod plain;
pub mod pdf;
pub mod registry;
