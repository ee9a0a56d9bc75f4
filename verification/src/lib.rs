//! orbok: local document search, the verified core.
//!
//! Text normalization and extraction (Markdown, plain text, PDF),
//! adaptive chunking, safe keyword query building, content hashing,
//! typed identifiers, catalog records and storage accounting, the
//! pending-job run, model verification, cache namespaces, localized UI
//! messages and the headless UI state machine.
pub mod vocab;
pub mod text;
pub mod normalize;
pub mod extract;
pub mod chunker;
pub mod query;
pub mod search;
pub mod sensitive;
pub mod hashing;
pub mod ids;
pub mod cache;
pub mod catalog;
pub mod workers;
pub mod models;
pub mod model_verifier;
pub mod ui;
pub mod bench;
