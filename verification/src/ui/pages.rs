//! What the pages show, decided from the view model: the texts and
//! notices each page renders. Drawing them is the application's part.
use vstd::prelude::*;
use crate::models::SearchCapability;
use crate::ui::i18n::{files_indexed, files_indexed_text, message_text, tr, Locale, MessageKey};
use crate::ui::state::{AppState, IndexHealth};

verus! {

/// The status line of the indexing page: idle when nothing is queued,
/// else how many files are indexed so far.
pub fn indexing_status(locale: Locale, health: IndexHealth) -> (s: String)
    ensures
        health.queued == 0 ==> s@ == message_text(locale, MessageKey::IndexingIdle),
        health.queued != 0 ==> s@ == files_indexed_text(locale, health.indexed as nat),
{
    if health.queued == 0 {
        tr(locale, MessageKey::IndexingIdle).to_owned()
    } else {
        files_indexed(locale, health.indexed)
    }
}

/// The availability shown for the embedding and reranker roles.
pub fn model_role_statuses(locale: Locale, capability: SearchCapability) -> (r: (
    &'static str,
    &'static str,
))
    ensures
        r.0@ == message_text(
            locale,
            if capability == SearchCapability::KeywordOnly {
                MessageKey::ModelsStatusMissing
            } else {
                MessageKey::ModelsStatusAvailable
            },
        ),
        r.1@ == message_text(
            locale,
            if capability == SearchCapability::HybridWithRerank {
                MessageKey::ModelsStatusAvailable
            } else {
                MessageKey::ModelsStatusMissing
            },
        ),
{
    let available = tr(locale, MessageKey::ModelsStatusAvailable);
    let missing = tr(locale, MessageKey::ModelsStatusMissing);
    match capability {
        SearchCapability::KeywordOnly => (missing, missing),
        SearchCapability::Hybrid => (available, missing),
        SearchCapability::HybridWithRerank => (available, available),
    }
}

/// The status label of a source card.
pub fn source_status(locale: Locale, active: bool) -> (s: &'static str)
    ensures
        s@ == message_text(
            locale,
            if active {
                MessageKey::SourcesStatusActive
            } else {
                MessageKey::SourcesStatusPaused
            },
        ),
{
    if active {
        tr(locale, MessageKey::SourcesStatusActive)
    } else {
        tr(locale, MessageKey::SourcesStatusPaused)
    }
}

/// What the search page shows besides the input.
#[derive(Debug, Clone, Copy, PartialEq, Eq, Structural)]
pub enum SearchNotice {
    /// No source is registered: invite the user to add one.
    NoSources,
    /// Sources exist but semantic search is unavailable.
    KeywordOnly,
    /// Nothing to add.
    Nothing,
}

/// The search page's notice: the empty state without sources, else the
/// keyword-only notice when no embedding model is available.
pub fn search_notice(state: &AppState) -> (n: SearchNotice)
    ensures
        n == (if state.sources@.len() == 0 {
            SearchNotice::NoSources
        } else if state.capability == SearchCapability::KeywordOnly {
            SearchNotice::KeywordOnly
        } else {
            SearchNotice::Nothing
        }),
{
    if state.sources.len() == 0 {
        SearchNotice::NoSources
    } else if state.capability == SearchCapability::KeywordOnly {
        SearchNotice::KeywordOnly
    } else {
        SearchNotice::Nothing
    }
}

} // verus!
