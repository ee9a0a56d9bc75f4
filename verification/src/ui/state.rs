//! Headless UI state (view models) and the message vocabulary.
//!
//! Everything here is plain data, testable without a display server.
//! The application populates these structs from backend services, views
//! render them, and `update` moves them from state to state. Backend
//! effects (scan, cleanup, search) are the application's business after
//! `update` has run.
use vstd::prelude::*;
use crate::models::SearchCapability;
use crate::text;
use crate::text::{chars_of, is_blank, string_of, trim_vec};
use crate::ui::i18n::Locale;

verus! {

/// Top-level pages, in sidebar order.
#[derive(Debug, Clone, Copy, PartialEq, Eq, Structural)]
pub enum ViewId {
    Search,
    Sources,
    Indexing,
    Storage,
    Models,
    Settings,
}

impl ViewId {
    /// Sidebar order: search first.
    pub const ALL: &'static [ViewId; 6] = &[
        ViewId::Search,
        ViewId::Sources,
        ViewId::Indexing,
        ViewId::Storage,
        ViewId::Models,
        ViewId::Settings,
    ];
}

/// Sidebar index-health summary.
#[derive(Debug, Clone, Copy, PartialEq, Eq, Structural)]
pub struct IndexHealth {
    pub indexed: u64,
    pub stale: u64,
    pub failed: u64,
    pub queued: u64,
}

impl Default for IndexHealth {
    fn default() -> (h: IndexHealth)
        ensures
            h.indexed == 0 && h.stale == 0 && h.failed == 0 && h.queued == 0,
    {
        IndexHealth { indexed: 0, stale: 0, failed: 0, queued: 0 }
    }
}

/// One source card. Status text is resolved at render time.
#[derive(Debug, Clone, PartialEq, Eq)]
pub struct SourceCard {
    pub display_name: String,
    pub display_path: String,
    pub indexed: u64,
    pub stale: u64,
    pub failed: u64,
    pub active: bool,
    /// The catalog id of the source.
    pub source_id: String,
}

/// The whole-app view model.
#[derive(Debug, Clone)]
pub struct AppState {
    pub active_view: ViewId,
    pub locale: Locale,
    pub query: String,
    pub last_query: Option<String>,
    pub health: IndexHealth,
    pub sources: Vec<SourceCard>,
    pub capability: SearchCapability,
    /// Total orbok storage in bytes.
    pub storage_total_bytes: u64,
}

/// The app state with its texts as sequences.
#[verifier::ext_equal]
pub struct AppStateView {
    pub active_view: ViewId,
    pub locale: Locale,
    pub query: Seq<char>,
    pub last_query: Option<Seq<char>>,
    pub health: IndexHealth,
    pub sources: Seq<SourceCard>,
    pub capability: SearchCapability,
    pub storage_total_bytes: u64,
}

/// The view of an optional string.
pub open spec fn opt_text(o: Option<String>) -> Option<Seq<char>> {
    match o {
        Some(s) => Some(s@),
        None => None,
    }
}

impl View for AppState {
    type V = AppStateView;

    open spec fn view(&self) -> AppStateView {
        AppStateView {
            active_view: self.active_view,
            locale: self.locale,
            query: self.query@,
            last_query: opt_text(self.last_query),
            health: self.health,
            sources: self.sources@,
            capability: self.capability,
            storage_total_bytes: self.storage_total_bytes,
        }
    }
}

/// The state the app starts in.
pub open spec fn initial_state() -> AppStateView {
    AppStateView {
        active_view: ViewId::Search,
        locale: Locale::En,
        query: Seq::empty(),
        last_query: None,
        health: IndexHealth { indexed: 0, stale: 0, failed: 0, queued: 0 },
        sources: Seq::empty(),
        capability: SearchCapability::KeywordOnly,
        storage_total_bytes: 0,
    }
}

impl Default for AppState {
    fn default() -> (s: AppState)
        ensures
            s@ == initial_state(),
    {
        AppState {
            active_view: ViewId::Search,
            locale: Locale::En,
            query: String::new(),
            last_query: None,
            health: IndexHealth::default(),
            sources: Vec::new(),
            capability: SearchCapability::KeywordOnly,
            storage_total_bytes: 0,
        }
    }
}

/// UI messages.
#[derive(Debug, Clone)]
pub enum Message {
    Switch(ViewId),
    QueryChanged(String),
    SubmitSearch,
    SetLocale(Locale),
}

/// A message with its text as a sequence.
pub enum MessageView {
    Switch(ViewId),
    QueryChanged(Seq<char>),
    SubmitSearch,
    SetLocale(Locale),
}

impl View for Message {
    type V = MessageView;

    open spec fn view(&self) -> MessageView {
        match self {
            Message::Switch(v) => MessageView::Switch(*v),
            Message::QueryChanged(q) => MessageView::QueryChanged(q@),
            Message::SubmitSearch => MessageView::SubmitSearch,
            Message::SetLocale(l) => MessageView::SetLocale(*l),
        }
    }
}

/// The state after a message: switching pages, editing the query,
/// submitting it (its trimmed text becomes the last query unless it is
/// blank), or changing the locale.
pub open spec fn next_state(s: AppStateView, m: MessageView) -> AppStateView {
    match m {
        MessageView::Switch(v) => AppStateView { active_view: v, ..s },
        MessageView::QueryChanged(q) => AppStateView { query: q, ..s },
        MessageView::SubmitSearch => if text::all_ws(s.query) {
            s
        } else {
            AppStateView { last_query: Some(text::trim(s.query)), ..s }
        },
        MessageView::SetLocale(l) => AppStateView { locale: l, ..s },
    }
}

impl AppState {
    /// Pure state transition. Side-effect intents (such as running the
    /// search) are handled by the application after calling this.
    pub fn update(&mut self, message: &Message)
        ensures
            final(self)@ == next_state(old(self)@, message@),
    {
        match message {
            Message::Switch(view) => self.active_view = *view,
            Message::QueryChanged(query) => self.query = query.clone(),
            Message::SubmitSearch => {
                let q = chars_of(self.query.as_str());
                if !is_blank(&q) {
                    let trimmed = trim_vec(&q);
                    self.last_query = Some(string_of(&trimmed));
                }
            },
            Message::SetLocale(locale) => self.locale = *locale,
        }
    }
}

/// A blank submission does not clobber the last submitted query.
pub proof fn law_blank_submit_keeps_last_query(s: AppStateView)
    requires
        text::all_ws(s.query),
    ensures
        next_state(s, MessageView::SubmitSearch) == s,
{
}

/// Submitting twice is submitting once.
pub proof fn law_submit_idempotent(s: AppStateView)
    ensures
        next_state(next_state(s, MessageView::SubmitSearch), MessageView::SubmitSearch)
            == next_state(s, MessageView::SubmitSearch),
{
}

/// Typing a query and submitting it records the query, trimmed, as the
/// last query, and leaves everything but the query texts as it was.
pub proof fn law_submitted_query_is_trimmed(s: AppStateView, q: Seq<char>)
    requires
        !text::all_ws(q),
    ensures
        next_state(next_state(s, MessageView::QueryChanged(q)), MessageView::SubmitSearch)
            == (AppStateView { query: q, last_query: Some(text::trim(q)), ..s }),
{
}

/// The initial state in a given locale.
pub open spec fn start_state(locale: Locale) -> AppStateView {
    AppStateView { locale, ..initial_state() }
}

/// The locale a stored setting names; English when it is absent or names
/// no known locale.
pub open spec fn stored_or_default(stored: Option<&str>) -> Locale {
    match stored {
        Some(code) => match crate::ui::i18n::parse_code(code@) {
            Some(l) => l,
            None => Locale::En,
        },
        None => Locale::En,
    }
}

/// The state to start the app in, given the locale setting as stored
/// (if any): the default state in the stored locale, English when the
/// setting is absent or names no known locale, keyword-only search.
pub fn load_initial_state(stored_locale: Option<&str>) -> (s: AppState)
    ensures
        s@ == start_state(stored_or_default(stored_locale)),
{
    let locale = match stored_locale {
        Some(code) => match Locale::parse(code) {
            Some(l) => l,
            None => Locale::default(),
        },
        None => Locale::default(),
    };
    let mut state = AppState::default();
    state.locale = locale;
    state.capability = SearchCapability::KeywordOnly;
    state
}

} // verus!
