use orbok::model_verifier::{FileIssue, FileIssueKind, VerifyOutcome};
use orbok::models::SearchCapability;
use orbok::ui::pages::{indexing_status, model_role_statuses, search_notice, source_status, SearchNotice};
use orbok::ui::i18n::{files_indexed, search_result_count, source_summary, tr, Locale, MessageKey};
use orbok::ui::shell::OrbokApp;
use orbok::ui::state::{load_initial_state, AppState, IndexHealth, Message, SourceCard, ViewId};
use orbok::ui::wizard::build_wizard_checks;

const ALL_KEYS: &[MessageKey] = &[
    MessageKey::AppTitle,
    MessageKey::LocalOnlyBadge,
    MessageKey::NavSearch,
    MessageKey::NavSources,
    MessageKey::NavIndexing,
    MessageKey::NavStorage,
    MessageKey::NavModels,
    MessageKey::NavSettings,
    MessageKey::SearchPlaceholder,
    MessageKey::SearchButton,
    MessageKey::SearchNoSourcesTitle,
    MessageKey::SearchNoSourcesBody,
    MessageKey::SearchAddSource,
    MessageKey::SearchNoResults,
    MessageKey::SearchKeywordOnlyNotice,
    MessageKey::SourcesTitle,
    MessageKey::SourcesEmptyTitle,
    MessageKey::SourcesEmptyBody,
    MessageKey::SourcesAddFolder,
    MessageKey::SourcesStatusActive,
    MessageKey::SourcesStatusPaused,
    MessageKey::SourcesStatusMissing,
    MessageKey::IndexingTitle,
    MessageKey::IndexingIdle,
    MessageKey::IndexingHealthIndexed,
    MessageKey::IndexingHealthStale,
    MessageKey::IndexingHealthFailed,
    MessageKey::IndexingHealthQueued,
    MessageKey::StorageTitle,
    MessageKey::StorageIntro,
    MessageKey::StorageSafeCleanupHeading,
    MessageKey::StorageClearSnippets,
    MessageKey::StorageClearSearchCache,
    MessageKey::StorageDangerHeading,
    MessageKey::StorageResetCatalog,
    MessageKey::StorageResetWarning,
    MessageKey::ModelsTitle,
    MessageKey::ModelsEmbeddingRole,
    MessageKey::ModelsRerankerRole,
    MessageKey::ModelsStatusAvailable,
    MessageKey::ModelsStatusMissing,
    MessageKey::ModelsKeywordOnlyHint,
    MessageKey::SettingsTitle,
    MessageKey::SettingsLanguageHeading,
    MessageKey::SettingsPrivacyHeading,
    MessageKey::SettingsPrivacyLocalOnly,
    MessageKey::Cancel,
    MessageKey::Confirm,
];

#[test]
fn all_messages_non_empty_in_all_locales() {
    for locale in Locale::ALL {
        for key in ALL_KEYS {
            assert!(!tr(*locale, *key).is_empty(), "{locale:?} {key:?} is empty");
        }
    }
}

#[test]
fn locales_differ_for_translatable_keys() {
    let differing = ALL_KEYS
        .iter()
        .filter(|key| tr(Locale::En, **key) != tr(Locale::Ja, **key))
        .count();
    assert!(differing > ALL_KEYS.len() / 2, "catalogs are suspiciously identical");
}

#[test]
fn parameterized_messages_localize() {
    assert!(files_indexed(Locale::En, 3).contains("3 files"));
    assert!(files_indexed(Locale::Ja, 3).contains('3'));
    assert_ne!(source_summary(Locale::En, 1, 2, 3), source_summary(Locale::Ja, 1, 2, 3));
}

#[test]
fn locale_setting_round_trip() {
    for locale in Locale::ALL {
        assert_eq!(Locale::parse(locale.as_str()), Some(*locale));
    }
    assert_eq!(Locale::parse("xx"), None);
}

#[test]
fn state_transitions() {
    let mut state = AppState::default();
    assert_eq!(state.active_view, ViewId::Search);

    state.update(&Message::Switch(ViewId::Storage));
    assert_eq!(state.active_view, ViewId::Storage);

    state.update(&Message::QueryChanged("  token expiry ".into()));
    state.update(&Message::SubmitSearch);
    assert_eq!(state.last_query.as_deref(), Some("token expiry"));

    state.update(&Message::QueryChanged("   ".into()));
    state.update(&Message::SubmitSearch);
    // Blank query does not clobber the last submitted one.
    assert_eq!(state.last_query.as_deref(), Some("token expiry"));

    state.update(&Message::SetLocale(Locale::Ja));
    assert_eq!(state.locale, Locale::Ja);
}

#[test]
fn navigation_order_is_search_first() {
    assert_eq!(ViewId::ALL.len(), 6);
    assert_eq!(ViewId::ALL[0], ViewId::Search);
    assert_eq!(ViewId::ALL[5], ViewId::Settings);
}

#[test]
fn source_card_has_source_id() {
    let card = SourceCard {
        display_name: "test".into(),
        display_path: "/path".into(),
        indexed: 5,
        stale: 0,
        failed: 0,
        active: true,
        source_id: "src-abc123".into(),
    };
    assert_eq!(card.source_id, "src-abc123");
}

#[test]
fn parameterized_messages_exact_text() {
    assert_eq!(files_indexed(Locale::En, 0), "0 files indexed");
    assert_eq!(files_indexed(Locale::En, 1234), "1234 files indexed");
    assert_eq!(source_summary(Locale::En, 1, 2, 3), "1 indexed · 2 stale · 3 failed");
    assert_eq!(source_summary(Locale::Ja, 10, 0, 7), "済み 10 · 要更新 0 · 失敗 7");
    assert_eq!(search_result_count(Locale::En, 20), "20 results");
    assert_eq!(search_result_count(Locale::Ja, 5), "5 件の結果");
}

#[test]
fn every_key_translates_differently_except_the_product_name() {
    for key in ALL_KEYS {
        if *key != MessageKey::AppTitle {
            assert_ne!(tr(Locale::En, *key), tr(Locale::Ja, *key), "{key:?}");
        }
    }
    assert_eq!(tr(Locale::En, MessageKey::AppTitle), tr(Locale::Ja, MessageKey::AppTitle));
}

#[test]
fn locale_names_and_default() {
    assert_eq!(Locale::default(), Locale::En);
    assert_eq!(Locale::En.display_name(), "English");
    assert_eq!(Locale::Ja.display_name(), "日本語");
    assert_eq!(Locale::parse("EN"), None);
    assert_eq!(Locale::parse(" ja"), None);
}

#[test]
fn submit_is_idempotent_and_trims() {
    let mut state = AppState::default();
    state.update(&Message::QueryChanged("\t refresh tokens \n".into()));
    state.update(&Message::SubmitSearch);
    state.update(&Message::SubmitSearch);
    assert_eq!(state.last_query.as_deref(), Some("refresh tokens"));
    assert_eq!(state.query, "\t refresh tokens \n");
}

#[test]
fn initial_state_follows_the_stored_locale() {
    assert_eq!(load_initial_state(Some("ja")).locale, Locale::Ja);
    assert_eq!(load_initial_state(Some("fr")).locale, Locale::En);
    let s = load_initial_state(None);
    assert_eq!(s.locale, Locale::En);
    assert_eq!(s.active_view, ViewId::Search);
    assert!(s.last_query.is_none());
    assert!(s.sources.is_empty());
}

#[test]
fn shell_title_and_update() {
    let mut app = OrbokApp::with_state(AppState::default());
    assert_eq!(app.title(), "orbok");
    app.update(Message::SetLocale(Locale::Ja));
    assert_eq!(app.state.locale, Locale::Ja);
    assert_eq!(app.title(), "orbok");
    app.update(Message::Switch(ViewId::Models));
    assert_eq!(app.state.active_view, ViewId::Models);
    let fresh = OrbokApp::default();
    assert_eq!(fresh.state.active_view, ViewId::Search);
}

#[test]
fn wizard_checks_follow_the_outcome() {
    let (checks, ok) = build_wizard_checks(&VerifyOutcome::Ready, "/m");
    assert!(ok);
    assert_eq!(checks.len(), 2);
    assert_eq!(checks[0].relative_path, "onnx/model.onnx");
    assert_eq!(checks[1].relative_path, "tokenizer.json");
    assert!(checks.iter().all(|c| c.found));

    let invalid = VerifyOutcome::FilesInvalid {
        model_dir: "/m".into(),
        issues: vec![FileIssue { relative_path: "tokenizer.json".into(), reason: FileIssueKind::NotFound }],
    };
    let (checks, ok) = build_wizard_checks(&invalid, "/m");
    assert!(!ok);
    assert!(checks[0].found);
    assert!(!checks[1].found);

    let (checks, ok) = build_wizard_checks(&VerifyOutcome::NotConfigured, "");
    assert!(!ok);
    assert!(checks.iter().all(|c| !c.found));
}

#[test]
fn page_texts_follow_the_state() {
    let idle = IndexHealth { indexed: 4, stale: 0, failed: 0, queued: 0 };
    let busy = IndexHealth { indexed: 4, stale: 0, failed: 0, queued: 2 };
    assert_eq!(indexing_status(Locale::En, idle), "Index is up to date");
    assert_eq!(indexing_status(Locale::En, busy), "4 files indexed");
    assert_eq!(model_role_statuses(Locale::En, SearchCapability::KeywordOnly), ("Missing", "Missing"));
    assert_eq!(model_role_statuses(Locale::En, SearchCapability::Hybrid), ("Available", "Missing"));
    assert_eq!(model_role_statuses(Locale::Ja, SearchCapability::HybridWithRerank), ("利用可能", "利用可能"));
    assert_eq!(source_status(Locale::En, true), "Active");
    assert_eq!(source_status(Locale::En, false), "Paused");
    let mut state = AppState::default();
    assert_eq!(search_notice(&state), SearchNotice::NoSources);
    state.sources.push(SourceCard {
        display_name: "docs".into(),
        display_path: "/docs".into(),
        indexed: 1,
        stale: 0,
        failed: 0,
        active: true,
        source_id: "src_1".into(),
    });
    assert_eq!(search_notice(&state), SearchNotice::KeywordOnly);
    state.capability = SearchCapability::Hybrid;
    assert_eq!(search_notice(&state), SearchNotice::Nothing);
}
