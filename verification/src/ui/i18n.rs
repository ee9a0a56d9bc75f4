//! Localized UI messages: a typed catalog in English and Japanese.
//!
//! Every [`MessageKey`] has a text in every [`Locale`]: the catalogs are
//! exhaustive matches, so a key without a translation does not compile.
use vstd::prelude::*;
use crate::text;
use crate::text::{chars_eq, chars_of, decimal_u64, push_all, string_of};

verus! {

/// Supported UI locales.
#[derive(Debug, Clone, Copy, PartialEq, Eq, Structural)]
pub enum Locale {
    En,
    Ja,
}

impl Locale {
    /// Every locale, in menu order.
    pub const ALL: &'static [Locale; 2] = &[Locale::En, Locale::Ja];

    /// The setting value of a locale.
    pub open spec fn code(self) -> Seq<char> {
        match self {
            Locale::En => "en"@,
            Locale::Ja => "ja"@,
        }
    }

    /// The setting value stored for this locale (`"en"`, `"ja"`).
    pub fn as_str(&self) -> (s: &'static str)
        ensures
            s@ == self.code(),
    {
        match self {
            Locale::En => "en",
            Locale::Ja => "ja",
        }
    }

    /// The locale a setting value names, `None` for any other text.
    pub fn parse(s: &str) -> (r: Option<Locale>)
        ensures
            r == parse_code(s@),
    {
        let v = chars_of(s);
        if chars_eq(&v, &chars_of("en")) {
            Some(Locale::En)
        } else if chars_eq(&v, &chars_of("ja")) {
            Some(Locale::Ja)
        } else {
            None
        }
    }

    /// The locale's own name for itself, for the language picker.
    pub fn display_name(&self) -> (s: &'static str)
        ensures
            s@ == match self {
                Locale::En => "English"@,
                Locale::Ja => "日本語"@,
            },
    {
        match self {
            Locale::En => "English",
            Locale::Ja => "日本語",
        }
    }
}

/// The locale a setting value names.
pub open spec fn parse_code(s: Seq<char>) -> Option<Locale> {
    if s == "en"@ {
        Some(Locale::En)
    } else if s == "ja"@ {
        Some(Locale::Ja)
    } else {
        None
    }
}

impl Default for Locale {
    fn default() -> (l: Locale)
        ensures
            l == Locale::En,
    {
        Locale::En
    }
}

/// Parsing the stored value of a locale gives the locale back.
pub proof fn law_locale_round_trip(l: Locale)
    ensures
        parse_code(l.code()) == Some(l),
{
    reveal_strlit("en");
    reveal_strlit("ja");
    assert("ja"@[0] != "en"@[0]);
}

/// Message keys of the catalog.
#[derive(Debug, Clone, Copy, PartialEq, Eq, Structural)]
pub enum MessageKey {
    AppTitle,
    LocalOnlyBadge,
    NavSearch,
    NavSources,
    NavIndexing,
    NavStorage,
    NavModels,
    NavSettings,
    SearchPlaceholder,
    SearchButton,
    SearchNoSourcesTitle,
    SearchNoSourcesBody,
    SearchAddSource,
    SearchNoResults,
    SearchKeywordOnlyNotice,
    SourcesTitle,
    SourcesEmptyTitle,
    SourcesEmptyBody,
    SourcesAddFolder,
    SourcesStatusActive,
    SourcesStatusPaused,
    SourcesStatusMissing,
    IndexingTitle,
    IndexingIdle,
    IndexingHealthIndexed,
    IndexingHealthStale,
    IndexingHealthFailed,
    IndexingHealthQueued,
    StorageTitle,
    StorageIntro,
    StorageSafeCleanupHeading,
    StorageClearSnippets,
    StorageClearSearchCache,
    StorageDangerHeading,
    StorageResetCatalog,
    StorageResetWarning,
    ModelsTitle,
    ModelsEmbeddingRole,
    ModelsRerankerRole,
    ModelsStatusAvailable,
    ModelsStatusMissing,
    ModelsKeywordOnlyHint,
    SettingsTitle,
    SettingsLanguageHeading,
    SettingsPrivacyHeading,
    SettingsPrivacyLocalOnly,
    SearchModeLabel,
    SearchModeAuto,
    SearchModeExact,
    SearchModeConceptual,
    SearchModeFast,
    BadgeKeyword,
    BadgeSemantic,
    BadgeFused,
    Cancel,
    Confirm,
}

/// The English text of a key.
pub open spec fn en_text(key: MessageKey) -> Seq<char> {
    match key {
        MessageKey::AppTitle => "orbok"@,
        MessageKey::LocalOnlyBadge => "Local Only"@,
        MessageKey::NavSearch => "Search"@,
        MessageKey::NavSources => "Sources"@,
        MessageKey::NavIndexing => "Indexing"@,
        MessageKey::NavStorage => "Storage"@,
        MessageKey::NavModels => "Models"@,
        MessageKey::NavSettings => "Settings"@,
        MessageKey::SearchPlaceholder => "Search local documents..."@,
        MessageKey::SearchButton => "Search"@,
        MessageKey::SearchNoSourcesTitle => "Nothing to search yet"@,
        MessageKey::SearchNoSourcesBody => "Add a folder or file so orbok can build a local search index."@,
        MessageKey::SearchAddSource => "Add Source"@,
        MessageKey::SearchNoResults => "No results found"@,
        MessageKey::SearchKeywordOnlyNotice => "Semantic search is unavailable. Keyword search still works."@,
        MessageKey::SourcesTitle => "Sources"@,
        MessageKey::SourcesEmptyTitle => "No sources added"@,
        MessageKey::SourcesEmptyBody => "Add folders or files that orbok is allowed to search. orbok will not scan your entire computer automatically."@,
        MessageKey::SourcesAddFolder => "Add Folder"@,
        MessageKey::SourcesStatusActive => "Active"@,
        MessageKey::SourcesStatusPaused => "Paused"@,
        MessageKey::SourcesStatusMissing => "Missing"@,
        MessageKey::IndexingTitle => "Indexing"@,
        MessageKey::IndexingIdle => "Index is up to date"@,
        MessageKey::IndexingHealthIndexed => "Indexed"@,
        MessageKey::IndexingHealthStale => "Stale"@,
        MessageKey::IndexingHealthFailed => "Failed"@,
        MessageKey::IndexingHealthQueued => "Queued"@,
        MessageKey::StorageTitle => "Storage"@,
        MessageKey::StorageIntro => "See what orbok stores and clean up safely."@,
        MessageKey::StorageSafeCleanupHeading => "Safe cleanup"@,
        MessageKey::StorageClearSnippets => "Clear temporary snippets"@,
        MessageKey::StorageClearSearchCache => "Clear expired search cache"@,
        MessageKey::StorageDangerHeading => "Dangerous"@,
        MessageKey::StorageResetCatalog => "Reset catalog..."@,
        MessageKey::StorageResetWarning => "This removes registered sources and all indexes. Your source files are never deleted."@,
        MessageKey::ModelsTitle => "Models"@,
        MessageKey::ModelsEmbeddingRole => "Embedding"@,
        MessageKey::ModelsRerankerRole => "Reranker"@,
        MessageKey::ModelsStatusAvailable => "Available"@,
        MessageKey::ModelsStatusMissing => "Missing"@,
        MessageKey::ModelsKeywordOnlyHint => "Keyword search still works. Install or locate an embedding model to enable conceptual search."@,
        MessageKey::SettingsTitle => "Settings"@,
        MessageKey::SettingsLanguageHeading => "Language"@,
        MessageKey::SettingsPrivacyHeading => "Privacy"@,
        MessageKey::SettingsPrivacyLocalOnly => "Documents are processed on this computer only."@,
        MessageKey::SearchModeLabel => "Mode"@,
        MessageKey::SearchModeAuto => "Auto"@,
        MessageKey::SearchModeExact => "Exact"@,
        MessageKey::SearchModeConceptual => "Conceptual"@,
        MessageKey::SearchModeFast => "Fast"@,
        MessageKey::BadgeKeyword => "Keyword"@,
        MessageKey::BadgeSemantic => "Semantic"@,
        MessageKey::BadgeFused => "Fused"@,
        MessageKey::Cancel => "Cancel"@,
        MessageKey::Confirm => "Confirm"@,
    }
}

/// The Japanese text of a key.
pub open spec fn ja_text(key: MessageKey) -> Seq<char> {
    match key {
        MessageKey::AppTitle => "orbok"@,
        MessageKey::LocalOnlyBadge => "ローカル専用"@,
        MessageKey::NavSearch => "検索"@,
        MessageKey::NavSources => "ソース"@,
        MessageKey::NavIndexing => "インデックス"@,
        MessageKey::NavStorage => "ストレージ"@,
        MessageKey::NavModels => "モデル"@,
        MessageKey::NavSettings => "設定"@,
        MessageKey::SearchPlaceholder => "ローカル文書を検索..."@,
        MessageKey::SearchButton => "検索"@,
        MessageKey::SearchNoSourcesTitle => "検索対象がありません"@,
        MessageKey::SearchNoSourcesBody => "フォルダーまたはファイルを追加すると、orbok がローカル検索インデックスを作成します。"@,
        MessageKey::SearchAddSource => "ソースを追加"@,
        MessageKey::SearchNoResults => "結果が見つかりません"@,
        MessageKey::SearchKeywordOnlyNotice => "セマンティック検索は利用できません。キーワード検索は使用できます。"@,
        MessageKey::SourcesTitle => "ソース"@,
        MessageKey::SourcesEmptyTitle => "ソースが登録されていません"@,
        MessageKey::SourcesEmptyBody => "orbok に検索を許可するフォルダーまたはファイルを追加してください。orbok がコンピューター全体を自動的にスキャンすることはありません。"@,
        MessageKey::SourcesAddFolder => "フォルダーを追加"@,
        MessageKey::SourcesStatusActive => "有効"@,
        MessageKey::SourcesStatusPaused => "一時停止"@,
        MessageKey::SourcesStatusMissing => "見つかりません"@,
        MessageKey::IndexingTitle => "インデックス"@,
        MessageKey::IndexingIdle => "インデックスは最新です"@,
        MessageKey::IndexingHealthIndexed => "済み"@,
        MessageKey::IndexingHealthStale => "要更新"@,
        MessageKey::IndexingHealthFailed => "失敗"@,
        MessageKey::IndexingHealthQueued => "待機中"@,
        MessageKey::StorageTitle => "ストレージ"@,
        MessageKey::StorageIntro => "orbok の保存内容を確認し、安全にクリーンアップできます。"@,
        MessageKey::StorageSafeCleanupHeading => "安全なクリーンアップ"@,
        MessageKey::StorageClearSnippets => "一時スニペットを削除"@,
        MessageKey::StorageClearSearchCache => "期限切れの検索キャッシュを削除"@,
        MessageKey::StorageDangerHeading => "危険な操作"@,
        MessageKey::StorageResetCatalog => "カタログをリセット..."@,
        MessageKey::StorageResetWarning => "登録済みソースとすべてのインデックスを削除します。元のファイルが削除されることはありません。"@,
        MessageKey::ModelsTitle => "モデル"@,
        MessageKey::ModelsEmbeddingRole => "埋め込み"@,
        MessageKey::ModelsRerankerRole => "リランカー"@,
        MessageKey::ModelsStatusAvailable => "利用可能"@,
        MessageKey::ModelsStatusMissing => "未導入"@,
        MessageKey::ModelsKeywordOnlyHint => "キーワード検索は使用できます。概念的な検索を有効にするには、埋め込みモデルを導入してください。"@,
        MessageKey::SettingsTitle => "設定"@,
        MessageKey::SettingsLanguageHeading => "言語"@,
        MessageKey::SettingsPrivacyHeading => "プライバシー"@,
        MessageKey::SettingsPrivacyLocalOnly => "文書はこのコンピューター上でのみ処理されます。"@,
        MessageKey::SearchModeLabel => "モード"@,
        MessageKey::SearchModeAuto => "自動"@,
        MessageKey::SearchModeExact => "完全一致"@,
        MessageKey::SearchModeConceptual => "概念"@,
        MessageKey::SearchModeFast => "高速"@,
        MessageKey::BadgeKeyword => "キーワード"@,
        MessageKey::BadgeSemantic => "セマンティック"@,
        MessageKey::BadgeFused => "統合"@,
        MessageKey::Cancel => "キャンセル"@,
        MessageKey::Confirm => "確認"@,
    }
}

/// The text of a key in a locale.
pub open spec fn message_text(locale: Locale, key: MessageKey) -> Seq<char> {
    match locale {
        Locale::En => en_text(key),
        Locale::Ja => ja_text(key),
    }
}

/// English catalog.
pub fn en_message(key: MessageKey) -> (s: &'static str)
    ensures
        s@ == en_text(key),
{
    match key {
        MessageKey::AppTitle => "orbok",
        MessageKey::LocalOnlyBadge => "Local Only",
        MessageKey::NavSearch => "Search",
        MessageKey::NavSources => "Sources",
        MessageKey::NavIndexing => "Indexing",
        MessageKey::NavStorage => "Storage",
        MessageKey::NavModels => "Models",
        MessageKey::NavSettings => "Settings",
        MessageKey::SearchPlaceholder => "Search local documents...",
        MessageKey::SearchButton => "Search",
        MessageKey::SearchNoSourcesTitle => "Nothing to search yet",
        MessageKey::SearchNoSourcesBody => "Add a folder or file so orbok can build a local search index.",
        MessageKey::SearchAddSource => "Add Source",
        MessageKey::SearchNoResults => "No results found",
        MessageKey::SearchKeywordOnlyNotice => "Semantic search is unavailable. Keyword search still works.",
        MessageKey::SourcesTitle => "Sources",
        MessageKey::SourcesEmptyTitle => "No sources added",
        MessageKey::SourcesEmptyBody => "Add folders or files that orbok is allowed to search. orbok will not scan your entire computer automatically.",
        MessageKey::SourcesAddFolder => "Add Folder",
        MessageKey::SourcesStatusActive => "Active",
        MessageKey::SourcesStatusPaused => "Paused",
        MessageKey::SourcesStatusMissing => "Missing",
        MessageKey::IndexingTitle => "Indexing",
        MessageKey::IndexingIdle => "Index is up to date",
        MessageKey::IndexingHealthIndexed => "Indexed",
        MessageKey::IndexingHealthStale => "Stale",
        MessageKey::IndexingHealthFailed => "Failed",
        MessageKey::IndexingHealthQueued => "Queued",
        MessageKey::StorageTitle => "Storage",
        MessageKey::StorageIntro => "See what orbok stores and clean up safely.",
        MessageKey::StorageSafeCleanupHeading => "Safe cleanup",
        MessageKey::StorageClearSnippets => "Clear temporary snippets",
        MessageKey::StorageClearSearchCache => "Clear expired search cache",
        MessageKey::StorageDangerHeading => "Dangerous",
        MessageKey::StorageResetCatalog => "Reset catalog...",
        MessageKey::StorageResetWarning => "This removes registered sources and all indexes. Your source files are never deleted.",
        MessageKey::ModelsTitle => "Models",
        MessageKey::ModelsEmbeddingRole => "Embedding",
        MessageKey::ModelsRerankerRole => "Reranker",
        MessageKey::ModelsStatusAvailable => "Available",
        MessageKey::ModelsStatusMissing => "Missing",
        MessageKey::ModelsKeywordOnlyHint => "Keyword search still works. Install or locate an embedding model to enable conceptual search.",
        MessageKey::SettingsTitle => "Settings",
        MessageKey::SettingsLanguageHeading => "Language",
        MessageKey::SettingsPrivacyHeading => "Privacy",
        MessageKey::SettingsPrivacyLocalOnly => "Documents are processed on this computer only.",
        MessageKey::SearchModeLabel => "Mode",
        MessageKey::SearchModeAuto => "Auto",
        MessageKey::SearchModeExact => "Exact",
        MessageKey::SearchModeConceptual => "Conceptual",
        MessageKey::SearchModeFast => "Fast",
        MessageKey::BadgeKeyword => "Keyword",
        MessageKey::BadgeSemantic => "Semantic",
        MessageKey::BadgeFused => "Fused",
        MessageKey::Cancel => "Cancel",
        MessageKey::Confirm => "Confirm",
    }
}

/// Japanese catalog.
pub fn ja_message(key: MessageKey) -> (s: &'static str)
    ensures
        s@ == ja_text(key),
{
    match key {
        MessageKey::AppTitle => "orbok",
        MessageKey::LocalOnlyBadge => "ローカル専用",
        MessageKey::NavSearch => "検索",
        MessageKey::NavSources => "ソース",
        MessageKey::NavIndexing => "インデックス",
        MessageKey::NavStorage => "ストレージ",
        MessageKey::NavModels => "モデル",
        MessageKey::NavSettings => "設定",
        MessageKey::SearchPlaceholder => "ローカル文書を検索...",
        MessageKey::SearchButton => "検索",
        MessageKey::SearchNoSourcesTitle => "検索対象がありません",
        MessageKey::SearchNoSourcesBody => "フォルダーまたはファイルを追加すると、orbok がローカル検索インデックスを作成します。",
        MessageKey::SearchAddSource => "ソースを追加",
        MessageKey::SearchNoResults => "結果が見つかりません",
        MessageKey::SearchKeywordOnlyNotice => "セマンティック検索は利用できません。キーワード検索は使用できます。",
        MessageKey::SourcesTitle => "ソース",
        MessageKey::SourcesEmptyTitle => "ソースが登録されていません",
        MessageKey::SourcesEmptyBody => "orbok に検索を許可するフォルダーまたはファイルを追加してください。orbok がコンピューター全体を自動的にスキャンすることはありません。",
        MessageKey::SourcesAddFolder => "フォルダーを追加",
        MessageKey::SourcesStatusActive => "有効",
        MessageKey::SourcesStatusPaused => "一時停止",
        MessageKey::SourcesStatusMissing => "見つかりません",
        MessageKey::IndexingTitle => "インデックス",
        MessageKey::IndexingIdle => "インデックスは最新です",
        MessageKey::IndexingHealthIndexed => "済み",
        MessageKey::IndexingHealthStale => "要更新",
        MessageKey::IndexingHealthFailed => "失敗",
        MessageKey::IndexingHealthQueued => "待機中",
        MessageKey::StorageTitle => "ストレージ",
        MessageKey::StorageIntro => "orbok の保存内容を確認し、安全にクリーンアップできます。",
        MessageKey::StorageSafeCleanupHeading => "安全なクリーンアップ",
        MessageKey::StorageClearSnippets => "一時スニペットを削除",
        MessageKey::StorageClearSearchCache => "期限切れの検索キャッシュを削除",
        MessageKey::StorageDangerHeading => "危険な操作",
        MessageKey::StorageResetCatalog => "カタログをリセット...",
        MessageKey::StorageResetWarning => "登録済みソースとすべてのインデックスを削除します。元のファイルが削除されることはありません。",
        MessageKey::ModelsTitle => "モデル",
        MessageKey::ModelsEmbeddingRole => "埋め込み",
        MessageKey::ModelsRerankerRole => "リランカー",
        MessageKey::ModelsStatusAvailable => "利用可能",
        MessageKey::ModelsStatusMissing => "未導入",
        MessageKey::ModelsKeywordOnlyHint => "キーワード検索は使用できます。概念的な検索を有効にするには、埋め込みモデルを導入してください。",
        MessageKey::SettingsTitle => "設定",
        MessageKey::SettingsLanguageHeading => "言語",
        MessageKey::SettingsPrivacyHeading => "プライバシー",
        MessageKey::SettingsPrivacyLocalOnly => "文書はこのコンピューター上でのみ処理されます。",
        MessageKey::SearchModeLabel => "モード",
        MessageKey::SearchModeAuto => "自動",
        MessageKey::SearchModeExact => "完全一致",
        MessageKey::SearchModeConceptual => "概念",
        MessageKey::SearchModeFast => "高速",
        MessageKey::BadgeKeyword => "キーワード",
        MessageKey::BadgeSemantic => "セマンティック",
        MessageKey::BadgeFused => "統合",
        MessageKey::Cancel => "キャンセル",
        MessageKey::Confirm => "確認",
    }
}

/// Translate a key into a locale.
pub fn tr(locale: Locale, key: MessageKey) -> (s: &'static str)
    ensures
        s@ == message_text(locale, key),
{
    match locale {
        Locale::En => en_message(key),
        Locale::Ja => ja_message(key),
    }
}

/// Every key resolves to a non-empty text in every locale.
pub proof fn law_messages_non_empty(locale: Locale, key: MessageKey)
    ensures
        message_text(locale, key).len() > 0,
{
    match key {
        MessageKey::AppTitle => {
            reveal_strlit("orbok");
            reveal_strlit("orbok");
        },
        MessageKey::LocalOnlyBadge => {
            reveal_strlit("Local Only");
            reveal_strlit("ローカル専用");
        },
        MessageKey::NavSearch => {
            reveal_strlit("Search");
            reveal_strlit("検索");
        },
        MessageKey::NavSources => {
            reveal_strlit("Sources");
            reveal_strlit("ソース");
        },
        MessageKey::NavIndexing => {
            reveal_strlit("Indexing");
            reveal_strlit("インデックス");
        },
        MessageKey::NavStorage => {
            reveal_strlit("Storage");
            reveal_strlit("ストレージ");
        },
        MessageKey::NavModels => {
            reveal_strlit("Models");
            reveal_strlit("モデル");
        },
        MessageKey::NavSettings => {
            reveal_strlit("Settings");
            reveal_strlit("設定");
        },
        MessageKey::SearchPlaceholder => {
            reveal_strlit("Search local documents...");
            reveal_strlit("ローカル文書を検索...");
        },
        MessageKey::SearchButton => {
            reveal_strlit("Search");
            reveal_strlit("検索");
        },
        MessageKey::SearchNoSourcesTitle => {
            reveal_strlit("Nothing to search yet");
            reveal_strlit("検索対象がありません");
        },
        MessageKey::SearchNoSourcesBody => {
            reveal_strlit("Add a folder or file so orbok can build a local search index.");
            reveal_strlit("フォルダーまたはファイルを追加すると、orbok がローカル検索インデックスを作成します。");
        },
        MessageKey::SearchAddSource => {
            reveal_strlit("Add Source");
            reveal_strlit("ソースを追加");
        },
        MessageKey::SearchNoResults => {
            reveal_strlit("No results found");
            reveal_strlit("結果が見つかりません");
        },
        MessageKey::SearchKeywordOnlyNotice => {
            reveal_strlit("Semantic search is unavailable. Keyword search still works.");
            reveal_strlit("セマンティック検索は利用できません。キーワード検索は使用できます。");
        },
        MessageKey::SourcesTitle => {
            reveal_strlit("Sources");
            reveal_strlit("ソース");
        },
        MessageKey::SourcesEmptyTitle => {
            reveal_strlit("No sources added");
            reveal_strlit("ソースが登録されていません");
        },
        MessageKey::SourcesEmptyBody => {
            reveal_strlit("Add folders or files that orbok is allowed to search. orbok will not scan your entire computer automatically.");
            reveal_strlit("orbok に検索を許可するフォルダーまたはファイルを追加してください。orbok がコンピューター全体を自動的にスキャンすることはありません。");
        },
        MessageKey::SourcesAddFolder => {
            reveal_strlit("Add Folder");
            reveal_strlit("フォルダーを追加");
        },
        MessageKey::SourcesStatusActive => {
            reveal_strlit("Active");
            reveal_strlit("有効");
        },
        MessageKey::SourcesStatusPaused => {
            reveal_strlit("Paused");
            reveal_strlit("一時停止");
        },
        MessageKey::SourcesStatusMissing => {
            reveal_strlit("Missing");
            reveal_strlit("見つかりません");
        },
        MessageKey::IndexingTitle => {
            reveal_strlit("Indexing");
            reveal_strlit("インデックス");
        },
        MessageKey::IndexingIdle => {
            reveal_strlit("Index is up to date");
            reveal_strlit("インデックスは最新です");
        },
        MessageKey::IndexingHealthIndexed => {
            reveal_strlit("Indexed");
            reveal_strlit("済み");
        },
        MessageKey::IndexingHealthStale => {
            reveal_strlit("Stale");
            reveal_strlit("要更新");
        },
        MessageKey::IndexingHealthFailed => {
            reveal_strlit("Failed");
            reveal_strlit("失敗");
        },
        MessageKey::IndexingHealthQueued => {
            reveal_strlit("Queued");
            reveal_strlit("待機中");
        },
        MessageKey::StorageTitle => {
            reveal_strlit("Storage");
            reveal_strlit("ストレージ");
        },
        MessageKey::StorageIntro => {
            reveal_strlit("See what orbok stores and clean up safely.");
            reveal_strlit("orbok の保存内容を確認し、安全にクリーンアップできます。");
        },
        MessageKey::StorageSafeCleanupHeading => {
            reveal_strlit("Safe cleanup");
            reveal_strlit("安全なクリーンアップ");
        },
        MessageKey::StorageClearSnippets => {
            reveal_strlit("Clear temporary snippets");
            reveal_strlit("一時スニペットを削除");
        },
        MessageKey::StorageClearSearchCache => {
            reveal_strlit("Clear expired search cache");
            reveal_strlit("期限切れの検索キャッシュを削除");
        },
        MessageKey::StorageDangerHeading => {
            reveal_strlit("Dangerous");
            reveal_strlit("危険な操作");
        },
        MessageKey::StorageResetCatalog => {
            reveal_strlit("Reset catalog...");
            reveal_strlit("カタログをリセット...");
        },
        MessageKey::StorageResetWarning => {
            reveal_strlit("This removes registered sources and all indexes. Your source files are never deleted.");
            reveal_strlit("登録済みソースとすべてのインデックスを削除します。元のファイルが削除されることはありません。");
        },
        MessageKey::ModelsTitle => {
            reveal_strlit("Models");
            reveal_strlit("モデル");
        },
        MessageKey::ModelsEmbeddingRole => {
            reveal_strlit("Embedding");
            reveal_strlit("埋め込み");
        },
        MessageKey::ModelsRerankerRole => {
            reveal_strlit("Reranker");
            reveal_strlit("リランカー");
        },
        MessageKey::ModelsStatusAvailable => {
            reveal_strlit("Available");
            reveal_strlit("利用可能");
        },
        MessageKey::ModelsStatusMissing => {
            reveal_strlit("Missing");
            reveal_strlit("未導入");
        },
        MessageKey::ModelsKeywordOnlyHint => {
            reveal_strlit("Keyword search still works. Install or locate an embedding model to enable conceptual search.");
            reveal_strlit("キーワード検索は使用できます。概念的な検索を有効にするには、埋め込みモデルを導入してください。");
        },
        MessageKey::SettingsTitle => {
            reveal_strlit("Settings");
            reveal_strlit("設定");
        },
        MessageKey::SettingsLanguageHeading => {
            reveal_strlit("Language");
            reveal_strlit("言語");
        },
        MessageKey::SettingsPrivacyHeading => {
            reveal_strlit("Privacy");
            reveal_strlit("プライバシー");
        },
        MessageKey::SettingsPrivacyLocalOnly => {
            reveal_strlit("Documents are processed on this computer only.");
            reveal_strlit("文書はこのコンピューター上でのみ処理されます。");
        },
        MessageKey::SearchModeLabel => {
            reveal_strlit("Mode");
            reveal_strlit("モード");
        },
        MessageKey::SearchModeAuto => {
            reveal_strlit("Auto");
            reveal_strlit("自動");
        },
        MessageKey::SearchModeExact => {
            reveal_strlit("Exact");
            reveal_strlit("完全一致");
        },
        MessageKey::SearchModeConceptual => {
            reveal_strlit("Conceptual");
            reveal_strlit("概念");
        },
        MessageKey::SearchModeFast => {
            reveal_strlit("Fast");
            reveal_strlit("高速");
        },
        MessageKey::BadgeKeyword => {
            reveal_strlit("Keyword");
            reveal_strlit("キーワード");
        },
        MessageKey::BadgeSemantic => {
            reveal_strlit("Semantic");
            reveal_strlit("セマンティック");
        },
        MessageKey::BadgeFused => {
            reveal_strlit("Fused");
            reveal_strlit("統合");
        },
        MessageKey::Cancel => {
            reveal_strlit("Cancel");
            reveal_strlit("キャンセル");
        },
        MessageKey::Confirm => {
            reveal_strlit("Confirm");
            reveal_strlit("確認");
        },
    }
}

/// The catalogs are translations, not copies: every key but the product
/// name reads differently in English and Japanese.
pub proof fn law_locales_differ(key: MessageKey)
    requires
        key != MessageKey::AppTitle,
    ensures
        en_text(key) != ja_text(key),
{
    match key {
        MessageKey::AppTitle => {},
        MessageKey::LocalOnlyBadge => {
            reveal_strlit("Local Only");
            reveal_strlit("ローカル専用");
            assert(en_text(key)[0] != ja_text(key)[0]);
        },
        MessageKey::NavSearch => {
            reveal_strlit("Search");
            reveal_strlit("検索");
            assert(en_text(key)[0] != ja_text(key)[0]);
        },
        MessageKey::NavSources => {
            reveal_strlit("Sources");
            reveal_strlit("ソース");
            assert(en_text(key)[0] != ja_text(key)[0]);
        },
        MessageKey::NavIndexing => {
            reveal_strlit("Indexing");
            reveal_strlit("インデックス");
            assert(en_text(key)[0] != ja_text(key)[0]);
        },
        MessageKey::NavStorage => {
            reveal_strlit("Storage");
            reveal_strlit("ストレージ");
            assert(en_text(key)[0] != ja_text(key)[0]);
        },
        MessageKey::NavModels => {
            reveal_strlit("Models");
            reveal_strlit("モデル");
            assert(en_text(key)[0] != ja_text(key)[0]);
        },
        MessageKey::NavSettings => {
            reveal_strlit("Settings");
            reveal_strlit("設定");
            assert(en_text(key)[0] != ja_text(key)[0]);
        },
        MessageKey::SearchPlaceholder => {
            reveal_strlit("Search local documents...");
            reveal_strlit("ローカル文書を検索...");
            assert(en_text(key)[0] != ja_text(key)[0]);
        },
        MessageKey::SearchButton => {
            reveal_strlit("Search");
            reveal_strlit("検索");
            assert(en_text(key)[0] != ja_text(key)[0]);
        },
        MessageKey::SearchNoSourcesTitle => {
            reveal_strlit("Nothing to search yet");
            reveal_strlit("検索対象がありません");
            assert(en_text(key)[0] != ja_text(key)[0]);
        },
        MessageKey::SearchNoSourcesBody => {
            reveal_strlit("Add a folder or file so orbok can build a local search index.");
            reveal_strlit("フォルダーまたはファイルを追加すると、orbok がローカル検索インデックスを作成します。");
            assert(en_text(key)[0] != ja_text(key)[0]);
        },
        MessageKey::SearchAddSource => {
            reveal_strlit("Add Source");
            reveal_strlit("ソースを追加");
            assert(en_text(key)[0] != ja_text(key)[0]);
        },
        MessageKey::SearchNoResults => {
            reveal_strlit("No results found");
            reveal_strlit("結果が見つかりません");
            assert(en_text(key)[0] != ja_text(key)[0]);
        },
        MessageKey::SearchKeywordOnlyNotice => {
            reveal_strlit("Semantic search is unavailable. Keyword search still works.");
            reveal_strlit("セマンティック検索は利用できません。キーワード検索は使用できます。");
            assert(en_text(key)[0] != ja_text(key)[0]);
        },
        MessageKey::SourcesTitle => {
            reveal_strlit("Sources");
            reveal_strlit("ソース");
            assert(en_text(key)[0] != ja_text(key)[0]);
        },
        MessageKey::SourcesEmptyTitle => {
            reveal_strlit("No sources added");
            reveal_strlit("ソースが登録されていません");
            assert(en_text(key)[0] != ja_text(key)[0]);
        },
        MessageKey::SourcesEmptyBody => {
            reveal_strlit("Add folders or files that orbok is allowed to search. orbok will not scan your entire computer automatically.");
            reveal_strlit("orbok に検索を許可するフォルダーまたはファイルを追加してください。orbok がコンピューター全体を自動的にスキャンすることはありません。");
            assert(en_text(key)[0] != ja_text(key)[0]);
        },
        MessageKey::SourcesAddFolder => {
            reveal_strlit("Add Folder");
            reveal_strlit("フォルダーを追加");
            assert(en_text(key)[0] != ja_text(key)[0]);
        },
        MessageKey::SourcesStatusActive => {
            reveal_strlit("Active");
            reveal_strlit("有効");
            assert(en_text(key)[0] != ja_text(key)[0]);
        },
        MessageKey::SourcesStatusPaused => {
            reveal_strlit("Paused");
            reveal_strlit("一時停止");
            assert(en_text(key)[0] != ja_text(key)[0]);
        },
        MessageKey::SourcesStatusMissing => {
            reveal_strlit("Missing");
            reveal_strlit("見つかりません");
            assert(en_text(key)[0] != ja_text(key)[0]);
        },
        MessageKey::IndexingTitle => {
            reveal_strlit("Indexing");
            reveal_strlit("インデックス");
            assert(en_text(key)[0] != ja_text(key)[0]);
        },
        MessageKey::IndexingIdle => {
            reveal_strlit("Index is up to date");
            reveal_strlit("インデックスは最新です");
            assert(en_text(key)[0] != ja_text(key)[0]);
        },
        MessageKey::IndexingHealthIndexed => {
            reveal_strlit("Indexed");
            reveal_strlit("済み");
            assert(en_text(key)[0] != ja_text(key)[0]);
        },
        MessageKey::IndexingHealthStale => {
            reveal_strlit("Stale");
            reveal_strlit("要更新");
            assert(en_text(key)[0] != ja_text(key)[0]);
        },
        MessageKey::IndexingHealthFailed => {
            reveal_strlit("Failed");
            reveal_strlit("失敗");
            assert(en_text(key)[0] != ja_text(key)[0]);
        },
        MessageKey::IndexingHealthQueued => {
            reveal_strlit("Queued");
            reveal_strlit("待機中");
            assert(en_text(key)[0] != ja_text(key)[0]);
        },
        MessageKey::StorageTitle => {
            reveal_strlit("Storage");
            reveal_strlit("ストレージ");
            assert(en_text(key)[0] != ja_text(key)[0]);
        },
        MessageKey::StorageIntro => {
            reveal_strlit("See what orbok stores and clean up safely.");
            reveal_strlit("orbok の保存内容を確認し、安全にクリーンアップできます。");
            assert(en_text(key)[0] != ja_text(key)[0]);
        },
        MessageKey::StorageSafeCleanupHeading => {
            reveal_strlit("Safe cleanup");
            reveal_strlit("安全なクリーンアップ");
            assert(en_text(key)[0] != ja_text(key)[0]);
        },
        MessageKey::StorageClearSnippets => {
            reveal_strlit("Clear temporary snippets");
            reveal_strlit("一時スニペットを削除");
            assert(en_text(key)[0] != ja_text(key)[0]);
        },
        MessageKey::StorageClearSearchCache => {
            reveal_strlit("Clear expired search cache");
            reveal_strlit("期限切れの検索キャッシュを削除");
            assert(en_text(key)[0] != ja_text(key)[0]);
        },
        MessageKey::StorageDangerHeading => {
            reveal_strlit("Dangerous");
            reveal_strlit("危険な操作");
            assert(en_text(key)[0] != ja_text(key)[0]);
        },
        MessageKey::StorageResetCatalog => {
            reveal_strlit("Reset catalog...");
            reveal_strlit("カタログをリセット...");
            assert(en_text(key)[0] != ja_text(key)[0]);
        },
        MessageKey::StorageResetWarning => {
            reveal_strlit("This removes registered sources and all indexes. Your source files are never deleted.");
            reveal_strlit("登録済みソースとすべてのインデックスを削除します。元のファイルが削除されることはありません。");
            assert(en_text(key)[0] != ja_text(key)[0]);
        },
        MessageKey::ModelsTitle => {
            reveal_strlit("Models");
            reveal_strlit("モデル");
            assert(en_text(key)[0] != ja_text(key)[0]);
        },
        MessageKey::ModelsEmbeddingRole => {
            reveal_strlit("Embedding");
            reveal_strlit("埋め込み");
            assert(en_text(key)[0] != ja_text(key)[0]);
        },
        MessageKey::ModelsRerankerRole => {
            reveal_strlit("Reranker");
            reveal_strlit("リランカー");
            assert(en_text(key)[0] != ja_text(key)[0]);
        },
        MessageKey::ModelsStatusAvailable => {
            reveal_strlit("Available");
            reveal_strlit("利用可能");
            assert(en_text(key)[0] != ja_text(key)[0]);
        },
        MessageKey::ModelsStatusMissing => {
            reveal_strlit("Missing");
            reveal_strlit("未導入");
            assert(en_text(key)[0] != ja_text(key)[0]);
        },
        MessageKey::ModelsKeywordOnlyHint => {
            reveal_strlit("Keyword search still works. Install or locate an embedding model to enable conceptual search.");
            reveal_strlit("キーワード検索は使用できます。概念的な検索を有効にするには、埋め込みモデルを導入してください。");
            assert(en_text(key)[0] != ja_text(key)[0]);
        },
        MessageKey::SettingsTitle => {
            reveal_strlit("Settings");
            reveal_strlit("設定");
            assert(en_text(key)[0] != ja_text(key)[0]);
        },
        MessageKey::SettingsLanguageHeading => {
            reveal_strlit("Language");
            reveal_strlit("言語");
            assert(en_text(key)[0] != ja_text(key)[0]);
        },
        MessageKey::SettingsPrivacyHeading => {
            reveal_strlit("Privacy");
            reveal_strlit("プライバシー");
            assert(en_text(key)[0] != ja_text(key)[0]);
        },
        MessageKey::SettingsPrivacyLocalOnly => {
            reveal_strlit("Documents are processed on this computer only.");
            reveal_strlit("文書はこのコンピューター上でのみ処理されます。");
            assert(en_text(key)[0] != ja_text(key)[0]);
        },
        MessageKey::SearchModeLabel => {
            reveal_strlit("Mode");
            reveal_strlit("モード");
            assert(en_text(key)[0] != ja_text(key)[0]);
        },
        MessageKey::SearchModeAuto => {
            reveal_strlit("Auto");
            reveal_strlit("自動");
            assert(en_text(key)[0] != ja_text(key)[0]);
        },
        MessageKey::SearchModeExact => {
            reveal_strlit("Exact");
            reveal_strlit("完全一致");
            assert(en_text(key)[0] != ja_text(key)[0]);
        },
        MessageKey::SearchModeConceptual => {
            reveal_strlit("Conceptual");
            reveal_strlit("概念");
            assert(en_text(key)[0] != ja_text(key)[0]);
        },
        MessageKey::SearchModeFast => {
            reveal_strlit("Fast");
            reveal_strlit("高速");
            assert(en_text(key)[0] != ja_text(key)[0]);
        },
        MessageKey::BadgeKeyword => {
            reveal_strlit("Keyword");
            reveal_strlit("キーワード");
            assert(en_text(key)[0] != ja_text(key)[0]);
        },
        MessageKey::BadgeSemantic => {
            reveal_strlit("Semantic");
            reveal_strlit("セマンティック");
            assert(en_text(key)[0] != ja_text(key)[0]);
        },
        MessageKey::BadgeFused => {
            reveal_strlit("Fused");
            reveal_strlit("統合");
            assert(en_text(key)[0] != ja_text(key)[0]);
        },
        MessageKey::Cancel => {
            reveal_strlit("Cancel");
            reveal_strlit("キャンセル");
            assert(en_text(key)[0] != ja_text(key)[0]);
        },
        MessageKey::Confirm => {
            reveal_strlit("Confirm");
            reveal_strlit("確認");
            assert(en_text(key)[0] != ja_text(key)[0]);
        },
    }
}

/// "`n` files indexed" in a locale.
pub open spec fn files_indexed_text(locale: Locale, n: nat) -> Seq<char> {
    match locale {
        Locale::En => text::decimal(n) + " files indexed"@,
        Locale::Ja => text::decimal(n) + " 件のファイルをインデックス済み"@,
    }
}

/// A source's file counts by status, in a locale.
pub open spec fn source_summary_text(locale: Locale, indexed: nat, stale: nat, failed: nat) -> Seq<
    char,
> {
    match locale {
        Locale::En => text::decimal(indexed) + " indexed · "@ + text::decimal(stale)
            + " stale · "@ + text::decimal(failed) + " failed"@,
        Locale::Ja => "済み "@ + text::decimal(indexed) + " · 要更新 "@ + text::decimal(stale)
            + " · 失敗 "@ + text::decimal(failed),
    }
}

/// "`n` results" in a locale.
pub open spec fn result_count_text(locale: Locale, n: nat) -> Seq<char> {
    match locale {
        Locale::En => text::decimal(n) + " results"@,
        Locale::Ja => text::decimal(n) + " 件の結果"@,
    }
}

/// The number of indexed files, as a sentence.
pub fn files_indexed(locale: Locale, n: u64) -> (s: String)
    ensures
        s@ == files_indexed_text(locale, n as nat),
{
    let mut v = decimal_u64(n);
    match locale {
        Locale::En => push_all(&mut v, &chars_of(" files indexed")),
        Locale::Ja => push_all(&mut v, &chars_of(" 件のファイルをインデックス済み")),
    }
    string_of(&v)
}

/// A source card's counts: indexed, stale and failed files.
pub fn source_summary(locale: Locale, indexed: u64, stale: u64, failed: u64) -> (s: String)
    ensures
        s@ == source_summary_text(locale, indexed as nat, stale as nat, failed as nat),
{
    let mut v: Vec<char> = Vec::new();
    match locale {
        Locale::En => {
            push_all(&mut v, &decimal_u64(indexed));
            push_all(&mut v, &chars_of(" indexed · "));
            push_all(&mut v, &decimal_u64(stale));
            push_all(&mut v, &chars_of(" stale · "));
            push_all(&mut v, &decimal_u64(failed));
            push_all(&mut v, &chars_of(" failed"));
        },
        Locale::Ja => {
            push_all(&mut v, &chars_of("済み "));
            push_all(&mut v, &decimal_u64(indexed));
            push_all(&mut v, &chars_of(" · 要更新 "));
            push_all(&mut v, &decimal_u64(stale));
            push_all(&mut v, &chars_of(" · 失敗 "));
            push_all(&mut v, &decimal_u64(failed));
        },
    }
    string_of(&v)
}

/// The number of search results, as a phrase.
pub fn search_result_count(locale: Locale, n: usize) -> (s: String)
    ensures
        s@ == result_count_text(locale, n as nat),
{
    let mut v = decimal_u64(n as u64);
    match locale {
        Locale::En => push_all(&mut v, &chars_of(" results")),
        Locale::Ja => push_all(&mut v, &chars_of(" 件の結果")),
    }
    string_of(&v)
}

/// Parameterized messages carry their numbers in every locale: each
/// count sentence begins with the count's decimal digits.
pub proof fn law_counts_are_shown(locale: Locale, n: nat)
    ensures
        files_indexed_text(locale, n).take(text::decimal(n).len() as int) == text::decimal(n),
        result_count_text(locale, n).take(text::decimal(n).len() as int) == text::decimal(n),
{
    assert(files_indexed_text(locale, n).take(text::decimal(n).len() as int) =~= text::decimal(n));
    assert(result_count_text(locale, n).take(text::decimal(n).len() as int) =~= text::decimal(n));
}

} // verus!
