use orbok::cache::OrbokCacheNamespace;
use orbok::catalog::{hash_algorithm_for, in_memory_catalog_bytes, storage_accounting_rows, ObservedMetadata, Severity, StorageCounts};
use orbok::hashing::{hex, sha256_bytes, StreamHasher};
use orbok::ids::{id_text, FileId, SourceId};
use orbok::model_verifier::{
    classify_model_files, configured_model_dir, required_model_files, verify_outcome_summary, FileIssue,
    FileIssueKind, FileProbe, VerifyOutcome,
};
use orbok::models::{recommended_model, search_capability, MockEmbeddingModel, ModelRole, ModelStatus, SearchCapability};
use orbok::search::{match_badges, result_title, retrievals, short_display_path, Limits, MatchBadge, SearchMode};
use orbok::sensitive::{sensitive_warning, sensitive_warning_in, PathStyle};
use orbok::vocab::{DataClass, StorageCategory};

#[test]
fn capability_degrades_gracefully() {
    assert_eq!(search_capability(None, None), SearchCapability::KeywordOnly);
    assert_eq!(search_capability(Some(ModelStatus::Missing), None), SearchCapability::KeywordOnly);
    assert_eq!(search_capability(Some(ModelStatus::Available), None), SearchCapability::Hybrid);
    assert_eq!(
        search_capability(Some(ModelStatus::Available), Some(ModelStatus::Missing)),
        SearchCapability::Hybrid
    );
    assert_eq!(
        search_capability(Some(ModelStatus::Available), Some(ModelStatus::Available)),
        SearchCapability::HybridWithRerank
    );
}

#[test]
fn summary_strings_are_log_safe() {
    let summary = verify_outcome_summary(&VerifyOutcome::FilesInvalid {
        model_dir: "/secret/path".into(),
        issues: vec![FileIssue { relative_path: "onnx/model.onnx".into(), reason: FileIssueKind::NotFound }],
    });
    assert!(!summary.contains("/secret/path"), "summary must not include the model dir path");
}

#[test]
fn namespaces_are_distinct_and_classed() {
    let a = OrbokCacheNamespace::EmbeddingBundle { model_id: "model-a".into(), vector_format: "fp32".into() };
    let b = OrbokCacheNamespace::EmbeddingBundle { model_id: "model-b".into(), vector_format: "fp32".into() };
    assert_ne!(a.as_namespace(), b.as_namespace());
    assert_eq!(a.data_class(), DataClass::RebuildableIndex);
    assert_eq!(OrbokCacheNamespace::PreviewCache.data_class(), DataClass::EphemeralCache);
}

#[test]
fn namespace_strings_are_exact() {
    let a = OrbokCacheNamespace::EmbeddingBundle { model_id: "model-a".into(), vector_format: "fp32".into() };
    assert_eq!(a.as_namespace(), "embedding-bundle:model-a:fp32:v1");
    assert_eq!(OrbokCacheNamespace::ExtractSegments.as_namespace(), "extract-segments:v1");
    assert_eq!(OrbokCacheNamespace::ChunkBundle.as_namespace(), "chunk-bundle:v1");
    assert_eq!(OrbokCacheNamespace::PreviewCache.as_namespace(), "preview-cache:v1");
    assert_eq!(OrbokCacheNamespace::ChunkBundle.payload_version(), 1);
    assert_eq!(OrbokCacheNamespace::ChunkBundle.data_class(), DataClass::RebuildableIndex);
}

#[test]
fn verification_summaries_are_exact() {
    assert_eq!(verify_outcome_summary(&VerifyOutcome::Ready), "embedding model OK");
    assert_eq!(verify_outcome_summary(&VerifyOutcome::NotConfigured), "embedding model not configured");
    let both = VerifyOutcome::FilesInvalid {
        model_dir: "/m".into(),
        issues: vec![
            FileIssue { relative_path: "onnx/model.onnx".into(), reason: FileIssueKind::Empty },
            FileIssue { relative_path: "tokenizer.json".into(), reason: FileIssueKind::PermissionDenied },
        ],
    };
    assert_eq!(
        verify_outcome_summary(&both),
        "embedding model invalid: empty file (0 bytes), permission denied"
    );
}

#[test]
fn model_files_classified_from_probes() {
    assert_eq!(required_model_files(), vec!["onnx/model.onnx", "tokenizer.json"]);
    let ready = classify_model_files("/m", &vec![FileProbe::Found { len: 1024 }, FileProbe::Found { len: 2 }]);
    assert_eq!(ready, VerifyOutcome::Ready);

    let missing = classify_model_files("/nonexistent/orbok-models", &vec![FileProbe::Unavailable, FileProbe::Unavailable]);
    match missing {
        VerifyOutcome::FilesInvalid { model_dir, issues } => {
            assert_eq!(model_dir, "/nonexistent/orbok-models");
            assert_eq!(issues.len(), 2);
            assert!(issues.iter().all(|i| i.reason == FileIssueKind::NotFound));
        }
        other => panic!("expected FilesInvalid, got {other:?}"),
    }

    let empty = classify_model_files("/m", &vec![FileProbe::Found { len: 0 }, FileProbe::Found { len: 2 }]);
    match empty {
        VerifyOutcome::FilesInvalid { issues, .. } => {
            assert_eq!(issues.len(), 1);
            assert_eq!(issues[0].relative_path, "onnx/model.onnx");
            assert_eq!(issues[0].reason, FileIssueKind::Empty);
        }
        other => panic!("expected FilesInvalid, got {other:?}"),
    }

    let denied = classify_model_files("/m", &vec![FileProbe::Found { len: 512 }, FileProbe::PermissionDenied]);
    match denied {
        VerifyOutcome::FilesInvalid { issues, .. } => {
            assert_eq!(issues.len(), 1);
            assert_eq!(issues[0].relative_path, "tokenizer.json");
            assert_eq!(issues[0].reason, FileIssueKind::PermissionDenied);
        }
        other => panic!("expected FilesInvalid, got {other:?}"),
    }
}

#[test]
fn blank_model_dir_is_not_configured() {
    assert_eq!(configured_model_dir(None), None);
    assert_eq!(configured_model_dir(Some("")), None);
    assert_eq!(configured_model_dir(Some("  ")), None);
    assert_eq!(configured_model_dir(Some(" /m ")), Some(" /m "));
}

#[test]
fn issue_kind_texts() {
    assert_eq!(FileIssueKind::NotFound.as_str(), "not found");
    assert_eq!(FileIssueKind::Empty.as_str(), "empty file (0 bytes)");
    assert_eq!(FileIssueKind::PermissionDenied.as_str(), "permission denied");
}

#[test]
fn role_and_status_texts() {
    assert_eq!(ModelRole::Embedding.as_str(), "embedding");
    assert_eq!(ModelRole::Reranker.as_str(), "reranker");
    assert_eq!(ModelStatus::Available.as_str(), "available");
    assert_eq!(ModelStatus::Missing.as_str(), "missing");
    assert_eq!(ModelStatus::Invalid.as_str(), "invalid");
    assert_eq!(ModelStatus::Installing.as_str(), "installing");
    assert_eq!(ModelStatus::Disabled.as_str(), "disabled");
    assert_eq!(search_capability(Some(ModelStatus::Disabled), Some(ModelStatus::Available)), SearchCapability::KeywordOnly);
}

#[test]
fn recommended_model_installs_the_required_files() {
    let m = recommended_model();
    assert_eq!(m.display_name, "multilingual-e5-small");
    let mut dests: Vec<&str> = m.files.iter().map(|f| f.0).collect();
    dests.sort();
    let mut required = required_model_files();
    required.sort();
    assert_eq!(dests, required);
    assert!(m.files.iter().all(|f| f.1.starts_with("https://huggingface.co/intfloat/multilingual-e5-small/")));
}

#[test]
fn mock_model_metadata_and_seed() {
    let m = MockEmbeddingModel;
    assert_eq!(m.name(), "mock");
    assert_eq!(m.version(), "v1");
    assert_eq!(m.dimension(), 8);
    assert_eq!(m.seed_bytes("hello world"), vec![0xb9, 0x4d, 0x27, 0xb9, 0x93, 0x4d, 0x3e, 0x08]);
    assert_ne!(m.seed_bytes("hello world"), m.seed_bytes("foo bar"));
}

#[test]
fn sha256_hex_known_values() {
    assert_eq!(sha256_bytes(b""), "e3b0c44298fc1c149afbf4c8996fb92427ae41e4649b934ca495991b7852b855");
    assert_eq!(sha256_bytes(b"abc"), "ba7816bf8f01cfea414140de5dae2223b00361a396177a9cb410ff61f20015ad");
    assert_eq!(hex(&[0x00, 0x0f, 0xa0, 0xff]), "000fa0ff");
}

#[test]
fn streaming_hash_equals_one_shot() {
    let mut h = StreamHasher::new();
    h.update(b"a");
    h.update(b"");
    h.update(b"bc");
    assert_eq!(h.finish(), sha256_bytes(b"abc"));
}

#[test]
fn sensitive_locations_warn() {
    assert_eq!(sensitive_warning("/etc/ssh"), Some("system_directory"));
    assert_eq!(sensitive_warning("/usr/share/doc"), Some("system_directory"));
    assert_eq!(sensitive_warning("/home/me/.ssh"), Some("credential_directory"));
    assert_eq!(sensitive_warning("/home/me/.aws/config"), Some("credential_directory"));
    assert_eq!(sensitive_warning("/home/me/.config/app"), Some("hidden_configuration_directory"));
    assert_eq!(sensitive_warning("/home/me/.config/.ssh"), Some("hidden_configuration_directory"));
    assert_eq!(sensitive_warning("/home/me/notes"), None);
    assert_eq!(sensitive_warning("/home/me/.sshkeys"), None);
    assert_eq!(sensitive_warning("relative/docs"), None);
}

#[test]
fn typed_ids() {
    let s = SourceId::generate();
    let t = s.as_str();
    assert!(t.starts_with("src_"));
    assert_eq!(t.len(), 4 + 36);
    assert_eq!(&t[4 + 14..4 + 15], "7");
    let f = FileId::from_string("file_abc".to_string());
    assert_eq!(f.as_str(), "file_abc");
    assert_eq!(f.duplicate(), f);
    assert_ne!(SourceId::generate(), SourceId::generate());
    let back: String = f.into();
    assert_eq!(back, "file_abc");
}

#[test]
fn search_limits_per_mode() {
    assert_eq!(SearchMode::default(), SearchMode::Auto);
    assert_eq!(Limits::for_mode(SearchMode::Auto), Limits { keyword_k: 100, vector_k: 100, fusion_n: 50 });
    assert_eq!(Limits::for_mode(SearchMode::Exact), Limits { keyword_k: 100, vector_k: 0, fusion_n: 50 });
    assert_eq!(Limits::for_mode(SearchMode::Conceptual), Limits { keyword_k: 0, vector_k: 100, fusion_n: 50 });
    assert_eq!(Limits::for_mode(SearchMode::Fast), Limits { keyword_k: 50, vector_k: 50, fusion_n: 20 });
}

#[test]
fn short_display_paths() {
    assert_eq!(short_display_path("/home/user/docs/a.md"), "…/docs/a.md");
    assert_eq!(short_display_path("/a/b"), "…/a/b");
    assert_eq!(short_display_path("/a"), "/a");
    assert_eq!(short_display_path("a/b"), "a/b");
    assert_eq!(short_display_path("a//b/./c/"), "…/b/c");
    assert_eq!(short_display_path("./a"), "./a");
    assert_eq!(short_display_path("./a/b"), "…/a/b");
    assert_eq!(short_display_path(""), "");
}

#[test]
fn storage_accounting_estimates() {
    let c = StorageCounts {
        catalog_bytes: 4096,
        sources: 2,
        keyword_records: 10,
        embeddings: 3,
        embedding_bytes: 96,
        snippets: 4,
        snippet_bytes: 400,
        search_cache_rows: 5,
        cache_db_bytes: 8192,
        extractions: 7,
        events: 9,
    };
    let rows = storage_accounting_rows(&c);
    assert_eq!(rows.len(), 8);
    assert_eq!(rows[0], (StorageCategory::PersistentCatalog, 4096, 2));
    assert_eq!(rows[1], (StorageCategory::KeywordIndex, 2560, 10));
    assert_eq!(rows[2], (StorageCategory::VectorIndex, 96, 3));
    assert_eq!(rows[3], (StorageCategory::SnippetCache, 400, 4));
    assert_eq!(rows[4], (StorageCategory::SearchCache, 2560, 5));
    assert_eq!(rows[5], (StorageCategory::TemporaryExtraction, 8192, 7));
    assert_eq!(rows[6], (StorageCategory::Logs, 2304, 9));
    assert_eq!(rows[7], (StorageCategory::ModelFiles, 0, 0));
}

#[test]
fn severity_and_hash_algorithm() {
    assert_eq!(Severity::Debug.as_str(), "debug");
    assert_eq!(Severity::Info.as_str(), "info");
    assert_eq!(Severity::Warning.as_str(), "warning");
    assert_eq!(Severity::Error.as_str(), "error");
    let mut m = ObservedMetadata::default();
    assert_eq!(hash_algorithm_for(&m), None);
    m.content_hash = Some("ab".into());
    assert_eq!(hash_algorithm_for(&m), Some("sha256"));
}

#[test]
fn retrievals_follow_mode_and_model() {
    assert_eq!(retrievals(SearchMode::Auto, true), (true, true));
    assert_eq!(retrievals(SearchMode::Auto, false), (true, false));
    assert_eq!(retrievals(SearchMode::Exact, true), (true, false));
    assert_eq!(retrievals(SearchMode::Conceptual, true), (false, true));
    assert_eq!(retrievals(SearchMode::Conceptual, false), (false, false));
    assert_eq!(retrievals(SearchMode::Fast, true), (true, true));
}

#[test]
fn result_badges_and_titles() {
    assert_eq!(match_badges(Some(1), Some(3)), vec![MatchBadge::Keyword, MatchBadge::Semantic]);
    assert_eq!(match_badges(None, Some(3)), vec![MatchBadge::Semantic]);
    assert!(match_badges(None, None).is_empty());
    assert_eq!(result_title(&Some("Guide > Use".to_string()), "/d/guide.md").as_deref(), Some("Guide > Use"));
    assert_eq!(result_title(&None, "/d/guide.md").as_deref(), Some("guide.md"));
    assert_eq!(result_title(&None, "/d/docs/").as_deref(), Some("docs"));
    assert_eq!(result_title(&None, "/d/.."), None);
    assert_eq!(result_title(&None, "/"), None);
    assert_eq!(result_title(&None, ""), None);
}

#[test]
fn in_memory_catalog_size() {
    assert_eq!(in_memory_catalog_bytes(3, 4096), 12288);
    assert_eq!(in_memory_catalog_bytes(0, 4096), 0);
    assert_eq!(in_memory_catalog_bytes(-1, 1), u64::MAX);
}

#[test]
fn namespaces_with_colons_in_ids_stay_distinct() {
    let a = OrbokCacheNamespace::EmbeddingBundle { model_id: "org:model".into(), vector_format: "fp32".into() };
    let b = OrbokCacheNamespace::EmbeddingBundle { model_id: "org".into(), vector_format: "fp32".into() };
    let c = OrbokCacheNamespace::EmbeddingBundle { model_id: "org:model".into(), vector_format: "int8".into() };
    assert_ne!(a.as_namespace(), b.as_namespace());
    assert_ne!(a.as_namespace(), c.as_namespace());
    assert_eq!(a.as_namespace(), "embedding-bundle:org:model:fp32:v1");
}

#[test]
fn namespaces_split_across_the_colon_share_a_string() {
    let a = OrbokCacheNamespace::EmbeddingBundle { model_id: "a:b".into(), vector_format: "c".into() };
    let b = OrbokCacheNamespace::EmbeddingBundle { model_id: "a".into(), vector_format: "b:c".into() };
    assert_eq!(a.as_namespace(), b.as_namespace());
}

#[test]
fn id_text_puts_the_prefix_before_the_uuid() {
    let uuid = "01890a5d-ac96-7f4b-8ccc-b302099a8057";
    assert_eq!(id_text("src", uuid), "src_01890a5d-ac96-7f4b-8ccc-b302099a8057");
    assert_eq!(id_text("", "x"), "_x");
    let generated = SourceId::generate();
    let text = generated.as_str();
    assert!(text.starts_with("src_"));
    assert_eq!(&text[18..19], "7");
}

#[test]
fn windows_paths_have_their_own_system_directories() {
    let w = PathStyle::Windows;
    assert_eq!(sensitive_warning_in("C:\\Windows\\System32", w), Some("system_directory"));
    assert_eq!(sensitive_warning_in("C:\\Program Files (x86)\\App", w), Some("system_directory"));
    assert_eq!(sensitive_warning_in("C:\\Users\\me\\.ssh", w), Some("credential_directory"));
    assert_eq!(sensitive_warning_in("C:/Users/me/.config/app", w), Some("hidden_configuration_directory"));
    assert_eq!(sensitive_warning_in("C:\\Users\\me\\notes", w), None);
    assert_eq!(sensitive_warning_in("/etc/hosts", w), None);
    assert_eq!(sensitive_warning_in("/etc/hosts", PathStyle::Unix), Some("system_directory"));
}
