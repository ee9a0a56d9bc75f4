//! Local AI model vocabulary: roles, availability, the search capability
//! derived from it, the recommended model and the deterministic mock
//! embedding model's metadata.
//!
//! Privacy rule: model download is the only network operation orbok may
//! ever perform, it is explicit, and it never involves document
//! contents.
use vstd::prelude::*;
use crate::hashing;

verus! {

/// Model roles.
#[derive(Debug, Clone, Copy, PartialEq, Eq, Structural)]
pub enum ModelRole {
    Embedding,
    Reranker,
}

impl ModelRole {
    /// The catalog spelling of a role.
    pub open spec fn text(self) -> Seq<char> {
        match self {
            ModelRole::Embedding => "embedding"@,
            ModelRole::Reranker => "reranker"@,
        }
    }

    pub fn as_str(&self) -> (s: &'static str)
        ensures
            s@ == self.text(),
    {
        match self {
            ModelRole::Embedding => "embedding",
            ModelRole::Reranker => "reranker",
        }
    }
}

/// Model availability.
#[derive(Debug, Clone, Copy, PartialEq, Eq, Structural)]
pub enum ModelStatus {
    Available,
    Missing,
    Invalid,
    Installing,
    Disabled,
}

impl ModelStatus {
    /// The catalog spelling of a status.
    pub open spec fn text(self) -> Seq<char> {
        match self {
            ModelStatus::Available => "available"@,
            ModelStatus::Missing => "missing"@,
            ModelStatus::Invalid => "invalid"@,
            ModelStatus::Installing => "installing"@,
            ModelStatus::Disabled => "disabled"@,
        }
    }

    pub fn as_str(&self) -> (s: &'static str)
        ensures
            s@ == self.text(),
    {
        match self {
            ModelStatus::Available => "available",
            ModelStatus::Missing => "missing",
            ModelStatus::Invalid => "invalid",
            ModelStatus::Installing => "installing",
            ModelStatus::Disabled => "disabled",
        }
    }
}

/// Search capability derived from model availability. Keyword search
/// never depends on models.
#[derive(Debug, Clone, Copy, PartialEq, Eq, Structural)]
pub enum SearchCapability {
    /// Keyword only: no embedding model available.
    KeywordOnly,
    /// Keyword and semantic: embedding model available.
    Hybrid,
    /// Keyword, semantic and rerank refinement.
    HybridWithRerank,
}

/// The capability for given model statuses.
pub open spec fn capability_of(embedding: Option<ModelStatus>, reranker: Option<ModelStatus>) -> SearchCapability {
    if embedding == Some(ModelStatus::Available) {
        if reranker == Some(ModelStatus::Available) {
            SearchCapability::HybridWithRerank
        } else {
            SearchCapability::Hybrid
        }
    } else {
        SearchCapability::KeywordOnly
    }
}

/// Derive the capability shown in the UI from model statuses: semantic
/// search needs an available embedding model, reranking an available
/// reranker on top of it.
pub fn search_capability(embedding: Option<ModelStatus>, reranker: Option<ModelStatus>) -> (c:
    SearchCapability)
    ensures
        c == capability_of(embedding, reranker),
{
    match (embedding, reranker) {
        (Some(ModelStatus::Available), Some(ModelStatus::Available)) => {
            SearchCapability::HybridWithRerank
        },
        (Some(ModelStatus::Available), _) => SearchCapability::Hybrid,
        _ => SearchCapability::KeywordOnly,
    }
}

/// Search degrades gracefully: without an available embedding model it
/// is keyword search, whatever the reranker's state, and a reranker
/// alone never adds a semantic stage.
pub proof fn law_keyword_search_needs_no_model(
    embedding: Option<ModelStatus>,
    reranker: Option<ModelStatus>,
)
    ensures
        embedding != Some(ModelStatus::Available) ==> capability_of(embedding, reranker)
            == SearchCapability::KeywordOnly,
        embedding == Some(ModelStatus::Available) ==> capability_of(embedding, reranker)
            != SearchCapability::KeywordOnly,
{
}

/// Information shown to the user before they confirm a model download.
pub struct ModelSpec {
    pub hf_repo: &'static str,
    pub display_name: &'static str,
    pub license: &'static str,
    /// Approximate total size shown in the UI.
    pub size_hint: &'static str,
    /// Files to download: (relative destination path, raw URL).
    pub files: Vec<(&'static str, &'static str)>,
}

/// The relative paths a model spec installs, in download order.
pub open spec fn spec_destinations(files: Seq<(&'static str, &'static str)>) -> Seq<Seq<char>> {
    files.map_values(|f: (&'static str, &'static str)| f.0@)
}

/// Where the recommended model's files go, in download order.
pub open spec fn recommended_destinations() -> Seq<Seq<char>> {
    seq!["tokenizer.json"@, "onnx/model.onnx"@]
}

/// The recommended embedding model, `intfloat/multilingual-e5-small`:
/// Apache 2.0, about 93 MB, more than 100 languages including Japanese.
pub fn recommended_model() -> (m: ModelSpec)
    ensures
        m.hf_repo@ == "intfloat/multilingual-e5-small"@,
        m.display_name@ == "multilingual-e5-small"@,
        m.license@ == "Apache 2.0"@,
        m.size_hint@ == "~93 MB"@,
        spec_destinations(m.files@) == recommended_destinations(),
        m.files@.len() == 2,
        m.files@[0].0@ == "tokenizer.json"@,
        m.files@[0].1@
            == "https://huggingface.co/intfloat/multilingual-e5-small/resolve/main/tokenizer.json"@,
        m.files@[1].0@ == "onnx/model.onnx"@,
        m.files@[1].1@
            == "https://huggingface.co/intfloat/multilingual-e5-small/resolve/main/onnx/model.onnx"@,
{
    let mut files: Vec<(&'static str, &'static str)> = Vec::new();
    files.push(
        (
            "tokenizer.json",
            "https://huggingface.co/intfloat/multilingual-e5-small/resolve/main/tokenizer.json",
        ),
    );
    files.push(
        (
            "onnx/model.onnx",
            "https://huggingface.co/intfloat/multilingual-e5-small/resolve/main/onnx/model.onnx",
        ),
    );
    assert(spec_destinations(files@) =~= recommended_destinations());
    ModelSpec {
        hf_repo: "intfloat/multilingual-e5-small",
        display_name: "multilingual-e5-small",
        license: "Apache 2.0",
        size_hint: "~93 MB",
        files,
    }
}

/// Deterministic 8-dimensional mock embedding model: its components come
/// from the first 8 bytes of the SHA-256 of the text. Never use it for
/// semantic search; it serves pipeline tests.
pub struct MockEmbeddingModel;

impl MockEmbeddingModel {
    /// Stable model name.
    pub fn name(&self) -> (s: &'static str)
        ensures
            s@ == "mock"@,
    {
        "mock"
    }

    /// Model version.
    pub fn version(&self) -> (s: &'static str)
        ensures
            s@ == "v1"@,
    {
        "v1"
    }

    /// Output dimension.
    pub fn dimension(&self) -> (d: u32)
        ensures
            d == 8,
    {
        8
    }

    /// The bytes a text's embedding is made of: the first eight bytes of
    /// the SHA-256 of its UTF-8 encoding, one per component, each scaled
    /// to `[0, 1]` and the vector then L2-normalized.
    pub fn seed_bytes(&self, text: &str) -> (b: Vec<u8>)
        ensures
            b@ == hashing::sha256_digest(vstd::utf8::encode_utf8(text@)).take(8),
            b@.len() == self.dimension_spec(),
    {
        let d = hashing::sha256_of(text.as_bytes());
        let mut b: Vec<u8> = Vec::new();
        let mut i: usize = 0;
        while i < 8
            invariant
                d@.len() == 32,
                i <= 8,
                b@ == d@.take(i as int),
            decreases 8 - i,
        {
            b.push(d[i]);
            i += 1;
            assert(b@ =~= d@.take(i as int));
        }
        b
    }

    /// The output dimension in specifications.
    pub open spec fn dimension_spec(&self) -> nat {
        8
    }
}

} // verus!
