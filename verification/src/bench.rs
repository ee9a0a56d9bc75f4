//! Benchmark fixtures: the synthetic corpus and the labeled queries
//! recall is measured with.
use vstd::prelude::*;
use crate::text;
use crate::text::{chars_of, decimal_u64, push_all, string_of};

verus! {

/// One labeled query with the name patterns of the documents relevant
/// to it.
pub struct LabeledQuery {
    pub query: &'static str,
    pub relevant_patterns: Vec<&'static str>,
}

fn labeled(query: &'static str, first: &'static str, second: Option<&'static str>) -> (q:
    LabeledQuery)
    ensures
        q.query == query,
        q.relevant_patterns@.len() == (if second is Some { 2int } else { 1int }),
        q.relevant_patterns@[0] == first,
        second is Some ==> q.relevant_patterns@[1] == second->0,
{
    let mut relevant_patterns: Vec<&'static str> = Vec::new();
    relevant_patterns.push(first);
    match second {
        Some(s) => relevant_patterns.push(s),
        None => {},
    }
    LabeledQuery { query, relevant_patterns }
}

/// The labeled query set for recall evaluation.
pub fn labeled_queries() -> (qs: Vec<LabeledQuery>)
    ensures
        qs@.len() == 8,
        qs@[0].query@ == "refresh token expiry"@,
        qs@[0].relevant_patterns@.len() == 1,
        qs@[0].relevant_patterns@[0]@ == "auth"@,
        qs@[1].query@ == "ERR-4042"@,
        qs@[1].relevant_patterns@.len() == 2,
        qs@[1].relevant_patterns@[0]@ == "auth"@,
        qs@[1].relevant_patterns@[1]@ == "japanese"@,
        qs@[2].query@ == "client_secret rotation"@,
        qs@[2].relevant_patterns@.len() == 1,
        qs@[2].relevant_patterns@[0]@ == "auth"@,
        qs@[3].query@ == "source allowlist path traversal"@,
        qs@[3].relevant_patterns@.len() == 1,
        qs@[3].relevant_patterns@[0]@ == "security"@,
        qs@[4].query@ == "FTS5 keyword search"@,
        qs@[4].relevant_patterns@.len() == 1,
        qs@[4].relevant_patterns@[0]@ == "search"@,
        qs@[5].query@ == "embedding model cosine similarity"@,
        qs@[5].relevant_patterns@.len() == 2,
        qs@[5].relevant_patterns@[0]@ == "models"@,
        qs@[5].relevant_patterns@[1]@ == "search"@,
        qs@[6].query@ == "ChunkSpec ordinal"@,
        qs@[6].relevant_patterns@.len() == 1,
        qs@[6].relevant_patterns@[0]@ == "code"@,
        qs@[7].query@ == "orbok-catalog.sqlite3"@,
        qs@[7].relevant_patterns@.len() == 1,
        qs@[7].relevant_patterns@[0]@ == "storage"@,
{
    let mut qs: Vec<LabeledQuery> = Vec::new();
    qs.push(labeled("refresh token expiry", "auth", None));
    qs.push(labeled("ERR-4042", "auth", Some("japanese")));
    qs.push(labeled("client_secret rotation", "auth", None));
    qs.push(labeled("source allowlist path traversal", "security", None));
    qs.push(labeled("FTS5 keyword search", "search", None));
    qs.push(labeled("embedding model cosine similarity", "models", Some("search")));
    qs.push(labeled("ChunkSpec ordinal", "code", None));
    qs.push(labeled("orbok-catalog.sqlite3", "storage", None));
    qs
}

/// The names of the synthetic document templates, in order.
pub open spec fn template_name(k: nat) -> Seq<char> {
    if k == 0 {
        "auth"@
    } else if k == 1 {
        "storage"@
    } else if k == 2 {
        "search"@
    } else if k == 3 {
        "api"@
    } else if k == 4 {
        "security"@
    } else if k == 5 {
        "japanese"@
    } else if k == 6 {
        "code"@
    } else {
        "models"@
    }
}

/// The Markdown bodies of the synthetic document templates, in order.
pub open spec fn template_body(k: nat) -> Seq<char> {
    if k == 0 {
        "# Authentication\n\n## Token Lifecycle\n\nRefresh tokens expire after 24 hours.\nError code ERR-4042 occurs when a token is missing.\n\n## OAuth Client Rotation\n\nThe `client_secret` must be rotated every 90 days.\n"@
    } else if k == 1 {
        "# Storage Policy\n\n## Index Types\n\nOrbok stores derived indexes, not full copies.\nThe `orbok-catalog.sqlite3` file holds persistent catalog data.\n\n## Cleanup\n\nSafe cleanup removes expired caches without touching source files.\n"@
    } else if k == 2 {
        "# Search Architecture\n\n## Hybrid Retrieval\n\nKeyword search uses FTS5 with unicode61 tokenization.\nVector search uses exact cosine-similarity scan.\nReciprocal Rank Fusion (k=60) combines both result sets.\n"@
    } else if k == 3 {
        "# API Reference\n\n## Endpoints\n\n### POST /api/search/query\n\nRuns a hybrid search query. Parameters: `query`, `mode`, `limit`.\n\n### GET /api/sources\n\nLists all registered sources.\n"@
    } else if k == 4 {
        "# Security Model\n\n## File Access Boundary\n\nThe backend enforces a source allowlist.\nPath traversal and symlink escape are rejected.\n\n## Log Hygiene\n\nDocument contents are never written to logs.\n"@
    } else if k == 5 {
        "# 認証とストレージ\n\n## トークンのローテーション\n\nOAuthクライアントシークレットは定期的に更新する必要があります。\nエラーコード ERR-4042 はトークン欠落を示します。\n\n## インデックス管理\n\norbok はソースファイルのコピーを保存しません。\n"@
    } else if k == 6 {
        "# Implementation Notes\n\n## Chunker\n\nThe `chunk()` function splits extraction output into `ChunkSpec` values.\nParent chunk (ordinal 0) spans the whole document.\nChild chunks map to headings or paragraphs.\n\n```rust\npub fn chunk(output: &ExtractOutput, name: &str) -> Vec<ChunkSpec> { ... }\n```\n"@
    } else {
        "# Local AI Models\n\n## Embedding Model\n\nThe embedding model converts text to dense vectors (768 dimensions).\nLocal inference runs via candle or ONNX Runtime.\n\n## Reranker\n\nThe cross-encoder reranker scores query-passage pairs.\nIt is optional; keyword results are returned if unavailable.\n"@
    }
}

/// The name and body of template `k` (taken modulo the template count).
fn template(k: usize) -> (r: (&'static str, &'static str))
    ensures
        r.0@ == template_name((k % 8) as nat),
        r.1@ == template_body((k % 8) as nat),
{
    let k = k % 8;
    if k == 0 {
        ("auth", "# Authentication\n\n## Token Lifecycle\n\nRefresh tokens expire after 24 hours.\nError code ERR-4042 occurs when a token is missing.\n\n## OAuth Client Rotation\n\nThe `client_secret` must be rotated every 90 days.\n")
    } else if k == 1 {
        ("storage", "# Storage Policy\n\n## Index Types\n\nOrbok stores derived indexes, not full copies.\nThe `orbok-catalog.sqlite3` file holds persistent catalog data.\n\n## Cleanup\n\nSafe cleanup removes expired caches without touching source files.\n")
    } else if k == 2 {
        ("search", "# Search Architecture\n\n## Hybrid Retrieval\n\nKeyword search uses FTS5 with unicode61 tokenization.\nVector search uses exact cosine-similarity scan.\nReciprocal Rank Fusion (k=60) combines both result sets.\n")
    } else if k == 3 {
        ("api", "# API Reference\n\n## Endpoints\n\n### POST /api/search/query\n\nRuns a hybrid search query. Parameters: `query`, `mode`, `limit`.\n\n### GET /api/sources\n\nLists all registered sources.\n")
    } else if k == 4 {
        ("security", "# Security Model\n\n## File Access Boundary\n\nThe backend enforces a source allowlist.\nPath traversal and symlink escape are rejected.\n\n## Log Hygiene\n\nDocument contents are never written to logs.\n")
    } else if k == 5 {
        ("japanese", "# 認証とストレージ\n\n## トークンのローテーション\n\nOAuthクライアントシークレットは定期的に更新する必要があります。\nエラーコード ERR-4042 はトークン欠落を示します。\n\n## インデックス管理\n\norbok はソースファイルのコピーを保存しません。\n")
    } else if k == 6 {
        ("code", "# Implementation Notes\n\n## Chunker\n\nThe `chunk()` function splits extraction output into `ChunkSpec` values.\nParent chunk (ordinal 0) spans the whole document.\nChild chunks map to headings or paragraphs.\n\n```rust\npub fn chunk(output: &ExtractOutput, name: &str) -> Vec<ChunkSpec> { ... }\n```\n")
    } else {
        ("models", "# Local AI Models\n\n## Embedding Model\n\nThe embedding model converts text to dense vectors (768 dimensions).\nLocal inference runs via candle or ONNX Runtime.\n\n## Reranker\n\nThe cross-encoder reranker scores query-passage pairs.\nIt is optional; keyword results are returned if unavailable.\n")
    }
}

/// `digits` padded with leading zeros to at least four characters.
pub open spec fn pad4(digits: Seq<char>) -> Seq<char> {
    if digits.len() < 4 {
        Seq::new((4 - digits.len()) as nat, |i: int| '0') + digits
    } else {
        digits
    }
}

/// The file name of synthetic document `i`: its template's name and `i`
/// in at least four digits.
pub open spec fn corpus_file_name(i: nat) -> Seq<char> {
    template_name(i % 8) + "-"@ + pad4(text::decimal(i)) + ".md"@
}

/// The content of synthetic document `i`: its template's body and a
/// marker comment that makes every document distinct.
pub open spec fn corpus_file_text(i: nat) -> Seq<char> {
    template_body(i % 8) + "\n<!-- doc-"@ + text::decimal(i) + " -->\n"@
}

/// Synthetic benchmark document `i`: realistic Markdown over a range of
/// topics (authentication, storage, search, code, mixed languages), the
/// templates taken in turn. Gives the file name and the content.
pub fn corpus_document(i: usize) -> (r: (String, String))
    ensures
        r.0@ == corpus_file_name(i as nat),
        r.1@ == corpus_file_text(i as nat),
{
    let (name, base) = template(i);
    let digits = decimal_u64(i as u64);
    let mut file_name = chars_of(name);
    push_all(&mut file_name, &chars_of("-"));
    let mut k = digits.len();
    while k < 4
        invariant
            digits.len() <= k <= 4 || (digits.len() > 4 && k == digits.len()),
            file_name@ == template_name((i % 8) as nat) + "-"@ + Seq::new(
                (k - digits.len()) as nat,
                |j: int| '0',
            ),
        decreases 4 - k,
    {
        file_name.push('0');
        k += 1;
        assert(file_name@ =~= template_name((i % 8) as nat) + "-"@ + Seq::new(
            (k - digits.len()) as nat,
            |j: int| '0',
        ));
    }
    push_all(&mut file_name, &digits);
    push_all(&mut file_name, &chars_of(".md"));
    proof {
        let z = Seq::new((k - digits.len()) as nat, |j: int| '0');
        if digits.len() < 4 {
            assert(z =~= Seq::new((4 - digits.len()) as nat, |j: int| '0'));
        } else {
            assert(z =~= Seq::<char>::empty());
        }
        assert(file_name@ =~= corpus_file_name(i as nat));
    }
    let mut content = chars_of(base);
    push_all(&mut content, &chars_of("\n<!-- doc-"));
    push_all(&mut content, &digits);
    push_all(&mut content, &chars_of(" -->\n"));
    (string_of(&file_name), string_of(&content))
}

} // verus!
