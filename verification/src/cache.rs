//! Cache namespaces.
//!
//! Namespace strings carry an explicit schema version suffix; payload
//! shape changes bump the version so stale rows can be retired safely.
use vstd::prelude::*;
use crate::text;
use crate::text::{chars_of, push_all, string_of};
use crate::vocab::DataClass;

verus! {

/// The orbok cache namespaces. Embedding bundles are parameterized by
/// model and vector format so different models never collide.
#[derive(Debug, Clone, PartialEq, Eq)]
pub enum OrbokCacheNamespace {
    /// Extracted, normalized segments per source file.
    ExtractSegments,
    /// Chunk bundles per source file.
    ChunkBundle,
    /// Embedding bundles per source file for one model and format.
    EmbeddingBundle { model_id: String, vector_format: String },
    /// Rendered preview and snippet payloads.
    PreviewCache,
}

/// A namespace with its parameters as text.
pub enum NamespaceView {
    ExtractSegments,
    ChunkBundle,
    EmbeddingBundle { model_id: Seq<char>, vector_format: Seq<char> },
    PreviewCache,
}

impl View for OrbokCacheNamespace {
    type V = NamespaceView;

    open spec fn view(&self) -> NamespaceView {
        match self {
            OrbokCacheNamespace::ExtractSegments => NamespaceView::ExtractSegments,
            OrbokCacheNamespace::ChunkBundle => NamespaceView::ChunkBundle,
            OrbokCacheNamespace::EmbeddingBundle { model_id, vector_format } => {
                NamespaceView::EmbeddingBundle {
                    model_id: model_id@,
                    vector_format: vector_format@,
                }
            },
            OrbokCacheNamespace::PreviewCache => NamespaceView::PreviewCache,
        }
    }
}

/// The namespace string of a namespace.
pub open spec fn namespace_text(ns: NamespaceView) -> Seq<char> {
    match ns {
        NamespaceView::ExtractSegments => "extract-segments:v1"@,
        NamespaceView::ChunkBundle => "chunk-bundle:v1"@,
        NamespaceView::EmbeddingBundle { model_id, vector_format } => "embedding-bundle:"@
            + model_id + ":"@ + vector_format + ":v1"@,
        NamespaceView::PreviewCache => "preview-cache:v1"@,
    }
}

/// The lifecycle class of a namespace's payloads.
pub open spec fn namespace_class(ns: NamespaceView) -> DataClass {
    match ns {
        NamespaceView::PreviewCache => DataClass::EphemeralCache,
        _ => DataClass::RebuildableIndex,
    }
}

/// Two embedding bundles whose `id:format` texts are equal but split at
/// different colons, such as (`a:b`, `c`) and (`a`, `b:c`): the one
/// kind of pair whose namespace strings coincide.
pub open spec fn colon_split_collision(a: NamespaceView, b: NamespaceView) -> bool {
    match (a, b) {
        (
            NamespaceView::EmbeddingBundle { model_id: ma, vector_format: fa },
            NamespaceView::EmbeddingBundle { model_id: mb, vector_format: fb },
        ) => ma + ":"@ + fa == mb + ":"@ + fb && ma != mb,
        _ => false,
    }
}

/// Both namespaces are embedding bundles whose model ids, or whose
/// vector formats, are all free of `:`.
pub open spec fn separable(a: NamespaceView, b: NamespaceView) -> bool {
    match (a, b) {
        (
            NamespaceView::EmbeddingBundle { model_id: ma, vector_format: fa },
            NamespaceView::EmbeddingBundle { model_id: mb, vector_format: fb },
        ) => (!text::has_char(ma, ':') && !text::has_char(mb, ':')) || (!text::has_char(fa, ':')
            && !text::has_char(fb, ':')),
        _ => true,
    }
}

impl OrbokCacheNamespace {
    /// The cache namespace string: `extract-segments:v1`,
    /// `chunk-bundle:v1`, `embedding-bundle:{model}:{format}:v1` or
    /// `preview-cache:v1`.
    pub fn as_namespace(&self) -> (s: String)
        ensures
            s@ == namespace_text(self@),
    {
        match self {
            OrbokCacheNamespace::ExtractSegments => "extract-segments:v1".to_owned(),
            OrbokCacheNamespace::ChunkBundle => "chunk-bundle:v1".to_owned(),
            OrbokCacheNamespace::EmbeddingBundle { model_id, vector_format } => {
                let mut v = chars_of("embedding-bundle:");
                push_all(&mut v, &chars_of(model_id.as_str()));
                push_all(&mut v, &chars_of(":"));
                push_all(&mut v, &chars_of(vector_format.as_str()));
                push_all(&mut v, &chars_of(":v1"));
                string_of(&v)
            },
            OrbokCacheNamespace::PreviewCache => "preview-cache:v1".to_owned(),
        }
    }

    /// Payload version used to retire stale rows.
    pub fn payload_version(&self) -> (v: u32)
        ensures
            v == 1,
    {
        1
    }

    /// Lifecycle class of the payloads: derived pipeline payloads are
    /// rebuildable; previews are ephemeral.
    pub fn data_class(&self) -> (c: DataClass)
        ensures
            c == namespace_class(self@),
    {
        match self {
            OrbokCacheNamespace::PreviewCache => DataClass::EphemeralCache,
            _ => DataClass::RebuildableIndex,
        }
    }
}

/// In `a + ":" + rest` with no `:` in `a`, the first `:` follows `a`.
proof fn lemma_first_colon(a: Seq<char>, rest: Seq<char>)
    requires
        !text::has_char(a, ':'),
    ensures
        (a + ":"@ + rest).take(a.len() as int) == a,
        (a + ":"@ + rest)[a.len() as int] == ':',
        (a + ":"@ + rest).skip(a.len() + 1int) == rest,
        forall|i: int| 0 <= i < a.len() ==> (a + ":"@ + rest)[i] != ':',
{
    reveal_strlit(":");
    assert((a + ":"@ + rest).take(a.len() as int) =~= a);
    assert((a + ":"@ + rest).skip(a.len() + 1int) =~= rest);
    assert forall|i: int| 0 <= i < a.len() implies (a + ":"@ + rest)[i] != ':' by {
        assert((a + ":"@ + rest)[i] == a[i]);
    }
}

/// Two model ids without `:` followed by `:` give equal texts only if
/// the ids and the rests are equal.
proof fn lemma_split_at_first_colon(a: Seq<char>, b: Seq<char>, ra: Seq<char>, rb: Seq<char>)
    requires
        !text::has_char(a, ':'),
        !text::has_char(b, ':'),
        a + ":"@ + ra == b + ":"@ + rb,
    ensures
        a == b,
        ra == rb,
{
    lemma_first_colon(a, ra);
    lemma_first_colon(b, rb);
    let s = a + ":"@ + ra;
    if a.len() < b.len() {
        assert(s[a.len() as int] == ':');
        assert(false);
    } else if b.len() < a.len() {
        assert(s[b.len() as int] == ':');
        assert(false);
    }
}

/// In `m + ":" + f` with no `:` in `f`, the last `:` precedes `f`.
proof fn lemma_last_colon(m: Seq<char>, f: Seq<char>)
    requires
        !text::has_char(f, ':'),
    ensures
        (m + ":"@ + f).take(m.len() as int) == m,
        (m + ":"@ + f)[m.len() as int] == ':',
        (m + ":"@ + f).skip(m.len() + 1int) == f,
        forall|i: int| m.len() < i < (m + ":"@ + f).len() ==> (m + ":"@ + f)[i] != ':',
{
    reveal_strlit(":");
    assert((m + ":"@ + f).take(m.len() as int) =~= m);
    assert((m + ":"@ + f).skip(m.len() + 1int) =~= f);
    assert forall|i: int| m.len() < i < (m + ":"@ + f).len() implies (m + ":"@ + f)[i]
        != ':' by {
        assert((m + ":"@ + f)[i] == f[i - m.len() - 1]);
    }
}

/// Two vector formats without `:` preceded by `:` give equal texts only
/// if the formats and the heads are equal.
proof fn lemma_split_at_last_colon(ma: Seq<char>, fa: Seq<char>, mb: Seq<char>, fb: Seq<char>)
    requires
        !text::has_char(fa, ':'),
        !text::has_char(fb, ':'),
        ma + ":"@ + fa == mb + ":"@ + fb,
    ensures
        ma == mb,
        fa == fb,
{
    reveal_strlit(":");
    lemma_last_colon(ma, fa);
    lemma_last_colon(mb, fb);
    let s = ma + ":"@ + fa;
    assert(s.len() == ma.len() + 1 + fa.len());
    assert((mb + ":"@ + fb).len() == mb.len() + 1 + fb.len());
    if ma.len() < mb.len() {
        assert(s[mb.len() as int] == ':');
        assert(false);
    } else if mb.len() < ma.len() {
        assert(s[ma.len() as int] == ':');
        assert(false);
    }
}

/// Distinct namespaces have distinct namespace strings, so different
/// models never share cache rows; the one exception is a colon-split
/// collision (see [`colon_split_collision`]).
pub proof fn law_namespaces_distinct(a: NamespaceView, b: NamespaceView)
    requires
        !colon_split_collision(a, b),
        namespace_text(a) == namespace_text(b),
    ensures
        a == b,
{
    reveal_strlit("extract-segments:v1");
    reveal_strlit("chunk-bundle:v1");
    reveal_strlit("embedding-bundle:");
    reveal_strlit("preview-cache:v1");
    reveal_strlit(":v1");
    reveal_strlit(":");
    let ta = namespace_text(a);
    match a {
        NamespaceView::EmbeddingBundle { model_id: ma, vector_format: fa } => {
            let pre = "embedding-bundle:"@;
            assert(ta.take(17) == pre) by {
                assert(ta.take(17) =~= pre);
            }
            match b {
                NamespaceView::EmbeddingBundle { model_id: mb, vector_format: fb } => {
                    let ha = ma + ":"@ + fa;
                    let hb = mb + ":"@ + fb;
                    assert(ta =~= pre + (ha + ":v1"@));
                    assert(namespace_text(b) =~= pre + (hb + ":v1"@));
                    assert(ha + ":v1"@ =~= ta.skip(17));
                    assert(hb + ":v1"@ =~= namespace_text(b).skip(17));
                    assert(ha =~= (ha + ":v1"@).take(ha.len() as int));
                    assert(hb =~= (hb + ":v1"@).take(hb.len() as int));
                    assert(ha == hb);
                    assert(ma == mb);
                    assert(fa =~= ha.skip(ma.len() + 1int));
                    assert(fb =~= hb.skip(mb.len() + 1int));
                },
                _ => {
                    assert(namespace_text(b)[0] != ta[0] || namespace_text(b)[1] != ta[1]
                        || namespace_text(b).len() != ta.len() || namespace_text(b)[2]
                        != ta[2]);
                },
            }
        },
        _ => {
            match b {
                NamespaceView::EmbeddingBundle { .. } => {
                    assert(namespace_text(b)[0] != ta[0] || namespace_text(b)[1] != ta[1]
                        || namespace_text(b).len() != ta.len() || namespace_text(b)[2]
                        != ta[2]);
                },
                _ => {
                    assert(namespace_text(b)[0] != ta[0] || namespace_text(b)[1] != ta[1]
                        || namespace_text(b).len() != ta.len() || a == b);
                },
            }
        },
    }
}

/// A colon-split collision is a pair of different namespaces with the
/// same string: the exception in [`law_namespaces_distinct`] is needed.
pub proof fn law_colon_split_collisions_share_a_string(a: NamespaceView, b: NamespaceView)
    requires
        colon_split_collision(a, b),
    ensures
        a != b,
        namespace_text(a) == namespace_text(b),
{
    match (a, b) {
        (
            NamespaceView::EmbeddingBundle { model_id: ma, vector_format: fa },
            NamespaceView::EmbeddingBundle { model_id: mb, vector_format: fb },
        ) => {
            assert(namespace_text(a) =~= "embedding-bundle:"@ + (ma + ":"@ + fa) + ":v1"@);
            assert(namespace_text(b) =~= "embedding-bundle:"@ + (mb + ":"@ + fb) + ":v1"@);
        },
        _ => {},
    }
}

/// When both model ids, or both vector formats, are free of `:`, two
/// embedding bundles cannot collide.
pub proof fn law_separable_pairs_never_collide(a: NamespaceView, b: NamespaceView)
    requires
        separable(a, b),
    ensures
        !colon_split_collision(a, b),
{
    match (a, b) {
        (
            NamespaceView::EmbeddingBundle { model_id: ma, vector_format: fa },
            NamespaceView::EmbeddingBundle { model_id: mb, vector_format: fb },
        ) => {
            if ma + ":"@ + fa == mb + ":"@ + fb {
                if !text::has_char(ma, ':') && !text::has_char(mb, ':') {
                    lemma_split_at_first_colon(ma, mb, fa, fb);
                } else {
                    lemma_split_at_last_colon(ma, fa, mb, fb);
                }
            }
        },
        _ => {},
    }
}

} // verus!
