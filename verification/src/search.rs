//! Retrieval vocabulary: search modes with their candidate limits, the
//! documents handed to the keyword indexer, and the short paths shown in
//! result lists.
use vstd::prelude::*;
use crate::ids::ChunkId;
use crate::text;
use crate::text::{chars_eq, chars_of, push_all, split_vec, string_of, subvec};

verus! {

/// Search mode selector.
#[derive(Debug, Clone, Copy, PartialEq, Eq, Structural)]
pub enum SearchMode {
    /// Keyword and vector retrieval, fused.
    Auto,
    /// Keyword first; vector retrieval disabled.
    Exact,
    /// Vector first; keyword retrieval disabled.
    Conceptual,
    /// Reduced candidate counts; no reranking.
    Fast,
}

impl Default for SearchMode {
    fn default() -> (m: SearchMode)
        ensures
            m == SearchMode::Auto,
    {
        SearchMode::Auto
    }
}

/// Candidate limits of one search.
#[derive(Debug, Clone, Copy, PartialEq, Eq, Structural)]
pub struct Limits {
    /// Keyword candidates to retrieve (0: keyword retrieval is skipped).
    pub keyword_k: u32,
    /// Vector candidates to retrieve (0: vector retrieval is skipped).
    pub vector_k: u32,
    /// Fused candidates kept.
    pub fusion_n: usize,
}

impl Limits {
    /// The candidate limits of a mode: Auto 100/100/50, Exact 100/0/50,
    /// Conceptual 0/100/50, Fast 50/50/20 (keyword, vector, fused).
    pub fn for_mode(mode: SearchMode) -> (l: Self)
        ensures
            mode == SearchMode::Auto ==> l == (Limits { keyword_k: 100, vector_k: 100, fusion_n: 50 }),
            mode == SearchMode::Exact ==> l == (Limits { keyword_k: 100, vector_k: 0, fusion_n: 50 }),
            mode == SearchMode::Conceptual ==> l == (Limits {
                keyword_k: 0,
                vector_k: 100,
                fusion_n: 50,
            }),
            mode == SearchMode::Fast ==> l == (Limits { keyword_k: 50, vector_k: 50, fusion_n: 20 }),
    {
        match mode {
            SearchMode::Auto => Limits { keyword_k: 100, vector_k: 100, fusion_n: 50 },
            SearchMode::Exact => Limits { keyword_k: 100, vector_k: 0, fusion_n: 50 },
            SearchMode::Conceptual => Limits { keyword_k: 0, vector_k: 100, fusion_n: 50 },
            SearchMode::Fast => Limits { keyword_k: 50, vector_k: 50, fusion_n: 20 },
        }
    }
}

/// One document handed to the keyword indexer: normalized chunk text,
/// consumed for indexing and never stored.
#[derive(Debug, Clone)]
pub struct KeywordDocument {
    pub chunk_id: ChunkId,
    pub title: Option<String>,
    pub heading_path: Option<String>,
    pub normalized_text: String,
}

/// A `/`-separated piece that names no component: empty (doubled or
/// trailing separators) or `.` (the current directory, inside a path).
pub open spec fn is_skipped_piece(p: Seq<char>) -> bool {
    p.len() == 0 || p == "."@
}

/// The named components of a path's pieces, in order.
pub open spec fn named_components(ps: Seq<Seq<char>>) -> Seq<Seq<char>>
    decreases ps.len(),
{
    if ps.len() == 0 {
        Seq::empty()
    } else if is_skipped_piece(ps.last()) {
        named_components(ps.drop_last())
    } else {
        named_components(ps.drop_last()).push(ps.last())
    }
}

/// The path starts at the root.
pub open spec fn is_rooted(path: Seq<char>) -> bool {
    path.len() > 0 && path[0] == '/'
}

/// A relative path that starts with the current directory `.`.
pub open spec fn starts_at_cwd(path: Seq<char>) -> bool {
    !is_rooted(path) && text::split_on(path, '/')[0] == "."@
}

/// The number of components of a Unix path: the root, a leading `.`,
/// and the named components.
pub open spec fn component_count(path: Seq<char>) -> int {
    (if is_rooted(path) { 1int } else { 0int }) + (if starts_at_cwd(path) { 1int } else { 0int })
        + named_components(text::split_on(path, '/')).len()
}

/// The short display form of a path: the path itself when it has at
/// most two components, else `…/` and its last two components.
pub open spec fn short_path(path: Seq<char>) -> Seq<char> {
    let named = named_components(text::split_on(path, '/'));
    if component_count(path) <= 2 {
        path
    } else {
        "…/"@ + named[named.len() - 2] + "/"@ + named[named.len() - 1]
    }
}

/// A path shortened for result lists: `…/parent/name` when it has more
/// than two components, the path itself otherwise.
pub fn short_display_path(path: &str) -> (s: String)
    ensures
        s@ == short_path(path@),
{
    let p = chars_of(path);
    let pieces = split_vec(&p, '/');
    let ghost ps = text::split_on(path@, '/');
    proof {
        text::lemma_split_nonempty(path@, '/');
    }
    let dot = chars_of(".");
    let mut named: Vec<Vec<char>> = Vec::new();
    let mut i: usize = 0;
    assert(ps.take(0) =~= Seq::<Seq<char>>::empty());
    while i < pieces.len()
        invariant
            text::views(pieces@) == ps,
            dot@ == "."@,
            i <= pieces.len(),
            text::views(named@) == named_components(ps.take(i as int)),
        decreases pieces.len() - i,
    {
        assert(ps.take(i + 1).drop_last() =~= ps.take(i as int));
        assert(ps.take(i + 1).last() == pieces@[i as int]@);
        if pieces[i].len() == 0 || chars_eq(&pieces[i], &dot) {
        } else {
            let ghost before = text::views(named@);
            let piece = subvec(&pieces[i], 0, pieces[i].len());
            assert(piece@ =~= pieces@[i as int]@);
            named.push(piece);
            assert(text::views(named@) =~= before.push(pieces@[i as int]@));
        }
        i += 1;
    }
    assert(ps.take(pieces.len() as int) =~= ps);
    let rooted = p.len() > 0 && p[0] == '/';
    let cwd = !rooted && chars_eq(&pieces[0], &dot);
    assert(rooted == is_rooted(path@));
    assert(pieces@[0]@ == ps[0]);
    assert(cwd == starts_at_cwd(path@));
    let extra: usize = (if rooted { 1usize } else { 0usize }) + (if cwd { 1usize } else { 0usize });
    if named.len() <= 2 - extra {
        return path.to_owned();
    }
    let ghost n = text::views(named@);
    let mut out = chars_of("…/");
    push_all(&mut out, &named[named.len() - 2]);
    out.push('/');
    push_all(&mut out, &named[named.len() - 1]);
    proof {
        reveal_strlit("/");
        assert(out@ =~= "…/"@ + n[n.len() - 2] + "/"@ + n[n.len() - 1]);
    }
    string_of(&out)
}

/// Which retrievals a search in `mode` runs: keyword retrieval when its
/// candidate limit is positive, vector retrieval when its limit is
/// positive and an embedding model is installed. Without a model a
/// search silently falls back to keyword retrieval.
pub fn retrievals(mode: SearchMode, has_embedding_model: bool) -> (r: (bool, bool))
    ensures
        r.0 == (mode != SearchMode::Conceptual),
        r.1 == (mode != SearchMode::Exact && has_embedding_model),
{
    let limits = Limits::for_mode(mode);
    (limits.keyword_k > 0, limits.vector_k > 0 && has_embedding_model)
}

/// How a result was found.
#[derive(Debug, Clone, Copy, PartialEq, Eq, Structural)]
pub enum MatchBadge {
    /// Found by keyword retrieval.
    Keyword,
    /// Found by vector retrieval.
    Semantic,
}

/// The badges of a fused result: keyword when keyword retrieval ranked
/// it, semantic when vector retrieval did, in that order.
pub fn match_badges(keyword_rank: Option<u32>, vector_rank: Option<u32>) -> (b: Vec<MatchBadge>)
    ensures
        b@ == (if keyword_rank is Some { seq![MatchBadge::Keyword] } else { Seq::empty() }) + (
        if vector_rank is Some {
            seq![MatchBadge::Semantic]
        } else {
            Seq::empty()
        }),
{
    let mut b: Vec<MatchBadge> = Vec::new();
    if keyword_rank.is_some() {
        b.push(MatchBadge::Keyword);
    }
    if vector_rank.is_some() {
        b.push(MatchBadge::Semantic);
    }
    assert(b@ =~= (if keyword_rank is Some { seq![MatchBadge::Keyword] } else { Seq::empty() }) + (
    if vector_rank is Some {
        seq![MatchBadge::Semantic]
    } else {
        Seq::empty()
    }));
    b
}

/// The final component of a path when it names a file or directory:
/// `None` for an empty path, the root, a lone `.`, or a path ending in
/// `..`.
pub open spec fn file_name(path: Seq<char>) -> Option<Seq<char>> {
    let named = named_components(text::split_on(path, '/'));
    if named.len() == 0 || named.last() == ".."@ {
        None
    } else {
        Some(named.last())
    }
}

/// The title of a search result: its chunk's heading path, else the
/// file name of its path.
pub fn result_title(heading_path: &Option<String>, canonical_path: &str) -> (t: Option<String>)
    ensures
        match heading_path {
            Some(h) => t matches Some(x) && x@ == h@,
            None => match file_name(canonical_path@) {
                Some(n) => t matches Some(x) && x@ == n,
                None => t is None,
            },
        },
{
    if let Some(h) = heading_path {
        return Some(h.clone());
    }
    let p = chars_of(canonical_path);
    let pieces = split_vec(&p, '/');
    let ghost ps = text::split_on(canonical_path@, '/');
    let dot = chars_of(".");
    let mut last: Option<usize> = None;
    let mut i: usize = 0;
    assert(ps.take(0) =~= Seq::<Seq<char>>::empty());
    while i < pieces.len()
        invariant
            text::views(pieces@) == ps,
            dot@ == "."@,
            i <= pieces.len(),
            match last {
                Some(k) => k < i && named_components(ps.take(i as int)).len() > 0
                    && named_components(ps.take(i as int)).last() == ps[k as int],
                None => named_components(ps.take(i as int)).len() == 0,
            },
        decreases pieces.len() - i,
    {
        assert(ps.take(i + 1).drop_last() =~= ps.take(i as int));
        assert(ps.take(i + 1).last() == pieces@[i as int]@);
        if !(pieces[i].len() == 0 || chars_eq(&pieces[i], &dot)) {
            last = Some(i);
        }
        i += 1;
    }
    assert(ps.take(pieces.len() as int) =~= ps);
    match last {
        None => None,
        Some(k) => {
            if chars_eq(&pieces[k], &chars_of("..")) {
                None
            } else {
                Some(string_of(&pieces[k]))
            }
        },
    }
}


} // verus!
