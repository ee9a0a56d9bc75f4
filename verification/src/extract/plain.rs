//! Plain-text extractor `text-v1` (txt, log, csv and source code as
//! line-aware text).
//!
//! Consecutive non-blank lines form a paragraph segment with an exact
//! 1-based inclusive line range. Invalid UTF-8 is a typed
//! `EncodingError`.
use vstd::prelude::*;
use vstd::utf8::valid_utf8;
use crate::text;
use crate::text::{chars_of, is_blank, join_vecs, lines_of, lit, string_of, subvec};
use crate::extract::types;
use crate::extract::types::{
    decode_text, ExtractOutput, ExtractedSegment, ExtractionError, LocationQuality, SegmentKind,
    SegmentModel,
};
use crate::normalize::normalize_document;
use crate::vocab::NORMALIZATION_VERSION;

verus! {

/// A paragraph segment with an exact range and no heading path.
pub open spec fn para_seg(lines: Seq<Seq<char>>, start: u32, end: u32) -> SegmentModel {
    SegmentModel {
        kind: SegmentKind::Paragraph,
        text: text::join(lines, "\n"@),
        line_start: start,
        line_end: end,
        heading_path: None,
        location_quality: LocationQuality::Exact,
    }
}

/// Close the current paragraph (if any) with the range `start..=end`.
pub open spec fn close_para(
    segs: Seq<SegmentModel>,
    cur: Seq<Seq<char>>,
    start: u32,
    end: u32,
) -> Seq<SegmentModel> {
    if cur.len() == 0 {
        segs
    } else {
        segs.push(para_seg(cur, start, end))
    }
}

/// Paragraph segmentation over lines `ls` from index `idx` on.
pub open spec fn paras_from(
    ls: Seq<Seq<char>>,
    idx: nat,
    segs: Seq<SegmentModel>,
    cur: Seq<Seq<char>>,
    start: u32,
) -> Seq<SegmentModel>
    decreases ls.len() - idx,
{
    if idx >= ls.len() {
        close_para(segs, cur, start, ls.len() as u32)
    } else if text::all_ws(ls[idx as int]) {
        paras_from(ls, idx + 1, close_para(segs, cur, start, idx as u32), Seq::empty(), start)
    } else {
        paras_from(
            ls,
            idx + 1,
            segs,
            cur.push(ls[idx as int]),
            if cur.len() == 0 {
                (idx + 1) as u32
            } else {
                start
            },
        )
    }
}

/// The paragraph segments of a normalized text.
pub open spec fn paragraph_segments(normalized: Seq<char>) -> Seq<SegmentModel> {
    paras_from(text::lines(normalized), 0, Seq::empty(), Seq::empty(), 0)
}

/// A segment covers exactly the lines `line_start..=line_end` (1-based)
/// of `ls`: its text is those lines joined with newlines.
pub open spec fn exact_segment(ls: Seq<Seq<char>>, s: SegmentModel) -> bool {
    &&& 1 <= s.line_start <= s.line_end <= ls.len()
    &&& s.text == text::join(ls.subrange(s.line_start - 1, s.line_end as int), "\n"@)
    &&& forall|j: int| s.line_start - 1 <= j < s.line_end ==> !text::all_ws(#[trigger] ls[j])
}

/// Every segment of `segs` is exact for `ls`.
pub open spec fn all_exact(ls: Seq<Seq<char>>, segs: Seq<SegmentModel>) -> bool {
    forall|k: int| 0 <= k < segs.len() ==> exact_segment(ls, #[trigger] segs[k])
}

proof fn lemma_close_exact(ls: Seq<Seq<char>>, segs: Seq<SegmentModel>, cur: Seq<Seq<char>>, start: u32, end: u32)
    requires
        ls.len() < u32::MAX,
        all_exact(ls, segs),
        end <= ls.len(),
        cur.len() > 0 ==> 1 <= start && start - 1 + cur.len() == end && cur == ls.subrange(start - 1, end as int)
            && forall|j: int| 0 <= j < cur.len() ==> !text::all_ws(#[trigger] cur[j]),
    ensures
        all_exact(ls, close_para(segs, cur, start, end)),
{
    if cur.len() > 0 {
        let n = para_seg(cur, start, end);
        assert forall|j: int| n.line_start - 1 <= j < n.line_end implies !text::all_ws(#[trigger] ls[j]) by {
            assert(ls[j] == cur[j - (start - 1)]);
        }
        assert(exact_segment(ls, n));
        let r = segs.push(n);
        assert forall|k: int| 0 <= k < r.len() implies exact_segment(ls, #[trigger] r[k]) by {
            if k < segs.len() {
                assert(r[k] == segs[k]);
            }
        }
    }
}

proof fn lemma_paras_exact(ls: Seq<Seq<char>>, idx: nat, segs: Seq<SegmentModel>, cur: Seq<Seq<char>>, start: u32)
    requires
        ls.len() < u32::MAX,
        idx <= ls.len(),
        all_exact(ls, segs),
        cur.len() > 0 ==> 1 <= start && start - 1 + cur.len() == idx && cur == ls.subrange(start - 1, idx as int)
            && forall|j: int| 0 <= j < cur.len() ==> !text::all_ws(#[trigger] cur[j]),
    ensures
        all_exact(ls, paras_from(ls, idx, segs, cur, start)),
    decreases ls.len() - idx,
{
    if idx >= ls.len() {
        lemma_close_exact(ls, segs, cur, start, ls.len() as u32);
    } else if text::all_ws(ls[idx as int]) {
        lemma_close_exact(ls, segs, cur, start, idx as u32);
        lemma_paras_exact(ls, idx + 1, close_para(segs, cur, start, idx as u32), Seq::empty(), start);
    } else {
        let start1: u32 = if cur.len() == 0 {
            (idx + 1) as u32
        } else {
            start
        };
        let cur1 = cur.push(ls[idx as int]);
        assert(cur1 =~= ls.subrange(start1 - 1, idx + 1int));
        assert forall|j: int| 0 <= j < cur1.len() implies !text::all_ws(#[trigger] cur1[j]) by {
            if j < cur.len() {
                assert(cur1[j] == cur[j]);
            }
        }
        lemma_paras_exact(ls, idx + 1, segs, cur1, start1);
    }
}

/// Paragraph segments are exact: each covers a run of non-blank lines
/// `line_start..=line_end` (1-based, within the text) and its text is
/// those lines joined with newlines.
pub proof fn law_paragraph_segments_exact(normalized: Seq<char>)
    requires
        text::lines(normalized).len() < u32::MAX,
    ensures
        all_exact(text::lines(normalized), paragraph_segments(normalized)),
{
    lemma_paras_exact(text::lines(normalized), 0, Seq::empty(), Seq::empty(), 0);
}

/// Close the current paragraph with the range `start..=end`.
fn flush(segments: &mut Vec<ExtractedSegment>, current: &mut Vec<Vec<char>>, start: u32, end: u32)
    ensures
        types::seg_models(final(segments)@) == close_para(
            types::seg_models(old(segments)@),
            text::views(old(current)@),
            start,
            end,
        ),
        final(current)@.len() == 0,
{
    if current.len() == 0 {
        return;
    }
    let nl = lit("\n");
    let joined = join_vecs(current, &nl);
    let seg = ExtractedSegment {
        kind: SegmentKind::Paragraph,
        text: string_of(&joined),
        line_start: start,
        line_end: end,
        heading_path: None,
        location_quality: LocationQuality::Exact,
    };
    let ghost before = types::seg_models(segments@);
    segments.push(seg);
    assert(types::seg_models(segments@) =~= before.push(seg@));
    current.clear();
}

/// Group consecutive non-blank lines into paragraph segments with
/// 1-based inclusive line ranges.
pub fn segment_paragraphs(normalized: &Vec<char>) -> (r: Vec<ExtractedSegment>)
    requires
        text::lines(normalized@).len() < u32::MAX,
    ensures
        types::seg_models(r@) == paragraph_segments(normalized@),
{
    let lines = lines_of(normalized);
    let ghost ls = text::lines(normalized@);
    let mut segments: Vec<ExtractedSegment> = Vec::new();
    let mut current: Vec<Vec<char>> = Vec::new();
    let mut start_line: u32 = 0;
    let mut idx: usize = 0;
    assert(types::seg_models(segments@) =~= Seq::<SegmentModel>::empty());
    assert(text::views(current@) =~= Seq::<Seq<char>>::empty());
    while idx < lines.len()
        invariant
            text::views(lines@) == ls,
            ls.len() < u32::MAX,
            idx <= ls.len(),
            paras_from(ls, idx as nat, types::seg_models(segments@), text::views(current@), start_line)
                == paragraph_segments(normalized@),
        decreases ls.len() - idx,
    {
        let line = &lines[idx];
        assert(line@ == ls[idx as int]);
        let line_no = (idx as u32) + 1;
        if is_blank(line) {
            flush(&mut segments, &mut current, start_line, line_no - 1);
            assert(text::views(current@) =~= Seq::<Seq<char>>::empty());
        } else {
            if current.len() == 0 {
                start_line = line_no;
            }
            let copy = subvec(line, 0, line.len());
            assert(copy@ =~= line@);
            let ghost before = text::views(current@);
            current.push(copy);
            assert(text::views(current@) =~= before.push(copy@));
        }
        idx += 1;
    }
    let last_line = lines.len() as u32;
    flush(&mut segments, &mut current, start_line, last_line);
    segments
}

/// The plain-text extractor.
pub struct PlainTextExtractor;

/// The extensions the plain-text extractor claims.
pub open spec fn plain_extensions() -> Seq<Seq<char>> {
    seq![
        "txt"@, "log"@, "csv"@, "rs"@, "py"@, "js"@, "ts"@, "jsx"@, "tsx"@, "java"@, "c"@,
        "h"@, "cpp"@, "hpp"@, "go"@, "rb"@, "php"@, "sh"@, "bash"@, "sql"@, "toml"@, "yaml"@,
        "yml"@, "json"@, "xml"@, "css"@, "html"@, "htm"@,
    ]
}

impl PlainTextExtractor {
    /// Stable extractor name.
    pub fn name(&self) -> (r: &'static str)
        ensures
            r@ == "plain_text"@,
    {
        "plain_text"
    }

    /// Extractor version recorded with every output.
    pub fn version(&self) -> (r: &'static str)
        ensures
            r@ == "text-v1"@,
    {
        "text-v1"
    }

    /// File extensions this extractor claims.
    pub fn supported_extensions(&self) -> (r: Vec<&'static str>)
        ensures
            r@.map_values(|e: &str| e@) == plain_extensions(),
    {
        let r = vec![
            "txt", "log", "csv", "rs", "py", "js", "ts", "jsx", "tsx", "java", "c", "h", "cpp",
            "hpp", "go", "rb", "php", "sh", "bash", "sql", "toml", "yaml", "yml", "json", "xml",
            "css", "html", "htm",
        ];
        assert(r@.map_values(|e: &str| e@) =~= plain_extensions());
        r
    }

    /// Extract a text file from its bytes: decode, normalize, segment.
    pub fn extract(&self, bytes: Vec<u8>) -> (r: Result<ExtractOutput, ExtractionError>)
        requires
            types::source_lines_fit(bytes@),
        ensures
            match r {
                Ok(o) => {
                    &&& valid_utf8(bytes@)
                    &&& o.extractor_name@ == "plain_text"@
                    &&& o.extractor_version@ == "text-v1"@
                    &&& o.normalization_version@ == "norm-v1"@
                    &&& types::seg_models(o.segments@) == paragraph_segments(
                        types::normalized_source(bytes@),
                    )
                    &&& o.char_count == types::normalized_source(bytes@).len()
                },
                Err(e) => !valid_utf8(bytes@) && types::is_encoding_error(e),
            },
    {
        let raw = decode_text(bytes)?;
        let normalized = normalize_document(raw.as_str());
        let chars = chars_of(normalized.as_str());
        let segments = segment_paragraphs(&chars);
        let char_count = chars.len() as u64;
        Ok(
            ExtractOutput {
                extractor_name: self.name().to_owned(),
                extractor_version: self.version().to_owned(),
                normalization_version: NORMALIZATION_VERSION.to_owned(),
                segments,
                char_count,
            },
        )
    }
}

} // verus!
