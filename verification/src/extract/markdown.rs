//! Markdown extractor `markdown-v1`: heading-aware, fence-aware, with
//! exact line locations.
//!
//! Line-oriented by design: ATX headings (`#` to `######`) maintain the
//! heading path; fenced code blocks become code segments; consecutive
//! other non-blank lines group into paragraphs.
use vstd::prelude::*;
use crate::text;
use crate::text::{is_blank, join_vecs, lines_of, lit, string_of, subvec, trim_end_vec, trim_start_vec, trim_vec};
use crate::extract::types::{ExtractedSegment, LocationQuality, SegmentKind, SegmentModel};
use crate::extract::types;
use crate::extract::types::{decode_text, ExtractOutput, ExtractionError};
use crate::normalize::normalize_document;
use crate::vocab::NORMALIZATION_VERSION;
use crate::text::chars_of;
use vstd::utf8::valid_utf8;

verus! {

// ------------------------------------------------------------------ spec

/// Number of leading copies of `c` in `s`.
pub open spec fn lead_count(s: Seq<char>, c: char) -> nat
    decreases s.len(),
{
    if s.len() > 0 && s[0] == c {
        1 + lead_count(s.drop_first(), c)
    } else {
        0
    }
}

/// `s` with every trailing `c` removed (`str::trim_end_matches`).
pub open spec fn trim_end_char(s: Seq<char>, c: char) -> Seq<char>
    decreases s.len(),
{
    if s.len() > 0 && s.last() == c {
        trim_end_char(s.drop_last(), c)
    } else {
        s
    }
}

/// An ATX heading line: optional indentation, one to six `#`, a space,
/// and a non-empty title (closing `#`s and surrounding blanks removed).
pub open spec fn atx_heading(line: Seq<char>) -> Option<(u8, Seq<char>)> {
    let t = text::trim_start(line);
    let n = lead_count(t, '#');
    if 1 <= n <= 6 {
        let rest = t.skip(n as int);
        if rest.len() > 0 && rest[0] == ' ' {
            let title = text::trim_end(trim_end_char(text::trim(rest.drop_first()), '#'));
            if title.len() > 0 {
                Some((n as u8, title))
            } else {
                None
            }
        } else {
            None
        }
    } else {
        None
    }
}

/// A code fence line: three or more backticks or tildes after optional
/// indentation; yields the fence character so open and close pair up.
pub open spec fn fence_of(line: Seq<char>) -> Option<char> {
    let t = text::trim_start(line);
    if lead_count(t, '`') >= 3 {
        Some('`')
    } else if lead_count(t, '~') >= 3 {
        Some('~')
    } else {
        None
    }
}

/// `c` repeated at least three times opens `t`.
pub open spec fn opens_with_three(t: Seq<char>, c: char) -> bool {
    t.len() >= 3 && t[0] == c && t[1] == c && t[2] == c
}

proof fn lemma_lead_count_three(t: Seq<char>, c: char)
    ensures
        (lead_count(t, c) >= 3) == opens_with_three(t, c),
{
    reveal_with_fuel(lead_count, 4);
    if t.len() >= 1 && t[0] == c {
        let t1 = t.drop_first();
        if t1.len() >= 1 && t1[0] == c {
            let t2 = t1.drop_first();
            assert(t2.len() >= 1 ==> t2[0] == t[2]);
        }
        assert(t1.len() >= 1 ==> t1[0] == t[1]);
    }
}

/// Code fences: a line whose text, after leading blanks, opens with three
/// backticks is a backtick fence; otherwise one that opens with three
/// tildes is a tilde fence; any other line is no fence.
pub proof fn law_fence_lines(line: Seq<char>)
    ensures
        fence_of(line) == (if opens_with_three(text::trim_start(line), '`') {
            Some('`')
        } else if opens_with_three(text::trim_start(line), '~') {
            Some('~')
        } else {
            None
        }),
{
    lemma_lead_count_three(text::trim_start(line), '`');
    lemma_lead_count_three(text::trim_start(line), '~');
}

/// Headings of a level strictly below `level`, in order.
pub open spec fn keep_below(h: Seq<(u8, Seq<char>)>, level: u8) -> Seq<(u8, Seq<char>)>
    decreases h.len(),
{
    if h.len() == 0 {
        h
    } else if h.last().0 < level {
        keep_below(h.drop_last(), level).push(h.last())
    } else {
        keep_below(h.drop_last(), level)
    }
}

/// The heading stack after a heading of `level`: deeper or equal
/// headings are closed, the new one is opened.
pub open spec fn push_heading(h: Seq<(u8, Seq<char>)>, level: u8, title: Seq<char>) -> Seq<
    (u8, Seq<char>),
> {
    keep_below(h, level).push((level, title))
}

/// Heading levels strictly increase from the outermost heading inward.
pub open spec fn levels_increase(h: Seq<(u8, Seq<char>)>) -> bool {
    forall|i: int, j: int| 0 <= i < j < h.len() ==> (#[trigger] h[i]).0 < (#[trigger] h[j]).0
}

proof fn lemma_keep_below(h: Seq<(u8, Seq<char>)>, level: u8)
    requires
        levels_increase(h),
    ensures
        levels_increase(keep_below(h, level)),
        forall|i: int| 0 <= i < keep_below(h, level).len() ==> (#[trigger] keep_below(h, level)[i]).0 < level,
        keep_below(h, level).len() <= h.len(),
    decreases h.len(),
{
    if h.len() > 0 {
        let p = h.drop_last();
        assert(levels_increase(p)) by {
            assert forall|i: int, j: int| 0 <= i < j < p.len() implies (#[trigger] p[i]).0 < (#[trigger] p[j]).0 by {
                assert(p[i] == h[i] && p[j] == h[j]);
            }
        }
        lemma_keep_below(p, level);
        let k = keep_below(p, level);
        if h.last().0 < level {
            assert forall|i: int| 0 <= i < k.len() implies (#[trigger] k[i]).0 < h.last().0 by {
                lemma_keep_below_members(p, level, i);
                let j = choose|j: int| 0 <= j < p.len() && p[j] == k[i];
                assert(h[j] == p[j]);
                assert(h[h.len() - 1] == h.last());
            }
            let r = k.push(h.last());
            assert forall|i: int, j: int| 0 <= i < j < r.len() implies (#[trigger] r[i]).0 < (#[trigger] r[j]).0 by {
                if j < k.len() {
                    assert(r[i] == k[i] && r[j] == k[j]);
                } else {
                    assert(r[i] == k[i]);
                }
            }
        }
    }
}

proof fn lemma_keep_below_members(h: Seq<(u8, Seq<char>)>, level: u8, i: int)
    requires
        0 <= i < keep_below(h, level).len(),
    ensures
        exists|j: int| 0 <= j < h.len() && h[j] == keep_below(h, level)[i],
    decreases h.len(),
{
    if h.len() > 0 {
        let p = h.drop_last();
        let k = keep_below(p, level);
        if h.last().0 < level && i == k.len() {
            assert(h[h.len() - 1] == keep_below(h, level)[i]);
        } else {
            lemma_keep_below_members(p, level, i);
            let j = choose|j: int| 0 <= j < p.len() && p[j] == k[i];
            assert(h[j] == p[j]);
        }
    }
}

/// Sibling headings replace, deeper ones nest: after a heading, the
/// open headings still have strictly increasing levels and the new
/// heading is the innermost, so the heading path ends with its title.
pub proof fn law_heading_stack(h: Seq<(u8, Seq<char>)>, level: u8, title: Seq<char>)
    requires
        levels_increase(h),
    ensures
        levels_increase(push_heading(h, level, title)),
        push_heading(h, level, title).last() == (level, title),
        push_heading(h, level, title).len() <= h.len() + 1,
{
    lemma_keep_below(h, level);
    let k = keep_below(h, level);
    let r = k.push((level, title));
    assert forall|i: int, j: int| 0 <= i < j < r.len() implies (#[trigger] r[i]).0 < (#[trigger] r[j]).0 by {
        if j < k.len() {
            assert(r[i] == k[i] && r[j] == k[j]);
        } else {
            assert(r[i] == k[i]);
        }
    }
}

/// The titles of a heading stack.
pub open spec fn titles(h: Seq<(u8, Seq<char>)>) -> Seq<Seq<char>> {
    h.map_values(|p: (u8, Seq<char>)| p.1)
}

/// The heading path: titles joined with ` > `, none outside any heading.
pub open spec fn path_of(h: Seq<(u8, Seq<char>)>) -> Option<Seq<char>> {
    if h.len() == 0 {
        None
    } else {
        Some(text::join(titles(h), " > "@))
    }
}

/// A segment with an exact location.
pub open spec fn exact_seg(
    kind: SegmentKind,
    t: Seq<char>,
    line_start: u32,
    line_end: u32,
    heading_path: Option<Seq<char>>,
) -> SegmentModel {
    SegmentModel {
        kind,
        text: t,
        line_start,
        line_end,
        heading_path,
        location_quality: LocationQuality::Exact,
    }
}

/// Parser state: segments so far, open headings, pending paragraph lines
/// and the line number where the paragraph started.
#[verifier::ext_equal]
pub struct MdState {
    pub segs: Seq<SegmentModel>,
    pub headings: Seq<(u8, Seq<char>)>,
    pub para: Seq<Seq<char>>,
    pub para_start: u32,
}

/// Close the pending paragraph (if any) at line `end`.
pub open spec fn flush_para(st: MdState, end: u32) -> MdState {
    if st.para.len() == 0 {
        st
    } else {
        MdState {
            segs: st.segs.push(
                exact_seg(
                    SegmentKind::Paragraph,
                    text::join(st.para, "\n"@),
                    st.para_start,
                    end,
                    path_of(st.headings),
                ),
            ),
            headings: st.headings,
            para: Seq::<Seq<char>>::empty(),
            para_start: st.para_start,
        }
    }
}

/// Index of the first line at or after `j` that closes a fence of `f`
/// (the number of lines when there is none).
pub open spec fn fence_close(ls: Seq<Seq<char>>, j: nat, f: char) -> nat
    decreases ls.len() - j,
{
    if j >= ls.len() {
        ls.len()
    } else if fence_of(ls[j as int]) == Some(f) {
        j
    } else {
        fence_close(ls, j + 1, f)
    }
}

pub proof fn lemma_fence_close_bounds(ls: Seq<Seq<char>>, j: nat, f: char)
    ensures
        fence_close(ls, j, f) >= j || fence_close(ls, j, f) == ls.len(),
        fence_close(ls, j, f) <= ls.len() || fence_close(ls, j, f) == j,
        j <= ls.len() ==> j <= fence_close(ls, j, f) <= ls.len(),
        forall|k: int| j <= k < fence_close(ls, j, f) ==> fence_of(#[trigger] ls[k]) != Some(f),
        fence_close(ls, j, f) < ls.len() ==> fence_of(ls[fence_close(ls, j, f) as int]) == Some(f),
    decreases ls.len() - j,
{
    if j < ls.len() && fence_of(ls[j as int]) != Some(f) {
        lemma_fence_close_bounds(ls, j + 1, f);
    }
}

/// The Markdown parser over lines `ls` from line index `idx` on.
pub open spec fn md_from(ls: Seq<Seq<char>>, idx: nat, st: MdState) -> Seq<SegmentModel>
    decreases ls.len() + 1 - idx,
{
    if idx >= ls.len() {
        flush_para(st, ls.len() as u32).segs
    } else {
        let line = ls[idx as int];
        let no = (idx + 1) as u32;
        match atx_heading(line) {
            Some(hd) => {
                let s1 = flush_para(st, idx as u32);
                let h = push_heading(s1.headings, hd.0, hd.1);
                md_from(
                    ls,
                    idx + 1,
                    MdState {
                        segs: s1.segs.push(
                            exact_seg(SegmentKind::Heading, hd.1, no, no, path_of(h)),
                        ),
                        headings: h,
                        para: s1.para,
                        para_start: s1.para_start,
                    },
                )
            },
            None => match fence_of(line) {
                Some(f) => {
                    let s1 = flush_para(st, idx as u32);
                    let k = fence_close(ls, idx + 1, f);
                    proof {
                        lemma_fence_close_bounds(ls, idx + 1, f);
                    }
                    let end: u32 = if k + 1 <= ls.len() {
                        (k + 1) as u32
                    } else {
                        ls.len() as u32
                    };
                    md_from(
                        ls,
                        k + 1,
                        MdState {
                            segs: s1.segs.push(
                                exact_seg(
                                    SegmentKind::CodeBlock,
                                    text::join(ls.subrange(idx as int + 1, k as int), "\n"@),
                                    no,
                                    end,
                                    path_of(s1.headings),
                                ),
                            ),
                            headings: s1.headings,
                            para: s1.para,
                            para_start: s1.para_start,
                        },
                    )
                },
                None => if text::all_ws(line) {
                    md_from(ls, idx + 1, flush_para(st, idx as u32))
                } else {
                    md_from(
                        ls,
                        idx + 1,
                        MdState {
                            segs: st.segs,
                            headings: st.headings,
                            para: st.para.push(line),
                            para_start: if st.para.len() == 0 {
                                no
                            } else {
                                st.para_start
                            },
                        },
                    )
                },
            },
        }
    }
}

/// The initial parser state.
pub open spec fn md_init() -> MdState {
    MdState {
        segs: Seq::<SegmentModel>::empty(),
        headings: Seq::<(u8, Seq<char>)>::empty(),
        para: Seq::<Seq<char>>::empty(),
        para_start: 0,
    }
}

/// The segments of a normalized Markdown document.
pub open spec fn markdown_segments(normalized: Seq<char>) -> Seq<SegmentModel> {
    md_from(text::lines(normalized), 0, md_init())
}

/// A segment's line range lies within a text of `n` lines.
pub open spec fn located_within(n: nat, s: SegmentModel) -> bool {
    1 <= s.line_start <= s.line_end <= n
}

/// A line that can sit inside a paragraph: not blank, not a heading and
/// not a code fence.
pub open spec fn paragraph_line(line: Seq<char>) -> bool {
    !text::all_ws(line) && atx_heading(line) is None && fence_of(line) is None
}

/// A Markdown segment is exact for the lines `ls`: located within them,
/// and its text is what its lines hold. A heading is one line whose ATX
/// title is the text; a paragraph is its lines joined with newlines, none
/// of them blank, a heading or a fence; a code block starts at a fence line and holds the lines after it, up
/// to a closing fence of the same kind or the end of the document.
pub open spec fn md_segment_exact(ls: Seq<Seq<char>>, s: SegmentModel) -> bool {
    &&& located_within(ls.len(), s)
    &&& match s.kind {
        SegmentKind::Heading => s.line_start == s.line_end && (atx_heading(ls[s.line_start - 1])
            matches Some(h) && h.1 == s.text),
        SegmentKind::Paragraph => s.text == text::join(
            ls.subrange(s.line_start - 1, s.line_end as int),
            "\n"@,
        ) && forall|l: int| s.line_start - 1 <= l < s.line_end ==> paragraph_line(#[trigger] ls[l]),
        SegmentKind::CodeBlock => fence_of(ls[s.line_start - 1]) is Some && ((s.line_start
            < s.line_end && fence_of(ls[s.line_end - 1]) == fence_of(ls[s.line_start - 1])
            && s.text == text::join(ls.subrange(s.line_start as int, s.line_end - 1), "\n"@)) || (
        s.line_end == ls.len() && s.text == text::join(
            ls.subrange(s.line_start as int, s.line_end as int),
            "\n"@,
        ))),
        SegmentKind::Other => true,
    }
}

/// Every segment of `segs` is exact for `ls`.
pub open spec fn all_md_exact(ls: Seq<Seq<char>>, segs: Seq<SegmentModel>) -> bool {
    forall|k: int| 0 <= k < segs.len() ==> md_segment_exact(ls, #[trigger] segs[k])
}

proof fn lemma_push_exact(ls: Seq<Seq<char>>, segs: Seq<SegmentModel>, x: SegmentModel)
    requires
        all_md_exact(ls, segs),
        md_segment_exact(ls, x),
    ensures
        all_md_exact(ls, segs.push(x)),
{
    assert forall|k: int| 0 <= k < segs.push(x).len() implies md_segment_exact(ls, #[trigger] segs.push(x)[k]) by {
        if k < segs.len() {
            assert(segs.push(x)[k] == segs[k]);
        }
    }
}

/// The pending paragraph holds the lines from its start up to `idx`.
pub open spec fn para_matches(ls: Seq<Seq<char>>, st: MdState, idx: nat) -> bool {
    st.para.len() > 0 ==> 1 <= st.para_start && st.para_start - 1 + st.para.len() == idx
        && st.para == ls.subrange(st.para_start - 1, idx as int)
        && forall|k: int| 0 <= k < st.para.len() ==> paragraph_line(#[trigger] st.para[k])
}

proof fn lemma_flush_exact(ls: Seq<Seq<char>>, st: MdState, idx: nat)
    requires
        ls.len() < u32::MAX,
        idx <= ls.len(),
        all_md_exact(ls, st.segs),
        para_matches(ls, st, idx),
    ensures
        all_md_exact(ls, flush_para(st, idx as u32).segs),
        flush_para(st, idx as u32).para.len() == 0,
        flush_para(st, idx as u32).headings == st.headings,
{
    if st.para.len() > 0 {
        let x = exact_seg(
            SegmentKind::Paragraph,
            text::join(st.para, "\n"@),
            st.para_start,
            idx as u32,
            path_of(st.headings),
        );
        assert forall|l: int| st.para_start - 1 <= l < idx implies paragraph_line(#[trigger] ls[l]) by {
            assert(ls[l] == st.para[l - (st.para_start - 1)]);
        }
        assert(md_segment_exact(ls, x));
        lemma_push_exact(ls, st.segs, x);
    }
}

proof fn lemma_md_exact(ls: Seq<Seq<char>>, idx: nat, st: MdState)
    requires
        ls.len() < u32::MAX,
        idx <= ls.len() + 1,
        all_md_exact(ls, st.segs),
        st.para.len() > 0 ==> idx <= ls.len(),
        para_matches(ls, st, idx),
    ensures
        all_md_exact(ls, md_from(ls, idx, st)),
    decreases ls.len() + 1 - idx,
{
    let n = ls.len();
    if idx >= n {
        if st.para.len() > 0 {
            lemma_flush_exact(ls, st, n);
        }
    } else {
        let line = ls[idx as int];
        let no = (idx + 1) as u32;
        match atx_heading(line) {
            Some(hd) => {
                lemma_flush_exact(ls, st, idx);
                let s1 = flush_para(st, idx as u32);
                let h = push_heading(s1.headings, hd.0, hd.1);
                let x = exact_seg(SegmentKind::Heading, hd.1, no, no, path_of(h));
                assert(md_segment_exact(ls, x));
                lemma_push_exact(ls, s1.segs, x);
                lemma_md_exact(
                    ls,
                    idx + 1,
                    MdState { segs: s1.segs.push(x), headings: h, para: s1.para, para_start: s1.para_start },
                );
            },
            None => match fence_of(line) {
                Some(f) => {
                    lemma_flush_exact(ls, st, idx);
                    let s1 = flush_para(st, idx as u32);
                    let k = fence_close(ls, idx + 1, f);
                    lemma_fence_close_bounds(ls, idx + 1, f);
                    let end: u32 = if k + 1 <= n {
                        (k + 1) as u32
                    } else {
                        n as u32
                    };
                    let x = exact_seg(
                        SegmentKind::CodeBlock,
                        text::join(ls.subrange(idx as int + 1, k as int), "\n"@),
                        no,
                        end,
                        path_of(s1.headings),
                    );
                    assert(md_segment_exact(ls, x));
                    lemma_push_exact(ls, s1.segs, x);
                    lemma_md_exact(
                        ls,
                        k + 1,
                        MdState { segs: s1.segs.push(x), headings: s1.headings, para: s1.para, para_start: s1.para_start },
                    );
                },
                None => if text::all_ws(line) {
                    lemma_flush_exact(ls, st, idx);
                    lemma_md_exact(ls, idx + 1, flush_para(st, idx as u32));
                } else {
                    let st1 = MdState {
                        segs: st.segs,
                        headings: st.headings,
                        para: st.para.push(line),
                        para_start: if st.para.len() == 0 {
                            no
                        } else {
                            st.para_start
                        },
                    };
                    assert(st1.para =~= ls.subrange(st1.para_start - 1, idx + 1int));
                    lemma_md_exact(ls, idx + 1, st1);
                },
            },
        }
    }
}

/// Segments come in document order and never share a line: each ends
/// before the next one starts.
pub open spec fn lines_ordered(segs: Seq<SegmentModel>) -> bool {
    forall|j: int, k: int|
        0 <= j < k < segs.len() ==> #[trigger] segs[j].line_end < #[trigger] segs[k].line_start
}

/// Every segment of `segs` ends at line `n` or before.
pub open spec fn ends_by(segs: Seq<SegmentModel>, n: int) -> bool {
    forall|k: int| 0 <= k < segs.len() ==> #[trigger] segs[k].line_end <= n
}

proof fn lemma_push_ordered(segs: Seq<SegmentModel>, x: SegmentModel, n: int)
    requires
        lines_ordered(segs),
        ends_by(segs, x.line_start - 1),
        x.line_end <= n,
        x.line_start - 1 <= n,
    ensures
        lines_ordered(segs.push(x)),
        ends_by(segs.push(x), n),
{
    let t = segs.push(x);
    assert forall|j: int, k: int| 0 <= j < k < t.len() implies #[trigger] t[j].line_end
        < #[trigger] t[k].line_start by {
        assert(t[j] == segs[j]);
        if k < segs.len() {
            assert(t[k] == segs[k]);
        }
    }
    assert forall|k: int| 0 <= k < t.len() implies #[trigger] t[k].line_end <= n by {
        if k < segs.len() {
            assert(t[k] == segs[k]);
        }
    }
}

/// The state before line `idx + 1`: segments ordered and ended by line
/// `idx`, and a pending paragraph starts after all of them.
pub open spec fn md_ordered_state(st: MdState, idx: nat) -> bool {
    &&& lines_ordered(st.segs)
    &&& ends_by(st.segs, idx as int)
    &&& st.para.len() > 0 ==> ends_by(st.segs, st.para_start - 1) && st.para_start <= idx
}

proof fn lemma_flush_ordered(st: MdState, idx: nat)
    requires
        idx < u32::MAX,
        md_ordered_state(st, idx),
    ensures
        lines_ordered(flush_para(st, idx as u32).segs),
        ends_by(flush_para(st, idx as u32).segs, idx as int),
{
    if st.para.len() > 0 {
        let x = exact_seg(
            SegmentKind::Paragraph,
            text::join(st.para, "\n"@),
            st.para_start,
            idx as u32,
            path_of(st.headings),
        );
        lemma_push_ordered(st.segs, x, idx as int);
    }
}

proof fn lemma_ends_by_mono(segs: Seq<SegmentModel>, a: int, b: int)
    requires
        ends_by(segs, a),
        a <= b,
    ensures
        ends_by(segs, b),
{
}

proof fn lemma_md_ordered(ls: Seq<Seq<char>>, idx: nat, st: MdState)
    requires
        ls.len() < u32::MAX,
        idx <= ls.len() + 1,
        st.para.len() > 0 ==> idx <= ls.len(),
        md_ordered_state(st, idx),
    ensures
        lines_ordered(md_from(ls, idx, st)),
    decreases ls.len() + 1 - idx,
{
    let n = ls.len();
    if idx >= n {
        if st.para.len() > 0 {
            lemma_flush_ordered(st, n);
        }
    } else {
        let line = ls[idx as int];
        let no = (idx + 1) as u32;
        match atx_heading(line) {
            Some(hd) => {
                lemma_flush_ordered(st, idx);
                let s1 = flush_para(st, idx as u32);
                let h = push_heading(s1.headings, hd.0, hd.1);
                let x = exact_seg(SegmentKind::Heading, hd.1, no, no, path_of(h));
                lemma_push_ordered(s1.segs, x, idx + 1int);
                lemma_md_ordered(
                    ls,
                    idx + 1,
                    MdState { segs: s1.segs.push(x), headings: h, para: s1.para, para_start: s1.para_start },
                );
            },
            None => match fence_of(line) {
                Some(f) => {
                    lemma_flush_ordered(st, idx);
                    let s1 = flush_para(st, idx as u32);
                    let k = fence_close(ls, idx + 1, f);
                    lemma_fence_close_bounds(ls, idx + 1, f);
                    let end: u32 = if k + 1 <= n {
                        (k + 1) as u32
                    } else {
                        n as u32
                    };
                    let x = exact_seg(
                        SegmentKind::CodeBlock,
                        text::join(ls.subrange(idx as int + 1, k as int), "\n"@),
                        no,
                        end,
                        path_of(s1.headings),
                    );
                    lemma_push_ordered(s1.segs, x, k + 1int);
                    lemma_md_ordered(
                        ls,
                        k + 1,
                        MdState { segs: s1.segs.push(x), headings: s1.headings, para: s1.para, para_start: s1.para_start },
                    );
                },
                None => if text::all_ws(line) {
                    lemma_flush_ordered(st, idx);
                    let s1 = flush_para(st, idx as u32);
                    lemma_ends_by_mono(s1.segs, idx as int, idx + 1int);
                    lemma_md_ordered(ls, idx + 1, s1);
                } else {
                    let st1 = MdState {
                        segs: st.segs,
                        headings: st.headings,
                        para: st.para.push(line),
                        para_start: if st.para.len() == 0 {
                            no
                        } else {
                            st.para_start
                        },
                    };
                    lemma_ends_by_mono(st.segs, idx as int, idx + 1int);
                    lemma_md_ordered(ls, idx + 1, st1);
                },
            },
        }
    }
}

/// Markdown segments carry exact line locations: each lies within the
/// document, a heading is the one line it was read from, a paragraph is
/// exactly its lines, and a code block exactly the lines between its
/// fences (or up to the end of an unclosed block). The segments come in
/// document order and no two share a line.
pub proof fn law_markdown_segments_exact(normalized: Seq<char>)
    requires
        text::lines(normalized).len() < u32::MAX,
    ensures
        all_md_exact(text::lines(normalized), markdown_segments(normalized)),
        lines_ordered(markdown_segments(normalized)),
{
    lemma_md_exact(text::lines(normalized), 0, md_init());
    lemma_md_ordered(text::lines(normalized), 0, md_init());
}

// ------------------------------------------------------------------ exec

/// Number of leading copies of `c` in `s`.
fn lead_count_vec(s: &Vec<char>, c: char) -> (r: usize)
    ensures
        r == lead_count(s@, c),
        r <= s.len(),
{
    let mut i: usize = 0;
    assert(s@.skip(0) =~= s@);
    while i < s.len() && s[i] == c
        invariant
            i <= s.len(),
            lead_count(s@, c) == i + lead_count(s@.skip(i as int), c),
        decreases s.len() - i,
    {
        assert(s@.skip(i as int).drop_first() =~= s@.skip(i + 1));
        i += 1;
    }
    i
}

/// Remove every trailing `c`.
fn trim_end_char_vec(s: &Vec<char>, c: char) -> (r: Vec<char>)
    ensures
        r@ == trim_end_char(s@, c),
{
    let mut k = s.len();
    assert(s@.take(k as int) =~= s@);
    while k > 0 && s[k - 1] == c
        invariant
            k <= s.len(),
            trim_end_char(s@.take(k as int), c) == trim_end_char(s@, c),
        decreases k,
    {
        assert(s@.take(k as int).drop_last() =~= s@.take(k - 1));
        k -= 1;
    }
    subvec(s, 0, k)
}

/// The view of an optional parsed heading.
pub open spec fn heading_view(r: Option<(u8, Vec<char>)>) -> Option<(u8, Seq<char>)> {
    match r {
        Some(p) => Some((p.0, p.1@)),
        None => None,
    }
}

/// `#`–`######` followed by a space: (level, title).
fn parse_atx_heading(line: &Vec<char>) -> (r: Option<(u8, Vec<char>)>)
    ensures
        heading_view(r) == atx_heading(line@),
{
    let trimmed = trim_start_vec(line);
    let hashes = lead_count_vec(&trimmed, '#');
    if 1 <= hashes && hashes <= 6 {
        let rest = subvec(&trimmed, hashes, trimmed.len());
        assert(rest@ == trimmed@.skip(hashes as int));
        if rest.len() > 0 && rest[0] == ' ' {
            let after = subvec(&rest, 1, rest.len());
            assert(after@ =~= rest@.drop_first());
            let t = trim_vec(&after);
            let t2 = trim_end_char_vec(&t, '#');
            let title = trim_end_vec(&t2);
            if title.len() > 0 {
                return Some((hashes as u8, title));
            }
        }
    }
    None
}

/// Code fence marker: three or more backticks or tildes.
fn parse_fence(line: &Vec<char>) -> (r: Option<char>)
    ensures
        r == fence_of(line@),
{
    let trimmed = trim_start_vec(line);
    if lead_count_vec(&trimmed, '`') >= 3 {
        Some('`')
    } else if lead_count_vec(&trimmed, '~') >= 3 {
        Some('~')
    } else {
        None
    }
}

/// The stack of open headings.
struct HeadingStack(Vec<(u8, Vec<char>)>);

/// The model of stored headings.
spec fn stack_model(v: Seq<(u8, Vec<char>)>) -> Seq<(u8, Seq<char>)> {
    v.map_values(|p: (u8, Vec<char>)| (p.0, p.1@))
}

impl HeadingStack {
    spec fn model(&self) -> Seq<(u8, Seq<char>)> {
        stack_model(self.0@)
    }

    /// Close headings at `level` or deeper, then open `title`.
    fn push(&mut self, level: u8, title: &Vec<char>)
        ensures
            final(self).model() == push_heading(old(self).model(), level, title@),
    {
        let mut kept: Vec<(u8, Vec<char>)> = Vec::new();
        let mut i: usize = 0;
        while i < self.0.len()
            invariant
                i <= self.0.len(),
                stack_model(kept@) == keep_below(stack_model(self.0@.take(i as int)), level),
            decreases self.0.len() - i,
        {
            let ghost before = stack_model(self.0@.take(i as int));
            assert(stack_model(self.0@.take(i + 1)) =~= before.push(
                (self.0@[i as int].0, self.0@[i as int].1@),
            ));
            assert(before.push((self.0@[i as int].0, self.0@[i as int].1@)).drop_last() =~= before);
            let l = self.0[i].0;
            if l < level {
                let copy = subvec(&self.0[i].1, 0, self.0[i].1.len());
                assert(copy@ =~= self.0@[i as int].1@);
                let ghost kept_before = stack_model(kept@);
                kept.push((l, copy));
                assert(stack_model(kept@) =~= kept_before.push((l, copy@)));
            }
            i += 1;
        }
        assert(self.0@.take(self.0.len() as int) =~= self.0@);
        let t = subvec(title, 0, title.len());
        assert(t@ =~= title@);
        let ghost kept_before = stack_model(kept@);
        kept.push((level, t));
        assert(stack_model(kept@) =~= kept_before.push((level, title@)));
        self.0 = kept;
    }

    /// Titles joined with ` > `; `None` outside any heading.
    fn path(&self) -> (r: Option<String>)
        ensures
            types::opt_view(r) == path_of(self.model()),
    {
        if self.0.len() == 0 {
            None
        } else {
            let mut ts: Vec<Vec<char>> = Vec::new();
            let mut i: usize = 0;
            while i < self.0.len()
                invariant
                    i <= self.0.len(),
                    text::views(ts@) =~= titles(self.model()).take(i as int),
                decreases self.0.len() - i,
            {
                let t = subvec(&self.0[i].1, 0, self.0[i].1.len());
                assert(t@ =~= self.0@[i as int].1@);
                assert(titles(self.model())[i as int] == t@);
                let ghost old_v = text::views(ts@);
                ts.push(t);
                assert(text::views(ts@) =~= old_v.push(t@));
                i += 1;
            }
            let sep = lit(" > ");
            let joined = join_vecs(&ts, &sep);
            assert(titles(self.model()).take(self.0.len() as int) =~= titles(self.model()));
            Some(string_of(&joined))
        }
    }
}

/// A segment with an exact location.
fn make_segment(
    kind: SegmentKind,
    t: &Vec<char>,
    line_start: u32,
    line_end: u32,
    heading_path: Option<String>,
) -> (r: ExtractedSegment)
    ensures
        r@ == exact_seg(kind, t@, line_start, line_end, types::opt_view(heading_path)),
{
    ExtractedSegment {
        kind,
        text: string_of(t),
        line_start,
        line_end,
        heading_path,
        location_quality: LocationQuality::Exact,
    }
}

/// The parser state of the executable loop.
spec fn exec_state(
    segs: Seq<ExtractedSegment>,
    headings: Seq<(u8, Vec<char>)>,
    para: Seq<Vec<char>>,
    para_start: u32,
) -> MdState {
    MdState {
        segs: types::seg_models(segs),
        headings: stack_model(headings),
        para: text::views(para),
        para_start,
    }
}

/// Close the pending paragraph at line `end`.
fn flush_paragraph(
    segments: &mut Vec<ExtractedSegment>,
    paragraph: &mut Vec<Vec<char>>,
    para_start: u32,
    headings: &HeadingStack,
    end: u32,
)
    ensures
        exec_state(final(segments)@, headings.0@, final(paragraph)@, para_start) == flush_para(
            exec_state(old(segments)@, headings.0@, old(paragraph)@, para_start),
            end,
        ),
{
    if paragraph.len() > 0 {
        let nl = lit("\n");
        let joined = join_vecs(paragraph, &nl);
        let hp = headings.path();
        let seg = make_segment(SegmentKind::Paragraph, &joined, para_start, end, hp);
        let ghost before = types::seg_models(segments@);
        segments.push(seg);
        assert(types::seg_models(segments@) =~= before.push(seg@));
        paragraph.clear();
        assert(text::views(paragraph@) =~= Seq::<Seq<char>>::empty());
    }
}

/// Parse normalized Markdown into located segments.
fn parse_markdown(normalized: &Vec<char>) -> (r: Vec<ExtractedSegment>)
    requires
        text::lines(normalized@).len() < u32::MAX,
    ensures
        types::seg_models(r@) == markdown_segments(normalized@),
{
    let lines = lines_of(normalized);
    let ghost ls = text::lines(normalized@);
    let mut segments: Vec<ExtractedSegment> = Vec::new();
    let mut headings = HeadingStack(Vec::new());
    let mut paragraph: Vec<Vec<char>> = Vec::new();
    let mut paragraph_start: u32 = 0;
    let mut idx: usize = 0;
    assert(types::seg_models(segments@) =~= Seq::<SegmentModel>::empty());
    assert(stack_model(headings.0@) =~= Seq::<(u8, Seq<char>)>::empty());
    assert(text::views(paragraph@) =~= Seq::<Seq<char>>::empty());
    assert(exec_state(segments@, headings.0@, paragraph@, paragraph_start) =~= md_init());
    while idx < lines.len()
        invariant
            text::views(lines@) == ls,
            ls.len() < u32::MAX,
            idx <= ls.len() + 1,
            md_from(ls, idx as nat, exec_state(segments@, headings.0@, paragraph@, paragraph_start))
                == markdown_segments(normalized@),
        decreases ls.len() + 1 - idx,
    {
        let line = &lines[idx];
        assert(line@ == ls[idx as int]);
        let line_no = (idx as u32) + 1;
        let heading = parse_atx_heading(line);
        if let Some((level, title)) = heading {
            flush_paragraph(&mut segments, &mut paragraph, paragraph_start, &headings, line_no - 1);
            headings.push(level, &title);
            let hp = headings.path();
            let seg = make_segment(SegmentKind::Heading, &title, line_no, line_no, hp);
            let ghost before = types::seg_models(segments@);
            segments.push(seg);
            assert(types::seg_models(segments@) =~= before.push(seg@));
            idx += 1;
            continue;
        }
        let fence = parse_fence(line);
        if let Some(f) = fence {
            flush_paragraph(&mut segments, &mut paragraph, paragraph_start, &headings, line_no - 1);
            let start = line_no;
            let mut body: Vec<Vec<char>> = Vec::new();
            idx += 1;
            let ghost first = idx as nat;
            proof {
                lemma_fence_close_bounds(ls, first, f);
            }
            while idx < lines.len() && parse_fence(&lines[idx]) != Some(f)
                invariant
                    text::views(lines@) == ls,
                    first <= idx <= ls.len(),
                    idx <= fence_close(ls, first, f),
                    first <= fence_close(ls, first, f) <= ls.len(),
                    forall|k: int| first <= k < fence_close(ls, first, f) ==> fence_of(#[trigger] ls[k]) != Some(f),
                    fence_close(ls, first, f) < ls.len() ==> fence_of(ls[fence_close(ls, first, f) as int]) == Some(f),
                    text::views(body@) =~= ls.subrange(first as int, idx as int),
                decreases ls.len() - idx,
            {
                let copy = subvec(&lines[idx], 0, lines[idx].len());
                assert(copy@ =~= lines@[idx as int]@);
                assert(copy@ == ls[idx as int]);
                let ghost old_v = text::views(body@);
                body.push(copy);
                assert(text::views(body@) =~= old_v.push(copy@));
                idx += 1;
            }
            if idx < lines.len() {
                assert(lines@[idx as int]@ == ls[idx as int]);
            }
            assert(idx as nat == fence_close(ls, first, f));
            let end = (idx as u32) + 1;
            let end = if end < (lines.len() as u32) {
                end
            } else {
                lines.len() as u32
            };
            let nl = lit("\n");
            let joined = join_vecs(&body, &nl);
            let hp = headings.path();
            let seg = make_segment(SegmentKind::CodeBlock, &joined, start, end, hp);
            let ghost before = types::seg_models(segments@);
            segments.push(seg);
            assert(types::seg_models(segments@) =~= before.push(seg@));
            idx += 1;
            continue;
        }
        if is_blank(line) {
            flush_paragraph(&mut segments, &mut paragraph, paragraph_start, &headings, line_no - 1);
            idx += 1;
            continue;
        }
        if paragraph.len() == 0 {
            paragraph_start = line_no;
        }
        let copy = subvec(line, 0, line.len());
        assert(copy@ =~= line@);
        let ghost before = text::views(paragraph@);
        paragraph.push(copy);
        assert(text::views(paragraph@) =~= before.push(copy@));
        idx += 1;
    }
    let last = lines.len() as u32;
    flush_paragraph(&mut segments, &mut paragraph, paragraph_start, &headings, last);
    segments
}

/// The Markdown extractor.
pub struct MarkdownExtractor;

impl MarkdownExtractor {
    /// Stable extractor name.
    pub fn name(&self) -> (r: &'static str)
        ensures
            r@ == "markdown"@,
    {
        "markdown"
    }

    /// Extractor version recorded with every output.
    pub fn version(&self) -> (r: &'static str)
        ensures
            r@ == "markdown-v1"@,
    {
        "markdown-v1"
    }

    /// File extensions this extractor claims.
    pub fn supported_extensions(&self) -> (r: Vec<&'static str>)
        ensures
            r@.map_values(|e: &str| e@) == seq!["md"@, "markdown"@],
    {
        let r = vec!["md", "markdown"];
        assert(r@.map_values(|e: &str| e@) =~= seq!["md"@, "markdown"@]);
        r
    }

    /// Extract a Markdown file from its bytes: decode, normalize, parse.
    pub fn extract(&self, bytes: Vec<u8>) -> (r: Result<ExtractOutput, ExtractionError>)
        requires
            types::source_lines_fit(bytes@),
        ensures
            match r {
                Ok(o) => {
                    &&& valid_utf8(bytes@)
                    &&& o.extractor_name@ == "markdown"@
                    &&& o.extractor_version@ == "markdown-v1"@
                    &&& o.normalization_version@ == "norm-v1"@
                    &&& types::seg_models(o.segments@) == markdown_segments(
                        types::normalized_source(bytes@),
                    )
                    &&& o.char_count == types::normalized_source(bytes@).len()
                },
                Err(e) => !valid_utf8(bytes@) && types::is_encoding_error(e),
            },
    {
        let raw = decode_text(bytes)?;
        let normalized = normalize_document(raw.as_str());
        let chars = chars_of(normalized.as_str());
        let segments = parse_markdown(&chars);
        Ok(
            ExtractOutput {
                extractor_name: self.name().to_owned(),
                extractor_version: self.version().to_owned(),
                normalization_version: NORMALIZATION_VERSION.to_owned(),
                char_count: chars.len() as u64,
                segments,
            },
        )
    }
}

} // verus!
