//! Adaptive chunker.
//!
//! - **Document chunk** (parent, ordinal 0): the whole document, titled
//!   with the file name, spanning the full file.
//! - **Section chunks** (children): for Markdown, one per heading
//!   section; for plain text (and Markdown without headings), one per
//!   paragraph group; for other types (PDF), one child holding the whole
//!   document.
//! - **Fallback split**: sections, paragraph groups and whole documents
//!   longer than [`MAX_CHARS`] bytes are split into overlapping windows
//!   of [`MAX_CHARS`] characters.
//!
//! Location quality: chunks taken from Markdown or plain-text segments
//! carry exact line ranges; those of other types (PDF pages) are
//! approximate, and so are fallback windows, whose lines are estimated
//! in proportion to the window's position in exact integer arithmetic.
//! Line arithmetic wraps around at `u32::MAX`.
//!
//! Ordinals: the helpers append chunks with ordinal 0 and leave what is
//! already in the list untouched; [`chunk`] numbers the finished list
//! with sequential ordinals (the parent is 0, children start at 1).
//!
//! The output is pure data, ready to be stored as a chunk bundle.
use vstd::prelude::*;
use vstd::wrapping::u32_specs;
use crate::text;
use crate::text::{
    chars_of, is_blank, join_vecs, lit, push_all, string_byte_len, string_of, subvec, trim_vec,
};
use crate::extract::types;
use crate::extract::types::{ExtractOutput, ExtractedSegment, LocationQuality, SegmentKind, SegmentModel};

verus! {

/// Bytes above which a group is split into fallback windows; also the
/// window length in characters.
pub const MAX_CHARS: usize = 1200;

/// Characters shared by neighbouring fallback windows.
pub const OVERLAP_CHARS: usize = 120;

/// One chunk ready for storage.
#[derive(Debug, Clone)]
pub struct ChunkSpec {
    pub chunk_kind: &'static str,
    pub chunk_ordinal: u32,
    pub heading_path: Option<String>,
    pub title: Option<String>,
    pub normalized_text: String,
    pub line_start: u32,
    pub line_end: u32,
    pub byte_start: Option<u64>,
    pub byte_end: Option<u64>,
    pub location_quality: &'static str,
    pub parent_idx: Option<usize>,
}

/// The content of a chunk apart from its ordinal.
pub struct ChunkCore {
    pub kind: Seq<char>,
    pub heading_path: Option<Seq<char>>,
    pub title: Option<Seq<char>>,
    pub text: Seq<char>,
    pub line_start: u32,
    pub line_end: u32,
    pub byte_start: Option<u64>,
    pub byte_end: Option<u64>,
    pub quality: Seq<char>,
    pub parent_idx: Option<usize>,
}

impl View for ChunkSpec {
    type V = ChunkCore;

    open spec fn view(&self) -> ChunkCore {
        ChunkCore {
            kind: self.chunk_kind@,
            heading_path: types::opt_view(self.heading_path),
            title: types::opt_view(self.title),
            text: self.normalized_text@,
            line_start: self.line_start,
            line_end: self.line_end,
            byte_start: self.byte_start,
            byte_end: self.byte_end,
            quality: self.location_quality@,
            parent_idx: self.parent_idx,
        }
    }
}

/// The contents of a list of chunks.
pub open spec fn cores(v: Seq<ChunkSpec>) -> Seq<ChunkCore> {
    v.map_values(|c: ChunkSpec| c@)
}

/// Every chunk's ordinal is its position (as a `u32`).
pub open spec fn numbered(v: Seq<ChunkSpec>) -> bool {
    forall|i: int| 0 <= i < v.len() ==> #[trigger] v[i].chunk_ordinal == i as u32
}

/// `after` is `before` unchanged, followed by chunks of ordinal 0.
pub open spec fn appends_unnumbered(before: Seq<ChunkSpec>, after: Seq<ChunkSpec>) -> bool {
    &&& before.len() <= after.len()
    &&& after.take(before.len() as int) == before
    &&& forall|i: int| before.len() <= i < after.len() ==> #[trigger] after[i].chunk_ordinal == 0
}

proof fn lemma_appends_refl(v: Seq<ChunkSpec>)
    ensures
        appends_unnumbered(v, v),
{
    assert(v.take(v.len() as int) =~= v);
}

proof fn lemma_appends_trans(a: Seq<ChunkSpec>, b: Seq<ChunkSpec>, c: Seq<ChunkSpec>)
    requires
        appends_unnumbered(a, b),
        appends_unnumbered(b, c),
    ensures
        appends_unnumbered(a, c),
{
    assert forall|i: int| 0 <= i < a.len() implies c.take(a.len() as int)[i] == a[i] by {
        assert(c[i] == c.take(b.len() as int)[i]);
        assert(b[i] == b.take(a.len() as int)[i]);
    }
    assert(c.take(a.len() as int) =~= a);
    assert forall|i: int| a.len() <= i < c.len() implies #[trigger] c[i].chunk_ordinal == 0 by {
        if i < b.len() {
            assert(c[i] == c.take(b.len() as int)[i]);
            assert(b[i].chunk_ordinal == 0);
        }
    }
}

// ------------------------------------------------------ fallback windows

/// Lines a window estimate spreads over: `line_end - line_start`, at
/// least one.
pub open spec fn span(line_start: u32, line_end: u32) -> u32 {
    let d = u32_specs::wrapping_sub(line_end, line_start);
    if d < 1 {
        1
    } else {
        d
    }
}

/// Estimated line of character position `pos` of `n`.
pub open spec fn approx_line(line_start: u32, total: u32, pos: nat, n: nat) -> u32 {
    u32_specs::wrapping_add(line_start, ((total as nat * pos) / n) as u32)
}

/// A fallback window over `t[start..end]`.
pub open spec fn window_core(
    t: Seq<char>,
    ls: u32,
    le: u32,
    hp: Option<Seq<char>>,
    start: nat,
    end: nat,
) -> ChunkCore {
    ChunkCore {
        kind: "fallback"@,
        heading_path: hp,
        title: None,
        text: text::trim(t.subrange(start as int, end as int)),
        line_start: approx_line(ls, span(ls, le), start, t.len()),
        line_end: approx_line(ls, span(ls, le), end, t.len()),
        byte_start: None,
        byte_end: None,
        quality: "approximate"@,
        parent_idx: Some(0),
    }
}

/// Overlapping windows of `t` from character `start` on.
pub open spec fn windows_from(t: Seq<char>, ls: u32, le: u32, hp: Option<Seq<char>>, start: nat) -> Seq<
    ChunkCore,
>
    decreases t.len() - start,
{
    if start >= t.len() {
        Seq::empty()
    } else {
        let end: nat = if start + MAX_CHARS < t.len() {
            (start + MAX_CHARS) as nat
        } else {
            t.len()
        };
        let c = window_core(t, ls, le, hp, start, end);
        if end == t.len() {
            seq![c]
        } else {
            seq![c] + windows_from(t, ls, le, hp, (end - OVERLAP_CHARS) as nat)
        }
    }
}

/// Append `c`, whose ordinal is still 0.
fn push_chunk(specs: &mut Vec<ChunkSpec>, c: ChunkSpec)
    requires
        c.chunk_ordinal == 0,
    ensures
        final(specs)@ == old(specs)@.push(c),
        cores(final(specs)@) == cores(old(specs)@).push(c@),
        appends_unnumbered(old(specs)@, final(specs)@),
{
    let ghost before = specs@;
    specs.push(c);
    assert(cores(specs@) =~= cores(before).push(c@));
    assert(specs@.take(before.len() as int) =~= before);
}

/// Copy of an optional string.
fn clone_opt(o: &Option<String>) -> (r: Option<String>)
    ensures
        types::opt_view(r) == types::opt_view(*o),
{
    match o {
        Some(s) => Some(s.clone()),
        None => None,
    }
}

/// Estimated line of character position `pos` of `n`.
fn approx_line_exec(line_start: u32, total: u32, pos: usize, n: usize) -> (r: u32)
    requires
        0 < n,
        pos <= n,
    ensures
        r == approx_line(line_start, total, pos as nat, n as nat),
{
    assert(total as int * pos as int <= 0xFFFF_FFFFint * 0xFFFF_FFFF_FFFF_FFFFint) by (nonlinear_arith)
        requires
            total <= 0xFFFF_FFFFint,
            0 <= pos <= 0xFFFF_FFFF_FFFF_FFFFint,
    ;
    let prod = (total as u128) * (pos as u128);
    let q = prod / (n as u128);
    proof {
        assert(total as nat * pos as nat <= total as nat * n as nat) by (nonlinear_arith)
            requires
                pos <= n,
        ;
        assert((total as nat * pos as nat) / n as nat <= total as nat) by (nonlinear_arith)
            requires
                total as nat * pos as nat <= total as nat * n as nat,
                n > 0,
        ;
    }
    line_start.wrapping_add(q as u32)
}

/// Split a long text into overlapping fallback windows, appended with
/// ordinal 0.
fn append_text_windows(
    text: &String,
    line_start: u32,
    line_end: u32,
    heading_path: &Option<String>,
    specs: &mut Vec<ChunkSpec>,
)
    ensures
        cores(final(specs)@) == cores(old(specs)@) + windows_from(
            text@,
            line_start,
            line_end,
            types::opt_view(*heading_path),
            0,
        ),
        appends_unnumbered(old(specs)@, final(specs)@),
{
    let chars = chars_of(text.as_str());
    let d = line_end.wrapping_sub(line_start);
    let total_lines: u32 = if d < 1 {
        1
    } else {
        d
    };
    let ghost hp = types::opt_view(*heading_path);
    let ghost t = text@;
    let mut start: usize = 0;
    proof {
        lemma_appends_refl(specs@);
    }
    while start < chars.len()
        invariant
            chars@ == t,
            t == text@,
            hp == types::opt_view(*heading_path),
            total_lines == span(line_start, line_end),
            start <= chars.len(),
            cores(specs@) + windows_from(t, line_start, line_end, hp, start as nat) == cores(
                old(specs)@,
            ) + windows_from(t, line_start, line_end, hp, 0),
            appends_unnumbered(old(specs)@, specs@),
        decreases chars.len() - start,
    {
        let end = if chars.len() - start > MAX_CHARS {
            start + MAX_CHARS
        } else {
            chars.len()
        };
        let window = subvec(&chars, start, end);
        let trimmed = trim_vec(&window);
        let wl_start = approx_line_exec(line_start, total_lines, start, chars.len());
        let wl_end = approx_line_exec(line_start, total_lines, end, chars.len());
        let c = ChunkSpec {
            chunk_kind: "fallback",
            chunk_ordinal: 0,
            heading_path: clone_opt(heading_path),
            title: None,
            normalized_text: string_of(&trimmed),
            line_start: wl_start,
            line_end: wl_end,
            byte_start: None,
            byte_end: None,
            location_quality: "approximate",
            parent_idx: Some(0),
        };
        assert(c@ == window_core(t, line_start, line_end, hp, start as nat, end as nat));
        let ghost before = cores(specs@);
        let ghost prev = specs@;
        push_chunk(specs, c);
        proof {
            lemma_appends_trans(old(specs)@, prev, specs@);
        }
        if end == chars.len() {
            assert(windows_from(t, line_start, line_end, hp, start as nat) == seq![c@]);
            assert(windows_from(t, line_start, line_end, hp, end as nat) =~= Seq::<ChunkCore>::empty());
            assert(cores(specs@) + windows_from(t, line_start, line_end, hp, end as nat) =~= before
                + windows_from(t, line_start, line_end, hp, start as nat));
            start = end;
        } else {
            let next = end - OVERLAP_CHARS;
            assert(cores(specs@) + windows_from(t, line_start, line_end, hp, next as nat) =~= before
                + windows_from(t, line_start, line_end, hp, start as nat));
            start = next;
        }
    }
}


// ---------------------------------------------------------- sections

/// A heading section: its heading, heading path and member segments.
pub struct SectionModel {
    pub heading: Seq<char>,
    pub path: Seq<char>,
    pub idxs: Seq<usize>,
}

/// Number of occurrences of `c` in `s`.
pub open spec fn count_char(s: Seq<char>, c: char) -> nat
    decreases s.len(),
{
    if s.len() == 0 {
        0
    } else {
        count_char(s.drop_last(), c) + if s.last() == c {
            1nat
        } else {
            0nat
        }
    }
}

/// Depth of a heading: one more than the `>` separators in its path.
pub open spec fn heading_level(hp: Option<Seq<char>>) -> nat {
    match hp {
        Some(h) => count_char(h, '>') + 1,
        None => 1,
    }
}

/// `Vec::truncate`.
pub open spec fn truncate_to(s: Seq<Seq<char>>, n: nat) -> Seq<Seq<char>> {
    if n < s.len() {
        s.take(n as int)
    } else {
        s
    }
}

/// Group segments into heading sections from segment `i` on: a heading
/// opens a section (its path rebuilt from the heading's depth); other
/// segments join the latest section, or open an untitled one before the
/// first heading.
pub open spec fn sections_from(
    segs: Seq<SegmentModel>,
    i: nat,
    secs: Seq<SectionModel>,
    trail: Seq<Seq<char>>,
    cur: Seq<char>,
) -> Seq<SectionModel>
    decreases segs.len() - i,
{
    if i >= segs.len() {
        secs
    } else {
        let s = segs[i as int];
        if s.kind == SegmentKind::Heading {
            let t = text::trim(s.text);
            let trail2 = truncate_to(trail, (heading_level(s.heading_path) - 1) as nat).push(t);
            sections_from(
                segs,
                i + 1,
                secs.push(SectionModel { heading: t, path: text::join(trail2, " > "@), idxs: seq![i as usize] }),
                trail2,
                t,
            )
        } else if secs.len() > 0 {
            let last = secs.last();
            sections_from(
                segs,
                i + 1,
                secs.update(
                    secs.len() - 1,
                    SectionModel { heading: last.heading, path: last.path, idxs: last.idxs.push(i as usize) },
                ),
                trail,
                cur,
            )
        } else {
            sections_from(
                segs,
                i + 1,
                seq![SectionModel { heading: cur, path: Seq::empty(), idxs: seq![i as usize] }],
                trail,
                cur,
            )
        }
    }
}

/// The text of a section: its segments' texts joined by newlines.
pub open spec fn section_text(segs: Seq<SegmentModel>, sec: SectionModel) -> Seq<char> {
    text::join(sec.idxs.map_values(|i: usize| segs[i as int].text), "\n"@)
}

/// The location quality of chunks whose lines come straight from the
/// segments: `exact` when every segment has exact lines (Markdown, plain
/// text), `approximate` otherwise (PDF pages and other page-only types).
pub open spec fn line_quality(segs: Seq<SegmentModel>) -> Seq<char> {
    if all_exact(segs) {
        "exact"@
    } else {
        "approximate"@
    }
}

/// Every segment has exact lines (Markdown and plain text do).
pub open spec fn all_exact(segs: Seq<SegmentModel>) -> bool {
    forall|k: int| 0 <= k < segs.len() ==> (#[trigger] segs[k]).location_quality
        == LocationQuality::Exact
}

/// The location quality of a document's segments.
fn line_quality_exec(segments: &Vec<ExtractedSegment>) -> (q: &'static str)
    ensures
        q@ == line_quality(types::seg_models(segments@)),
{
    if exact_lines(segments) {
        "exact"
    } else {
        "approximate"
    }
}

/// Whether every segment has exact lines.
fn exact_lines(segments: &Vec<ExtractedSegment>) -> (b: bool)
    ensures
        b == all_exact(types::seg_models(segments@)),
{
    let ghost segs = types::seg_models(segments@);
    let mut i: usize = 0;
    while i < segments.len()
        invariant
            segs == types::seg_models(segments@),
            i <= segments.len(),
            forall|k: int| 0 <= k < i ==> (#[trigger] segs[k]).location_quality
                == LocationQuality::Exact,
        decreases segments.len() - i,
    {
        assert(segments@[i as int]@ == segs[i as int]);
        if segments[i].location_quality != LocationQuality::Exact {
            return false;
        }
        i += 1;
    }
    true
}

/// The chunks of one section: none when blank, fallback windows when
/// longer than [`MAX_CHARS`] bytes, else one section chunk.
pub open spec fn section_out(segs: Seq<SegmentModel>, sec: SectionModel) -> Seq<ChunkCore> {
    if sec.idxs.len() == 0 {
        Seq::empty()
    } else {
        let t = section_text(segs, sec);
        let ls = segs[sec.idxs[0] as int].line_start;
        let le = segs[sec.idxs.last() as int].line_end;
        if text::all_ws(t) {
            Seq::empty()
        } else if text::byte_len(t) > MAX_CHARS {
            windows_from(t, ls, le, Some(sec.path), 0)
        } else {
            seq![
                ChunkCore {
                    kind: "section"@,
                    heading_path: Some(sec.path),
                    title: Some(sec.heading),
                    text: t,
                    line_start: ls,
                    line_end: le,
                    byte_start: None,
                    byte_end: None,
                    quality: line_quality(segs),
                    parent_idx: Some(0),
                },
            ]
        }
    }
}

/// The chunks of the first `k` sections.
pub open spec fn sections_out(segs: Seq<SegmentModel>, secs: Seq<SectionModel>, k: nat) -> Seq<
    ChunkCore,
>
    decreases k,
{
    if k == 0 || k > secs.len() {
        Seq::empty()
    } else {
        sections_out(segs, secs, (k - 1) as nat) + section_out(segs, secs[k - 1])
    }
}

/// Section chunks of a Markdown document.
pub open spec fn markdown_chunks(segs: Seq<SegmentModel>) -> Seq<ChunkCore> {
    let secs = sections_from(segs, 0, Seq::empty(), Seq::empty(), Seq::empty());
    sections_out(segs, secs, secs.len())
}

struct Section {
    heading: Vec<char>,
    heading_path: Vec<char>,
    segments: Vec<usize>,
}

spec fn section_model(s: Section) -> SectionModel {
    SectionModel { heading: s.heading@, path: s.heading_path@, idxs: s.segments@ }
}

spec fn section_models(v: Seq<Section>) -> Seq<SectionModel> {
    v.map_values(|s: Section| section_model(s))
}

/// Number of occurrences of `c` in `s`.
fn count_char_vec(s: &Vec<char>, c: char) -> (r: usize)
    ensures
        r == count_char(s@, c),
{
    let mut n: usize = 0;
    let mut i: usize = 0;
    while i < s.len()
        invariant
            i <= s.len(),
            n == count_char(s@.take(i as int), c),
            n <= i,
        decreases s.len() - i,
    {
        assert(s@.take(i + 1).drop_last() =~= s@.take(i as int));
        if s[i] == c {
            n += 1;
        }
        i += 1;
    }
    assert(s@.take(s.len() as int) =~= s@);
    n
}

/// Group the segments into heading sections.
fn build_sections(segments: &Vec<ExtractedSegment>) -> (r: Vec<Section>)
    ensures
        section_models(r@) == sections_from(
            types::seg_models(segments@),
            0,
            Seq::empty(),
            Seq::empty(),
            Seq::empty(),
        ),
        forall|j: int, k: int|
            0 <= j < r@.len() && 0 <= k < r@[j].segments@.len() ==> #[trigger] r@[j].segments@[k]
                < segments.len(),
{
    let ghost segs = types::seg_models(segments@);
    let mut sections: Vec<Section> = Vec::new();
    let mut current_heading: Vec<char> = Vec::new();
    let mut trail: Vec<Vec<char>> = Vec::new();
    let mut i: usize = 0;
    assert(section_models(sections@) =~= Seq::<SectionModel>::empty());
    assert(text::views(trail@) =~= Seq::<Seq<char>>::empty());
    while i < segments.len()
        invariant
            segs == types::seg_models(segments@),
            i <= segments.len(),
            sections_from(segs, i as nat, section_models(sections@), text::views(trail@), current_heading@)
                == sections_from(segs, 0, Seq::empty(), Seq::empty(), Seq::empty()),
            forall|j: int, k: int|
                0 <= j < sections@.len() && 0 <= k < sections@[j].segments@.len()
                    ==> #[trigger] sections@[j].segments@[k] < i,
        decreases segments.len() - i,
    {
        let seg = &segments[i];
        assert(seg@ == segs[i as int]);
        if seg.kind == SegmentKind::Heading {
            // headings at this depth and deeper are closed
            let keep: usize = match &seg.heading_path {
                Some(h) => count_char_vec(&chars_of(h.as_str()), '>'),
                None => 0,
            };
            assert(keep as nat == (heading_level(segs[i as int].heading_path) - 1) as nat);
            let ghost old_trail = text::views(trail@);
            while trail.len() > keep
                invariant
                    text::views(trail@) == old_trail.take(trail@.len() as int),
                    trail@.len() <= old_trail.len(),
                    trail@.len() >= keep || trail@.len() == old_trail.len(),
                decreases trail.len(),
            {
                trail.pop();
                assert(text::views(trail@) =~= old_trail.take(trail@.len() as int));
            }
            assert(old_trail.take(old_trail.len() as int) =~= old_trail);
            assert(text::views(trail@) == truncate_to(old_trail, keep as nat));
            let t = trim_vec(&chars_of(seg.text.as_str()));
            let t2 = subvec(&t, 0, t.len());
            assert(t2@ =~= t@);
            let ghost tv_before = text::views(trail@);
            trail.push(t2);
            assert(text::views(trail@) =~= tv_before.push(t@));
            current_heading = subvec(&t, 0, t.len());
            assert(current_heading@ =~= t@);
            let sep = lit(" > ");
            let path = join_vecs(&trail, &sep);
            let mut idxs: Vec<usize> = Vec::new();
            idxs.push(i);
            let sec = Section { heading: subvec(&t, 0, t.len()), heading_path: path, segments: idxs };
            assert(section_model(sec).heading =~= t@);
            assert(section_model(sec).idxs =~= seq![i]);
            let ghost before = section_models(sections@);
            sections.push(sec);
            assert(section_models(sections@) =~= before.push(section_model(sec)));
        } else if sections.len() > 0 {
            let ghost before = section_models(sections@);
            let mut last = sections.pop().unwrap();
            assert(section_model(last) == before.last());
            last.segments.push(i);
            sections.push(last);
            assert(section_models(sections@) =~= before.update(
                before.len() - 1,
                SectionModel {
                    heading: before.last().heading,
                    path: before.last().path,
                    idxs: before.last().idxs.push(i),
                },
            ));
        } else {
            let mut idxs: Vec<usize> = Vec::new();
            idxs.push(i);
            let sec = Section {
                heading: subvec(&current_heading, 0, current_heading.len()),
                heading_path: Vec::new(),
                segments: idxs,
            };
            assert(section_model(sec).heading =~= current_heading@);
            assert(section_model(sec).path =~= Seq::<char>::empty());
            assert(section_model(sec).idxs =~= seq![i]);
            sections.push(sec);
            assert(section_models(sections@) =~= seq![section_model(sec)]);
        }
        i += 1;
    }
    sections
}

/// The joined text of a section.
fn section_text_exec(segments: &Vec<ExtractedSegment>, idxs: &Vec<usize>) -> (r: Vec<char>)
    requires
        forall|k: int| 0 <= k < idxs@.len() ==> #[trigger] idxs@[k] < segments.len(),
    ensures
        r@ == text::join(
            idxs@.map_values(|i: usize| types::seg_models(segments@)[i as int].text),
            "\n"@,
        ),
{
    let ghost segs = types::seg_models(segments@);
    let mut parts: Vec<Vec<char>> = Vec::new();
    let mut k: usize = 0;
    while k < idxs.len()
        invariant
            segs == types::seg_models(segments@),
            k <= idxs.len(),
            forall|q: int| 0 <= q < idxs@.len() ==> #[trigger] idxs@[q] < segments.len(),
            text::views(parts@) =~= idxs@.map_values(|i: usize| segs[i as int].text).take(k as int),
        decreases idxs.len() - k,
    {
        let j = idxs[k];
        let p = chars_of(segments[j].text.as_str());
        assert(p@ == segs[j as int].text);
        let ghost before = text::views(parts@);
        parts.push(p);
        assert(text::views(parts@) =~= before.push(p@));
        k += 1;
    }
    assert(idxs@.map_values(|i: usize| segs[i as int].text).take(idxs.len() as int) =~= idxs@.map_values(
        |i: usize| segs[i as int].text,
    ));
    let nl = lit("\n");
    join_vecs(&parts, &nl)
}

/// One child chunk per heading section of a Markdown document, appended
/// with ordinal 0.
fn append_markdown_sections(output: &ExtractOutput, specs: &mut Vec<ChunkSpec>)
    ensures
        cores(final(specs)@) == cores(old(specs)@) + markdown_chunks(types::seg_models(output.segments@)),
        appends_unnumbered(old(specs)@, final(specs)@),
{
    let ghost segs = types::seg_models(output.segments@);
    let quality = line_quality_exec(&output.segments);
    let sections = build_sections(&output.segments);
    let ghost secs = section_models(sections@);
    let mut n: usize = 0;
    proof {
        lemma_appends_refl(specs@);
    }
    while n < sections.len()
        invariant
            segs == types::seg_models(output.segments@),
            secs == section_models(sections@),
            quality@ == line_quality(segs),
            secs == sections_from(segs, 0, Seq::empty(), Seq::empty(), Seq::empty()),
            n <= sections.len(),
            forall|j: int, k: int|
                0 <= j < sections@.len() && 0 <= k < sections@[j].segments@.len()
                    ==> #[trigger] sections@[j].segments@[k] < output.segments.len(),
            cores(specs@) == cores(old(specs)@) + sections_out(segs, secs, n as nat),
            appends_unnumbered(old(specs)@, specs@),
        decreases sections.len() - n,
    {
        let section = &sections[n];
        let ghost sec = secs[n as int];
        assert(section_model(*section) == sec);
        let ghost before = cores(specs@);
        assert(sections_out(segs, secs, (n + 1) as nat) == sections_out(segs, secs, n as nat)
            + section_out(segs, sec));
        if section.segments.len() == 0 {
            assert(section_out(segs, sec) =~= Seq::<ChunkCore>::empty());
            assert(cores(specs@) =~= cores(old(specs)@) + sections_out(segs, secs, (n + 1) as nat));
            n += 1;
            continue;
        }
        assert forall|k: int| 0 <= k < section.segments@.len() implies #[trigger] section.segments@[k]
            < output.segments.len() by {
            assert(sections@[n as int].segments@[k] < output.segments.len());
        }
        let first = &output.segments[section.segments[0]];
        let last = &output.segments[section.segments[section.segments.len() - 1]];
        assert(first@ == segs[sec.idxs[0] as int]);
        assert(last@ == segs[sec.idxs.last() as int]);
        let joined = section_text_exec(&output.segments, &section.segments);
        assert(joined@ == section_text(segs, sec));
        if is_blank(&joined) {
            assert(section_out(segs, sec) =~= Seq::<ChunkCore>::empty());
            assert(cores(specs@) =~= cores(old(specs)@) + sections_out(segs, secs, (n + 1) as nat));
            n += 1;
            continue;
        }
        let text = string_of(&joined);
        let ghost prev = specs@;
        if string_byte_len(&text) > MAX_CHARS {
            let hp = Some(string_of(&section.heading_path));
            append_text_windows(&text, first.line_start, last.line_end, &hp, specs);
        } else {
            let c = ChunkSpec {
                chunk_kind: "section",
                chunk_ordinal: 0,
                heading_path: Some(string_of(&section.heading_path)),
                title: Some(string_of(&section.heading)),
                normalized_text: text,
                line_start: first.line_start,
                line_end: last.line_end,
                byte_start: None,
                byte_end: None,
                location_quality: quality,
                parent_idx: Some(0),
            };
            push_chunk(specs, c);
            assert(cores(specs@) =~= before + section_out(segs, sec));
        }
        proof {
            lemma_appends_trans(old(specs)@, prev, specs@);
        }
        assert(cores(specs@) =~= cores(old(specs)@) + sections_out(segs, secs, (n + 1) as nat));
        n += 1;
    }
}


// -------------------------------------------------------- paragraphs

/// A paragraph-group chunk.
pub open spec fn para_core(t: Seq<char>, start: u32, end: u32, q: Seq<char>) -> ChunkCore {
    ChunkCore {
        kind: "paragraph"@,
        heading_path: None,
        title: None,
        text: t,
        line_start: start,
        line_end: end,
        byte_start: None,
        byte_end: None,
        quality: q,
        parent_idx: Some(0),
    }
}

/// The chunks of a flushed paragraph buffer: none when blank, fallback
/// windows over the trimmed text when longer than [`MAX_CHARS`] bytes,
/// else one paragraph chunk of quality `q`.
pub open spec fn para_flush(buf: Seq<char>, start: u32, end: u32, q: Seq<char>) -> Seq<ChunkCore> {
    let t = text::trim(buf);
    if t.len() == 0 {
        Seq::empty()
    } else if text::byte_len(t) > MAX_CHARS {
        windows_from(t, start, end, None, 0)
    } else {
        seq![para_core(t, start, end, q)]
    }
}

/// Paragraph grouping from segment `i` on: texts accumulate (each
/// followed by a newline) until the buffer reaches [`MAX_CHARS`] bytes.
pub open spec fn para_chunks_from(
    segs: Seq<SegmentModel>,
    i: nat,
    buf: Seq<char>,
    bs: u32,
    be: u32,
) -> Seq<ChunkCore>
    decreases segs.len() - i,
{
    if i >= segs.len() {
        if text::all_ws(buf) {
            Seq::empty()
        } else {
            para_flush(buf, bs, be, line_quality(segs))
        }
    } else {
        let s = segs[i as int];
        let bs1 = if bs == 0 {
            s.line_start
        } else {
            bs
        };
        let buf1 = buf + s.text + "\n"@;
        if text::byte_len(buf1) >= MAX_CHARS {
            para_flush(buf1, bs1, s.line_end, line_quality(segs)) + para_chunks_from(
                segs,
                i + 1,
                Seq::empty(),
                u32_specs::wrapping_add(s.line_end, 1),
                s.line_end,
            )
        } else {
            para_chunks_from(segs, i + 1, buf1, bs1, s.line_end)
        }
    }
}

/// Paragraph-group chunks of a document without headings.
pub open spec fn paragraph_chunks(segs: Seq<SegmentModel>) -> Seq<ChunkCore> {
    para_chunks_from(segs, 0, Seq::empty(), 0, 0)
}

/// Flush the paragraph buffer into `specs` and clear it.
fn flush_paragraph(
    buf: &mut Vec<char>,
    start: u32,
    end: u32,
    quality: &'static str,
    specs: &mut Vec<ChunkSpec>,
)
    ensures
        cores(final(specs)@) == cores(old(specs)@) + para_flush(old(buf)@, start, end, quality@),
        appends_unnumbered(old(specs)@, final(specs)@),
        final(buf)@ == Seq::<char>::empty(),
{
    let trimmed = trim_vec(buf);
    let ghost before = cores(specs@);
    if trimmed.len() == 0 {
        buf.clear();
        assert(cores(specs@) =~= before + para_flush(old(buf)@, start, end, quality@));
        proof {
            lemma_appends_refl(specs@);
        }
        return;
    }
    let text = string_of(&trimmed);
    if string_byte_len(&text) > MAX_CHARS {
        append_text_windows(&text, start, end, &None, specs);
    } else {
        let c = ChunkSpec {
            chunk_kind: "paragraph",
            chunk_ordinal: 0,
            heading_path: None,
            title: None,
            normalized_text: text,
            line_start: start,
            line_end: end,
            byte_start: None,
            byte_end: None,
            location_quality: quality,
            parent_idx: Some(0),
        };
        push_chunk(specs, c);
        assert(cores(specs@) =~= before + para_flush(old(buf)@, start, end, quality@));
    }
    buf.clear();
}

/// One child chunk per paragraph group within the size limit, appended
/// with ordinal 0.
fn append_paragraph_chunks(output: &ExtractOutput, specs: &mut Vec<ChunkSpec>)
    ensures
        cores(final(specs)@) == cores(old(specs)@) + paragraph_chunks(types::seg_models(output.segments@)),
        appends_unnumbered(old(specs)@, final(specs)@),
{
    let ghost segs = types::seg_models(output.segments@);
    let quality = line_quality_exec(&output.segments);
    let mut buf: Vec<char> = Vec::new();
    let mut buf_start: u32 = 0;
    let mut buf_end: u32 = 0;
    let mut i: usize = 0;
    proof {
        lemma_appends_refl(specs@);
    }
    while i < output.segments.len()
        invariant
            segs == types::seg_models(output.segments@),
            quality@ == line_quality(segs),
            i <= output.segments.len(),
            cores(specs@) + para_chunks_from(segs, i as nat, buf@, buf_start, buf_end) == cores(
                old(specs)@,
            ) + paragraph_chunks(segs),
            appends_unnumbered(old(specs)@, specs@),
        decreases output.segments.len() - i,
    {
        let seg = &output.segments[i];
        assert(seg@ == segs[i as int]);
        let ghost before = cores(specs@);
        let ghost buf0 = buf@;
        let ghost bs0 = buf_start;
        let ghost be0 = buf_end;
        if buf_start == 0 {
            buf_start = seg.line_start;
        }
        buf_end = seg.line_end;
        push_all(&mut buf, &chars_of(seg.text.as_str()));
        buf.push('\n');
        assert(buf@ =~= buf0 + segs[i as int].text + "\n"@) by {
            reveal_strlit("\n");
        }
        if string_byte_len(&string_of(&buf)) >= MAX_CHARS {
            let ghost b1 = buf@;
            let ghost prev = specs@;
            flush_paragraph(&mut buf, buf_start, buf_end, quality, specs);
            proof {
                lemma_appends_trans(old(specs)@, prev, specs@);
            }
            buf_start = seg.line_end.wrapping_add(1);
            assert(cores(specs@) + para_chunks_from(segs, (i + 1) as nat, buf@, buf_start, buf_end)
                =~= before + para_chunks_from(segs, i as nat, buf0, bs0, be0));
        }
        i += 1;
    }
    if !is_blank(&buf) {
        let ghost prev = specs@;
        flush_paragraph(&mut buf, buf_start, buf_end, quality, specs);
        proof {
            lemma_appends_trans(old(specs)@, prev, specs@);
        }
    } else {
        assert(para_chunks_from(segs, i as nat, buf@, buf_start, buf_end) =~= Seq::<ChunkCore>::empty());
    }
}

// --------------------------------------------------- whole document

/// The child of a whole document of text `t` on lines `ls..=le`: none
/// when blank, fallback windows when longer than [`MAX_CHARS`] bytes,
/// else one section chunk of quality `q`.
pub open spec fn whole_chunks(t: Seq<char>, ls: u32, le: u32, q: Seq<char>) -> Seq<ChunkCore> {
    if text::all_ws(t) {
        Seq::empty()
    } else if text::byte_len(t) > MAX_CHARS {
        windows_from(t, ls, le, None, 0)
    } else {
        seq![
            ChunkCore {
                kind: "section"@,
                heading_path: None,
                title: None,
                text: t,
                line_start: ls,
                line_end: le,
                byte_start: None,
                byte_end: None,
                quality: q,
                parent_idx: Some(0),
            },
        ]
    }
}

/// Append the single child holding the whole document, with ordinal 0.
fn append_whole_document(
    text: &String,
    line_start: u32,
    line_end: u32,
    quality: &'static str,
    specs: &mut Vec<ChunkSpec>,
)
    ensures
        cores(final(specs)@) == cores(old(specs)@) + whole_chunks(text@, line_start, line_end, quality@),
        appends_unnumbered(old(specs)@, final(specs)@),
{
    let chars = chars_of(text.as_str());
    if is_blank(&chars) {
        assert(cores(specs@) =~= cores(old(specs)@) + whole_chunks(text@, line_start, line_end, quality@));
        proof {
            lemma_appends_refl(specs@);
        }
        return;
    }
    if string_byte_len(text) > MAX_CHARS {
        append_text_windows(text, line_start, line_end, &None, specs);
    } else {
        let c = ChunkSpec {
            chunk_kind: "section",
            chunk_ordinal: 0,
            heading_path: None,
            title: None,
            normalized_text: text.clone(),
            line_start,
            line_end,
            byte_start: None,
            byte_end: None,
            location_quality: quality,
            parent_idx: Some(0),
        };
        push_chunk(specs, c);
        assert(cores(specs@) =~= cores(old(specs)@) + whole_chunks(text@, line_start, line_end, quality@));
    }
}

// ------------------------------------------------------------- chunk

/// The trimmed text of the first heading segment from `i` on.
pub open spec fn first_heading(segs: Seq<SegmentModel>, i: nat) -> Option<Seq<char>>
    decreases segs.len() - i,
{
    if i >= segs.len() {
        None
    } else if segs[i as int].kind == SegmentKind::Heading {
        Some(text::trim(segs[i as int].text))
    } else {
        first_heading(segs, i + 1)
    }
}

/// The texts of all segments.
pub open spec fn seg_texts(segs: Seq<SegmentModel>) -> Seq<Seq<char>> {
    segs.map_values(|s: SegmentModel| s.text)
}

/// The document-level parent chunk.
pub open spec fn parent_core(segs: Seq<SegmentModel>, name: Seq<char>) -> ChunkCore {
    ChunkCore {
        kind: "document"@,
        heading_path: first_heading(segs, 0),
        title: Some(name),
        text: text::join(seg_texts(segs), "\n"@),
        line_start: segs[0].line_start,
        line_end: segs.last().line_end,
        byte_start: None,
        byte_end: None,
        quality: line_quality(segs),
        parent_idx: None,
    }
}

/// The single chunk of a document without segments.
pub open spec fn empty_document_core(name: Seq<char>) -> ChunkCore {
    ChunkCore {
        kind: "document"@,
        heading_path: None,
        title: Some(name),
        text: Seq::empty(),
        line_start: 1,
        line_end: 1,
        byte_start: None,
        byte_end: None,
        quality: "unknown"@,
        parent_idx: None,
    }
}

/// Some segment is a heading.
pub open spec fn has_heading(segs: Seq<SegmentModel>) -> bool {
    exists|i: int| 0 <= i < segs.len() && segs[i].kind == SegmentKind::Heading
}

/// The single child of a document of another type (PDF pages): its
/// whole text.
pub open spec fn whole_document_chunks(segs: Seq<SegmentModel>) -> Seq<ChunkCore> {
    whole_chunks(
        text::join(seg_texts(segs), "\n"@),
        segs[0].line_start,
        segs.last().line_end,
        line_quality(segs),
    )
}

/// The chunks of a document: the parent, then section chunks (when it has
/// headings), paragraph-group chunks (Markdown or plain text without
/// headings, whose lines are exact) or one chunk of the whole document
/// (other types).
pub open spec fn chunk_cores(segs: Seq<SegmentModel>, name: Seq<char>) -> Seq<ChunkCore> {
    if segs.len() == 0 {
        seq![empty_document_core(name)]
    } else if has_heading(segs) {
        seq![parent_core(segs, name)] + markdown_chunks(segs)
    } else if all_exact(segs) {
        seq![parent_core(segs, name)] + paragraph_chunks(segs)
    } else {
        seq![parent_core(segs, name)] + whole_document_chunks(segs)
    }
}

/// The chunk of a document without segments.
fn empty_document_chunk(name: &str) -> (r: ChunkSpec)
    ensures
        r@ == empty_document_core(name@),
        r.chunk_ordinal == 0,
{
    ChunkSpec {
        chunk_kind: "document",
        chunk_ordinal: 0,
        heading_path: None,
        title: Some(name.to_owned()),
        normalized_text: String::new(),
        line_start: 1,
        line_end: 1,
        byte_start: None,
        byte_end: None,
        location_quality: "unknown",
        parent_idx: None,
    }
}

/// Chunk one file's extraction result. Index 0 is always the
/// document-level parent chunk; the others are its children, used for
/// retrieval; every chunk's ordinal is its index. Chunks carry exact
/// line ranges only when every segment does (Markdown, plain text);
/// otherwise they are approximate (see [`line_quality`]).
pub fn chunk(output: &ExtractOutput, file_display_name: &str) -> (r: Vec<ChunkSpec>)
    ensures
        cores(r@) == chunk_cores(types::seg_models(output.segments@), file_display_name@),
        numbered(r@),
{
    let ghost segs = types::seg_models(output.segments@);
    if output.segments.len() == 0 {
        let mut v: Vec<ChunkSpec> = Vec::new();
        v.push(empty_document_chunk(file_display_name));
        assert(cores(v@) =~= seq![empty_document_core(file_display_name@)]);
        return v;
    }
    let mut texts: Vec<Vec<char>> = Vec::new();
    let mut parent_heading: Option<String> = None;
    let mut has_markdown_structure = false;
    let mut i: usize = 0;
    while i < output.segments.len()
        invariant
            segs == types::seg_models(output.segments@),
            i <= output.segments.len(),
            text::views(texts@) =~= seg_texts(segs).take(i as int),
            first_heading(segs, 0) == match parent_heading {
                Some(h) => Some(h@),
                None => first_heading(segs, i as nat),
            },
            has_markdown_structure == exists|k: int| 0 <= k < i && segs[k].kind == SegmentKind::Heading,
            parent_heading is Some == has_markdown_structure,
        decreases output.segments.len() - i,
    {
        let seg = &output.segments[i];
        assert(seg@ == segs[i as int]);
        let t = chars_of(seg.text.as_str());
        let ghost before = text::views(texts@);
        texts.push(t);
        assert(text::views(texts@) =~= before.push(t@));
        if seg.kind == SegmentKind::Heading {
            if parent_heading.is_none() {
                let h = trim_vec(&chars_of(seg.text.as_str()));
                parent_heading = Some(string_of(&h));
            }
            has_markdown_structure = true;
        }
        i += 1;
    }
    assert(seg_texts(segs).take(output.segments.len() as int) =~= seg_texts(segs));
    assert(has_markdown_structure == has_heading(segs));
    let nl = lit("\n");
    let all_text = join_vecs(&texts, &nl);
    let first_line = output.segments[0].line_start;
    let last_line = output.segments[output.segments.len() - 1].line_end;
    let whole = string_of(&all_text);
    let parent = ChunkSpec {
        chunk_kind: "document",
        chunk_ordinal: 0,
        heading_path: parent_heading,
        title: Some(file_display_name.to_owned()),
        normalized_text: string_of(&all_text),
        line_start: first_line,
        line_end: last_line,
        byte_start: None,
        byte_end: None,
        location_quality: line_quality_exec(&output.segments),
        parent_idx: None,
    };
    let mut specs: Vec<ChunkSpec> = Vec::new();
    push_chunk(&mut specs, parent);
    assert(cores(specs@) =~= seq![parent_core(segs, file_display_name@)]);
    if has_markdown_structure {
        append_markdown_sections(output, &mut specs);
    } else if exact_lines(&output.segments) {
        append_paragraph_chunks(output, &mut specs);
    } else {
        let quality = line_quality_exec(&output.segments);
        append_whole_document(&whole, first_line, last_line, quality, &mut specs);
    }
    // Sequential ordinals: the parent is 0, children start at 1.
    let ghost target = cores(specs@);
    let mut j: usize = 0;
    while j < specs.len()
        invariant
            j <= specs.len(),
            cores(specs@) == target,
            forall|k: int| 0 <= k < j ==> #[trigger] specs@[k].chunk_ordinal == k as u32,
        decreases specs.len() - j,
    {
        let ghost before = specs@;
        specs[j].chunk_ordinal = j as u32;
        assert(cores(specs@) =~= cores(before)) by {
            assert forall|k: int| 0 <= k < specs@.len() implies specs@[k]@ == before[k]@ by {
                if k != j {
                    assert(specs@[k] == before[k]);
                }
            }
        }
        j += 1;
    }
    specs
}

// ------------------------------------------------------------ structure

/// A retrieval chunk: a child of the document chunk whose location
/// quality is `q` (the segments' line quality) or approximate (a
/// fallback window).
pub open spec fn is_child(c: ChunkCore, q: Seq<char>) -> bool {
    &&& c.parent_idx == Some(0usize)
    &&& c.kind != "document"@
    &&& (c.quality == q || c.quality == "approximate"@)
}

/// Every chunk of `s` is a child of the document chunk, of quality `q`
/// or approximate.
pub open spec fn all_children(s: Seq<ChunkCore>, q: Seq<char>) -> bool {
    forall|k: int| 0 <= k < s.len() ==> is_child(#[trigger] s[k], q)
}

proof fn lemma_children_concat(a: Seq<ChunkCore>, b: Seq<ChunkCore>, q: Seq<char>)
    requires
        all_children(a, q),
        all_children(b, q),
    ensures
        all_children(a + b, q),
{
    assert forall|k: int| 0 <= k < (a + b).len() implies is_child(#[trigger] (a + b)[k], q) by {
        if k < a.len() {
            assert((a + b)[k] == a[k]);
        } else {
            assert((a + b)[k] == b[k - a.len()]);
        }
    }
}

proof fn lemma_kinds_are_not_document()
    ensures
        "fallback"@ != "document"@,
        "section"@ != "document"@,
        "paragraph"@ != "document"@,
        "approximate"@ != "exact"@,
        "unknown"@ != "exact"@,
{
    reveal_strlit("fallback");
    reveal_strlit("section");
    reveal_strlit("paragraph");
    reveal_strlit("document");
    reveal_strlit("approximate");
    reveal_strlit("exact");
    reveal_strlit("unknown");
    assert("fallback"@[0] != "document"@[0]);
    assert("section"@[0] != "document"@[0]);
    assert("paragraph"@[0] != "document"@[0]);
    assert("approximate"@[0] != "exact"@[0]);
    assert("unknown"@[0] != "exact"@[0]);
}

proof fn lemma_windows_children(
    t: Seq<char>,
    ls: u32,
    le: u32,
    hp: Option<Seq<char>>,
    start: nat,
    q: Seq<char>,
)
    ensures
        all_children(windows_from(t, ls, le, hp, start), q),
    decreases t.len() - start,
{
    lemma_kinds_are_not_document();
    if start < t.len() {
        let end: nat = if start + MAX_CHARS < t.len() {
            (start + MAX_CHARS) as nat
        } else {
            t.len()
        };
        let c = window_core(t, ls, le, hp, start, end);
        assert(all_children(seq![c], q));
        if end != t.len() {
            lemma_windows_children(t, ls, le, hp, (end - OVERLAP_CHARS) as nat, q);
            lemma_children_concat(
                seq![c],
                windows_from(t, ls, le, hp, (end - OVERLAP_CHARS) as nat),
                q,
            );
        }
    } else {
        assert(windows_from(t, ls, le, hp, start) =~= Seq::<ChunkCore>::empty());
    }
}

proof fn lemma_sections_children(segs: Seq<SegmentModel>, secs: Seq<SectionModel>, k: nat)
    ensures
        all_children(sections_out(segs, secs, k), line_quality(segs)),
    decreases k,
{
    let q = line_quality(segs);
    lemma_kinds_are_not_document();
    if k == 0 || k > secs.len() {
        assert(sections_out(segs, secs, k) =~= Seq::<ChunkCore>::empty());
    } else {
        lemma_sections_children(segs, secs, (k - 1) as nat);
        let sec = secs[k - 1];
        if sec.idxs.len() > 0 {
            let t = section_text(segs, sec);
            let ls = segs[sec.idxs[0] as int].line_start;
            let le = segs[sec.idxs.last() as int].line_end;
            if !text::all_ws(t) && text::byte_len(t) > MAX_CHARS {
                lemma_windows_children(t, ls, le, Some(sec.path), 0, q);
            }
        }
        assert(all_children(section_out(segs, sec), q));
        lemma_children_concat(sections_out(segs, secs, (k - 1) as nat), section_out(segs, sec), q);
    }
}

proof fn lemma_para_flush_children(buf: Seq<char>, start: u32, end: u32, q: Seq<char>)
    ensures
        all_children(para_flush(buf, start, end, q), q),
{
    lemma_kinds_are_not_document();
    let t = text::trim(buf);
    if t.len() > 0 && text::byte_len(t) > MAX_CHARS {
        lemma_windows_children(t, start, end, None, 0, q);
    }
}

proof fn lemma_paragraphs_children(segs: Seq<SegmentModel>, i: nat, buf: Seq<char>, bs: u32, be: u32)
    ensures
        all_children(para_chunks_from(segs, i, buf, bs, be), line_quality(segs)),
    decreases segs.len() - i,
{
    let q = line_quality(segs);
    if i >= segs.len() {
        lemma_para_flush_children(buf, bs, be, q);
        assert(all_children(Seq::<ChunkCore>::empty(), q));
    } else {
        let s = segs[i as int];
        let bs1 = if bs == 0 {
            s.line_start
        } else {
            bs
        };
        let buf1 = buf + s.text + "\n"@;
        if text::byte_len(buf1) >= MAX_CHARS {
            let nb = u32_specs::wrapping_add(s.line_end, 1);
            lemma_para_flush_children(buf1, bs1, s.line_end, q);
            lemma_paragraphs_children(segs, i + 1, Seq::empty(), nb, s.line_end);
            lemma_children_concat(
                para_flush(buf1, bs1, s.line_end, q),
                para_chunks_from(segs, i + 1, Seq::empty(), nb, s.line_end),
                q,
            );
        } else {
            lemma_paragraphs_children(segs, i + 1, buf1, bs1, s.line_end);
        }
    }
}

proof fn lemma_whole_children(t: Seq<char>, ls: u32, le: u32, q: Seq<char>)
    ensures
        all_children(whole_chunks(t, ls, le, q), q),
{
    lemma_kinds_are_not_document();
    if !text::all_ws(t) && text::byte_len(t) > MAX_CHARS {
        lemma_windows_children(t, ls, le, None, 0, q);
    }
}

/// The chunks of a document form a two-level tree: index 0 is the
/// document chunk, with no parent; every other chunk is a section,
/// paragraph or fallback chunk whose parent is index 0. Their location
/// quality follows the segments: the document, section and paragraph
/// chunks carry the segments' line quality (`exact` only when every
/// segment has exact lines, `approximate` otherwise), fallback windows
/// are approximate, and a document without segments is `unknown`.
pub proof fn law_chunk_tree(segs: Seq<SegmentModel>, name: Seq<char>)
    ensures
        chunk_cores(segs, name).len() >= 1,
        chunk_cores(segs, name)[0].kind == "document"@,
        chunk_cores(segs, name)[0].parent_idx is None,
        chunk_cores(segs, name)[0].quality == (if segs.len() == 0 {
            "unknown"@
        } else {
            line_quality(segs)
        }),
        forall|k: int|
            1 <= k < chunk_cores(segs, name).len() ==> is_child(
                #[trigger] chunk_cores(segs, name)[k],
                line_quality(segs),
            ),
{
    let cs = chunk_cores(segs, name);
    if segs.len() > 0 {
        let rest = if has_heading(segs) {
            let secs = sections_from(segs, 0, Seq::empty(), Seq::empty(), Seq::empty());
            lemma_sections_children(segs, secs, secs.len());
            markdown_chunks(segs)
        } else if all_exact(segs) {
            lemma_paragraphs_children(segs, 0, Seq::empty(), 0, 0);
            paragraph_chunks(segs)
        } else {
            lemma_whole_children(
                text::join(seg_texts(segs), "\n"@),
                segs[0].line_start,
                segs.last().line_end,
                line_quality(segs),
            );
            whole_document_chunks(segs)
        };
        assert(cs == seq![parent_core(segs, name)] + rest);
        assert forall|k: int| 1 <= k < cs.len() implies is_child(#[trigger] cs[k], line_quality(segs)) by {
            assert(cs[k] == rest[k - 1]);
        }
    }
}

/// Only Markdown and plain text give exact chunk locations: when some
/// segment's lines are not exact (PDF pages, for one), no chunk of the
/// document is `exact`.
pub proof fn law_inexact_segments_give_no_exact_chunk(segs: Seq<SegmentModel>, name: Seq<char>, k: int)
    requires
        exists|j: int| 0 <= j < segs.len() && (#[trigger] segs[j]).location_quality
            != LocationQuality::Exact,
        0 <= k < chunk_cores(segs, name).len(),
    ensures
        chunk_cores(segs, name)[k].quality != "exact"@,
{
    law_chunk_tree(segs, name);
    lemma_kinds_are_not_document();
    assert(line_quality(segs) == "approximate"@);
    if k >= 1 {
        assert(is_child(chunk_cores(segs, name)[k], line_quality(segs)));
    }
}

// ------------------------------------------------------------ sections law

/// The sections built so far from segments `0..i` are consecutive runs
/// that cover those segments: each run starts at a heading (or at the
/// first segment) and holds no later heading.
pub open spec fn runs_ok(segs: Seq<SegmentModel>, secs: Seq<SectionModel>, i: nat) -> bool {
    &&& i == 0 ==> secs.len() == 0
    &&& i > 0 ==> secs.len() > 0 && secs.last().idxs.len() > 0 && secs.last().idxs.last() == i - 1
    &&& secs.len() > 0 ==> secs[0].idxs.len() > 0 && secs[0].idxs[0] == 0
    &&& forall|k: int| 0 <= k < secs.len() ==> {
        let ix = #[trigger] secs[k].idxs;
        &&& ix.len() > 0
        &&& ix[0] + ix.len() <= i
        &&& forall|m: int| 0 <= m < ix.len() ==> #[trigger] ix[m] == ix[0] + m
        &&& (ix[0] == 0 || segs[ix[0] as int].kind == SegmentKind::Heading)
        &&& forall|m: int| 1 <= m < ix.len() ==> segs[#[trigger] ix[m] as int].kind != SegmentKind::Heading
        &&& (segs[ix[0] as int].kind == SegmentKind::Heading ==> secs[k].heading == text::trim(
            segs[ix[0] as int].text,
        ))
        &&& (segs[ix[0] as int].kind != SegmentKind::Heading ==> secs[k].heading.len() == 0
            && secs[k].path.len() == 0)
    }
    &&& forall|k: int| 0 <= k < secs.len() - 1 ==> #[trigger] secs[k + 1].idxs[0] == secs[k].idxs.last() + 1
}

proof fn lemma_sections_runs(
    segs: Seq<SegmentModel>,
    i: nat,
    secs: Seq<SectionModel>,
    trail: Seq<Seq<char>>,
    cur: Seq<char>,
)
    requires
        i <= segs.len(),
        segs.len() <= usize::MAX,
        runs_ok(segs, secs, i),
        secs.len() == 0 ==> cur.len() == 0,
    ensures
        runs_ok(segs, sections_from(segs, i, secs, trail, cur), segs.len()),
    decreases segs.len() - i,
{
    if i < segs.len() {
        let s = segs[i as int];
        if s.kind == SegmentKind::Heading {
            let t = text::trim(s.text);
            let trail2 = truncate_to(trail, (heading_level(s.heading_path) - 1) as nat).push(t);
            let ns = secs.push(SectionModel { heading: t, path: text::join(trail2, " > "@), idxs: seq![i as usize] });
            assert forall|k: int| 0 <= k < ns.len() - 1 implies #[trigger] ns[k + 1].idxs[0] == ns[k].idxs.last() + 1 by {
                if k + 1 < secs.len() {
                    assert(ns[k + 1] == secs[k + 1]);
                }
                assert(ns[k] == secs[k]);
            }
            assert(runs_ok(segs, ns, i + 1));
            lemma_sections_runs(segs, i + 1, ns, trail2, t);
        } else if secs.len() > 0 {
            let last = secs.last();
            let nl = SectionModel { heading: last.heading, path: last.path, idxs: last.idxs.push(i as usize) };
            let ns = secs.update(secs.len() - 1, nl);
            assert(secs[secs.len() - 1] == last);
            assert forall|k: int| 0 <= k < ns.len() implies {
                let ix = #[trigger] ns[k].idxs;
                &&& ix.len() > 0
                &&& ix[0] + ix.len() <= i + 1
                &&& forall|m: int| 0 <= m < ix.len() ==> #[trigger] ix[m] == ix[0] + m
                &&& (ix[0] == 0 || segs[ix[0] as int].kind == SegmentKind::Heading)
                &&& forall|m: int| 1 <= m < ix.len() ==> segs[#[trigger] ix[m] as int].kind != SegmentKind::Heading
                &&& (segs[ix[0] as int].kind == SegmentKind::Heading ==> ns[k].heading == text::trim(
                    segs[ix[0] as int].text,
                ))
                &&& (segs[ix[0] as int].kind != SegmentKind::Heading ==> ns[k].heading.len() == 0
                    && ns[k].path.len() == 0)
            } by {
                if k == secs.len() - 1 {
                    let ix = nl.idxs;
                    assert forall|m: int| 0 <= m < ix.len() implies #[trigger] ix[m] == ix[0] + m by {
                        if m < last.idxs.len() {
                            assert(ix[m] == last.idxs[m]);
                        }
                    }
                    assert forall|m: int| 1 <= m < ix.len() implies segs[#[trigger] ix[m] as int].kind
                        != SegmentKind::Heading by {
                        if m < last.idxs.len() {
                            assert(ix[m] == last.idxs[m]);
                        }
                    }
                }
            }
            assert forall|k: int| 0 <= k < ns.len() - 1 implies #[trigger] ns[k + 1].idxs[0] == ns[k].idxs.last() + 1 by {
                assert(ns[k] == secs[k]);
                if k + 1 < secs.len() - 1 {
                    assert(ns[k + 1] == secs[k + 1]);
                } else {
                    assert(ns[k + 1].idxs[0] == last.idxs[0]);
                }
            }
            assert(runs_ok(segs, ns, i + 1));
            lemma_sections_runs(segs, i + 1, ns, trail, cur);
        } else {
            let ns = seq![SectionModel { heading: cur, path: Seq::empty(), idxs: seq![i as usize] }];
            assert(runs_ok(segs, ns, i + 1));
            lemma_sections_runs(segs, i + 1, ns, trail, cur);
        }
    }
}

proof fn lemma_windows_are_fallback(t: Seq<char>, ls: u32, le: u32, hp: Option<Seq<char>>, start: nat)
    ensures
        forall|q: int| 0 <= q < windows_from(t, ls, le, hp, start).len()
            ==> (#[trigger] windows_from(t, ls, le, hp, start)[q]).kind == "fallback"@,
    decreases t.len() - start,
{
    if start < t.len() {
        let end: nat = if start + MAX_CHARS < t.len() {
            (start + MAX_CHARS) as nat
        } else {
            t.len()
        };
        if end != t.len() {
            lemma_windows_are_fallback(t, ls, le, hp, (end - OVERLAP_CHARS) as nat);
            let w = windows_from(t, ls, le, hp, start);
            let rest = windows_from(t, ls, le, hp, (end - OVERLAP_CHARS) as nat);
            assert forall|q: int| 0 <= q < w.len() implies (#[trigger] w[q]).kind == "fallback"@ by {
                if q > 0 {
                    assert(w[q] == rest[q - 1]);
                }
            }
        }
    }
}

proof fn lemma_sections_out_member(segs: Seq<SegmentModel>, secs: Seq<SectionModel>, n: nat, p: int)
    requires
        0 <= p < sections_out(segs, secs, n).len(),
    ensures
        exists|k: int, q: int|
            0 <= k < n && k < secs.len() && 0 <= q < section_out(segs, secs[k]).len()
                && sections_out(segs, secs, n)[p] == #[trigger] section_out(segs, secs[k])[q],
    decreases n,
{
    if n > 0 && n <= secs.len() {
        let prev = sections_out(segs, secs, (n - 1) as nat);
        let last = section_out(segs, secs[n - 1]);
        if p < prev.len() {
            lemma_sections_out_member(segs, secs, (n - 1) as nat, p);
            let (k, q) = choose|k: int, q: int|
                0 <= k < n - 1 && k < secs.len() && 0 <= q < section_out(segs, secs[k]).len()
                    && prev[p] == #[trigger] section_out(segs, secs[k])[q];
            assert(sections_out(segs, secs, n)[p] == prev[p]);
            assert(sections_out(segs, secs, n)[p] == section_out(segs, secs[k])[q]);
        } else {
            let q = p - prev.len();
            assert(sections_out(segs, secs, n)[p] == last[q]);
        }
    }
}

/// A Markdown section chunk covers exactly the segments of its section:
/// a run of segments from a heading (or the first segment) up to the
/// segment before the next heading (or the last one). Its lines run from
/// the first segment's `line_start` to the last segment's `line_end`,
/// and its text is their texts joined by newlines.
pub proof fn law_section_chunks_cover_their_segments(segs: Seq<SegmentModel>, p: int)
    requires
        segs.len() <= usize::MAX,
        0 <= p < markdown_chunks(segs).len(),
        markdown_chunks(segs)[p].kind == "section"@,
    ensures
        exists|i: int, j: int|
            {
                &&& 0 <= i <= j < segs.len()
                &&& (i == 0 || segs[i].kind == SegmentKind::Heading)
                &&& (forall|m: int| i < m <= j ==> segs[m].kind != SegmentKind::Heading)
                &&& (j + 1 == segs.len() || segs[j + 1].kind == SegmentKind::Heading)
                &&& (segs[i].kind == SegmentKind::Heading ==> markdown_chunks(segs)[p].title == Some(
                    text::trim(segs[i].text),
                ))
                &&& (segs[i].kind != SegmentKind::Heading ==> markdown_chunks(segs)[p].title == Some(
                    Seq::<char>::empty(),
                ) && markdown_chunks(segs)[p].heading_path == Some(Seq::<char>::empty()))
                &&& markdown_chunks(segs)[p].line_start == #[trigger] segs[i].line_start
                &&& markdown_chunks(segs)[p].line_end == #[trigger] segs[j].line_end
                &&& markdown_chunks(segs)[p].text == text::join(
                    segs.subrange(i, j + 1).map_values(|s: SegmentModel| s.text),
                    "\n"@,
                )
            },
{
    let secs = sections_from(segs, 0, Seq::empty(), Seq::empty(), Seq::empty());
    lemma_sections_runs(segs, 0, Seq::empty(), Seq::empty(), Seq::empty());
    lemma_sections_out_member(segs, secs, secs.len(), p);
    let (k, q) = choose|k: int, q: int|
        0 <= k < secs.len() && k < secs.len() && 0 <= q < section_out(segs, secs[k]).len()
            && sections_out(segs, secs, secs.len())[p] == #[trigger] section_out(segs, secs[k])[q];
    let sec = secs[k];
    let c = markdown_chunks(segs)[p];
    let ix = sec.idxs;
    let t = section_text(segs, sec);
    let ls = segs[ix[0] as int].line_start;
    let le = segs[ix.last() as int].line_end;
    reveal_strlit("fallback");
    reveal_strlit("section");
    assert("fallback"@[0] != "section"@[0]);
    if !text::all_ws(t) && text::byte_len(t) > MAX_CHARS {
        lemma_windows_are_fallback(t, ls, le, Some(sec.path), 0);
        assert(false);
    }
    let i = ix[0] as int;
    let j = ix.last() as int;
    assert(ix[ix.len() - 1] == ix[0] + (ix.len() - 1));
    assert(j == i + ix.len() - 1);
    assert forall|m: int| i < m <= j implies segs[m].kind != SegmentKind::Heading by {
        assert(ix[m - i] == ix[0] + (m - i));
    }
    if k + 1 < secs.len() {
        assert(secs[k + 1].idxs[0] == j + 1);
        let nx = secs[k + 1].idxs;
        assert(nx.len() > 0);
    } else {
        assert(secs.last() == sec);
    }
    let lhs = ix.map_values(|x: usize| segs[x as int].text);
    let rhs = segs.subrange(i, j + 1).map_values(|s: SegmentModel| s.text);
    assert(lhs.len() == rhs.len());
    assert forall|m: int| 0 <= m < lhs.len() implies lhs[m] == rhs[m] by {
        assert(ix[m] == i + m);
        assert(segs.subrange(i, j + 1)[m] == segs[i + m]);
    }
    assert(lhs =~= rhs);
    assert(c.line_start == segs[i].line_start);
    assert(c.line_end == segs[j].line_end);
    if segs[i].kind != SegmentKind::Heading {
        assert(sec.heading =~= Seq::<char>::empty());
        assert(sec.path =~= Seq::<char>::empty());
    }
}

} // verus!
