//! PDF text extraction through lopdf.
//!
//! lopdf reports text at page granularity, so every segment carries
//! `LocationQuality::PageOnly` with the page number as its line range.
//! Scanned or image-only PDFs produce no text. A page whose text cannot
//! be extracted counts as empty: one failing page never stops the
//! extraction of the whole document.
use vstd::prelude::*;
use crate::text;
use crate::text::{chars_of, decimal_u64, is_blank, lit, push_all, string_of};
use crate::normalize;
use crate::normalize::normalize_document;
use crate::vocab::NORMALIZATION_VERSION;
use crate::extract::types;
use crate::extract::types::{
    ErrorCategory, ExtractOutput, ExtractedSegment, ExtractionError, LocationQuality, SegmentKind,
    SegmentModel,
};

verus! {

#[verifier::external_type_specification]
#[verifier::external_body]
pub struct ExLopdfDocument(lopdf::Document);

#[verifier::external_type_specification]
#[verifier::external_body]
pub struct ExLopdfError(lopdf::Error);

/// The object numbers `lopdf::Document::page_iter` yields for a
/// document, in page-tree order.
pub uninterp spec fn pdf_page_ids(doc: lopdf::Document) -> Seq<u32>;

/// What `lopdf::Document::extract_text` gives for one page number,
/// `None` when it reports an error.
pub uninterp spec fn pdf_page_text(doc: lopdf::Document, page: u32) -> Option<Seq<char>>;

/// The `Display` text of a lopdf error.
pub uninterp spec fn pdf_error_message(e: lopdf::Error) -> Seq<char>;

/// `r` is one outcome of `lopdf::Document::load_mem` on `bytes`.
pub uninterp spec fn pdf_load_outcome(bytes: Seq<u8>, r: Result<lopdf::Document, lopdf::Error>) -> bool;

/// `lopdf::Document::load_mem`: parse a PDF held in memory. What is
/// stated is only that the result is an outcome of loading exactly
/// these bytes ([`pdf_load_outcome`]): lopdf may parse a large document
/// on a thread pool, and where object streams hold the same object,
/// which copy is kept (and, in strict mode, which error is reported)
/// depends on scheduling, so the outcome is not a function of the bytes
/// alone. Nothing is stated of which document or error comes back, and
/// nothing of inputs on which the parser might panic. What follows the
/// load is stated over the outcome, whatever it is (see
/// [`extract_loaded`]).
#[verifier::external_body]
fn pdf_load(bytes: &[u8]) -> (r: Result<lopdf::Document, lopdf::Error>)
    ensures
        pdf_load_outcome(bytes@, r),
{
    lopdf::Document::load_mem(bytes)
}

/// `lopdf::Document::page_iter`: the object numbers of the document's
/// pages in page-tree order, as [`pdf_page_ids`] names them.
#[verifier::external_body]
fn pdf_page_objects(doc: &lopdf::Document) -> (r: Vec<u32>)
    ensures
        r@ == pdf_page_ids(*doc),
{
    doc.page_iter().map(|id| id.0).collect()
}

/// `lopdf::Document::extract_text` for the single page number `page`
/// (1-based); `None` when lopdf reports an error. The text is the one
/// [`pdf_page_text`] names.
#[verifier::external_body]
fn pdf_extract_text(doc: &lopdf::Document, page: u32) -> (r: Option<String>)
    ensures
        types::opt_view(r) == pdf_page_text(*doc, page),
{
    doc.extract_text(&[page]).ok()
}

/// The `Display` text of a lopdf error, as [`pdf_error_message`] names
/// it.
#[verifier::external_body]
fn pdf_error_text(e: &lopdf::Error) -> (r: String)
    ensures
        r@ == pdf_error_message(*e),
{
    e.to_string()
}

/// `pat` occurs in `s`.
pub open spec fn contains_seq(s: Seq<char>, pat: Seq<char>) -> bool {
    exists|i: int| 0 <= i && i + pat.len() <= s.len() && #[trigger] s.subrange(i, i + pat.len()) == pat
}

/// Whether `pat` occurs in `s` (`str::contains`).
fn contains_vec(s: &Vec<char>, pat: &Vec<char>) -> (r: bool)
    ensures
        r == contains_seq(s@, pat@),
{
    if pat.len() > s.len() {
        return false;
    }
    let mut i: usize = 0;
    while i <= s.len() - pat.len()
        invariant
            pat.len() <= s.len(),
            i <= s.len() - pat.len() + 1,
            forall|k: int| 0 <= k < i ==> #[trigger] s@.subrange(k, k + pat.len()) != pat@,
        decreases s.len() - i,
    {
        let mut j: usize = 0;
        let mut same = true;
        assert(s@.subrange(i as int, i as int) =~= pat@.take(0));
        while j < pat.len()
            invariant
                i + pat.len() <= s.len(),
                j <= pat.len(),
                same == (s@.subrange(i as int, i + j) == pat@.take(j as int)),
            decreases pat.len() - j,
        {
            if s[i + j] != pat[j] {
                same = false;
            }
            proof {
                if same && s[i + j] == pat[j as int] {
                    assert(s@.subrange(i as int, i + j + 1) =~= s@.subrange(i as int, i + j).push(s@[i + j]));
                    assert(pat@.take(j + 1) =~= pat@.take(j as int).push(pat@[j as int]));
                } else {
                    if s@.subrange(i as int, i + j + 1) == pat@.take(j + 1) {
                        assert(s@.subrange(i as int, i + j + 1)[j as int] == pat@.take(j + 1)[j as int]);
                        assert(s@.subrange(i as int, i + j) =~= s@.subrange(i as int, i + j + 1).take(j as int));
                        assert(pat@.take(j as int) =~= pat@.take(j + 1).take(j as int));
                    }
                }
            }
            j += 1;
        }
        assert(pat@.take(pat.len() as int) =~= pat@);
        if same {
            return true;
        }
        i += 1;
    }
    false
}

/// The error category of a load failure: a message mentioning a
/// password or encryption means an encrypted document.
pub open spec fn load_error_category(msg: Seq<char>) -> ErrorCategory {
    if contains_seq(msg, "password"@) || contains_seq(msg, "encrypt"@) {
        ErrorCategory::EncryptedDocument
    } else {
        ErrorCategory::ParserError
    }
}

/// The typed error for a document lopdf cannot load.
pub fn pdf_load_error(msg: &String) -> (r: ExtractionError)
    ensures
        r.category == load_error_category(msg@),
        r.message@ == "lopdf: "@ + msg@,
{
    let m = chars_of(msg.as_str());
    let pw = lit("password");
    let enc = lit("encrypt");
    let category = if contains_vec(&m, &pw) || contains_vec(&m, &enc) {
        ErrorCategory::EncryptedDocument
    } else {
        ErrorCategory::ParserError
    };
    let mut full = lit("lopdf: ");
    push_all(&mut full, &m);
    ExtractionError { category, message: string_of(&full) }
}

/// The view of optional page texts.
pub open spec fn page_views(p: Seq<Option<String>>) -> Seq<Option<Seq<char>>> {
    p.map_values(|o: Option<String>| types::opt_view(o))
}

/// The text of a page, empty when lopdf could not extract it.
pub open spec fn page_text(p: Option<Seq<char>>) -> Seq<char> {
    match p {
        Some(t) => t,
        None => Seq::empty(),
    }
}

/// A page contributes a segment when both its raw and its normalized
/// text hold something other than whitespace.
pub open spec fn page_kept(p: Option<Seq<char>>) -> bool {
    !text::all_ws(page_text(p)) && !text::all_ws(normalize::normalized(page_text(p)))
}

/// The segment of page number `n`.
pub open spec fn page_seg(p: Option<Seq<char>>, n: u32) -> SegmentModel {
    SegmentModel {
        kind: SegmentKind::Other,
        text: normalize::normalized(page_text(p)),
        line_start: n,
        line_end: n,
        heading_path: Some("Page "@ + text::decimal(n as nat)),
        location_quality: LocationQuality::PageOnly,
    }
}

/// Segments of the first `k` pages; page numbers are `u32` and wrap
/// around past `u32::MAX` pages.
pub open spec fn pdf_segments(pages: Seq<Option<Seq<char>>>, k: nat) -> Seq<SegmentModel>
    decreases k,
{
    if k == 0 || k > pages.len() {
        Seq::empty()
    } else if page_kept(pages[k - 1]) {
        pdf_segments(pages, (k - 1) as nat).push(page_seg(pages[k - 1], k as u32))
    } else {
        pdf_segments(pages, (k - 1) as nat)
    }
}

/// Each PDF segment is one kept page, located by its own page number:
/// its lines are that number, its label is `Page ` and that number in
/// decimal (whatever pages before it were skipped), its text is the
/// page's normalized text, and it is page-located. Segments come in page
/// order, and every page whose text holds more than whitespace has one.
pub proof fn law_pdf_segments_are_pages(pages: Seq<Option<Seq<char>>>, k: nat)
    requires
        k <= pages.len(),
        pages.len() <= u32::MAX,
    ensures
        forall|i: int| 0 <= i < pdf_segments(pages, k).len() ==> {
            let s = #[trigger] pdf_segments(pages, k)[i];
            &&& 1 <= s.line_start == s.line_end <= k
            &&& s.heading_path == Some("Page "@ + text::decimal(s.line_start as nat))
            &&& page_kept(pages[s.line_start - 1])
            &&& s.text == normalize::normalized(page_text(pages[s.line_start - 1]))
            &&& s.kind == SegmentKind::Other
            &&& s.location_quality == LocationQuality::PageOnly
        },
        forall|i: int, j: int|
            0 <= i < j < pdf_segments(pages, k).len() ==> #[trigger] pdf_segments(pages, k)[i].line_start
                < #[trigger] pdf_segments(pages, k)[j].line_start,
        forall|p: int|
            0 <= p < k && page_kept(#[trigger] pages[p]) ==> exists|i: int|
                0 <= i < pdf_segments(pages, k).len() && pdf_segments(pages, k)[i].line_start == p + 1,
    decreases k,
{
    if k > 0 {
        law_pdf_segments_are_pages(pages, (k - 1) as nat);
        let prev = pdf_segments(pages, (k - 1) as nat);
        let cur = pdf_segments(pages, k);
        if page_kept(pages[k - 1]) {
            assert(cur == prev.push(page_seg(pages[k - 1], k as u32)));
            assert forall|i: int| 0 <= i < prev.len() implies #[trigger] cur[i] == prev[i] by {}
            assert forall|p: int| 0 <= p < k && page_kept(#[trigger] pages[p]) implies exists|i: int|
                0 <= i < cur.len() && cur[i].line_start == p + 1 by {
                if p == k - 1 {
                    assert(cur[prev.len() as int].line_start == p + 1);
                } else {
                    let i = choose|i: int| 0 <= i < prev.len() && prev[i].line_start == p + 1;
                    assert(cur[i] == prev[i]);
                }
            }
        } else {
            assert(cur == prev);
        }
    }
}

/// UTF-8 bytes of the kept pages' normalized text among the first `k`,
/// summed in `u64` arithmetic that wraps around.
pub open spec fn pdf_char_count(pages: Seq<Option<Seq<char>>>, k: nat) -> u64
    decreases k,
{
    if k == 0 || k > pages.len() {
        0
    } else if page_kept(pages[k - 1]) {
        vstd::wrapping::u64_specs::wrapping_add(
            pdf_char_count(pages, (k - 1) as nat),
            (text::utf8_len(normalize::normalized(page_text(pages[k - 1]))) as usize) as u64,
        )
    } else {
        pdf_char_count(pages, (k - 1) as nat)
    }
}

/// Build the extraction output from the text of each page, in page
/// order; pages with nothing but whitespace are skipped.
pub fn pdf_output_from_pages(pages: &Vec<Option<String>>) -> (r: ExtractOutput)
    ensures
        r.extractor_name@ == "pdf-lopdf"@,
        r.extractor_version@ == "v1"@,
        r.normalization_version@ == "norm-v1"@,
        types::seg_models(r.segments@) == pdf_segments(page_views(pages@), pages.len() as nat),
        r.char_count == pdf_char_count(page_views(pages@), pages.len() as nat),
{
    let ghost pv = page_views(pages@);
    let mut segments: Vec<ExtractedSegment> = Vec::new();
    let mut total_chars: u64 = 0;
    let mut page_idx: usize = 0;
    assert(types::seg_models(segments@) =~= Seq::<SegmentModel>::empty());
    while page_idx < pages.len()
        invariant
            pv == page_views(pages@),
            page_idx <= pages.len(),
            types::seg_models(segments@) == pdf_segments(pv, page_idx as nat),
            total_chars == pdf_char_count(pv, page_idx as nat),
        decreases pages.len() - page_idx,
    {
        #[verifier::truncate]
        let page_num = (page_idx + 1) as u32;
        let raw: Vec<char> = match &pages[page_idx] {
            Some(t) => chars_of(t.as_str()),
            None => Vec::new(),
        };
        assert(raw@ == page_text(pv[page_idx as int]));
        if !is_blank(&raw) {
            let normalized = normalize_document(string_of(&raw).as_str());
            let nchars = chars_of(normalized.as_str());
            if !is_blank(&nchars) {
                assert(page_kept(pv[page_idx as int]));
                proof {
                    text::lemma_utf8_len_is_encode_len(nchars@);
                }
                assert(nchars@ == normalize::normalized(page_text(pv[page_idx as int])));
                let nbytes = normalized.as_str().len() as u64;
                total_chars = total_chars.wrapping_add(nbytes);
                let mut label = lit("Page ");
                let digits = decimal_u64(page_num as u64);
                push_all(&mut label, &digits);
                let seg = ExtractedSegment {
                    kind: SegmentKind::Other,
                    text: normalized,
                    line_start: page_num,
                    line_end: page_num,
                    heading_path: Some(string_of(&label)),
                    location_quality: LocationQuality::PageOnly,
                };
                let ghost before = types::seg_models(segments@);
                segments.push(seg);
                assert(types::seg_models(segments@) =~= before.push(seg@));
            }
        }
        page_idx += 1;
    }
    ExtractOutput {
        extractor_name: "pdf-lopdf".to_owned(),
        extractor_version: "v1".to_owned(),
        normalization_version: NORMALIZATION_VERSION.to_owned(),
        segments,
        char_count: total_chars,
    }
}

/// The PDF extractor.
pub struct PdfExtractor;

impl PdfExtractor {
    /// Stable extractor name.
    pub fn name(&self) -> (r: &'static str)
        ensures
            r@ == "pdf-lopdf"@,
    {
        "pdf-lopdf"
    }

    /// Extractor version recorded with every output.
    pub fn version(&self) -> (r: &'static str)
        ensures
            r@ == "v1"@,
    {
        "v1"
    }

    /// File extensions this extractor claims.
    pub fn supported_extensions(&self) -> (r: Vec<&'static str>)
        ensures
            r@.map_values(|e: &str| e@) == seq!["pdf"@],
    {
        let r = vec!["pdf"];
        assert(r@.map_values(|e: &str| e@) =~= seq!["pdf"@]);
        r
    }

    /// Extract a PDF from its bytes: load it with lopdf, then
    /// [`extract_loaded`] on whatever the load gave. A document lopdf
    /// cannot load is an error (encrypted or unparsable); otherwise every
    /// page whose text holds more than whitespace becomes one
    /// page-located segment.
    pub fn extract(&self, bytes: &[u8]) -> (r: Result<ExtractOutput, ExtractionError>)
        ensures
            exists|loaded: Result<lopdf::Document, lopdf::Error>|
                #[trigger] pdf_load_outcome(bytes@, loaded) && pdf_extraction(loaded, r),
    {
        let loaded = pdf_load(bytes);
        let ghost l = loaded;
        let r = extract_loaded(loaded);
        assert(pdf_load_outcome(bytes@, l) && pdf_extraction(l, r));
        r
    }
}

/// The extraction result for a load outcome: the typed load error, or
/// the output for the text of every page of the loaded document.
pub open spec fn pdf_extraction(
    loaded: Result<lopdf::Document, lopdf::Error>,
    r: Result<ExtractOutput, ExtractionError>,
) -> bool {
    match loaded {
        Ok(doc) => r matches Ok(o) && pdf_output_of(o, document_pages(doc)),
        Err(e) => r matches Err(x) && x.category == load_error_category(pdf_error_message(e))
            && x.message@ == "lopdf: "@ + pdf_error_message(e),
    }
}

/// Extraction after loading: a load error becomes a typed extraction
/// error (encrypted or unparsable); a loaded document has the text of
/// each page asked for by its 1-based page number, in page order, and
/// turned into page-located segments.
pub fn extract_loaded(loaded: Result<lopdf::Document, lopdf::Error>) -> (r: Result<
    ExtractOutput,
    ExtractionError,
>)
    ensures
        pdf_extraction(loaded, r),
{
    let doc = match loaded {
        Ok(d) => d,
        Err(e) => {
            let msg = pdf_error_text(&e);
            return Err(pdf_load_error(&msg));
        },
    };
    let ids = pdf_page_objects(&doc);
    let ghost want = document_pages(doc);
    let mut pages: Vec<Option<String>> = Vec::new();
    let mut i: usize = 0;
    while i < ids.len()
        invariant
            ids@ == pdf_page_ids(doc),
            want == document_pages(doc),
            i <= ids.len(),
            page_views(pages@) =~= want.take(i as int),
        decreases ids.len() - i,
    {
        #[verifier::truncate]
        let page_number = (i + 1) as u32;
        let t = pdf_extract_text(&doc, page_number);
        let ghost before = page_views(pages@);
        pages.push(t);
        assert(page_views(pages@) =~= before.push(types::opt_view(t)));
        i += 1;
    }
    assert(want.take(ids.len() as int) =~= want);
    let out = pdf_output_from_pages(&pages);
    Ok(out)
}

/// The text of every page of a loaded document, in page order, each
/// asked for by its 1-based page number.
pub open spec fn document_pages(doc: lopdf::Document) -> Seq<Option<Seq<char>>> {
    Seq::new(pdf_page_ids(doc).len(), |k: int| pdf_page_text(doc, (k + 1) as u32))
}

/// `o` is the extraction output for pages with these texts.
pub open spec fn pdf_output_of(o: ExtractOutput, pages: Seq<Option<Seq<char>>>) -> bool {
    &&& o.extractor_name@ == "pdf-lopdf"@
    &&& o.extractor_version@ == "v1"@
    &&& o.normalization_version@ == "norm-v1"@
    &&& types::seg_models(o.segments@) == pdf_segments(pages, pages.len())
    &&& o.char_count == pdf_char_count(pages, pages.len())
}

/// The number of pages of a load outcome, 0 for a load error.
pub open spec fn page_count_of(loaded: Result<lopdf::Document, lopdf::Error>) -> nat {
    match loaded {
        Ok(doc) => pdf_page_ids(doc).len(),
        Err(_) => 0,
    }
}

/// The number of pages of a load outcome, 0 for a load error.
pub fn loaded_page_count(loaded: &Result<lopdf::Document, lopdf::Error>) -> (n: usize)
    ensures
        n == page_count_of(*loaded),
{
    match loaded {
        Ok(doc) => pdf_page_objects(doc).len(),
        Err(_) => 0,
    }
}

/// The number of pages of a PDF held in memory, 0 when it cannot be
/// loaded: [`loaded_page_count`] of whatever lopdf's load gave.
pub fn pdf_page_count(bytes: &[u8]) -> (n: usize)
    ensures
        exists|loaded: Result<lopdf::Document, lopdf::Error>|
            #[trigger] pdf_load_outcome(bytes@, loaded) && n == page_count_of(loaded),
{
    let loaded = pdf_load(bytes);
    let ghost l = loaded;
    let n = loaded_page_count(&loaded);
    assert(pdf_load_outcome(bytes@, l) && n == page_count_of(l));
    n
}

/// A PDF that has pages but yielded no text is most likely scanned or
/// image-only and needs OCR.
pub fn is_scanned_pdf(output: &ExtractOutput, page_count: usize) -> (r: bool)
    ensures
        r == (page_count > 0 && output.char_count == 0),
{
    page_count > 0 && output.char_count == 0
}

} // verus!
