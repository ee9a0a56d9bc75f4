//! Extractor registry: selection by file extension and typed
//! unsupported results.
use vstd::prelude::*;
use vstd::utf8::valid_utf8;
use crate::text;
use crate::text::{chars_eq, chars_of, lit, lower_ascii_vec, push_all, string_of};
use crate::extract::types;
use crate::extract::types::{ErrorCategory, ExtractOutput, ExtractionError};
use crate::extract::markdown::{markdown_segments, MarkdownExtractor};
use crate::extract::plain::{paragraph_segments, plain_extensions, PlainTextExtractor};
use crate::extract::pdf;
use crate::extract::pdf::PdfExtractor;

verus! {

/// The available extractors.
#[derive(Debug, Clone, Copy, PartialEq, Eq, Structural)]
pub enum ExtractorKind {
    Markdown,
    PlainText,
    Pdf,
}

/// The extensions an extractor claims.
pub open spec fn kind_extensions(k: ExtractorKind) -> Seq<Seq<char>> {
    match k {
        ExtractorKind::Markdown => seq!["md"@, "markdown"@],
        ExtractorKind::PlainText => plain_extensions(),
        ExtractorKind::Pdf => seq!["pdf"@],
    }
}

/// The name of an extractor.
pub open spec fn kind_name(k: ExtractorKind) -> Seq<char> {
    match k {
        ExtractorKind::Markdown => "markdown"@,
        ExtractorKind::PlainText => "plain_text"@,
        ExtractorKind::Pdf => "pdf-lopdf"@,
    }
}

impl ExtractorKind {
    /// Stable extractor name.
    pub fn name(&self) -> (r: &'static str)
        ensures
            r@ == kind_name(*self),
    {
        match self {
            ExtractorKind::Markdown => MarkdownExtractor.name(),
            ExtractorKind::PlainText => PlainTextExtractor.name(),
            ExtractorKind::Pdf => PdfExtractor.name(),
        }
    }

    /// Extractor version.
    pub fn version(&self) -> (r: &'static str)
        ensures
            r@ == match *self {
                ExtractorKind::Markdown => "markdown-v1"@,
                ExtractorKind::PlainText => "text-v1"@,
                ExtractorKind::Pdf => "v1"@,
            },
    {
        match self {
            ExtractorKind::Markdown => MarkdownExtractor.version(),
            ExtractorKind::PlainText => PlainTextExtractor.version(),
            ExtractorKind::Pdf => PdfExtractor.version(),
        }
    }

    /// File extensions the extractor claims.
    pub fn supported_extensions(&self) -> (r: Vec<&'static str>)
        ensures
            r@.map_values(|e: &str| e@) == kind_extensions(*self),
    {
        match self {
            ExtractorKind::Markdown => MarkdownExtractor.supported_extensions(),
            ExtractorKind::PlainText => PlainTextExtractor.supported_extensions(),
            ExtractorKind::Pdf => PdfExtractor.supported_extensions(),
        }
    }
}

/// The first extractor at or after position `i` that claims `ext`.
pub open spec fn first_claiming(ks: Seq<ExtractorKind>, ext: Seq<char>, i: nat) -> Option<
    ExtractorKind,
>
    decreases ks.len() - i,
{
    if i >= ks.len() {
        None
    } else if kind_extensions(ks[i as int]).contains(ext) {
        Some(ks[i as int])
    } else {
        first_claiming(ks, ext, i + 1)
    }
}

/// The result an extractor of kind `k` gives on `bytes`.
pub open spec fn extracted_by(
    k: ExtractorKind,
    bytes: Seq<u8>,
    r: Result<ExtractOutput, ExtractionError>,
) -> bool {
    match k {
        ExtractorKind::Markdown => match r {
            Ok(o) => {
                &&& valid_utf8(bytes)
                &&& o.extractor_name@ == "markdown"@
                &&& o.extractor_version@ == "markdown-v1"@
                &&& o.normalization_version@ == "norm-v1"@
                &&& types::seg_models(o.segments@) == markdown_segments(types::normalized_source(bytes))
                &&& o.char_count == types::normalized_source(bytes).len()
            },
            Err(e) => !valid_utf8(bytes) && types::is_encoding_error(e),
        },
        ExtractorKind::PlainText => match r {
            Ok(o) => {
                &&& valid_utf8(bytes)
                &&& o.extractor_name@ == "plain_text"@
                &&& o.extractor_version@ == "text-v1"@
                &&& o.normalization_version@ == "norm-v1"@
                &&& types::seg_models(o.segments@) == paragraph_segments(types::normalized_source(bytes))
                &&& o.char_count == types::normalized_source(bytes).len()
            },
            Err(e) => !valid_utf8(bytes) && types::is_encoding_error(e),
        },
        ExtractorKind::Pdf => exists|loaded: Result<lopdf::Document, lopdf::Error>|
            #[trigger] pdf::pdf_load_outcome(bytes, loaded) && pdf::pdf_extraction(loaded, r),
    }
}

/// The error for an extension no extractor claims.
pub open spec fn is_unsupported_error(e: ExtractionError, extension: Seq<char>) -> bool {
    &&& e.category == ErrorCategory::UnsupportedType
    &&& e.message@ == "no extractor for extension '"@ + extension + "'"@
}

/// The default extractors in precedence order.
pub open spec fn default_kinds() -> Seq<ExtractorKind> {
    seq![ExtractorKind::Markdown, ExtractorKind::PlainText, ExtractorKind::Pdf]
}

/// Word documents and HTML have no extractor of their own in this
/// library: `docx` is claimed by none of the default extractors, and
/// `html` and `htm` fall to the plain-text extractor.
pub proof fn lemma_default_fallthrough()
    ensures
        first_claiming(default_kinds(), "docx"@, 0) is None,
        first_claiming(default_kinds(), "html"@, 0) == Some(ExtractorKind::PlainText),
        first_claiming(default_kinds(), "htm"@, 0) == Some(ExtractorKind::PlainText),
{
    reveal_strlit("txt");
    reveal_strlit("log");
    reveal_strlit("csv");
    reveal_strlit("rs");
    reveal_strlit("py");
    reveal_strlit("js");
    reveal_strlit("ts");
    reveal_strlit("jsx");
    reveal_strlit("tsx");
    reveal_strlit("java");
    reveal_strlit("c");
    reveal_strlit("h");
    reveal_strlit("cpp");
    reveal_strlit("hpp");
    reveal_strlit("go");
    reveal_strlit("rb");
    reveal_strlit("php");
    reveal_strlit("sh");
    reveal_strlit("bash");
    reveal_strlit("sql");
    reveal_strlit("toml");
    reveal_strlit("yaml");
    reveal_strlit("yml");
    reveal_strlit("json");
    reveal_strlit("xml");
    reveal_strlit("css");
    reveal_strlit("html");
    reveal_strlit("htm");
    reveal_strlit("md");
    reveal_strlit("markdown");
    reveal_strlit("pdf");
    reveal_strlit("docx");
    let md = kind_extensions(ExtractorKind::Markdown);
    let pt = kind_extensions(ExtractorKind::PlainText);
    let pdf = kind_extensions(ExtractorKind::Pdf);
    assert forall|k: int| 0 <= k < pt.len() implies pt[k] != "docx"@ by {
        assert(pt[k].len() != 4 || pt[k][0] != 'd');
    }
    assert forall|k: int| 0 <= k < md.len() implies md[k] != "docx"@ && md[k] != "html"@ && md[k] != "htm"@ by {
        assert(md[k][0] == 'm');
    }
    assert forall|k: int| 0 <= k < pdf.len() implies pdf[k] != "docx"@ by {
        assert(pdf[k][0] == 'p');
    }
    assert(pt[26] == "html"@);
    assert(pt[27] == "htm"@);
    assert(!md.contains("docx"@));
    assert(!pt.contains("docx"@));
    assert(!pdf.contains("docx"@));
    assert(!md.contains("html"@));
    assert(!md.contains("htm"@));
    assert(pt.contains("html"@));
    assert(pt.contains("htm"@));
    let ks = default_kinds();
    assert(ks[0] == ExtractorKind::Markdown && ks[1] == ExtractorKind::PlainText && ks[2]
        == ExtractorKind::Pdf);
    reveal_with_fuel(first_claiming, 4);
}

/// Registry of the available extractors, in precedence order: Markdown
/// takes `.md` before plain text would; everything claims by extension.
/// The default registry holds the Markdown, plain-text and PDF
/// extractors. There is no Word (`docx`) or HTML extractor here, so a
/// `docx` file has no extractor (an `UnsupportedType` error) and `html`
/// and `htm` files are read as plain text; see
/// [`lemma_default_fallthrough`].
pub struct ExtractorRegistry {
    extractors: Vec<ExtractorKind>,
}

impl Default for ExtractorRegistry {
    /// The default registry: Markdown, plain text, PDF (no Word or HTML
    /// extractor: `docx` is unsupported, `html` and `htm` are plain text).
    fn default() -> (r: Self)
        ensures
            r.kinds() == default_kinds(),
            first_claiming(r.kinds(), "docx"@, 0) is None,
            first_claiming(r.kinds(), "html"@, 0) == Some(ExtractorKind::PlainText),
            first_claiming(r.kinds(), "htm"@, 0) == Some(ExtractorKind::PlainText),
    {
        let r = ExtractorRegistry {
            extractors: vec![ExtractorKind::Markdown, ExtractorKind::PlainText, ExtractorKind::Pdf],
        };
        assert(r.kinds() =~= default_kinds());
        proof {
            lemma_default_fallthrough();
        }
        r
    }
}

impl ExtractorRegistry {
    /// The extractors in precedence order.
    pub closed spec fn kinds(&self) -> Seq<ExtractorKind> {
        self.extractors@
    }

    /// The extractor claiming `extension` (compared in ASCII lower case),
    /// if any.
    pub fn select(&self, extension: &str) -> (r: Option<ExtractorKind>)
        ensures
            r == first_claiming(self.kinds(), text::lower_ascii(extension@), 0),
    {
        let ext = lower_ascii_vec(&chars_of(extension));
        let mut i: usize = 0;
        while i < self.extractors.len()
            invariant
                i <= self.extractors.len(),
                ext@ == text::lower_ascii(extension@),
                first_claiming(self.kinds(), ext@, i as nat) == first_claiming(
                    self.kinds(),
                    ext@,
                    0,
                ),
            decreases self.extractors.len() - i,
        {
            let kind = self.extractors[i];
            let exts = kind.supported_extensions();
            let mut j: usize = 0;
            let mut found = false;
            while j < exts.len()
                invariant
                    j <= exts.len(),
                    exts@.map_values(|e: &str| e@) == kind_extensions(kind),
                    found == exists|k: int| 0 <= k < j && kind_extensions(kind)[k] == ext@,
                decreases exts.len() - j,
            {
                let candidate = chars_of(exts[j]);
                assert(kind_extensions(kind)[j as int] == exts@[j as int]@);
                if chars_eq(&candidate, &ext) {
                    found = true;
                }
                j += 1;
            }
            if found {
                assert(kind_extensions(kind).contains(ext@));
                assert(kind == self.kinds()[i as int]);
                assert(first_claiming(self.kinds(), ext@, i as nat) == Some(kind));
                return Some(kind);
            }
            assert(!kind_extensions(kind).contains(ext@));
            i += 1;
        }
        None
    }

    /// Extract a file given its extension and bytes. An extension that no
    /// extractor claims is a typed `UnsupportedType` failure, never a
    /// panic and never a silent skip.
    pub fn extract(&self, extension: &str, bytes: Vec<u8>) -> (r: Result<ExtractOutput, ExtractionError>)
        requires
            types::source_lines_fit(bytes@),
        ensures
            match first_claiming(self.kinds(), text::lower_ascii(extension@), 0) {
                Some(k) => extracted_by(k, bytes@, r),
                None => r matches Err(e) && is_unsupported_error(e, extension@),
            },
    {
        match self.select(extension) {
            Some(ExtractorKind::Markdown) => MarkdownExtractor.extract(bytes),
            Some(ExtractorKind::PlainText) => PlainTextExtractor.extract(bytes),
            Some(ExtractorKind::Pdf) => PdfExtractor.extract(bytes.as_slice()),
            None => Err(unsupported_type(extension)),
        }
    }
}

/// The error for an extension no extractor claims.
pub fn unsupported_type(extension: &str) -> (r: ExtractionError)
    ensures
        is_unsupported_error(r, extension@),
{
    let mut m = lit("no extractor for extension '");
    push_all(&mut m, &chars_of(extension));
    push_all(&mut m, &lit("'"));
    ExtractionError { category: ErrorCategory::UnsupportedType, message: string_of(&m) }
}

} // verus!
