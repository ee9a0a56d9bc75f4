//! Extraction output types.
use vstd::prelude::*;
use vstd::utf8::{decode_utf8, valid_utf8};
use crate::extract::decode::utf8_to_string;
use crate::normalize;

verus! {

/// Structural role of a segment.
#[derive(Debug, Clone, Copy, PartialEq, Eq, Structural)]
pub enum SegmentKind {
    Heading,
    Paragraph,
    CodeBlock,
    Other,
}

/// How precisely a segment's location is known.
#[derive(Debug, Clone, Copy, PartialEq, Eq, Structural)]
pub enum LocationQuality {
    /// Exact 1-based inclusive line range.
    Exact,
    /// Page number only (PDF).
    PageOnly,
}

/// Why an extraction failed.
#[derive(Debug, Clone, Copy, PartialEq, Eq, Structural)]
pub enum ErrorCategory {
    /// The bytes are not valid UTF-8.
    EncodingError,
    /// No extractor claims the file's extension.
    UnsupportedType,
    /// The document could not be parsed.
    ParserError,
    /// The document is encrypted or password protected.
    EncryptedDocument,
}

/// A typed extraction failure.
#[derive(Debug, Clone)]
pub struct ExtractionError {
    pub category: ErrorCategory,
    pub message: String,
}

/// One located piece of extracted text.
#[derive(Debug, Clone)]
pub struct ExtractedSegment {
    pub kind: SegmentKind,
    pub text: String,
    pub line_start: u32,
    pub line_end: u32,
    pub heading_path: Option<String>,
    pub location_quality: LocationQuality,
}

/// The mathematical content of a segment.
pub struct SegmentModel {
    pub kind: SegmentKind,
    pub text: Seq<char>,
    pub line_start: u32,
    pub line_end: u32,
    pub heading_path: Option<Seq<char>>,
    pub location_quality: LocationQuality,
}

/// The view of an optional string.
pub open spec fn opt_view(o: Option<String>) -> Option<Seq<char>> {
    match o {
        Some(s) => Some(s@),
        None => None,
    }
}

impl View for ExtractedSegment {
    type V = SegmentModel;

    open spec fn view(&self) -> SegmentModel {
        SegmentModel {
            kind: self.kind,
            text: self.text@,
            line_start: self.line_start,
            line_end: self.line_end,
            heading_path: opt_view(self.heading_path),
            location_quality: self.location_quality,
        }
    }
}

/// The models of a sequence of segments.
pub open spec fn seg_models(v: Seq<ExtractedSegment>) -> Seq<SegmentModel> {
    v.map_values(|s: ExtractedSegment| s@)
}

/// Result of extracting one file.
#[derive(Debug, Clone)]
pub struct ExtractOutput {
    pub extractor_name: String,
    pub extractor_version: String,
    pub normalization_version: String,
    pub segments: Vec<ExtractedSegment>,
    pub char_count: u64,
}

/// The normalized text of a source file's bytes.
pub open spec fn normalized_source(bytes: Seq<u8>) -> Seq<char> {
    normalize::normalized(decode_utf8(bytes))
}

/// What a text extractor reports on bytes that are not UTF-8.
pub open spec fn is_encoding_error(e: ExtractionError) -> bool {
    e.category == ErrorCategory::EncodingError && e.message@ == "file is not valid UTF-8"@
}

/// Decode a source file's bytes; invalid UTF-8 is a typed
/// `EncodingError`, never a silent guess.
pub fn decode_text(bytes: Vec<u8>) -> (r: Result<String, ExtractionError>)
    ensures
        match r {
            Ok(s) => valid_utf8(bytes@) && s@ == decode_utf8(bytes@),
            Err(e) => !valid_utf8(bytes@) && is_encoding_error(e),
        },
{
    match utf8_to_string(bytes) {
        Some(s) => Ok(s),
        None => Err(
            ExtractionError {
                category: ErrorCategory::EncodingError,
                message: "file is not valid UTF-8".to_owned(),
            },
        ),
    }
}

/// The normalized text of `bytes`, when they are UTF-8, has fewer lines
/// than `u32::MAX`, so every line number fits a `u32`.
pub open spec fn source_lines_fit(bytes: Seq<u8>) -> bool {
    valid_utf8(bytes) ==> crate::text::lines(normalized_source(bytes)).len() < u32::MAX
}

/// A file of fewer than `u32::MAX` bytes has fewer lines than that, so
/// its line numbers fit.
pub proof fn lemma_source_lines_fit(bytes: Seq<u8>)
    requires
        bytes.len() < u32::MAX,
    ensures
        source_lines_fit(bytes),
{
    if valid_utf8(bytes) {
        crate::extract::decode::lemma_decode_len(bytes);
        normalize::lemma_normalized_len(decode_utf8(bytes));
        crate::text::lemma_lines_len(normalized_source(bytes));
    }
}

} // verus!
