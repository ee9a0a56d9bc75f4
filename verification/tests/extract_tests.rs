use orbok::chunker::chunk;
use orbok::extract::pdf::{is_scanned_pdf, pdf_output_from_pages};
use orbok::extract::registry::ExtractorRegistry;
use orbok::extract::types::{ErrorCategory, LocationQuality, SegmentKind};
use orbok::normalize::normalize_document;
use orbok::query::build_match_expression;

#[test]
fn norm_v1_rules() {
    // BOM strip + CRLF + lone CR + trailing space + control chars.
    let input = "\u{FEFF}line one  \r\nline\u{0007} two\rline three\t.\n";
    let normalized = normalize_document(input);
    assert_eq!(normalized, "line one\nline two\nline three\t.\n");
}

#[test]
fn norm_v1_preserves_japanese() {
    let input = "日本語のテキスト。\n改行も保持される。\n";
    assert_eq!(normalize_document(input), input);
}

#[test]
fn registry_selection_by_extension() {
    let registry = ExtractorRegistry::default();
    assert_eq!(registry.select("md").unwrap().name(), "markdown");
    assert_eq!(registry.select("rs").unwrap().name(), "plain_text");
    assert!(registry.select("xyz").is_none());
}

#[test]
fn plain_text_paragraph_lines_exact() {
    let bytes = b"para one line 1\npara one line 2\n\npara two\n".to_vec();
    let out = ExtractorRegistry::default().extract("txt", bytes).unwrap();
    assert_eq!(out.extractor_name, "plain_text");
    assert_eq!(out.normalization_version, "norm-v1");
    assert_eq!(out.segments.len(), 2);
    assert_eq!(out.segments[0].line_start, 1);
    assert_eq!(out.segments[0].line_end, 2);
    assert_eq!(out.segments[1].line_start, 4);
    assert_eq!(out.segments[1].line_end, 4);
    assert!(out.segments.iter().all(|s| s.location_quality == LocationQuality::Exact));
}

#[test]
fn markdown_structure_and_heading_paths() {
    let bytes = b"# Guide\n\n## Install\n\nRun the installer.\n\n```sh\ncargo install orbit\n```\n\n## Use\n\nOpen the app.\n".to_vec();
    let out = ExtractorRegistry::default().extract("md", bytes).unwrap();
    assert_eq!(out.extractor_name, "markdown");

    let headings: Vec<_> = out.segments.iter().filter(|s| s.kind == SegmentKind::Heading).collect();
    assert_eq!(headings.len(), 3);

    let install_para = out.segments.iter().find(|s| s.text == "Run the installer.").unwrap();
    assert_eq!(install_para.heading_path.as_deref(), Some("Guide > Install"));
    assert_eq!(install_para.line_start, 5);

    let code = out.segments.iter().find(|s| s.kind == SegmentKind::CodeBlock).unwrap();
    assert_eq!(code.text, "cargo install orbit");
    assert_eq!(code.line_start, 7);
    assert_eq!(code.line_end, 9);

    let use_para = out.segments.iter().find(|s| s.text == "Open the app.").unwrap();
    assert_eq!(use_para.heading_path.as_deref(), Some("Guide > Use"));
}

#[test]
fn empty_file_yields_no_segments() {
    let out = ExtractorRegistry::default().extract("txt", Vec::new()).unwrap();
    assert!(out.segments.is_empty());
    assert_eq!(out.char_count, 0);
}

#[test]
fn invalid_utf8_is_encoding_error() {
    let err = ExtractorRegistry::default().extract("txt", vec![0xFFu8, 0xFE, 0x00, 0x41]).unwrap_err();
    assert_eq!(err.category, ErrorCategory::EncodingError);
}

#[test]
fn unknown_extension_is_unsupported() {
    let err = ExtractorRegistry::default().extract("xyz", b"binaryish".to_vec()).unwrap_err();
    assert_eq!(err.category, ErrorCategory::UnsupportedType);
}

#[test]
fn unclosed_fence_is_robust() {
    let out = ExtractorRegistry::default().extract("md", b"# T\n\n```\nnever closed\n".to_vec()).unwrap();
    let code = out.segments.iter().find(|s| s.kind == SegmentKind::CodeBlock).unwrap();
    assert_eq!(code.text, "never closed");
}

#[test]
fn extension_matching_ignores_ascii_case() {
    let registry = ExtractorRegistry::default();
    assert_eq!(registry.select("MD").unwrap().name(), "markdown");
    assert_eq!(registry.select("Pdf").unwrap().name(), "pdf-lopdf");
}

#[test]
fn normalization_is_idempotent_on_examples() {
    for input in ["\u{FEFF}a \r\nb\u{0001}\rc", "x\n\n\ny  ", "", "\u{FEFF}"] {
        let once = normalize_document(input);
        assert_eq!(normalize_document(&once), once);
    }
}

#[test]
fn normalization_strips_only_a_leading_bom() {
    assert_eq!(normalize_document("\u{FEFF}\u{FEFF}x"), "\u{FEFF}x");
}

#[test]
fn chunk_of_markdown_has_parent_and_sections() {
    let bytes = b"# Guide\n\nIntro text.\n\n## Install\n\nRun it.\n".to_vec();
    let out = ExtractorRegistry::default().extract("md", bytes).unwrap();
    let chunks = chunk(&out, "guide.md");
    assert!(chunks.len() >= 2);
    assert_eq!(chunks[0].chunk_kind, "document");
    assert_eq!(chunks[0].chunk_ordinal, 0);
    assert_eq!(chunks[0].parent_idx, None);
    for (i, c) in chunks.iter().enumerate().skip(1) {
        assert_eq!(c.chunk_ordinal as usize, i);
        assert_eq!(c.parent_idx, Some(0));
    }
}

#[test]
fn markdown_chunks_are_exact() {
    let bytes = b"# Guide\n\nIntro text.\n\n## Install\n\nRun it.\n".to_vec();
    let out = ExtractorRegistry::default().extract("md", bytes).unwrap();
    let chunks = chunk(&out, "guide.md");
    assert!(chunks.iter().all(|c| c.location_quality == "exact"));
}

#[test]
fn pdf_chunks_are_approximate() {
    let pages = vec![Some("First page text.".to_string()), Some("Second page text.".to_string())];
    let out = pdf_output_from_pages(&pages);
    let chunks = chunk(&out, "doc.pdf");
    assert_eq!(chunks.len(), 2);
    assert_eq!(chunks[0].chunk_kind, "document");
    assert_eq!(chunks[1].chunk_kind, "section");
    assert_eq!(chunks[1].normalized_text, "First page text.\nSecond page text.");
    assert_eq!((chunks[1].line_start, chunks[1].line_end), (1, 2));
    assert_eq!(chunks[1].chunk_ordinal, 1);
    assert!(chunks.iter().all(|c| c.location_quality == "approximate"));
}

#[test]
fn long_pdf_whole_document_is_windowed() {
    let page = "word ".repeat(200);
    let pages = vec![Some(page.clone()), Some(page.clone()), Some(page)];
    let out = pdf_output_from_pages(&pages);
    let chunks = chunk(&out, "long.pdf");
    assert!(chunks.len() >= 3);
    for (i, c) in chunks.iter().enumerate() {
        assert_eq!(c.chunk_ordinal as usize, i);
    }
    for c in chunks.iter().skip(1) {
        assert_eq!(c.chunk_kind, "fallback");
        assert_eq!(c.location_quality, "approximate");
        assert_eq!(c.parent_idx, Some(0));
        assert!(c.normalized_text.chars().count() <= 1200);
    }
}

#[test]
fn word_and_html_fall_through() {
    let registry = ExtractorRegistry::default();
    assert!(registry.select("docx").is_none());
    assert_eq!(registry.select("html").unwrap().name(), "plain_text");
    assert_eq!(registry.select("htm").unwrap().name(), "plain_text");
    let err = registry.extract("docx", b"PK".to_vec()).unwrap_err();
    assert_eq!(err.category, ErrorCategory::UnsupportedType);
}

#[test]
fn markdown_segments_are_in_line_order() {
    let bytes = b"# A\ntext one\ntext two\n```\ncode\n```\n## B\n\nlast\n".to_vec();
    let out = ExtractorRegistry::default().extract("md", bytes).unwrap();
    assert_eq!(out.segments.len(), 5);
    for s in &out.segments {
        assert!(1 <= s.line_start && s.line_start <= s.line_end);
    }
    for w in out.segments.windows(2) {
        assert!(w[0].line_end < w[1].line_start);
    }
    assert_eq!((out.segments[1].line_start, out.segments[1].line_end), (2, 3));
    assert_eq!((out.segments[2].line_start, out.segments[2].line_end), (4, 6));
}

#[test]
fn chunk_of_empty_document_is_one_parent() {
    let out = ExtractorRegistry::default().extract("txt", Vec::new()).unwrap();
    let chunks = chunk(&out, "empty.txt");
    assert_eq!(chunks.len(), 1);
    assert_eq!(chunks[0].chunk_kind, "document");
}

#[test]
fn long_paragraph_is_windowed() {
    let text = "word ".repeat(600);
    let out = ExtractorRegistry::default().extract("txt", text.into_bytes()).unwrap();
    let chunks = chunk(&out, "long.txt");
    assert!(chunks.len() >= 3);
    for (i, c) in chunks.iter().enumerate() {
        assert_eq!(c.chunk_ordinal as usize, i);
    }
    for c in chunks.iter().skip(1) {
        assert!(c.normalized_text.chars().count() <= 1200);
    }
}

#[test]
fn pdf_pages_become_page_segments() {
    let pages = vec![Some("First page".to_string()), None, Some("  \n".to_string()), Some("Third".to_string())];
    let out = pdf_output_from_pages(&pages);
    assert_eq!(out.extractor_name, "pdf-lopdf");
    assert_eq!(out.segments.len(), 2);
    assert_eq!(out.segments[0].line_start, 1);
    assert_eq!(out.segments[1].line_start, 4);
    assert_eq!(out.segments[1].text, "Third");
    assert!(out.segments.iter().all(|s| s.location_quality == LocationQuality::PageOnly));
    assert!(!is_scanned_pdf(&out, 4));
}

#[test]
fn pdf_without_text_looks_scanned() {
    let out = pdf_output_from_pages(&vec![None, None]);
    assert_eq!(out.char_count, 0);
    assert!(is_scanned_pdf(&out, 2));
    assert!(!is_scanned_pdf(&out, 0));
}

#[test]
fn broken_pdf_is_a_parser_error() {
    let err = ExtractorRegistry::default().extract("pdf", b"not a pdf".to_vec()).unwrap_err();
    assert_eq!(err.category, ErrorCategory::ParserError);
    assert!(err.message.starts_with("lopdf: "));
    assert!(err.message.len() > "lopdf: ".len());
}

#[test]
fn match_expression_quotes_every_term() {
    assert_eq!(build_match_expression("refresh token").as_deref(), Some("\"refresh\" \"token\""));
    assert_eq!(build_match_expression("  OR  NEAR(a) ").as_deref(), Some("\"OR\" \"NEAR(a)\""));
    assert_eq!(build_match_expression("say \"hi\"").as_deref(), Some("\"say\" \"\"\"hi\"\"\""));
}

#[test]
fn blank_query_has_no_match_expression() {
    assert_eq!(build_match_expression(""), None);
    assert_eq!(build_match_expression(" \t\n "), None);
}

fn one_page_pdf(text: &str) -> Vec<u8> {
    let content = format!("BT /F1 24 Tf 100 700 Td ({text}) Tj ET\n");
    let objects = [
        "<< /Type /Catalog /Pages 2 0 R >>".to_string(),
        "<< /Type /Pages /Kids [3 0 R] /Count 1 >>".to_string(),
        "<< /Type /Page /Parent 2 0 R /MediaBox [0 0 612 792] /Contents 4 0 R /Resources << /Font << /F1 5 0 R >> >> >>".to_string(),
        format!("<< /Length {} >>\nstream\n{}endstream", content.len(), content),
        "<< /Type /Font /Subtype /Type1 /BaseFont /Helvetica >>".to_string(),
    ];
    let mut pdf = b"%PDF-1.4\n".to_vec();
    let mut offsets = Vec::new();
    for (i, body) in objects.iter().enumerate() {
        offsets.push(pdf.len());
        pdf.extend_from_slice(format!("{} 0 obj\n{}\nendobj\n", i + 1, body).as_bytes());
    }
    let xref = pdf.len();
    pdf.extend_from_slice(format!("xref\n0 {}\n0000000000 65535 f \n", objects.len() + 1).as_bytes());
    for off in &offsets {
        pdf.extend_from_slice(format!("{off:010} 00000 n \n").as_bytes());
    }
    pdf.extend_from_slice(
        format!("trailer\n<< /Size {} /Root 1 0 R >>\nstartxref\n{}\n%%EOF\n", objects.len() + 1, xref).as_bytes(),
    );
    pdf
}

#[test]
fn pdf_text_page_is_extracted() {
    let bytes = one_page_pdf("Hello PDF");
    assert_eq!(orbok::extract::pdf::pdf_page_count(&bytes), 1);
    let out = ExtractorRegistry::default().extract("pdf", bytes).unwrap();
    assert_eq!(out.extractor_name, "pdf-lopdf");
    assert_eq!(out.segments.len(), 1);
    assert!(out.segments[0].text.contains("Hello PDF"));
    assert_eq!(out.segments[0].line_start, 1);
    assert_eq!(out.segments[0].heading_path.as_deref(), Some("Page 1"));
    assert!(!is_scanned_pdf(&out, 1));
    assert_eq!(orbok::extract::pdf::pdf_page_count(b"garbage"), 0);
}
