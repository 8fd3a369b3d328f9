use pdf_images::error::ConvertError;
use pdf_images::mode::{is_document_path, select_mode, Mode};

#[test]
fn document_extension_in_any_case() {
    assert!(is_document_path("doc.pdf"));
    assert!(is_document_path("doc.PDF"));
    assert!(is_document_path("doc.Pdf"));
    assert!(is_document_path("dir/some file.pDf"));
    assert!(is_document_path(".pdf"));
}

#[test]
fn other_paths_are_not_documents() {
    assert!(!is_document_path(""));
    assert!(!is_document_path("pdf"));
    assert!(!is_document_path("a.png"));
    assert!(!is_document_path("b.jpg"));
    assert!(!is_document_path("doc.pdf.png"));
    assert!(!is_document_path("docpdf"));
    assert!(!is_document_path("doc.pdfx"));
    assert!(!is_document_path("doc.pd"));
}

#[test]
fn non_ascii_paths_are_read_by_character() {
    assert!(is_document_path("документ.pdf"));
    assert!(!is_document_path("документ.пдф"));
    assert!(!is_document_path("é.p"));
}

#[test]
fn no_path_is_a_usage_error() {
    assert_eq!(select_mode(&Vec::new()), Err(ConvertError::Usage));
}

#[test]
fn first_path_selects_the_mode() {
    let doc = vec!["doc.pdf".to_string(), "a.png".to_string()];
    assert_eq!(select_mode(&doc), Ok(Mode::Rasterize));
    let images = vec!["a.png".to_string(), "doc.pdf".to_string()];
    assert_eq!(select_mode(&images), Ok(Mode::Synthesize));
    let upper = vec!["DOC.PDF".to_string()];
    assert_eq!(select_mode(&upper), Ok(Mode::Rasterize));
}
