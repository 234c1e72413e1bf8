use ocr_client::img::RasterImage;
use ocr_client::server::docling::BoundingBox;
use ocr_client::server::docling::DocType;
use ocr_client::server::docling::OcrDoc;
use ocr_client::server::docling::OcrText;
use ocr_client::server::docling::ParsedDoc;
use ocr_client::server::docling::Prov;
use ocr_client::server::OcrClient;
use ocr_client::OcrErrs;

fn doc_of(texts: &[&str]) -> ParsedDoc {
    ParsedDoc {
        texts: texts
            .iter()
            .map(|text| OcrText {
                prov: vec![Prov {
                    page_no: 1,
                    bbox: BoundingBox {
                        t: 10.5f64.to_bits(),
                        l: 0.0f64.to_bits(),
                        r: 200.25f64.to_bits(),
                        b: 20.0f64.to_bits(),
                        coord_origin: "TOPLEFT".to_string(),
                    },
                    charspan: [0, text.len()],
                }],
                text: text.to_string(),
            })
            .collect(),
    }
}

#[test]
fn a() {
    let p = "Some random Ass text goes hehre";
    let doc = doc_of(&[p]);

    assert!(!doc.contains("ass"));
    assert_eq!(doc.contains("ass"), p.contains("ass"));

    assert!(doc.contains_insensitive("some"));
    assert!(doc.contains_insensitive("ass"));
}

#[test]
fn document_with_invoice_is_found_both_ways() {
    let doc = doc_of(&["ACME Corp", "Tax Invoice #42", "Total due: $10"]);
    assert!(doc.contains("Invoice"));
    assert!(doc.contains_insensitive("invoice"));
    assert!(!doc.contains("invoice"));
    assert_eq!(doc.try_contains_insensitive("invoice"), Some(true));
}

#[test]
fn plain_word_is_found_in_any_case() {
    let doc = doc_of(&["ACME Corp", "TAX INVOICE no. ab12CD", "Kelvin Street 5"]);
    for needle in ["invoice", "INVOICE", "InVoIcE", "ab12cd", "AB12CD", "kelvin", "STREET", "5", ""] {
        assert!(doc.contains_insensitive(needle));
        assert_eq!(doc.try_contains_insensitive(needle), Some(true));
    }
    for needle in ["invoices", "ab12ce", "6"] {
        assert!(!doc.contains_insensitive(needle));
    }
}

#[test]
fn search_looks_at_every_text() {
    let doc = doc_of(&["first", "second", "third"]);
    assert!(doc.contains("first"));
    assert!(doc.contains("ird"));
    assert!(!doc.contains("fourth"));
    assert!(!doc.contains("firstsecond"));
    assert!(doc.contains_insensitive("THIRD"));
    assert!(!doc.contains_insensitive("fourth"));
}

#[test]
fn empty_document_holds_nothing() {
    let doc = doc_of(&[]);
    assert!(!doc.contains(""));
    assert!(!doc.contains("a"));
    assert!(!doc.contains_insensitive("a"));
    assert_eq!(doc.try_contains_insensitive(""), Some(false));
}

#[test]
fn needle_is_read_as_a_pattern() {
    let doc = doc_of(&["Invoice 2024-017"]);
    assert!(doc.contains_insensitive("invoice\\s+\\d{4}-\\d+"));
    assert!(doc.contains_insensitive("^inv"));
    assert!(!doc.contains_insensitive("^voice"));
    assert!(!doc.contains("\\d"));
}

#[test]
fn needle_that_is_no_pattern_is_refused() {
    let doc = doc_of(&["Invoice (copy)"]);
    assert_eq!(doc.try_contains_insensitive("("), None);
    assert_eq!(doc.try_contains_insensitive("[a-"), None);
    assert_eq!(doc.try_contains_insensitive("\\(COPY\\)"), Some(true));
    assert_eq!(doc.try_contains_insensitive("duplicate"), Some(false));
}

#[test]
fn provenance_passes_through() {
    let doc = doc_of(&["text"]);
    let prov = &doc.texts[0].prov[0];
    assert_eq!(prov.page_no, 1);
    assert_eq!(prov.charspan, [0, 4]);
    assert_eq!(f64::from_bits(prov.bbox.t), 10.5);
    assert_eq!(f64::from_bits(prov.bbox.r), 200.25);
    assert_eq!(prov.bbox.coord_origin, "TOPLEFT");
}

#[test]
fn document_kind_goes_by_the_ending() {
    for name in ["letter.doc", "letter.docx", ".doc"] {
        assert_eq!(OcrDoc::new(name, vec![1]).unwrap().ty, DocType::Word);
    }
    for name in ["scan.pdf", "a.b.pdf", ".pdf"] {
        assert_eq!(OcrDoc::new(name, vec![1]).unwrap().ty, DocType::Pdf);
    }
    for name in ["p.jpg", "p.jpeg", "p.tif", "p.tiff", "p.png", "[Unknown].png"] {
        assert_eq!(OcrDoc::new(name, vec![1]).unwrap().ty, DocType::Img);
    }
}

#[test]
fn document_of_unknown_kind_is_refused() {
    for name in ["", "scan", "scan.txt", "scan.PDF", "scan.pdf ", "pdf", "scan.gif", "doc.docm"] {
        assert!(OcrDoc::new(name, vec![1]).is_none());
    }
}

#[test]
fn document_keeps_name_and_bytes() {
    let doc = OcrDoc::new("scan.pdf", vec![37, 80, 68, 70]).unwrap();
    assert_eq!(doc.name, "scan.pdf");
    assert_eq!(doc.bytes, vec![37, 80, 68, 70]);
}

#[test]
fn document_kinds_are_ordered_as_declared() {
    assert!(DocType::Word < DocType::Pdf);
    assert!(DocType::Pdf < DocType::Img);
}

#[test]
fn picture_becomes_a_png_document() {
    let img = RasterImage::new(2, 1, vec![255, 0, 0, 255, 0, 0, 255, 128]).unwrap();
    let doc = OcrDoc::from_img(&img).unwrap();
    assert_eq!(doc.ty, DocType::Img);
    assert_eq!(doc.name, "[Unknown].png");
    let back = image::load_from_memory(&doc.bytes).unwrap();
    assert_eq!(back.to_rgba8().into_raw(), vec![255, 0, 0, 255, 0, 0, 255, 128]);
}

#[test]
fn picture_that_cannot_be_encoded_is_an_image_error() {
    let img = RasterImage::new(0, 0, Vec::new()).unwrap();
    assert!(matches!(OcrDoc::from_img(&img), Err(OcrErrs::Image(_))));
}

#[test]
fn document_is_posted_under_its_own_name() {
    let client = OcrClient::new("http://localhost:8000").unwrap();
    let doc = OcrDoc::new("scan.pdf", vec![1, 2, 3]).unwrap();
    let upload = doc.parse(&client).unwrap();
    assert_eq!(upload.url, "http://localhost:8000/ocr/doc");
    assert_eq!(upload.part_name, "file");
    assert_eq!(upload.file_name, "scan.pdf");
    assert_eq!(upload.body, vec![1, 2, 3]);
}
