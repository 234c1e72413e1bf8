//! A client-side pipeline from a PDF, or a picture, to structured data: the
//! pictures embedded in the file, the text that a remote OCR service reads in
//! them, and the fields of an invoice.
//!
//! The library decides and computes; it does not open files, render pages or
//! talk to the network. Whoever uses it does those things and reports what
//! happened.

mod err;
pub mod img;
pub mod pattern;
pub mod pdf;
pub mod server;
pub mod text;

pub use err::OCRServerErr;
pub use err::OcrErrs;
pub use err::OcrResult;

use crate::img::RasterImage;
use crate::pdf::doc::PdfDoc;
use crate::pdf::embedded_images;
use crate::pdf::PageObject;
use crate::pdf::PdfEngine;
use crate::server::docling::ParsedDoc;
use crate::server::url_parsed;
use crate::server::OcrClient;
use crate::server::Upload;
use crate::server::INVOICE_FILE_NAME;
use crate::server::INVOICE_PATH;
use vstd::prelude::*;
use vstd::string::*;

verus! {

/// The address that is dialled for a service given as `addr`. An address
/// that already starts with `http://` or `https://` is taken as it is. One
/// without a scheme gets one in front: `http://` if it is on this machine,
/// `https://` otherwise.
pub open spec fn endpoint_address(addr: Seq<char>) -> Seq<char> {
    if "http://"@.is_prefix_of(addr) || "https://"@.is_prefix_of(addr) {
        addr
    } else if "localhost"@.is_prefix_of(addr) || "127.0.0.1"@.is_prefix_of(addr) {
        "http://"@ + addr
    } else {
        "https://"@ + addr
    }
}

pub struct OcrEngine {
    pdf_engine: PdfEngine,
    client: OcrClient,
}

impl OcrEngine {
    pub closed spec fn spec_client(&self) -> OcrClient {
        self.client
    }

    /// An engine for the service at `ocr_server_addr`. An address that starts
    /// with `http://` or `https://` is kept; any other gets a scheme in
    /// front, `http://` on this machine and `https://` elsewhere, whatever
    /// letters it begins with. For a device on the local network it is the
    /// caller who writes `http://`.
    pub fn new(ocr_server_addr: &str) -> (r: OcrResult<Self>)
        ensures
            match url_parsed(endpoint_address(ocr_server_addr@)) {
                Some(text) => r matches Ok(engine) && engine.spec_client().base@ == text,
                None => r matches Err(OcrErrs::InvalidEndpoint(_)),
            },
    {
        let addr = if crate::text::starts_with(ocr_server_addr, "http://")
            || crate::text::starts_with(ocr_server_addr, "https://") {
            String::from_str(ocr_server_addr)
        } else if crate::text::starts_with(ocr_server_addr, "localhost")
            || crate::text::starts_with(ocr_server_addr, "127.0.0.1") {
            String::from_str("http://").concat(ocr_server_addr)
        } else {
            String::from_str("https://").concat(ocr_server_addr)
        };
        match OcrClient::new(addr.as_str()) {
            Ok(client) => Ok(OcrEngine { pdf_engine: PdfEngine::new(), client }),
            Err(e) => Err(e),
        }
    }

    /// The client that this engine sends with.
    pub fn client(&self) -> (client: &OcrClient)
        ensures
            *client == self.spec_client(),
    {
        &self.client
    }

    /// creates a pdf from provided bytes and the engine's report of them.
    /// It is assumed that provided bytes are from PDF, otherwise it will
    /// return an error
    pub fn pdf(&self, bytes: Vec<u8>, scan: Result<Vec<Vec<PageObject>>, String>) -> (r: OcrResult<
        PdfDoc,
    >)
        ensures
            match scan {
                Ok(pages) => r matches Ok(doc) && doc.spec_bytes() == bytes@ && doc.spec_imgs()
                    == embedded_images(pages@) && doc.spec_parsed_doc() == Seq::<
                    OcrResult<ParsedDoc>,
                >::empty(),
                Err(report) => r == Err::<PdfDoc, OcrErrs>(OcrErrs::MalformedPdf(report)),
            },
    {
        self.pdf_engine.doc(bytes, scan)
    }

    /// The request that asks for the invoice fields of `img`.
    pub fn invoice_details(&self, img: &RasterImage) -> (r: OcrResult<Upload>)
        ensures
            match (img.spec_jpeg(), crate::server::url_joined(
                self.spec_client().base@,
                INVOICE_PATH@,
            )) {
                (Some(jpeg), Some(_)) => r matches Ok(upload) && self.spec_client().spec_bytes_req(
                    INVOICE_PATH@,
                    jpeg,
                    INVOICE_FILE_NAME@,
                    upload,
                ),
                (Some(_), None) => r matches Err(OcrErrs::InvalidEndpoint(_)),
                (None, _) => r matches Err(OcrErrs::Image(_)),
            },
    {
        self.client.get_invoice_info(img)
    }

    /// The request that asks for the text in `img`.
    pub fn ocr(&self, img: &RasterImage) -> (r: OcrResult<Upload>)
        ensures
            self.spec_client().spec_ocr_img(*img, r),
    {
        PdfDoc::ocr_img(&self.client, img)
    }
}

} // verus!
