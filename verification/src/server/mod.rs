//! The client side of the remote OCR service: which requests are made, and
//! what an answer means. Sending is left to the caller.

pub mod docling;
pub mod invoice;

use crate::err::OCRServerErr;
use crate::err::OcrErrs;
use crate::err::OcrResult;
use crate::img::RasterImage;
use crate::server::docling::OcrDoc;
use crate::server::docling::ParsedDoc;
use crate::server::docling::UNNAMED_IMAGE;
use crate::text::has_substring;
use url::ParseError;
use url::Url;
use vstd::prelude::*;
use vstd::string::*;

verus! {

#[verifier::external_type_specification]
#[verifier::external_body]
pub struct ExUrlParseError(ParseError);

/// The text of the absolute URL that the `url` crate reads from `input`, or
/// `None` where it reports an error.
pub uninterp spec fn url_parsed(input: Seq<char>) -> Option<Seq<char>>;

/// The text of the URL that the `url` crate reads from `reference` relative to
/// the URL written as `base`, or `None` where either step reports an error.
pub uninterp spec fn url_joined(base: Seq<char>, reference: Seq<char>) -> Option<Seq<char>>;

/// `Url::parse` of the `url` crate, with the URL handed back as its text. The
/// result depends on the input alone; the contract only gives it its name.
#[verifier::external_body]
fn parse_url(input: &str) -> (r: Result<String, ParseError>)
    ensures
        r is Ok <==> url_parsed(input@) is Some,
        r matches Ok(text) ==> Some(text@) == url_parsed(input@),
{
    let url = Url::parse(input)?;
    Ok(String::from(url))
}

/// `Url::join` of the `url` crate, on the URL that `Url::parse` reads from
/// `base`, with the URL handed back as its text. The result depends on the
/// two inputs alone; the contract only gives it its name.
#[verifier::external_body]
fn join_url(base: &str, reference: &str) -> (r: Result<String, ParseError>)
    ensures
        r is Ok <==> url_joined(base@, reference@) is Some,
        r matches Ok(text) ==> Some(text@) == url_joined(base@, reference@),
{
    let url = Url::parse(base)?.join(reference)?;
    Ok(String::from(url))
}

/// The path, below the base address, that takes documents.
pub const DOC_PATH: &'static str = "ocr/doc";

/// The path, below the base address, that takes invoice pictures.
pub const INVOICE_PATH: &'static str = "ocr/invoice";

/// The name of the one part of every multipart body.
pub const PART_NAME: &'static str = "file";

/// The file name sent with a picture that has none of its own.
pub const INVOICE_FILE_NAME: &'static str = "[unknown].jpg";

/// One multipart POST: where it goes, and the single part that it carries.
#[derive(Debug)]
pub struct Upload {
    pub url: String,
    pub part_name: String,
    pub file_name: String,
    pub body: Vec<u8>,
}

/// What came of sending an `Upload`, as far as the sender could tell.
#[derive(Debug)]
pub enum Reply<T> {
    /// No answer: the text is the transport's report.
    Unsent(String),
    /// The status asked for the expected payload; the body was decoded as
    /// one, or could not be (the text says why).
    Payload(Result<T, String>),
    /// The status asked for a rejection; the body was decoded as one, or
    /// could not be (the text says why).
    Rejection(Result<OCRServerErr, String>),
}

/// A status in `200..300` announces the expected payload; any other
/// announces a rejection.
pub open spec fn spec_expects_payload(status: u16) -> bool {
    200 <= status < 300
}

#[verifier::when_used_as_spec(spec_expects_payload)]
pub fn expects_payload(status: u16) -> (b: bool)
    ensures
        b == spec_expects_payload(status),
{
    status >= 200 && status < 300
}

/// The outcome of a request, given what came back.
pub open spec fn settled<T>(reply: Reply<T>) -> OcrResult<T> {
    match reply {
        Reply::Unsent(report) => Err(OcrErrs::Transport(report)),
        Reply::Payload(Ok(value)) => Ok(value),
        Reply::Payload(Err(report)) => Err(OcrErrs::MalformedResponse(report)),
        Reply::Rejection(Ok(refusal)) => Err(OcrErrs::RemoteRejected(refusal)),
        Reply::Rejection(Err(report)) => Err(OcrErrs::MalformedResponse(report)),
    }
}

/// The outcome of a request, given what came back. A decoded rejection is
/// always reported as such, never as a malformed response.
pub fn settle<T>(reply: Reply<T>) -> (r: OcrResult<T>)
    ensures
        r == settled(reply),
{
    match reply {
        Reply::Unsent(report) => Err(OcrErrs::Transport(report)),
        Reply::Payload(Ok(value)) => Ok(value),
        Reply::Payload(Err(report)) => Err(OcrErrs::MalformedResponse(report)),
        Reply::Rejection(Ok(refusal)) => Err(OcrErrs::RemoteRejected(refusal)),
        Reply::Rejection(Err(report)) => Err(OcrErrs::MalformedResponse(report)),
    }
}

/// A status outside `200..300` whose body decodes as a rejection surfaces as
/// `RemoteRejected`, never as a malformed response, and the text shown for it
/// holds the message that the service sent.
pub proof fn lemma_rejection_surfaces<T>(refusal: OCRServerErr, sent: String)
    requires
        refusal.error == Some(sent),
    ensures
        settled(Reply::<T>::Rejection(Ok(refusal))) == Err::<T, OcrErrs>(
            OcrErrs::RemoteRejected(refusal),
        ),
        has_substring(refusal.spec_message(), sent@),
{
    let shown = refusal.spec_message();
    let at = "Server Response: "@.len() as int;
    assert(shown.subrange(at, at + sent@.len()) =~= sent@);
    assert(crate::text::occurs_at(shown, sent@, at));
}

/// The client's configuration: the base address of the service.
#[derive(Debug)]
pub struct OcrClient {
    pub base: String,
}

impl OcrClient {
    /// A client for the service at `addr`, which must be an absolute URL.
    pub fn new(addr: &str) -> (r: OcrResult<OcrClient>)
        ensures
            match url_parsed(addr@) {
                Some(text) => r matches Ok(client) && client.base@ == text,
                None => r matches Err(OcrErrs::InvalidEndpoint(_)),
            },
    {
        match parse_url(addr) {
            Ok(base) => Ok(OcrClient { base }),
            Err(e) => Err(OcrErrs::InvalidEndpoint(e)),
        }
    }

    /// The request that posts `data` under `file_name` to `url_path` below
    /// the base address, where that is a URL.
    pub open spec fn spec_bytes_req(
        &self,
        url_path: Seq<char>,
        data: Seq<u8>,
        file_name: Seq<char>,
        upload: Upload,
    ) -> bool {
        &&& Some(upload.url@) == url_joined(self.base@, url_path)
        &&& upload.part_name@ == PART_NAME@
        &&& upload.file_name@ == file_name
        &&& upload.body@ == data
    }

    /// The request that posts `data` under `file_name` to `url_path` below
    /// the base address. The file name is always attached.
    pub fn bytes_req(&self, url_path: &str, data: Vec<u8>, file_name: &str) -> (r: OcrResult<
        Upload,
    >)
        ensures
            match url_joined(self.base@, url_path@) {
                Some(_) => r matches Ok(upload) && self.spec_bytes_req(
                    url_path@,
                    data@,
                    file_name@,
                    upload,
                ),
                None => r matches Err(OcrErrs::InvalidEndpoint(_)),
            },
    {
        match join_url(self.base.as_str(), url_path) {
            Ok(url) => Ok(
                Upload {
                    url,
                    part_name: String::from_str(PART_NAME),
                    file_name: String::from_str(file_name),
                    body: data,
                },
            ),
            Err(e) => Err(OcrErrs::InvalidEndpoint(e)),
        }
    }

    /// The request that posts `img`, encoded as JPEG, to `url_path`.
    pub fn img_req(&self, url_path: &str, img: &RasterImage) -> (r: OcrResult<Upload>)
        ensures
            match (img.spec_jpeg(), url_joined(self.base@, url_path@)) {
                (Some(jpeg), Some(_)) => r matches Ok(upload) && self.spec_bytes_req(
                    url_path@,
                    jpeg,
                    INVOICE_FILE_NAME@,
                    upload,
                ),
                (Some(_), None) => r matches Err(OcrErrs::InvalidEndpoint(_)),
                (None, _) => r matches Err(OcrErrs::Image(_)),
            },
    {
        match img.to_jpeg() {
            Ok(bytes) => self.bytes_req(url_path, bytes, INVOICE_FILE_NAME),
            Err(e) => Err(OcrErrs::Image(e)),
        }
    }

    /// The request that asks the service for the invoice fields of `img`.
    pub fn get_invoice_info(&self, img: &RasterImage) -> (r: OcrResult<Upload>)
        ensures
            match (img.spec_jpeg(), url_joined(self.base@, INVOICE_PATH@)) {
                (Some(jpeg), Some(_)) => r matches Ok(upload) && self.spec_bytes_req(
                    INVOICE_PATH@,
                    jpeg,
                    INVOICE_FILE_NAME@,
                    upload,
                ),
                (Some(_), None) => r matches Err(OcrErrs::InvalidEndpoint(_)),
                (None, _) => r matches Err(OcrErrs::Image(_)),
            },
    {
        self.img_req(INVOICE_PATH, img)
    }

    /// What `get_doc_info` hands back for `doc`: the request that posts its
    /// bytes under its name, where the address allows one.
    pub open spec fn spec_get_doc_info(&self, doc: OcrDoc, r: OcrResult<Upload>) -> bool {
        match url_joined(self.base@, DOC_PATH@) {
            Some(_) => r matches Ok(upload) && self.spec_bytes_req(
                DOC_PATH@,
                doc.bytes@,
                doc.name@,
                upload,
            ),
            None => r matches Err(OcrErrs::InvalidEndpoint(_)),
        }
    }

    /// The request that asks the service to read `doc`.
    pub fn get_doc_info(&self, doc: OcrDoc) -> (r: OcrResult<Upload>)
        ensures
            self.spec_get_doc_info(doc, r),
    {
        self.bytes_req(DOC_PATH, doc.bytes, doc.name)
    }

    /// What comes of preparing the upload of one picture: the request that
    /// posts its PNG file under the name for unnamed pictures, or the reason
    /// why there is none.
    pub open spec fn spec_ocr_img(&self, img: RasterImage, r: OcrResult<Upload>) -> bool {
        match (img.spec_png(), url_joined(self.base@, DOC_PATH@)) {
            (Some(png), Some(_)) => r matches Ok(upload) && self.spec_bytes_req(
                DOC_PATH@,
                png,
                UNNAMED_IMAGE@,
                upload,
            ),
            (Some(_), None) => r matches Err(OcrErrs::InvalidEndpoint(_)),
            (None, _) => r matches Err(OcrErrs::Image(_)),
        }
    }

    /// The error recorded for a picture that could not be turned into a
    /// request says why.
    pub open spec fn spec_not_sent(&self, img: RasterImage, recorded: OcrResult<ParsedDoc>) -> bool {
        match (img.spec_png(), url_joined(self.base@, DOC_PATH@)) {
            (Some(_), Some(_)) => false,
            (Some(_), None) => recorded matches Err(OcrErrs::InvalidEndpoint(_)),
            (None, _) => recorded matches Err(OcrErrs::Image(_)),
        }
    }
}

} // verus!
