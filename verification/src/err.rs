//! The ways in which the pipeline can fail.

use crate::text::has_substring;
use crate::text::occurs_at;
use image::ImageError;
use url::ParseError;
use vstd::prelude::*;
use vstd::string::*;

verus! {

pub type OcrResult<T> = Result<T, OcrErrs>;

/// Why an operation of the pipeline did not produce its result.
#[derive(Debug)]
pub enum OcrErrs {
    /// The bytes do not load as a PDF; the text is the engine's report.
    MalformedPdf(String),
    /// The document loads but has no page to render.
    NoPages,
    /// The engine could not render the page; the text is its report.
    RenderFailure(String),
    /// The service address, or a path joined to it, is not a URL.
    InvalidEndpoint(ParseError),
    /// The request did not reach the service or no answer came back.
    Transport(String),
    /// An answer came back, but its body is not of the expected shape.
    MalformedResponse(String),
    /// The service understood the request and refused it.
    RemoteRejected(OCRServerErr),
    /// A result was offered for an image that the document does not have.
    IndexOutOfRange,
    /// A picture could not be encoded for upload.
    Image(ImageError),
}

impl OcrErrs {
    /// The text shown for this error. A report that came with the error is
    /// part of it, and a refusal by the service is shown in the service's own
    /// words.
    pub open spec fn spec_message(&self) -> Seq<char> {
        match *self {
            OcrErrs::MalformedPdf(report) => "The bytes do not load as a PDF: "@ + report@,
            OcrErrs::NoPages => "The document has no page"@,
            OcrErrs::RenderFailure(report) => "The page could not be rendered: "@ + report@,
            OcrErrs::InvalidEndpoint(_) => "The service address is not a URL"@,
            OcrErrs::Transport(report) => "The request was not answered: "@ + report@,
            OcrErrs::MalformedResponse(report) => "The answer has an unexpected shape: "@
                + report@,
            OcrErrs::RemoteRejected(refusal) => refusal.spec_message(),
            OcrErrs::IndexOutOfRange =>
                "A result was offered for an image that the document does not have"@,
            OcrErrs::Image(_) => "A picture could not be encoded"@,
        }
    }

    /// The text shown for this error. For a refusal it holds the message
    /// that the service sent.
    pub fn message(&self) -> (s: String)
        ensures
            s@ == self.spec_message(),
            self matches OcrErrs::RemoteRejected(refusal) ==> (refusal.error matches Some(sent)
                ==> has_substring(s@, sent@)),
    {
        match self {
            OcrErrs::MalformedPdf(report) => String::from_str(
                "The bytes do not load as a PDF: ",
            ).concat(report.as_str()),
            OcrErrs::NoPages => String::from_str("The document has no page"),
            OcrErrs::RenderFailure(report) => String::from_str(
                "The page could not be rendered: ",
            ).concat(report.as_str()),
            OcrErrs::InvalidEndpoint(_) => String::from_str("The service address is not a URL"),
            OcrErrs::Transport(report) => String::from_str("The request was not answered: ").concat(
                report.as_str(),
            ),
            OcrErrs::MalformedResponse(report) => String::from_str(
                "The answer has an unexpected shape: ",
            ).concat(report.as_str()),
            OcrErrs::RemoteRejected(refusal) => refusal.message(),
            OcrErrs::IndexOutOfRange => String::from_str(
                "A result was offered for an image that the document does not have",
            ),
            OcrErrs::Image(_) => String::from_str("A picture could not be encoded"),
        }
    }
}

/// The body that the service sends with a status outside `200..300`.
///
/// `details` holds the JSON text of whatever structured value the service
/// attached.
#[derive(Debug)]
pub struct OCRServerErr {
    pub details: Option<String>,
    pub error: Option<String>,
}

impl OCRServerErr {
    /// The text shown for this error: the service's own message if it sent
    /// one, else the attached details, else a fixed sentence.
    pub open spec fn spec_message(&self) -> Seq<char> {
        match (self.error, self.details) {
            (Some(err), _) => "Server Response: "@ + err@,
            (None, Some(inner)) => inner@,
            (None, None) => "An error occurred on the server side"@,
        }
    }

    /// The text shown for this error. A message sent by the service is always
    /// part of it.
    pub fn message(&self) -> (s: String)
        ensures
            s@ == self.spec_message(),
            self.error matches Some(err) ==> has_substring(s@, err@),
    {
        match &self.error {
            Some(err) => {
                let s = String::from_str("Server Response: ").concat(err.as_str());
                proof {
                    let at = "Server Response: "@.len() as int;
                    assert(s@.subrange(at, at + err@.len()) =~= err@);
                    assert(occurs_at(s@, err@, at));
                }
                s
            },
            None => match &self.details {
                Some(inner) => inner.clone(),
                None => String::from_str("An error occurred on the server side"),
            },
        }
    }
}

} // verus!
