//! A loaded PDF: its bytes, the pictures embedded in it, and what the
//! service has read in each picture so far.
//!
//! The engine that opens and renders the file, and the network, are the
//! caller's. Each operation that needs them is a step: it takes what has
//! just happened and says what is to be done next.

use crate::err::OcrErrs;
use crate::err::OcrResult;
use crate::img::RasterImage;
use crate::pattern::is_plain_word;
use crate::pattern::regex_valid;
use crate::server::docling::OcrDoc;
use crate::server::docling::ParsedDoc;
use crate::server::invoice::dates_wf;
use crate::server::invoice::normalized;
use crate::server::invoice::InvoiceDetails;
use crate::server::invoice::InvoiceResponse;
use crate::server::settle;
use crate::server::settled;
use crate::server::url_joined;
use crate::server::OcrClient;
use crate::server::Reply;
use crate::server::Upload;
use crate::server::INVOICE_FILE_NAME;
use crate::server::INVOICE_PATH;
use vstd::prelude::*;

verus! {

/// The width in pixels of an A4 page at 200 dots to the inch.
pub const A4_WIDTH: u32 = 1654;

/// The height in pixels of an A4 page at 200 dots to the inch.
pub const A4_HEIGHT: u32 = 2339;

/// What has just happened in the reading of the embedded pictures.
#[derive(Debug)]
pub enum OcrEvent {
    /// Nothing yet: the caller asks what to do.
    Begin,
    /// The request that was last handed out has been sent, with this result.
    Replied(Reply<ParsedDoc>),
}

/// What the caller is to do next in the reading of the embedded pictures.
#[derive(Debug)]
pub enum OcrAction {
    /// Send this request and come back with what happened.
    Submit(Upload),
    /// Every picture has its result.
    Done,
}

/// What has just happened in the reading of the invoice fields.
#[derive(Debug)]
pub enum InvoiceEvent {
    /// Nothing yet: the caller asks what to do.
    Begin,
    /// The engine has opened the bytes and counted the pages, or reports why
    /// it could not.
    Opened(Result<usize, String>),
    /// The engine has rendered the first page, or reports why it could not.
    Rendered(Result<RasterImage, String>),
    /// The request that was handed out has been sent, with this result.
    Replied(Reply<InvoiceResponse>),
}

/// What the caller is to do next in the reading of the invoice fields.
#[derive(Debug)]
pub enum InvoiceAction {
    /// Open the document from its bytes and count its pages.
    Open,
    /// Render the first page, as it lies, to a picture of this size.
    Render { width: u32, height: u32 },
    /// Send this request and come back with what happened.
    Submit(Upload),
    /// The reading is over, with this result.
    Finish(OcrResult<InvoiceDetails>),
}

/// The size to render at: the caller's, if both sides are given, else that of
/// an A4 page at 200 dots to the inch.
pub open spec fn spec_render_size(width: Option<u32>, height: Option<u32>) -> (u32, u32) {
    match (width, height) {
        (Some(w), Some(h)) => (w, h),
        _ => (A4_WIDTH, A4_HEIGHT),
    }
}

#[verifier::when_used_as_spec(spec_render_size)]
pub fn render_size(width: Option<u32>, height: Option<u32>) -> (size: (u32, u32))
    ensures
        size == spec_render_size(width, height),
{
    match (width, height) {
        (Some(w), Some(h)) => (w, h),
        _ => (A4_WIDTH, A4_HEIGHT),
    }
}

/// A loaded PDF document.
#[derive(Debug)]
pub struct PdfDoc {
    bytes: Vec<u8>,
    imgs: Vec<RasterImage>,
    parsed_doc: Vec<OcrResult<ParsedDoc>>,
}

/// Pdf document that is possibly an invoice
#[derive(Debug)]
pub struct PdfInvoiceDoc {
    pub doc: PdfDoc,
    pub invoice_details: OcrResult<InvoiceDetails>,
}

impl PdfDoc {
    /// No picture has more than one result, and results are recorded in the
    /// order of the pictures: there are never more results than pictures.
    #[verifier::type_invariant]
    pub closed spec fn wf(self) -> bool {
        self.parsed_doc@.len() <= self.imgs@.len()
    }

    /// The bytes that the document was loaded from.
    pub closed spec fn spec_bytes(&self) -> Seq<u8> {
        self.bytes@
    }

    /// The embedded pictures, in the order of the file.
    pub closed spec fn spec_imgs(&self) -> Seq<RasterImage> {
        self.imgs@
    }

    /// The results recorded so far: the one at index `i` is that of picture
    /// `i`.
    pub closed spec fn spec_parsed_doc(&self) -> Seq<OcrResult<ParsedDoc>> {
        self.parsed_doc@
    }

    /// Every picture has its result.
    pub open spec fn complete(&self) -> bool {
        self.spec_parsed_doc().len() == self.spec_imgs().len()
    }

    /// A document over `bytes` with these pictures and no result yet.
    pub(crate) fn from_parts(bytes: Vec<u8>, imgs: Vec<RasterImage>) -> (doc: PdfDoc)
        ensures
            doc.spec_bytes() == bytes@,
            doc.spec_imgs() == imgs@,
            doc.spec_parsed_doc() == Seq::<OcrResult<ParsedDoc>>::empty(),
    {
        PdfDoc { bytes, imgs, parsed_doc: Vec::new() }
    }

    pub fn bytes(&self) -> (bytes: &Vec<u8>)
        ensures
            bytes@ == self.spec_bytes(),
    {
        &self.bytes
    }

    /// All embedded images found in this document
    pub fn imgs(&self) -> (imgs: &Vec<RasterImage>)
        ensures
            imgs@ == self.spec_imgs(),
    {
        &self.imgs
    }

    /// The results recorded so far, never more than there are pictures.
    pub fn parsed_doc(&self) -> (parsed: &Vec<OcrResult<ParsedDoc>>)
        ensures
            parsed@ == self.spec_parsed_doc(),
            parsed@.len() <= self.spec_imgs().len(),
    {
        proof {
            use_type_invariant(self);
        }
        &self.parsed_doc
    }

    /// Some picture that was read holds text matched by `needle`, read as a
    /// pattern without regard to case.
    pub open spec fn spec_contains_ocr(&self, needle: Seq<char>) -> bool {
        exists|i: int|
            0 <= i < self.spec_parsed_doc().len() && (#[trigger] self.spec_parsed_doc()[i] matches Ok(
                doc,
            ) && doc.spec_contains_insensitive(needle))
    }

    /// Some picture that was read holds `word` in its text, but for the case
    /// of ASCII letters.
    pub open spec fn spec_holds_word(&self, word: Seq<char>) -> bool {
        exists|i: int|
            0 <= i < self.spec_parsed_doc().len() && (#[trigger] self.spec_parsed_doc()[i] matches Ok(
                doc,
            ) && doc.spec_holds_word(word))
    }

    /// Some picture has been read: its result holds text.
    pub open spec fn spec_has_text(&self) -> bool {
        exists|i: int|
            0 <= i < self.spec_parsed_doc().len() && (#[trigger] self.spec_parsed_doc()[i]) is Ok
    }

    /// Whether some picture has been read.
    pub fn has_text(&self) -> (b: bool)
        ensures
            b == self.spec_has_text(),
    {
        let mut i: usize = 0;
        while i < self.parsed_doc.len()
            invariant
                i <= self.parsed_doc.len(),
                forall|j: int| 0 <= j < i ==> !((#[trigger] self.parsed_doc@[j]) is Ok),
            decreases self.parsed_doc.len() - i,
        {
            if self.parsed_doc[i].is_ok() {
                return true;
            }
            i += 1;
        }
        false
    }

    /// Whether the text read in the pictures so far is matched by `needle`.
    /// Pictures whose reading failed have no text. Where there is text,
    /// `needle` must be a pattern that compiles. A needle made of letters
    /// and digits is found wherever a picture that was read holds it, in
    /// whatever case.
    pub fn contains_ocr(&self, needle: &str) -> (found: bool)
        requires
            self.spec_has_text() ==> regex_valid(needle@, true),
        ensures
            found == self.spec_contains_ocr(needle@),
            is_plain_word(needle@) && self.spec_holds_word(needle@) ==> found,
    {
        let mut i: usize = 0;
        while i < self.parsed_doc.len()
            invariant
                i <= self.parsed_doc.len(),
                self.spec_has_text() ==> regex_valid(needle@, true),
                self.parsed_doc@ == self.spec_parsed_doc(),
                forall|j: int|
                    0 <= j < i ==> !(#[trigger] self.parsed_doc@[j] matches Ok(doc)
                        && doc.spec_contains_insensitive(needle@)),
                is_plain_word(needle@) ==> forall|j: int|
                    0 <= j < i ==> !(#[trigger] self.parsed_doc@[j] matches Ok(doc)
                        && doc.spec_holds_word(needle@)),
            decreases self.parsed_doc.len() - i,
        {
            match &self.parsed_doc[i] {
                Ok(doc) => {
                    assert(self.spec_parsed_doc()[i as int] is Ok);
                    if doc.contains_insensitive(needle) {
                        return true;
                    }
                },
                Err(_) => {},
            }
            i += 1;
        }
        false
    }

    /// Whether the document holds `needle`: in the text read in its pictures
    /// so far, or else in the text of the file itself. `native` is what the
    /// engine's own search of the file found, `None` where the file did not
    /// open, which counts as not found. Where some picture has been read,
    /// `needle` must be a pattern that compiles. A needle made of letters
    /// and digits that a read picture holds, in whatever case, is found
    /// whatever the file holds.
    pub fn contains(&self, needle: &str, native: Option<bool>) -> (found: bool)
        requires
            self.spec_has_text() ==> regex_valid(needle@, true),
        ensures
            found == (self.spec_contains_ocr(needle@) || native == Some(true)),
            is_plain_word(needle@) && self.spec_holds_word(needle@) ==> found,
    {
        if self.contains_ocr(needle) {
            return true;
        }
        match native {
            Some(hit) => hit,
            None => false,
        }
    }

    /// As `contains`, for any `needle`: `None` where some picture has been
    /// read and `needle` does not compile as a pattern.
    pub fn try_contains(&self, needle: &str, native: Option<bool>) -> (found: Option<bool>)
        ensures
            found == if self.spec_has_text() && !regex_valid(needle@, true) {
                None
            } else {
                Some(self.spec_contains_ocr(needle@) || native == Some(true))
            },
            is_plain_word(needle@) && self.spec_holds_word(needle@) ==> found != Some(false),
    {
        if self.has_text() {
            match crate::pattern::is_match(needle, true, "") {
                Ok(_) => Some(self.contains(needle, native)),
                Err(_) => None,
            }
        } else {
            Some(self.contains(needle, native))
        }
    }

    /// The request that asks `client`'s service to read one picture.
    pub fn ocr_img(client: &OcrClient, img: &RasterImage) -> (r: OcrResult<Upload>)
        ensures
            client.spec_ocr_img(*img, r),
    {
        match OcrDoc::from_img(img) {
            Ok(doc) => client.get_doc_info(doc),
            Err(e) => Err(e),
        }
    }

    /// Records the result of the first picture that has none.
    fn record(&mut self, outcome: OcrResult<ParsedDoc>)
        requires
            old(self).parsed_doc@.len() < old(self).imgs@.len(),
        ensures
            final(self).bytes@ == old(self).bytes@,
            final(self).imgs@ == old(self).imgs@,
            final(self).parsed_doc@ == old(self).parsed_doc@.push(outcome),
    {
        let mut held: Vec<OcrResult<ParsedDoc>> = Vec::new();
        core::mem::swap(&mut self.parsed_doc, &mut held);
        held.push(outcome);
        core::mem::swap(&mut self.parsed_doc, &mut held);
    }

    /// One step of `ocr`: how the document after the step and the answer
    /// relate to the document before it and to what happened.
    ///
    /// A reply is recorded for the first picture without a result; a reply
    /// that comes when every picture has one is refused and changes nothing.
    /// Then every picture that cannot be turned into a request gets the
    /// reason as its result, up to the first picture that can: its request
    /// is handed out. When no picture is left, the answer is `Done`.
    pub open spec fn ocr_step(
        pre: &PdfDoc,
        client: &OcrClient,
        event: OcrEvent,
        post: &PdfDoc,
        r: OcrResult<OcrAction>,
    ) -> bool {
        let before = pre.spec_parsed_doc();
        let after = post.spec_parsed_doc();
        let imgs = pre.spec_imgs();
        let start = match event {
            OcrEvent::Begin => before,
            OcrEvent::Replied(reply) => before.push(settled(reply)),
        };
        &&& post.spec_bytes() == pre.spec_bytes()
        &&& post.spec_imgs() == imgs
        &&& if event is Replied && pre.complete() {
            r matches Err(OcrErrs::IndexOutOfRange) && after == before
        } else {
            &&& start.len() <= after.len() <= imgs.len()
            &&& after.subrange(0, start.len() as int) == start
            &&& forall|k: int|
                start.len() <= k < after.len() ==> client.spec_not_sent(imgs[k], #[trigger] after[k])
            &&& match r {
                Ok(OcrAction::Done) => after.len() == imgs.len(),
                Ok(OcrAction::Submit(upload)) => after.len() < imgs.len() && client.spec_ocr_img(
                    imgs[after.len() as int],
                    Ok(upload),
                ),
                Err(_) => false,
            }
        }
    }

    /// Extract relevant data from images if possible, one step at a time.
    ///  - the caller sends each request that is handed out and comes back
    ///    with the reply, until the answer is `Done`
    ///  - this will assume the images are upright
    ///  - if an error occurs while sending a request, the error is recorded
    ///    at that index and the next picture is taken up
    ///  - only pictures without a result are sent
    #[verifier::loop_isolation(false)]
    pub fn ocr(&mut self, client: &OcrClient, event: OcrEvent) -> (r: OcrResult<OcrAction>)
        ensures
            Self::ocr_step(old(self), client, event, final(self), r),
    {
        proof {
            use_type_invariant(&*self);
        }
        let ghost before = self.parsed_doc@;
        match event {
            OcrEvent::Begin => {},
            OcrEvent::Replied(reply) => {
                if self.parsed_doc.len() >= self.imgs.len() {
                    return Err(OcrErrs::IndexOutOfRange);
                }
                self.record(settle(reply));
            },
        }
        let ghost start = self.parsed_doc@;
        while self.parsed_doc.len() < self.imgs.len()
            invariant
                self.bytes@ == old(self).bytes@,
                self.imgs@ == old(self).imgs@,
                start.len() <= self.parsed_doc@.len() <= self.imgs@.len(),
                self.parsed_doc@.subrange(0, start.len() as int) == start,
                forall|k: int|
                    start.len() <= k < self.parsed_doc@.len() ==> client.spec_not_sent(
                        self.imgs@[k],
                        #[trigger] self.parsed_doc@[k],
                    ),
            decreases self.imgs.len() - self.parsed_doc.len(),
        {
            let at = self.parsed_doc.len();
            match Self::ocr_img(client, &self.imgs[at]) {
                Ok(upload) => {
                    return Ok(OcrAction::Submit(upload));
                },
                Err(e) => {
                    let ghost held = self.parsed_doc@;
                    self.record(Err(e));
                    assert(self.parsed_doc@.subrange(0, start.len() as int) == held.subrange(
                        0,
                        start.len() as int,
                    ));
                },
            }
        }
        Ok(OcrAction::Done)
    }

    /// Once every picture has its result, asking again changes nothing and
    /// is answered `Done`: reading the pictures twice is reading them once.
    pub proof fn lemma_ocr_idempotent(
        pre: &PdfDoc,
        client: &OcrClient,
        post: &PdfDoc,
        r: OcrResult<OcrAction>,
    )
        requires
            pre.complete(),
            Self::ocr_step(pre, client, OcrEvent::Begin, post, r),
        ensures
            r == Ok::<OcrAction, OcrErrs>(OcrAction::Done),
            post.spec_parsed_doc() == pre.spec_parsed_doc(),
            post.spec_imgs() == pre.spec_imgs(),
            post.spec_bytes() == pre.spec_bytes(),
    {
        let before = pre.spec_parsed_doc();
        let after = post.spec_parsed_doc();
        assert(after.subrange(0, before.len() as int) == after);
    }

    /// When the answer is `Done`, every picture has its result.
    pub proof fn lemma_ocr_done_is_complete(
        pre: &PdfDoc,
        client: &OcrClient,
        event: OcrEvent,
        post: &PdfDoc,
        r: OcrResult<OcrAction>,
    )
        requires
            Self::ocr_step(pre, client, event, post, r),
            r == Ok::<OcrAction, OcrErrs>(OcrAction::Done),
        ensures
            post.complete(),
    {
    }

    /// A step never touches a result that is already recorded, and never
    /// leaves more results than pictures.
    pub proof fn lemma_ocr_monotonic(
        pre: &PdfDoc,
        client: &OcrClient,
        event: OcrEvent,
        post: &PdfDoc,
        r: OcrResult<OcrAction>,
        i: int,
    )
        requires
            pre.spec_parsed_doc().len() <= pre.spec_imgs().len(),
            Self::ocr_step(pre, client, event, post, r),
            0 <= i < pre.spec_parsed_doc().len(),
        ensures
            i < post.spec_parsed_doc().len(),
            post.spec_parsed_doc()[i] == pre.spec_parsed_doc()[i],
            post.spec_parsed_doc().len() <= post.spec_imgs().len(),
    {
        let before = pre.spec_parsed_doc();
        let after = post.spec_parsed_doc();
        if !(event is Replied && pre.complete()) {
            let start = match event {
                OcrEvent::Begin => before,
                OcrEvent::Replied(reply) => before.push(settled(reply)),
            };
            assert(after.subrange(0, start.len() as int)[i] == after[i]);
        }
    }

    /// One step of `invoice_info_wh`: the answer to what happened.
    ///
    /// The document is opened; without pages there is nothing to read. The
    /// first page is rendered at the size asked for, sent as a JPEG file,
    /// and the reply, if it is a payload, is read as an invoice. Whatever
    /// fails ends the reading with its error.
    pub open spec fn invoice_step(
        client: &OcrClient,
        size: (u32, u32),
        event: InvoiceEvent,
        action: InvoiceAction,
    ) -> bool {
        match event {
            InvoiceEvent::Begin => action is Open,
            InvoiceEvent::Opened(Err(report)) => action == InvoiceAction::Finish(
                Err(OcrErrs::MalformedPdf(report)),
            ),
            InvoiceEvent::Opened(Ok(pages)) => if pages == 0 {
                action == InvoiceAction::Finish(Err(OcrErrs::NoPages))
            } else {
                action == (InvoiceAction::Render { width: size.0, height: size.1 })
            },
            InvoiceEvent::Rendered(Err(report)) => action == InvoiceAction::Finish(
                Err(OcrErrs::RenderFailure(report)),
            ),
            InvoiceEvent::Rendered(Ok(img)) => match (
                img.spec_jpeg(),
                url_joined(client.base@, INVOICE_PATH@),
            ) {
                (Some(jpeg), Some(_)) => action matches InvoiceAction::Submit(upload)
                    && client.spec_bytes_req(INVOICE_PATH@, jpeg, INVOICE_FILE_NAME@, upload),
                (Some(_), None) => action matches InvoiceAction::Finish(
                    Err(OcrErrs::InvalidEndpoint(_)),
                ),
                (None, _) => action matches InvoiceAction::Finish(Err(OcrErrs::Image(_))),
            },
            InvoiceEvent::Replied(reply) => match settled(reply) {
                Ok(response) => action matches InvoiceAction::Finish(Ok(details)) && details@
                    == normalized(response@) && dates_wf(details.inv_date) && dates_wf(
                    details.due_date,
                ),
                Err(e) => action == InvoiceAction::Finish(Err(e)),
            },
        }
    }

    /// Get Invoice data, one step at a time, with the first page rendered
    /// at the size of an A4 page at 200 dots to the inch. Only the first
    /// page is read: most invoices hold what is needed there.
    pub fn invoice_info(&self, client: &OcrClient, event: InvoiceEvent) -> (action: InvoiceAction)
        ensures
            Self::invoice_step(client, (A4_WIDTH, A4_HEIGHT), event, action),
    {
        self.invoice_info_wh(client, None, None, event)
    }

    /// Get Invoice data, one step at a time. The first page is rendered at
    /// `width` by `height` pixels if both are given. Beware that no
    /// rotation is applied to the page.
    pub fn invoice_info_wh(
        &self,
        client: &OcrClient,
        width: Option<u32>,
        height: Option<u32>,
        event: InvoiceEvent,
    ) -> (action: InvoiceAction)
        ensures
            Self::invoice_step(client, render_size(width, height), event, action),
    {
        match event {
            InvoiceEvent::Begin => InvoiceAction::Open,
            InvoiceEvent::Opened(Err(report)) => InvoiceAction::Finish(
                Err(OcrErrs::MalformedPdf(report)),
            ),
            InvoiceEvent::Opened(Ok(pages)) => {
                if pages == 0 {
                    InvoiceAction::Finish(Err(OcrErrs::NoPages))
                } else {
                    let size = render_size(width, height);
                    InvoiceAction::Render { width: size.0, height: size.1 }
                }
            },
            InvoiceEvent::Rendered(Err(report)) => InvoiceAction::Finish(
                Err(OcrErrs::RenderFailure(report)),
            ),
            InvoiceEvent::Rendered(Ok(img)) => match client.get_invoice_info(&img) {
                Ok(upload) => InvoiceAction::Submit(upload),
                Err(e) => InvoiceAction::Finish(Err(e)),
            },
            InvoiceEvent::Replied(reply) => match settle(reply) {
                Ok(response) => InvoiceAction::Finish(Ok(InvoiceDetails::from(response))),
                Err(e) => InvoiceAction::Finish(Err(e)),
            },
        }
    }

    /// The document together with what came of reading it as an invoice.
    pub fn into_invoice_doc(self, invoice_details: OcrResult<InvoiceDetails>) -> (r: PdfInvoiceDoc)
        ensures
            r.doc == self,
            r.invoice_details == invoice_details,
    {
        PdfInvoiceDoc { doc: self, invoice_details }
    }
}

} // verus!
