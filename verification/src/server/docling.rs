//! Documents as the service reads them, and documents as they are sent to it.

use crate::err::OcrErrs;
use crate::err::OcrResult;
use crate::img::RasterImage;
use crate::pattern::is_match;
use crate::pattern::is_plain_word;
use crate::pattern::occurs_ignoring_case;
use crate::pattern::occurs_ignoring_case_at;
use crate::pattern::same_ignoring_ascii_case;
use crate::pattern::regex_matches;
use crate::pattern::regex_valid;
use crate::server::OcrClient;
use crate::server::Upload;
use crate::text::chars_of;
use crate::text::ends_with;
use crate::text::find_chars;
use crate::text::has_substring;
use vstd::prelude::*;

verus! {

/// Where on a page a run of text was found. Each edge is kept as the bit
/// pattern of the 64-bit binary number that the service sent, so that it
/// passes through unchanged.
#[derive(Debug)]
pub struct BoundingBox {
    pub t: u64,
    pub l: u64,
    pub r: u64,
    pub b: u64,
    pub coord_origin: String,
}

/// Where a run of text came from: the page, the place on it, and the span of
/// characters.
#[derive(Debug)]
pub struct Prov {
    pub page_no: usize,
    pub bbox: BoundingBox,
    pub charspan: [usize; 2],
}

/// One run of text that the service read.
#[derive(Debug)]
pub struct OcrText {
    pub prov: Vec<Prov>,
    pub text: String,
}

/// All the text that the service read in one document or picture.
#[derive(Debug)]
pub struct ParsedDoc {
    pub texts: Vec<OcrText>,
}

impl ParsedDoc {
    /// Some run of text holds `needle`, letter for letter.
    pub open spec fn spec_contains(&self, needle: Seq<char>) -> bool {
        exists|i: int| 0 <= i < self.texts@.len() && has_substring(self.texts@[i].text@, needle)
    }

    /// Some run of text is matched by `needle`, read as a pattern without
    /// regard to case.
    pub open spec fn spec_contains_insensitive(&self, needle: Seq<char>) -> bool {
        exists|i: int|
            0 <= i < self.texts@.len() && regex_matches(needle, true, self.texts@[i].text@)
    }

    /// Whether some run of text holds `needle`. The search is case
    /// sensitive.
    pub fn contains(&self, needle: &str) -> (found: bool)
        ensures
            found == self.spec_contains(needle@),
    {
        let wanted = chars_of(needle);
        let mut i: usize = 0;
        while i < self.texts.len()
            invariant
                i <= self.texts.len(),
                wanted@ == needle@,
                forall|j: int| 0 <= j < i ==> !has_substring(self.texts@[j].text@, needle@),
            decreases self.texts.len() - i,
        {
            let hay = chars_of(self.texts[i].text.as_str());
            if find_chars(&hay, &wanted) {
                return true;
            }
            i += 1;
        }
        false
    }

    /// Some run of text holds `word`, but for the case of ASCII letters.
    pub open spec fn spec_holds_word(&self, word: Seq<char>) -> bool {
        exists|i: int|
            0 <= i < self.texts@.len() && occurs_ignoring_case(self.texts@[i].text@, word)
    }

    /// Whether some run of text is matched by `needle`, read as a pattern
    /// without regard to case. The pattern must be one that compiles. A
    /// needle made of letters and digits is found wherever a run of text
    /// holds it, in whatever case.
    pub fn contains_insensitive(&self, needle: &str) -> (found: bool)
        requires
            regex_valid(needle@, true),
        ensures
            found == self.spec_contains_insensitive(needle@),
            is_plain_word(needle@) && self.spec_holds_word(needle@) ==> found,
    {
        let mut i: usize = 0;
        while i < self.texts.len()
            invariant
                i <= self.texts.len(),
                regex_valid(needle@, true),
                forall|j: int| 0 <= j < i ==> !regex_matches(needle@, true, self.texts@[j].text@),
                is_plain_word(needle@) ==> forall|j: int|
                    0 <= j < i ==> !occurs_ignoring_case(self.texts@[j].text@, needle@),
            decreases self.texts.len() - i,
        {
            match is_match(needle, true, self.texts[i].text.as_str()) {
                Ok(true) => {
                    return true;
                },
                _ => {},
            }
            i += 1;
        }
        false
    }

    /// As `contains_insensitive`, for any `needle`: `None` where it does not
    /// compile as a pattern.
    pub fn try_contains_insensitive(&self, needle: &str) -> (found: Option<bool>)
        ensures
            found == if regex_valid(needle@, true) {
                Some(self.spec_contains_insensitive(needle@))
            } else {
                None
            },
            is_plain_word(needle@) && self.spec_holds_word(needle@) ==> found != Some(false),
    {
        match is_match(needle, true, "") {
            Ok(_) => Some(self.contains_insensitive(needle)),
            Err(_) => None,
        }
    }

    /// A document with `word` in one of its runs contains it, letter for
    /// letter, and holds every spelling of it that differs only in the case
    /// of ASCII letters.
    pub proof fn lemma_contains_found(&self, i: int, word: Seq<char>, spelling: Seq<char>)
        requires
            0 <= i < self.texts@.len(),
            has_substring(self.texts@[i].text@, word),
            same_ignoring_ascii_case(word, spelling),
        ensures
            self.spec_contains(word),
            self.spec_holds_word(spelling),
    {
        let hay = self.texts@[i].text@;
        let at = choose|at: int| crate::text::occurs_at(hay, word, at);
        assert(occurs_ignoring_case_at(hay, spelling, at));
    }
}

/// The kinds of file that the service reads.
#[derive(Debug, Clone, Copy, PartialEq, Eq, PartialOrd, Ord, Structural)]
pub enum DocType {
    Word,
    Pdf,
    /// Images are sent as PNG.
    Img,
}

/// The name given to a picture that has no file name of its own.
pub const UNNAMED_IMAGE: &'static str = "[Unknown].png";

/// The kind of file that a name announces by its ending, if it is one that
/// the service reads. Letter case counts.
pub open spec fn doc_type_of(name: Seq<char>) -> Option<DocType> {
    if ".doc"@.is_suffix_of(name) || ".docx"@.is_suffix_of(name) {
        Some(DocType::Word)
    } else if ".pdf"@.is_suffix_of(name) {
        Some(DocType::Pdf)
    } else if ".jpg"@.is_suffix_of(name) || ".jpeg"@.is_suffix_of(name) || ".tif"@.is_suffix_of(
        name,
    ) || ".tiff"@.is_suffix_of(name) || ".png"@.is_suffix_of(name) {
        Some(DocType::Img)
    } else {
        None
    }
}

/// A document as it is sent to the service: its kind, its file name and its
/// bytes.
#[derive(Debug, Clone)]
pub struct OcrDoc<'a> {
    /// Type of the document
    pub ty: DocType,
    /// name of the file
    pub name: &'a str,
    /// bytes
    pub bytes: Vec<u8>,
}

impl<'a> OcrDoc<'a> {
    /// The document with this name and these bytes, if the name ends like a
    /// file that the service reads.
    pub fn new(name: &'a str, bytes: Vec<u8>) -> (r: Option<Self>)
        ensures
            match doc_type_of(name@) {
                Some(ty) => r matches Some(doc) && doc.ty == ty && doc.name@ == name@ && doc.bytes
                    == bytes,
                None => r is None,
            },
    {
        let ty = if ends_with(name, ".doc") || ends_with(name, ".docx") {
            DocType::Word
        } else if ends_with(name, ".pdf") {
            DocType::Pdf
        } else if ends_with(name, ".jpg") || ends_with(name, ".jpeg") || ends_with(name, ".tif")
            || ends_with(name, ".tiff") || ends_with(name, ".png") {
            DocType::Img
        } else {
            return None;
        };
        Some(Self { ty, name, bytes })
    }

    /// The picture as a document: a PNG file under the name for pictures
    /// that have none.
    pub fn from_img(img: &RasterImage) -> (r: OcrResult<Self>)
        ensures
            match img.spec_png() {
                Some(png) => r matches Ok(doc) && doc.ty == DocType::Img && doc.name@
                    == UNNAMED_IMAGE@ && doc.bytes@ == png,
                None => r matches Err(OcrErrs::Image(_)),
            },
    {
        match img.to_png() {
            Ok(bytes) => Ok(Self { ty: DocType::Img, name: UNNAMED_IMAGE, bytes }),
            Err(e) => Err(OcrErrs::Image(e)),
        }
    }

    /// The request that asks `client`'s service to read this document.
    pub fn parse(self, client: &OcrClient) -> (r: OcrResult<Upload>)
        ensures
            client.spec_get_doc_info(self, r),
    {
        client.get_doc_info(self)
    }
}

} // verus!
