//! What is taken from a PDF file: its embedded pictures.
//!
//! The engine that opens the file is the caller's. It reports, page by page,
//! what it found; this module decides what becomes of the report.

pub mod doc;

use crate::err::OcrErrs;
use crate::err::OcrResult;
use crate::img::RasterImage;
use crate::pdf::doc::PdfDoc;
use crate::server::docling::ParsedDoc;
use vstd::prelude::*;

verus! {

/// One drawable object of a page, as the engine reports it.
#[derive(Debug)]
pub enum PageObject {
    /// An image object whose pixels were decoded.
    Image(RasterImage),
    /// An image object whose pixels could not be decoded.
    BrokenImage,
    /// Anything else: text, a path, a form.
    Other,
}

/// The pictures among the objects of one page, in their order.
pub open spec fn page_images(objects: Seq<PageObject>) -> Seq<RasterImage>
    decreases objects.len(),
{
    if objects.len() == 0 {
        Seq::empty()
    } else {
        match objects.last() {
            PageObject::Image(img) => page_images(objects.drop_last()).push(img),
            _ => page_images(objects.drop_last()),
        }
    }
}

/// The pictures of all pages, page after page.
pub open spec fn embedded_images(pages: Seq<Vec<PageObject>>) -> Seq<RasterImage>
    decreases pages.len(),
{
    if pages.len() == 0 {
        Seq::empty()
    } else {
        embedded_images(pages.drop_last()) + page_images(pages.last()@)
    }
}

pub struct PdfEngine {}

impl PdfEngine {
    pub fn new() -> Self {
        PdfEngine {  }
    }

    /// The document over `bytes`, given the engine's report of them: the
    /// objects of each page in order, or why the bytes did not load.
    ///
    /// Every image object whose pixels were decoded becomes an embedded
    /// picture; one that could not be decoded is passed over in silence. No
    /// picture has a result yet.
    pub fn doc(&self, bytes: Vec<u8>, scan: Result<Vec<Vec<PageObject>>, String>) -> (r: OcrResult<
        PdfDoc,
    >)
        ensures
            match scan {
                Ok(pages) => r matches Ok(doc) && doc.spec_bytes() == bytes@ && doc.spec_imgs()
                    == embedded_images(pages@) && doc.spec_parsed_doc() == Seq::<
                    OcrResult<ParsedDoc>,
                >::empty(),
                Err(report) => r == Err::<PdfDoc, OcrErrs>(OcrErrs::MalformedPdf(report)),
            },
    {
        let pages = match scan {
            Ok(pages) => pages,
            Err(report) => {
                return Err(OcrErrs::MalformedPdf(report));
            },
        };
        let mut imgs: Vec<RasterImage> = Vec::new();
        let ghost all = pages@;
        for page in pit: pages
            invariant
                pit.seq() == all,
                imgs@ == embedded_images(all.take(pit.index() as int)),
        {
            let ghost done = imgs@;
            let ghost objects = page@;
            for object in oit: page
                invariant
                    oit.seq() == objects,
                    imgs@ == done + page_images(objects.take(oit.index() as int)),
            {
                proof {
                    let n = oit.index() as int;
                    assert(objects.take(n + 1).drop_last() == objects.take(n));
                    assert(objects.take(n + 1).last() == object);
                }
                match object {
                    PageObject::Image(img) => {
                        imgs.push(img);
                    },
                    _ => {},
                }
            }
            proof {
                let n = pit.index() as int;
                assert(objects.take(objects.len() as int) == objects);
                assert(all.take(n + 1).drop_last() == all.take(n));
                assert(all.take(n + 1).last() == page);
            }
        }
        assert(all.take(all.len() as int) == all);
        Ok(PdfDoc::from_parts(bytes, imgs))
    }
}

} // verus!
