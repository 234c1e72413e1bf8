//! Raster images as the pipeline sees them, and their encodings for upload.

use image::codecs::jpeg::JpegEncoder;
use image::codecs::png::PngEncoder;
use image::ExtendedColorType;
use image::ImageEncoder;
use image::ImageError;
use vstd::prelude::*;

verus! {

#[verifier::external_type_specification]
#[verifier::external_body]
pub struct ExImageError(ImageError);

/// The PNG file that the `image` crate writes for an 8-bit RGBA picture of
/// the given size, or `None` where its encoder reports an error.
pub uninterp spec fn png_encoding(width: int, height: int, rgba: Seq<u8>) -> Option<Seq<u8>>;

/// The JPEG file that the `image` crate writes for an 8-bit RGB picture of
/// the given size, or `None` where its encoder reports an error.
pub uninterp spec fn jpeg_encoding(width: int, height: int, rgb: Seq<u8>) -> Option<Seq<u8>>;

/// The colour channels of an RGBA pixel buffer: every fourth byte, the alpha
/// channel, is left out.
pub open spec fn rgb_of(rgba: Seq<u8>) -> Seq<u8> {
    Seq::new(3 * (rgba.len() / 4), |i: int| rgba[(i / 3) * 4 + i % 3])
}

/// A decoded picture: `width * height` pixels in row-major order, four bytes
/// each (red, green, blue, alpha).
#[derive(Debug)]
pub struct RasterImage {
    width: u32,
    height: u32,
    pixels: Vec<u8>,
}

impl RasterImage {
    #[verifier::type_invariant]
    spec fn well_formed(self) -> bool {
        self.pixels@.len() == 4 * self.width * self.height
    }

    pub closed spec fn spec_width(&self) -> u32 {
        self.width
    }

    pub closed spec fn spec_height(&self) -> u32 {
        self.height
    }

    pub closed spec fn spec_pixels(&self) -> Seq<u8> {
        self.pixels@
    }

    /// A picture of the given size over `pixels`, if the buffer has exactly
    /// four bytes for each pixel.
    pub fn new(width: u32, height: u32, pixels: Vec<u8>) -> (r: Option<RasterImage>)
        ensures
            r is Some <==> pixels@.len() == 4 * width * height,
            r matches Some(img) ==> img.spec_width() == width && img.spec_height() == height
                && img.spec_pixels() == pixels@,
    {
        assert(width * height <= 0xFFFF_FFFF * 0xFFFF_FFFF && 4 * width * height == 4 * (width
            * height)) by (nonlinear_arith)
            requires
                width <= 0xFFFF_FFFF,
                height <= 0xFFFF_FFFF,
        ;
        let area: u64 = (width as u64) * (height as u64);
        let len = pixels.len();
        if len % 4 == 0 && (len / 4) as u64 == area {
            Some(RasterImage { width, height, pixels })
        } else {
            None
        }
    }

    #[verifier::when_used_as_spec(spec_width)]
    pub fn width(&self) -> (w: u32)
        ensures
            w == self.spec_width(),
    {
        self.width
    }

    #[verifier::when_used_as_spec(spec_height)]
    pub fn height(&self) -> (h: u32)
        ensures
            h == self.spec_height(),
    {
        self.height
    }

    /// The pixel bytes, red, green, blue and alpha in turn: four for each
    /// pixel.
    pub fn pixels(&self) -> (p: &Vec<u8>)
        ensures
            p@ == self.spec_pixels(),
            p@.len() == 4 * self.spec_width() * self.spec_height(),
    {
        proof {
            use_type_invariant(self);
        }
        &self.pixels
    }

    /// A second picture with the same size and pixels.
    pub fn duplicate(&self) -> (copy: RasterImage)
        ensures
            copy.spec_width() == self.spec_width(),
            copy.spec_height() == self.spec_height(),
            copy.spec_pixels() == self.spec_pixels(),
    {
        proof {
            use_type_invariant(self);
        }
        let mut pixels: Vec<u8> = Vec::with_capacity(self.pixels.len());
        let mut i: usize = 0;
        while i < self.pixels.len()
            invariant
                i <= self.pixels.len(),
                pixels@ == self.pixels@.take(i as int),
            decreases self.pixels.len() - i,
        {
            pixels.push(self.pixels[i]);
            i += 1;
        }
        assert(pixels@ == self.pixels@);
        RasterImage { width: self.width, height: self.height, pixels }
    }

    /// The picture without its alpha channel: three bytes for each pixel.
    pub fn to_rgb8(&self) -> (rgb: Vec<u8>)
        ensures
            rgb@ == rgb_of(self.spec_pixels()),
            rgb@.len() == 3 * self.spec_width() * self.spec_height(),
    {
        proof {
            use_type_invariant(self);
        }
        assert(4 * self.width * self.height == 4 * (self.width * self.height) && 3 * self.width
            * self.height == 3 * (self.width * self.height)) by (nonlinear_arith);
        let count: usize = self.pixels.len() / 4;
        let mut rgb: Vec<u8> = Vec::new();
        let mut p: usize = 0;
        while p < count
            invariant
                4 * count == self.pixels.len(),
                p <= count,
                rgb@.len() == 3 * p,
                forall|i: int|
                    0 <= i < 3 * p ==> rgb@[i] == self.pixels@[(i / 3) * 4 + i % 3],
            decreases count - p,
        {
            rgb.push(self.pixels[4 * p]);
            rgb.push(self.pixels[4 * p + 1]);
            rgb.push(self.pixels[4 * p + 2]);
            p += 1;
        }
        assert(rgb@ =~= rgb_of(self.pixels@));
        rgb
    }

    /// The picture as a PNG file.
    pub fn to_png(&self) -> (r: Result<Vec<u8>, ImageError>)
        ensures
            r is Ok <==> self.spec_png() is Some,
            r matches Ok(bytes) ==> Some(bytes@) == self.spec_png(),
    {
        proof {
            use_type_invariant(self);
        }
        png_encode(&self.pixels, self.width, self.height)
    }

    /// The picture as a JPEG file, which has no alpha channel.
    pub fn to_jpeg(&self) -> (r: Result<Vec<u8>, ImageError>)
        ensures
            r is Ok <==> self.spec_jpeg() is Some,
            r matches Ok(bytes) ==> Some(bytes@) == self.spec_jpeg(),
    {
        let rgb = self.to_rgb8();
        jpeg_encode(&rgb, self.width, self.height)
    }

    /// The PNG file of this picture, where it can be encoded.
    pub open spec fn spec_png(&self) -> Option<Seq<u8>> {
        png_encoding(self.spec_width() as int, self.spec_height() as int, self.spec_pixels())
    }

    /// The JPEG file of this picture, where it can be encoded.
    pub open spec fn spec_jpeg(&self) -> Option<Seq<u8>> {
        jpeg_encoding(
            self.spec_width() as int,
            self.spec_height() as int,
            rgb_of(self.spec_pixels()),
        )
    }
}

/// `PngEncoder::new` and `ImageEncoder::write_image` of the `image` crate, on
/// an 8-bit RGBA buffer. The encoder panics unless the buffer holds four bytes
/// for each pixel, so that is required. What it writes depends on the
/// arguments alone; the contract only gives that result its name.
#[verifier::external_body]
fn png_encode(rgba: &Vec<u8>, width: u32, height: u32) -> (r: Result<Vec<u8>, ImageError>)
    requires
        rgba@.len() == 4 * width * height,
    ensures
        r is Ok <==> png_encoding(width as int, height as int, rgba@) is Some,
        r matches Ok(bytes) ==> Some(bytes@) == png_encoding(width as int, height as int, rgba@),
{
    let mut out: Vec<u8> = Vec::new();
    PngEncoder::new(&mut out).write_image(rgba, width, height, ExtendedColorType::Rgba8)?;
    Ok(out)
}

/// `JpegEncoder::new` and `ImageEncoder::write_image` of the `image` crate, on
/// an 8-bit RGB buffer. The encoder panics unless the buffer holds three bytes
/// for each pixel, so that is required. What it writes depends on the
/// arguments alone; the contract only gives that result its name.
#[verifier::external_body]
fn jpeg_encode(rgb: &Vec<u8>, width: u32, height: u32) -> (r: Result<Vec<u8>, ImageError>)
    requires
        rgb@.len() == 3 * width * height,
    ensures
        r is Ok <==> jpeg_encoding(width as int, height as int, rgb@) is Some,
        r matches Ok(bytes) ==> Some(bytes@) == jpeg_encoding(width as int, height as int, rgb@),
{
    let mut out: Vec<u8> = Vec::new();
    JpegEncoder::new(&mut out).write_image(rgb, width, height, ExtendedColorType::Rgb8)?;
    Ok(out)
}

} // verus!
