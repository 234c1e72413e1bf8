use ocr_client::img::RasterImage;

fn chequered(width: u32, height: u32) -> RasterImage {
    let mut pixels = Vec::new();
    for y in 0..height {
        for x in 0..width {
            let on = (x + y) % 2 == 0;
            pixels.push(if on { 250 } else { 10 });
            pixels.push((x * 30 % 256) as u8);
            pixels.push((y * 50 % 256) as u8);
            pixels.push(255);
        }
    }
    RasterImage::new(width, height, pixels).unwrap()
}

#[test]
fn picture_needs_four_bytes_for_each_pixel() {
    assert!(RasterImage::new(2, 3, vec![0; 24]).is_some());
    assert!(RasterImage::new(2, 3, vec![0; 23]).is_none());
    assert!(RasterImage::new(2, 3, vec![0; 25]).is_none());
    assert!(RasterImage::new(2, 3, vec![0; 28]).is_none());
    assert!(RasterImage::new(0, 7, Vec::new()).is_some());
    assert!(RasterImage::new(0, 0, vec![0; 4]).is_none());
    assert!(RasterImage::new(u32::MAX, u32::MAX, vec![0; 4]).is_none());
}

#[test]
fn picture_keeps_what_it_was_made_of() {
    let img = RasterImage::new(1, 2, vec![1, 2, 3, 4, 5, 6, 7, 8]).unwrap();
    assert_eq!(img.width(), 1);
    assert_eq!(img.height(), 2);
    assert_eq!(img.pixels(), &vec![1, 2, 3, 4, 5, 6, 7, 8]);
    let copy = img.duplicate();
    assert_eq!(copy.width(), 1);
    assert_eq!(copy.height(), 2);
    assert_eq!(copy.pixels(), img.pixels());
}

#[test]
fn rgb_drops_every_fourth_byte() {
    let img = RasterImage::new(1, 2, vec![1, 2, 3, 4, 5, 6, 7, 8]).unwrap();
    assert_eq!(img.to_rgb8(), vec![1, 2, 3, 5, 6, 7]);
    let empty = RasterImage::new(0, 0, Vec::new()).unwrap();
    assert_eq!(empty.to_rgb8(), Vec::<u8>::new());
}

#[test]
fn png_file_holds_the_same_pixels() {
    let img = chequered(5, 3);
    let png = img.to_png().unwrap();
    assert_eq!(&png[..8], &[0x89, b'P', b'N', b'G', 0x0D, 0x0A, 0x1A, 0x0A]);
    assert_ne!(&png, img.pixels());
    let back = image::load_from_memory(&png).unwrap();
    assert_eq!(back.color(), image::ColorType::Rgba8);
    assert_eq!(back.width(), 5);
    assert_eq!(back.height(), 3);
    assert_eq!(&back.to_rgba8().into_raw(), img.pixels());
}

#[test]
fn png_file_is_what_the_image_crate_writes() {
    let img = chequered(4, 4);
    let buffer = image::RgbaImage::from_raw(4, 4, img.pixels().clone()).unwrap();
    let mut expected = Vec::new();
    image::DynamicImage::ImageRgba8(buffer)
        .write_to(&mut std::io::Cursor::new(&mut expected), image::ImageFormat::Png)
        .unwrap();
    assert_eq!(img.to_png().unwrap(), expected);
}

#[test]
fn jpeg_file_has_the_same_size() {
    let img = chequered(16, 8);
    let jpeg = img.to_jpeg().unwrap();
    assert_eq!(&jpeg[..2], &[0xFF, 0xD8]);
    let back = image::load_from_memory(&jpeg).unwrap();
    assert_eq!(back.width(), 16);
    assert_eq!(back.height(), 8);
    assert_eq!(back.color(), image::ColorType::Rgb8);
}

#[test]
fn jpeg_file_is_what_the_image_crate_writes() {
    let img = chequered(8, 8);
    let buffer = image::RgbaImage::from_raw(8, 8, img.pixels().clone()).unwrap();
    let mut expected = Vec::new();
    image::DynamicImage::ImageRgba8(buffer)
        .to_rgb8()
        .write_to(&mut std::io::Cursor::new(&mut expected), image::ImageFormat::Jpeg)
        .unwrap();
    assert_eq!(img.to_jpeg().unwrap(), expected);
}

#[test]
fn picture_without_pixels_cannot_be_encoded() {
    let empty = RasterImage::new(0, 0, Vec::new()).unwrap();
    assert!(empty.to_png().is_err());
}
