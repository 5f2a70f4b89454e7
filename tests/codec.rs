use imgbatch::raster::{decode_raster, DecodeError};
use rgb::FromSlice;

fn png_bytes(width: u32, height: u32) -> Vec<u8> {
    let mut img = image::RgbaImage::new(width, height);
    for (x, y, p) in img.enumerate_pixels_mut() {
        *p = image::Rgba([(x * 40) as u8, (y * 40) as u8, 128, 255]);
    }
    let mut out = std::io::Cursor::new(Vec::new());
    img.write_to(&mut out, image::ImageFormat::Png).unwrap();
    out.into_inner()
}

#[test]
fn decode_png_to_rgba() {
    let bytes = png_bytes(3, 2);
    let r = decode_raster(&bytes).ok().unwrap();
    assert_eq!(r.width, 3);
    assert_eq!(r.height, 2);
    assert_eq!(r.pixels.len(), 24);
    assert_eq!(&r.pixels[0..4], &[0, 0, 128, 255]);
    assert_eq!(&r.pixels[4..8], &[40, 0, 128, 255]);
}

#[test]
fn decode_rejects_garbage() {
    match decode_raster(b"definitely not an image") {
        Err(DecodeError::Image(_)) => {}
        _ => panic!("garbage must not decode"),
    }
}

#[test]
fn decoded_raster_encodes_to_webp() {
    let r = decode_raster(&png_bytes(8, 8)).ok().unwrap();
    let encoder = webp::Encoder::from_rgba(&r.pixels, r.width, r.height);
    let data = encoder.encode(80.0);
    assert!(data.len() > 0);
}

#[test]
fn decoded_raster_encodes_to_avif() {
    let r = decode_raster(&png_bytes(8, 8)).ok().unwrap();
    let img = imgref::Img::new(r.pixels.as_rgba(), r.width as usize, r.height as usize);
    let res = ravif::Encoder::new().with_quality(80.0).with_speed(10).encode_rgba(img).unwrap();
    assert!(res.avif_file.len() > 0);
}
