use cubes::texture::TextureData;
use cubes::texture::TextureError;
use cubes::texture::depth_extent;
use image::RgbaImage;
use std::io::Cursor;

fn png_bytes(width: u32, height: u32, pixels: &[u8]) -> Vec<u8> {
    let img = RgbaImage::from_raw(width, height, pixels.to_vec()).unwrap();
    let mut out = Cursor::new(Vec::new());
    image::DynamicImage::ImageRgba8(img)
        .write_to(&mut out, image::ImageOutputFormat::Png)
        .unwrap();
    out.into_inner()
}

/// Decoding an encoded image recovers its size, its pixels, and the
/// 4-bytes-per-pixel upload layout.
#[test]
fn decode_recovers_pixels_and_layout() {
    let pixels: Vec<u8> = (0u8..24).map(|b| b.wrapping_mul(10)).collect();
    let bytes = png_bytes(2, 3, &pixels);
    let data = TextureData::new(&bytes).unwrap();
    assert_eq!(data.width, 2);
    assert_eq!(data.height, 3);
    assert_eq!(data.bytes_per_row, 8);
    assert_eq!(data.rgba, pixels);
}

/// A single white pixel decodes to exactly four 0xff bytes.
#[test]
fn decode_single_pixel() {
    let bytes = png_bytes(1, 1, &[0xff, 0xff, 0xff, 0xff]);
    let data = TextureData::new(&bytes).unwrap();
    assert_eq!(data.width, 1);
    assert_eq!(data.height, 1);
    assert_eq!(data.bytes_per_row, 4);
    assert_eq!(data.rgba, vec![0xff, 0xff, 0xff, 0xff]);
}

/// Bytes that are no image are rejected as a decode error.
#[test]
fn garbage_bytes_are_rejected() {
    assert_eq!(TextureData::new(&[0x00, 0x01, 0x02, 0x03]).unwrap_err(), TextureError::Decode);
    assert_eq!(TextureData::new(&[]).unwrap_err(), TextureError::Decode);
}

/// The depth texture extent is the frame size, raised to at least one
/// pixel per dimension.
#[test]
fn depth_extent_clamps_to_one() {
    assert_eq!(depth_extent(0, 0), (1, 1));
    assert_eq!(depth_extent(0, 5), (1, 5));
    assert_eq!(depth_extent(7, 0), (7, 1));
    assert_eq!(depth_extent(640, 480), (640, 480));
}
