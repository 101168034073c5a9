use combine_images::errors::ImageDataErrors;
use combine_images::grid::{decode_pixel_grid, PixelGrid};

#[test]
fn new_accepts_exact_rgba_buffer() {
    let g = PixelGrid::new(2, 3, vec![0u8; 2 * 3 * 4]).unwrap();
    assert_eq!(g.width, 2);
    assert_eq!(g.height, 3);
    assert_eq!(g.data.len(), 24);
}

#[test]
fn new_rejects_zero_dimensions_and_wrong_length() {
    assert!(PixelGrid::new(0, 3, vec![0u8; 0]).is_none());
    assert!(PixelGrid::new(3, 0, vec![0u8; 0]).is_none());
    assert!(PixelGrid::new(2, 2, vec![0u8; 15]).is_none());
    assert!(PixelGrid::new(2, 2, vec![0u8; 17]).is_none());
}

#[test]
fn new_rejects_pixel_count_beyond_u32_bytes() {
    assert!(PixelGrid::new(0x1_0000, 0x1_0000, Vec::new()).is_none());
}

#[test]
fn decode_recovers_encoded_pixels() {
    // encode a 2x1 RGBA image as PNG in memory, then decode it back: the
    // grid must hold the original pixels, not the encoded bytes.
    let pixels: Vec<u8> = vec![255, 0, 0, 255, 0, 0, 255, 128];
    let img = image::RgbaImage::from_raw(2, 1, pixels.clone()).unwrap();
    let mut encoded: Vec<u8> = Vec::new();
    img.write_to(&mut std::io::Cursor::new(&mut encoded), image::ImageFormat::Png).unwrap();
    assert_ne!(encoded, pixels);

    let grid = decode_pixel_grid(&encoded).unwrap();
    assert_eq!((grid.width, grid.height), (2, 1));
    assert_eq!(grid.data, pixels);
}

#[test]
fn decode_rejects_malformed_bytes() {
    let garbage = vec![1u8, 2, 3, 4, 5, 6, 7, 8];
    match decode_pixel_grid(&garbage) {
        Err(ImageDataErrors::UnableToDecodeImage(_)) => {}
        other => panic!("expected UnableToDecodeImage, got {:?}", other.map(|_| ())),
    }
}
