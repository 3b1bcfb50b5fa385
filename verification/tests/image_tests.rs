//! Tests for the image preparation pipeline: rotation, encoding by model,
//! determinism, and decode failures.

use deckcore::constants::DeviceModel;
use deckcore::image_prep::{PixelImage, blank, prepare, rotate180_pixels};

fn gradient_image(width: u32, height: u32) -> PixelImage {
    let mut pixels = Vec::new();
    for y in 0..height {
        for x in 0..width {
            pixels.push((x * 7 % 256) as u8);
            pixels.push((y * 13 % 256) as u8);
            pixels.push(((x + y) * 3 % 256) as u8);
        }
    }
    PixelImage { width, height, pixels }
}

#[test]
fn rotate180_reverses_pixel_order() {
    let pixels = vec![1u8, 2, 3, 4, 5, 6, 7, 8, 9];
    let rotated = rotate180_pixels(&pixels);
    assert_eq!(rotated, vec![7, 8, 9, 4, 5, 6, 1, 2, 3]);
}

#[test]
fn rotate180_twice_is_identity() {
    let pixels: Vec<u8> = (0..30u8).collect();
    let once = rotate180_pixels(&pixels);
    let twice = rotate180_pixels(&once);
    assert_eq!(twice, pixels);
}

#[test]
fn prepare_mk2_yields_jpeg() {
    let img = gradient_image(100, 50);
    let encoded = prepare(&img, DeviceModel::Mk2).expect("prepare succeeds");
    assert!(encoded.len() > 2);
    assert_eq!(&encoded[0..2], &[0xFF, 0xD8], "JPEG start-of-image marker");
    assert_ne!(encoded, img.pixels, "encoding transforms the pixels");
}

#[test]
fn prepare_original_yields_bmp() {
    let img = gradient_image(100, 50);
    let encoded = prepare(&img, DeviceModel::Original).expect("prepare succeeds");
    assert!(encoded.len() > 2);
    assert_eq!(&encoded[0..2], b"BM", "BMP magic");
    assert_ne!(encoded, img.pixels, "encoding transforms the pixels");
}

#[test]
fn prepare_is_deterministic_for_both_models() {
    let img1 = gradient_image(64, 96);
    let img2 = gradient_image(64, 96);
    for model in [DeviceModel::Mk2, DeviceModel::Original] {
        let a = prepare(&img1, model).expect("prepare succeeds");
        let b = prepare(&img2, model).expect("prepare succeeds");
        assert_eq!(a, b, "identical input gives byte-identical output");
    }
}

#[test]
fn prepare_small_image_is_upscaled_to_tile() {
    // A 2x2 source must still produce a valid 72x72 tile encoding.
    let img = gradient_image(2, 2);
    let encoded = prepare(&img, DeviceModel::Original).expect("prepare succeeds");
    assert_eq!(&encoded[0..2], b"BM");
    // An uncompressed 72x72 BMP carries at least the raw pixel payload.
    assert!(encoded.len() >= 72 * 72 * 3);
}

#[test]
fn blank_tile_encodes_for_both_models() {
    let jpeg = blank(DeviceModel::Mk2).expect("blank succeeds");
    assert_eq!(&jpeg[0..2], &[0xFF, 0xD8]);
    let bmp = blank(DeviceModel::Original).expect("blank succeeds");
    assert_eq!(&bmp[0..2], b"BM");
}

#[test]
fn blank_is_deterministic() {
    let a = blank(DeviceModel::Mk2).expect("blank succeeds");
    let b = blank(DeviceModel::Mk2).expect("blank succeeds");
    assert_eq!(a, b);
}

#[test]
fn black_builds_all_zero_pixels() {
    let img = PixelImage::black(3, 2);
    assert_eq!(img.width, 3);
    assert_eq!(img.height, 2);
    assert_eq!(img.pixels, vec![0u8; 18]);
}
