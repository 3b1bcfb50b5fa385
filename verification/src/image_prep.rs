//! Image preparation pipeline: turn an arbitrary-size source image into
//! device-ready encoded bytes. The pipeline is resize-to-fill to the fixed
//! tile dimension, a 180-degree rotation (the panel mounts its displays
//! upside down), then encoding — JPEG for the MK.2 family, BMP for the
//! first generation.
//!
//! Resizing, decoding and encoding are done by the `image` crate behind
//! trusted wrappers whose results are named, uninterpreted functions of
//! their inputs alone; the rotation is implemented and verified here. Every
//! step is a function of the source pixels and the model, so preparation is
//! deterministic: identical input yields byte-identical output.

use vstd::prelude::*;

use crate::constants::{DeviceModel, IMAGE_SIZE, JPEG_QUALITY};
use crate::errors::DeckError;

verus! {

/// Byte length of one raw RGB tile at the fixed device dimension.
pub const TILE_BYTES: usize = 72 * 72 * 3;

/// Largest source dimension the pipeline accepts. It keeps the resize
/// scaling arithmetic inside u32 — beyond roughly u32::MAX / 72 the
/// resizer clamps the scaled dimension and the result is no longer the
/// exact tile size — and is far above any real image.
pub const MAX_IMAGE_DIMENSION: u32 = 0x0100_0000;

/// A raw 8-bit RGB image held as plain values: three bytes per pixel in
/// row-major order.
#[derive(Clone, Debug)]
pub struct PixelImage {
    pub width: u32,
    pub height: u32,
    pub pixels: Vec<u8>,
}

impl PixelImage {
    /// The pixel buffer holds exactly three bytes for each pixel.
    pub open spec fn wf(&self) -> bool {
        self.pixels@.len() == self.width as int * self.height as int * 3
    }

    /// An all-black image of the given dimensions.
    pub fn black(width: u32, height: u32) -> (img: PixelImage)
        requires
            width as int * height as int * 3 <= usize::MAX as int,
        ensures
            img.wf(),
            img.width == width,
            img.height == height,
            img.pixels@ == Seq::new((width as int * height as int * 3) as nat, |i: int| 0u8),
    {
        let count: usize = (width as usize) * (height as usize) * 3;
        let pixels: Vec<u8> = vec![0u8; count];
        assert(pixels@ =~= Seq::new((width as int * height as int * 3) as nat, |i: int| 0u8));
        PixelImage { width, height, pixels }
    }
}

/// The 180-degree rotation of a packed RGB buffer: the order of the pixels
/// is reversed while each pixel keeps its own channel order.
pub open spec fn spec_rotate180(pixels: Seq<u8>) -> Seq<u8> {
    let npix = pixels.len() as int / 3;
    Seq::new(pixels.len(), |i: int| pixels[3 * (npix - 1 - i / 3) + i % 3])
}

/// Rotate a packed RGB buffer by 180 degrees.
pub fn rotate180_pixels(pixels: &Vec<u8>) -> (out: Vec<u8>)
    requires
        pixels@.len() % 3 == 0,
    ensures
        out@ == spec_rotate180(pixels@),
{
    let len = pixels.len();
    let npix = len / 3;
    let mut out: Vec<u8> = Vec::new();
    let mut p: usize = 0;
    while p < npix
        invariant
            len == pixels@.len(),
            len % 3 == 0,
            npix == len / 3,
            p <= npix,
            out@.len() == 3 * p,
            forall|i: int|
                0 <= i < 3 * p ==> #[trigger] out@[i] == pixels@[3 * (npix - 1 - i / 3) + i % 3],
        decreases npix - p,
    {
        let base = 3 * (npix - 1 - p);
        out.push(pixels[base]);
        out.push(pixels[base + 1]);
        out.push(pixels[base + 2]);
        p = p + 1;
    }
    assert(out@ =~= spec_rotate180(pixels@));
    out
}

/// Rotating twice gives back the original buffer.
pub proof fn lemma_rotate180_involutive(pixels: Seq<u8>)
    requires
        pixels.len() % 3 == 0,
    ensures
        spec_rotate180(spec_rotate180(pixels)) == pixels,
{
    assert(spec_rotate180(spec_rotate180(pixels)) =~= pixels);
}

/// What the resize-to-fill step yields on a given RGB buffer: an
/// uninterpreted function of the source pixels and dimensions alone. The
/// resampling arithmetic is floating-point, so this is exact on a given
/// platform; last-bit rounding may differ across platforms.
pub uninterp spec fn spec_resized(pixels: Seq<u8>, width: int, height: int) -> Seq<u8>;

/// What JPEG encoding yields on a given RGB buffer at a given quality: an
/// uninterpreted function of its arguments alone, exact on a given
/// platform.
pub uninterp spec fn spec_jpeg_bytes(
    pixels: Seq<u8>,
    width: int,
    height: int,
    quality: int,
) -> Seq<u8>;

/// What BMP encoding yields on a given RGB buffer: an uninterpreted
/// function of its arguments alone.
pub uninterp spec fn spec_bmp_bytes(pixels: Seq<u8>, width: int, height: int) -> Seq<u8>;

/// What decoding an image file's bytes yields, as (width, height, RGB
/// pixels): an uninterpreted function of the encoded bytes alone.
pub uninterp spec fn spec_decoded_rgb(bytes: Seq<u8>) -> (int, int, Seq<u8>);

/// Whether decoding the image file's bytes succeeds: the success half of
/// the same decode result, also a function of the encoded bytes alone.
pub uninterp spec fn spec_decodes(bytes: Seq<u8>) -> bool;

/// Relies on `image::DynamicImage::resize_to_fill` with the Lanczos3
/// filter: the result is scaled and center-cropped to exactly the tile
/// dimension, and depends only on the source pixels and dimensions. The
/// dimension bound matters: it keeps the scaled-up dimension far below
/// u32::MAX, where the resizer would clamp it and the crop could come
/// out smaller than the tile.
#[verifier::external_body]
fn resize_fill_tile(pixels: &Vec<u8>, width: u32, height: u32) -> (out: Vec<u8>)
    requires
        1 <= width <= MAX_IMAGE_DIMENSION,
        1 <= height <= MAX_IMAGE_DIMENSION,
        pixels@.len() == width as int * height as int * 3,
    ensures
        out@ == spec_resized(pixels@, width as int, height as int),
        out@.len() == TILE_BYTES as int,
{
    let buf = image::RgbImage::from_raw(width, height, pixels.clone())
        .expect("pixel buffer length matches the dimensions");
    let resized = image::DynamicImage::ImageRgb8(buf).resize_to_fill(
        IMAGE_SIZE,
        IMAGE_SIZE,
        image::imageops::FilterType::Lanczos3,
    );
    resized.into_rgb8().into_raw()
}

/// Relies on `image::codecs::jpeg::JpegEncoder::new_with_quality` and
/// `encode`: the encoded bytes depend only on the raw pixels, the
/// dimensions and the quality setting. The call cannot fail here: the
/// dimensions fit in a non-zero u16, the buffer length matches them
/// exactly, and writing to the in-memory cursor never errors.
#[verifier::external_body]
fn encode_jpeg_tile(pixels: &Vec<u8>, width: u32, height: u32, quality: u8) -> (r: Result<
    Vec<u8>,
    DeckError,
>)
    requires
        1 <= width < 65536,
        1 <= height < 65536,
        pixels@.len() == width as int * height as int * 3,
    ensures
        r is Ok,
        r->Ok_0@ == spec_jpeg_bytes(pixels@, width as int, height as int, quality as int),
{
    let mut cursor = std::io::Cursor::new(Vec::new());
    let mut encoder = image::codecs::jpeg::JpegEncoder::new_with_quality(&mut cursor, quality);
    match encoder.encode(pixels.as_slice(), width, height, image::ExtendedColorType::Rgb8) {
        Ok(()) => Ok(cursor.into_inner()),
        Err(_) => Err(DeckError::Encode),
    }
}

/// Relies on `image::DynamicImage::write_to` with `ImageFormat::Bmp`: the
/// encoded bytes depend only on the raw pixels and the dimensions. The
/// call cannot fail here: RGB is a supported BMP layout, the bound on the
/// dimensions keeps the encoder's u32 size arithmetic (rows padded to
/// four bytes, plus the 54 header bytes) from overflowing, and writing to
/// the in-memory cursor never errors.
#[verifier::external_body]
fn encode_bmp_tile(pixels: &Vec<u8>, width: u32, height: u32) -> (r: Result<Vec<u8>, DeckError>)
    requires
        width >= 1,
        height >= 1,
        pixels@.len() == width as int * height as int * 3,
        width as int * height as int * 3 + 4 * height as int + 54 <= u32::MAX as int,
    ensures
        r is Ok,
        r->Ok_0@ == spec_bmp_bytes(pixels@, width as int, height as int),
{
    let buf = image::RgbImage::from_raw(width, height, pixels.clone())
        .expect("pixel buffer length matches the dimensions");
    let mut cursor = std::io::Cursor::new(Vec::new());
    match image::DynamicImage::ImageRgb8(buf).write_to(&mut cursor, image::ImageFormat::Bmp) {
        Ok(()) => Ok(cursor.into_inner()),
        Err(_) => Err(DeckError::Encode),
    }
}

/// Relies on `image::load_from_memory` and `DynamicImage::into_rgb8`:
/// whether the bytes decode, and what they decode to, are both functions
/// of the encoded bytes alone; on success the result is the decoded image
/// as raw RGB with its dimensions, and the pixel buffer length matches
/// the dimensions.
#[verifier::external_body]
pub(crate) fn decode_image_rgb(bytes: &Vec<u8>) -> (r: Result<PixelImage, DeckError>)
    ensures
        (r is Ok) == spec_decodes(bytes@),
        r is Ok ==> {
            let img = r->Ok_0;
            &&& img.wf()
            &&& (img.width as int, img.height as int, img.pixels@) == spec_decoded_rgb(bytes@)
        },
        r is Err ==> r->Err_0 == DeckError::Decode,
{
    match image::load_from_memory(bytes.as_slice()) {
        Ok(img) => {
            let rgb = img.into_rgb8();
            let (width, height) = (rgb.width(), rgb.height());
            Ok(PixelImage { width, height, pixels: rgb.into_raw() })
        },
        Err(_) => Err(DeckError::Decode),
    }
}

/// The device-ready bytes for a source image on a given model: the source
/// is resized to fill the tile, rotated 180 degrees, then encoded with the
/// model's format (JPEG at the fixed quality for MK.2, BMP for the first
/// generation).
pub open spec fn spec_prepared(
    pixels: Seq<u8>,
    width: int,
    height: int,
    model: DeviceModel,
) -> Seq<u8> {
    let tile = spec_rotate180(spec_resized(pixels, width, height));
    match model {
        DeviceModel::Mk2 => spec_jpeg_bytes(
            tile,
            IMAGE_SIZE as int,
            IMAGE_SIZE as int,
            JPEG_QUALITY as int,
        ),
        DeviceModel::Original => spec_bmp_bytes(tile, IMAGE_SIZE as int, IMAGE_SIZE as int),
    }
}

/// Turn a source image into device-ready encoded bytes for the given
/// model. Preparation always succeeds: the resized tile has the exact
/// dimensions and buffer length the encoders need, so neither encoder can
/// fail. The result is exactly the bytes that `spec_prepared` names for
/// this input.
pub fn prepare(image: &PixelImage, model: DeviceModel) -> (r: Result<Vec<u8>, DeckError>)
    requires
        image.wf(),
        1 <= image.width <= MAX_IMAGE_DIMENSION,
        1 <= image.height <= MAX_IMAGE_DIMENSION,
    ensures
        r is Ok,
        r->Ok_0@ == spec_prepared(
            image.pixels@,
            image.width as int,
            image.height as int,
            model,
        ),
{
    let resized = resize_fill_tile(&image.pixels, image.width, image.height);
    let rotated = rotate180_pixels(&resized);
    match model {
        DeviceModel::Mk2 => encode_jpeg_tile(&rotated, IMAGE_SIZE, IMAGE_SIZE, JPEG_QUALITY),
        DeviceModel::Original => encode_bmp_tile(&rotated, IMAGE_SIZE, IMAGE_SIZE),
    }
}

/// The encoded bytes that clear a button: an all-black tile prepared for
/// the given model. Like any preparation, this always succeeds.
pub fn blank(model: DeviceModel) -> (r: Result<Vec<u8>, DeckError>)
    ensures
        r is Ok,
        r->Ok_0@ == spec_prepared(
            Seq::new(TILE_BYTES as nat, |i: int| 0u8),
            IMAGE_SIZE as int,
            IMAGE_SIZE as int,
            model,
        ),
{
    let black = PixelImage::black(IMAGE_SIZE, IMAGE_SIZE);
    prepare(&black, model)
}

/// Preparation is deterministic: the prepared bytes are a function of the
/// source pixels, the source dimensions and the model alone, so two runs
/// on identical input yield byte-identical output.
pub proof fn lemma_prepare_deterministic(
    pixels: Seq<u8>,
    width: int,
    height: int,
    model: DeviceModel,
    r1: Seq<u8>,
    r2: Seq<u8>,
)
    requires
        r1 == spec_prepared(pixels, width, height, model),
        r2 == spec_prepared(pixels, width, height, model),
    ensures
        r1 == r2,
{
}

} // verus!
