//! 8-bit RGB frames and the image codecs applied to them: decoding ordinary
//! images, fitting them into a bounding box, and encoding JPEG and PNG.

use vstd::prelude::*;
use crate::error::AppError;

verus! {

#[verifier::external_type_specification]
#[verifier::external_body]
pub struct ExImageError(image::ImageError);

/// An 8-bit sRGB image: `width` x `height` pixels of three bytes each, row
/// by row. The buffer may be longer than the pixels need.
#[derive(Debug, Clone)]
pub struct RgbFrame {
    width: u32,
    height: u32,
    pixels: Vec<u8>,
}

/// Bytes taken by the pixels of a `width` x `height` RGB image.
pub open spec fn rgb_len(width: int, height: int) -> int {
    3 * width * height
}

impl RgbFrame {
    pub closed spec fn w(&self) -> u32 {
        self.width
    }

    pub closed spec fn h(&self) -> u32 {
        self.height
    }

    pub closed spec fn data(&self) -> Seq<u8> {
        self.pixels@
    }

    /// The buffer holds the pixels.
    pub open spec fn wf(&self) -> bool {
        rgb_len(self.w() as int, self.h() as int) <= self.data().len()
    }

    /// The buffer holds the pixels and nothing more.
    pub open spec fn is_exact(&self) -> bool {
        rgb_len(self.w() as int, self.h() as int) == self.data().len()
    }

    /// A frame over `pixels`, if they are enough for `width` x `height`
    /// (`ImageBuffer::from_raw`).
    pub fn from_raw(width: u32, height: u32, pixels: Vec<u8>) -> (r: Option<RgbFrame>)
        ensures
            r is Some <==> rgb_len(width as int, height as int) <= pixels@.len(),
            r matches Some(f) ==> f.w() == width && f.h() == height && f.data() == pixels@,
    {
        assert(3 * (width as int) * (height as int) <= 3 * 0xffff_ffffint * 0xffff_ffffint)
            by (nonlinear_arith)
            requires
                width <= 0xffff_ffff,
                height <= 0xffff_ffff,
        ;
        let need: u128 = 3u128 * (width as u128) * (height as u128);
        if need <= pixels.len() as u128 {
            Some(RgbFrame { width, height, pixels })
        } else {
            None
        }
    }

    pub fn width(&self) -> (r: u32)
        ensures
            r == self.w(),
    {
        self.width
    }

    pub fn height(&self) -> (r: u32)
        ensures
            r == self.h(),
    {
        self.height
    }

    /// The raw buffer, as `ImageBuffer::as_raw` returns it.
    pub fn as_raw(&self) -> (r: &[u8])
        ensures
            r@ == self.data(),
    {
        self.pixels.as_slice()
    }

    /// The raw buffer.
    pub fn into_raw(self) -> (r: Vec<u8>)
        ensures
            r@ == self.data(),
    {
        self.pixels
    }
}

/// The box an image of `width` x `height` must be scaled into, given
/// maximum dimensions of which 0 means unbounded; none when it already fits.
pub open spec fn resize_bounds_of(width: int, height: int, max_width: int, max_height: int) -> Option<(int, int)> {
    if max_width == 0 && max_height == 0 {
        None
    } else {
        let target_w = if max_width > 0 { max_width } else { width };
        let target_h = if max_height > 0 { max_height } else { height };
        if width <= target_w && height <= target_h {
            None
        } else {
            Some((target_w, target_h))
        }
    }
}

/// Whether an image of `width` x `height` must be scaled down to fit
/// `max_width` x `max_height` (0 meaning unbounded), and into which box.
pub fn resize_bounds(width: u32, height: u32, max_width: usize, max_height: usize) -> (r: Option<(usize, usize)>)
    ensures
        match resize_bounds_of(width as int, height as int, max_width as int, max_height as int) {
            Some((tw, th)) => r == Some((tw as usize, th as usize)),
            None => r is None,
        },
        r is None <==> ((max_width == 0 || width <= max_width) && (max_height == 0 || height
            <= max_height)),
        r matches Some((tw, th)) ==> (tw == (if max_width > 0 { max_width } else { width as usize })
            && th == (if max_height > 0 { max_height } else { height as usize })),
{
    if max_width == 0 && max_height == 0 {
        return None;
    }
    let w = width as usize;
    let h = height as usize;
    let target_w = if max_width > 0 { max_width } else { w };
    let target_h = if max_height > 0 { max_height } else { h };
    if w <= target_w && h <= target_h {
        None
    } else {
        Some((target_w, target_h))
    }
}

/// A frame is scaled exactly when it exceeds a nonzero bound in some side,
/// and then into the box of the nonzero bounds, its own side standing in for
/// an unbounded one.
pub proof fn lemma_resize_exactly_when_exceeding(width: nat, height: nat, max_width: nat, max_height: nat)
    ensures
        resize_bounds_of(width as int, height as int, max_width as int, max_height as int) is None
            <==> ((max_width == 0 || width <= max_width) && (max_height == 0 || height <= max_height)),
        resize_bounds_of(width as int, height as int, max_width as int, max_height as int) matches Some((tw, th))
            ==> (tw == (if max_width > 0 { max_width as int } else { width as int }) && th == (if max_height > 0 {
            max_height as int
        } else {
            height as int
        })),
{
}

/// A frame that needs no scaling is left as it is; one that does is scaled
/// into a box no larger than the target in the dimension that needed it.
pub proof fn lemma_resize_bounds_shrink(width: nat, height: nat, max_width: nat, max_height: nat)
    ensures
        resize_bounds_of(width as int, height as int, max_width as int, max_height as int) matches Some((tw, th)) ==> (
        tw < width || th < height),
        resize_bounds_of(width as int, height as int, 0, 0) is None,
{
}

/// What `image`'s JPEG encoder writes for an RGB image at a quality.
pub uninterp spec fn jpeg_encoding(width: u32, height: u32, pixels: Seq<u8>, quality: u8) -> Seq<u8>;

/// What `image`'s PNG encoder writes for an RGB image.
pub uninterp spec fn png_encoding(width: u32, height: u32, pixels: Seq<u8>) -> Seq<u8>;

/// `JpegEncoder::new_with_quality(..).write_image(.., Rgb8)` into a byte
/// vector. The encoder asserts that the buffer is exactly the pixels, and
/// fails only on a dimension outside 1..=65535 (writes into a vector do not
/// fail). The bytes themselves are the encoder's and are only named.
#[verifier::external_body]
fn jpeg_encode(pixels: &[u8], width: u32, height: u32, quality: u8) -> (r: Result<Vec<u8>, image::ImageError>)
    requires
        pixels@.len() == rgb_len(width as int, height as int),
    ensures
        r is Ok <==> (1 <= width <= 65535 && 1 <= height <= 65535),
        r matches Ok(b) ==> b@ == jpeg_encoding(width, height, pixels@, quality),
{
    let mut buf = std::io::Cursor::new(Vec::new());
    let encoder = image::codecs::jpeg::JpegEncoder::new_with_quality(&mut buf, quality);
    match image::ImageEncoder::write_image(encoder, pixels, width, height, image::ExtendedColorType::Rgb8) {
        Ok(()) => Ok(buf.into_inner()),
        Err(e) => Err(e),
    }
}

/// `PngEncoder::new(..).write_image(.., Rgb8)` into a byte vector. The
/// encoder asserts that the buffer is exactly the pixels, and fails only on
/// an empty image (writes into a vector do not fail). The bytes themselves
/// are the encoder's and are only named.
#[verifier::external_body]
fn png_encode(pixels: &[u8], width: u32, height: u32) -> (r: Result<Vec<u8>, image::ImageError>)
    requires
        pixels@.len() == rgb_len(width as int, height as int),
    ensures
        r is Ok <==> (width >= 1 && height >= 1),
        r matches Ok(b) ==> b@ == png_encoding(width, height, pixels@),
{
    let mut buf = std::io::Cursor::new(Vec::new());
    let encoder = image::codecs::png::PngEncoder::new(&mut buf);
    match image::ImageEncoder::write_image(encoder, pixels, width, height, image::ExtendedColorType::Rgb8) {
        Ok(()) => Ok(buf.into_inner()),
        Err(e) => Err(e),
    }
}

/// `ImageError`'s `Display` text; nothing is stated of it.
#[verifier::external_body]
fn image_error_text(e: &image::ImageError) -> String {
    e.to_string()
}

/// The size of the image that `image::load_from_memory` decodes from the
/// bytes; none when they do not decode.
pub uninterp spec fn decoded_size(bytes: Seq<u8>) -> Option<(u32, u32)>;

/// The size `DynamicImage::resize` gives an image of `width` x `height`
/// fitted into `max_width` x `max_height` (computed by the crate in floating
/// point and rounded).
pub uninterp spec fn fitted_size(width: u32, height: u32, max_width: u32, max_height: u32) -> (u32, u32);

/// The RGB pixels of the image decoded from `bytes` by
/// `image::load_from_memory`, fitted into `max_width` x `max_height` by
/// `DynamicImage::resize` (Lanczos3) and converted by `to_rgb8`.
pub uninterp spec fn decoded_fitted_pixels(bytes: Seq<u8>, max_width: u32, max_height: u32) -> Seq<u8>;

/// The RGB pixels of the `width` x `height` image held in `pixels`, fitted
/// into `max_width` x `max_height` by `DynamicImage::resize` (Lanczos3).
pub uninterp spec fn resized_pixels(
    width: u32,
    height: u32,
    pixels: Seq<u8>,
    max_width: u32,
    max_height: u32,
) -> Seq<u8>;

/// `n`, or 1 when it is 0: the most a side can measure after fitting into a
/// box with side `n`.
pub open spec fn at_least_one(n: u32) -> int {
    if n == 0 {
        1
    } else {
        n as int
    }
}

/// `image::load_from_memory`, then `DynamicImage::resize` with the Lanczos3
/// filter, then `to_rgb8`. Whether the bytes decode, the decoded size, the
/// fitted size and the pixels are the crate's and only named. Stated from
/// its source: decoders fill a buffer of exactly the pixels; resizing into
/// the image's own size returns it as it is, and otherwise makes a new image
/// of at least 1 x 1 whose sides (rounded from the exact ratio) do not
/// exceed the box, or 1 where the box side is 0; `to_rgb8` keeps the size.
#[verifier::external_body]
fn decode_fit(bytes: &[u8], max_w: u32, max_h: u32) -> (r: Result<RgbFrame, image::ImageError>)
    ensures
        r is Ok <==> decoded_size(bytes@) is Some,
        r matches Ok(f) ==> f.is_exact() && f.data() == decoded_fitted_pixels(bytes@, max_w, max_h),
        r matches Ok(f) ==> decoded_size(bytes@) matches Some((w, h)) && (f.w(), f.h())
            == fitted_size(w, h, max_w, max_h),
        r matches Ok(f) ==> f.w() <= at_least_one(max_w) && f.h() <= at_least_one(max_h),
{
    match image::load_from_memory(bytes) {
        Ok(img) => {
            let buf = img.resize(max_w, max_h, image::imageops::FilterType::Lanczos3).to_rgb8();
            let width: u32 = buf.width();
            let height: u32 = buf.height();
            Ok(RgbFrame { width, height, pixels: buf.into_raw() })
        },
        Err(e) => Err(e),
    }
}

/// `DynamicImage::ImageRgb8(ImageBuffer::from_raw(..))`, then
/// `DynamicImage::resize` with the Lanczos3 filter, then `to_rgb8`. The size
/// and pixels are the crate's and only named. Stated from its source:
/// resizing into the image's own size returns it as it is (buffer and all);
/// otherwise a new image of at least 1 x 1 is made, holding exactly its
/// pixels, whose sides do not exceed the box, or 1 where the box side is 0.
#[verifier::external_body]
fn resize_rgb(width: u32, height: u32, pixels: Vec<u8>, max_w: u32, max_h: u32) -> (r: RgbFrame)
    requires
        rgb_len(width as int, height as int) <= pixels@.len(),
    ensures
        (r.w(), r.h()) == fitted_size(width, height, max_w, max_h),
        r.data() == resized_pixels(width, height, pixels@, max_w, max_h),
        (max_w == width && max_h == height) ==> (r.w() == width && r.h() == height && r.data()
            == pixels@),
        !(max_w == width && max_h == height) ==> (1 <= r.w() <= at_least_one(max_w) && 1 <= r.h()
            <= at_least_one(max_h) && r.is_exact()),
{
    let img = image::DynamicImage::ImageRgb8(image::ImageBuffer::from_raw(width, height, pixels).unwrap());
    let buf = img.resize(max_w, max_h, image::imageops::FilterType::Lanczos3).to_rgb8();
    let width: u32 = buf.width();
    let height: u32 = buf.height();
    RgbFrame { width, height, pixels: buf.into_raw() }
}

/// Encode a frame as JPEG bytes.
pub fn encode_jpeg(img: &RgbFrame, quality: u8) -> (r: Result<Vec<u8>, AppError>)
    requires
        img.is_exact(),
    ensures
        r is Ok <==> (1 <= img.w() <= 65535 && 1 <= img.h() <= 65535),
        r matches Ok(b) ==> b@ == jpeg_encoding(img.w(), img.h(), img.data(), quality),
        r matches Err(e) ==> e is Processing,
{
    match jpeg_encode(img.as_raw(), img.width(), img.height(), quality) {
        Ok(b) => Ok(b),
        Err(e) => Err(AppError::Processing(image_error_text(&e))),
    }
}

/// Encode a frame as PNG bytes.
pub fn encode_png(img: &RgbFrame) -> (r: Result<Vec<u8>, AppError>)
    requires
        img.is_exact(),
    ensures
        r is Ok <==> (img.w() >= 1 && img.h() >= 1),
        r matches Ok(b) ==> b@ == png_encoding(img.w(), img.h(), img.data()),
        r matches Err(e) ==> e is Processing,
{
    match png_encode(img.as_raw(), img.width(), img.height()) {
        Ok(b) => Ok(b),
        Err(e) => Err(AppError::Processing(image_error_text(&e))),
    }
}

/// Scale a frame into `width` x `height`, keeping its aspect ratio.
pub fn resize_frame(frame: RgbFrame, width: u32, height: u32) -> (r: RgbFrame)
    requires
        frame.wf(),
    ensures
        r.wf(),
        (r.w(), r.h()) == fitted_size(frame.w(), frame.h(), width, height),
        r.data() == resized_pixels(frame.w(), frame.h(), frame.data(), width, height),
        (width == frame.w() && height == frame.h()) ==> (r.w() == width && r.h() == height
            && r.data() == frame.data()),
        !(width == frame.w() && height == frame.h()) ==> (1 <= r.w() <= at_least_one(width) && 1
            <= r.h() <= at_least_one(height) && r.is_exact()),
{
    let w = frame.width();
    let h = frame.height();
    resize_rgb(w, h, frame.into_raw(), width, height)
}

/// Decode a standard image (JPEG, PNG, etc.) from bytes and fit it into
/// `max_w` x `max_h`.
pub fn decode_image_from_bytes(bytes: &[u8], max_w: u32, max_h: u32) -> (r: Result<RgbFrame, AppError>)
    ensures
        match decoded_size(bytes@) {
            Some((w, h)) => (r matches Ok(f) && f.is_exact() && (f.w(), f.h()) == fitted_size(
                w,
                h,
                max_w,
                max_h,
            ) && f.data() == decoded_fitted_pixels(bytes@, max_w, max_h) && f.w() <= at_least_one(
                max_w,
            ) && f.h() <= at_least_one(max_h)),
            None => (r matches Err(e) && e is Processing),
        },
{
    match decode_fit(bytes, max_w, max_h) {
        Ok(f) => Ok(f),
        Err(e) => Err(AppError::Processing(image_error_text(&e))),
    }
}

} // verus!
