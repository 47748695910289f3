//! The calls into the `image` crate: format detection, decoding, resizing
//! and encoding.
use crate::format::{ResizeFilter, TargetFormat};
use image::DynamicImage;
use vstd::prelude::*;

verus! {

#[verifier::external_type_specification]
#[verifier::external_body]
pub struct ExDynamicImage(image::DynamicImage);

#[verifier::external_type_specification]
pub struct ExImageFormat(image::ImageFormat);

#[verifier::external_type_specification]
pub struct ExFilterType(image::imageops::FilterType);

/// What `image::guess_format` detects in `bytes` from the built-in signatures.
pub uninterp spec fn guessed_format_of(bytes: Seq<u8>) -> Option<image::ImageFormat>;

/// What `image::load_from_memory_with_format` decodes from `bytes`.
pub uninterp spec fn decoded_of(bytes: Seq<u8>, format: image::ImageFormat) -> Option<DynamicImage>;

/// The (width, height) of an image, as `GenericImageView::dimensions` reports.
pub uninterp spec fn image_size_of(img: DynamicImage) -> (u32, u32);

/// What `DynamicImage::write_to` writes for `img` in `format`, if it succeeds.
pub uninterp spec fn encoding_of(img: DynamicImage, format: image::ImageFormat) -> Option<Seq<u8>>;

/// The most pixels the cover image of a fill may have.
pub const MAX_FILL_PIXELS: u64 = 67108864;

/// Filling `width` x `height` from a source of size `src` is well defined and
/// bounded: the source has pixels, the target sides are positive, and the
/// source scaled to cover the target has at most `MAX_FILL_PIXELS` pixels.
///
/// Scaled to cover, the source becomes `width` x `src.1 * width / src.0` when
/// its width binds, and `src.0 * height / src.1` x `height` otherwise; the
/// two products below bound those pixel counts, and the one that does not
/// bind is at most `width * height`.
pub open spec fn fill_feasible(src: (u32, u32), width: u32, height: u32) -> bool {
    &&& src.0 > 0
    &&& src.1 > 0
    &&& width > 0
    &&& height > 0
    &&& width * width * src.1 <= MAX_FILL_PIXELS * src.0
    &&& height * height * src.0 <= MAX_FILL_PIXELS * src.1
}

/// The `image` crate's name for an encoding of this library.
pub open spec fn image_format_of(f: TargetFormat) -> image::ImageFormat {
    match f {
        TargetFormat::Png => image::ImageFormat::Png,
        TargetFormat::Jpeg => image::ImageFormat::Jpeg,
        TargetFormat::Gif => image::ImageFormat::Gif,
        TargetFormat::Bmp => image::ImageFormat::Bmp,
        TargetFormat::WebP => image::ImageFormat::WebP,
    }
}

/// The `image` crate's name for a resampling filter of this library.
pub open spec fn image_filter_of(f: ResizeFilter) -> image::imageops::FilterType {
    match f {
        ResizeFilter::Nearest => image::imageops::FilterType::Nearest,
        ResizeFilter::Triangle => image::imageops::FilterType::Triangle,
        ResizeFilter::CatmullRom => image::imageops::FilterType::CatmullRom,
        ResizeFilter::Gaussian => image::imageops::FilterType::Gaussian,
        ResizeFilter::Lanczos3 => image::imageops::FilterType::Lanczos3,
    }
}

pub fn to_image_format(f: TargetFormat) -> (r: image::ImageFormat)
    ensures
        r == image_format_of(f),
{
    match f {
        TargetFormat::Png => image::ImageFormat::Png,
        TargetFormat::Jpeg => image::ImageFormat::Jpeg,
        TargetFormat::Gif => image::ImageFormat::Gif,
        TargetFormat::Bmp => image::ImageFormat::Bmp,
        TargetFormat::WebP => image::ImageFormat::WebP,
    }
}

pub fn to_image_filter(f: ResizeFilter) -> (r: image::imageops::FilterType)
    ensures
        r == image_filter_of(f),
{
    match f {
        ResizeFilter::Nearest => image::imageops::FilterType::Nearest,
        ResizeFilter::Triangle => image::imageops::FilterType::Triangle,
        ResizeFilter::CatmullRom => image::imageops::FilterType::CatmullRom,
        ResizeFilter::Gaussian => image::imageops::FilterType::Gaussian,
        ResizeFilter::Lanczos3 => image::imageops::FilterType::Lanczos3,
    }
}

/// Relies on `image::guess_format`: it matches the leading bytes against the
/// crate's built-in signatures only.
#[verifier::external_body]
pub(crate) fn guess_format(bytes: &[u8]) -> (r: Option<image::ImageFormat>)
    ensures
        r == guessed_format_of(bytes@),
{
    image::guess_format(bytes).ok()
}

/// Relies on `image::load_from_memory_with_format`: it decodes with the
/// built-in decoder of `format`, under the default limits.
#[verifier::external_body]
pub(crate) fn decode_as(bytes: &[u8], format: image::ImageFormat) -> (r: Option<DynamicImage>)
    ensures
        r == decoded_of(bytes@, format),
{
    image::load_from_memory_with_format(bytes, format).ok()
}

/// Relies on `image::GenericImageView::dimensions` of `DynamicImage`.
#[verifier::external_body]
pub(crate) fn dimensions(img: &DynamicImage) -> (r: (u32, u32))
    ensures
        r == image_size_of(*img),
{
    image::GenericImageView::dimensions(img)
}

/// Relies on `image::DynamicImage::resize_to_fill`: scales the image so that
/// it covers `width` x `height`, then crops the middle of it to exactly that
/// size. The pixels depend on float kernels, so only the size is stated.
#[verifier::external_body]
pub(crate) fn resize_to_fill(
    img: &DynamicImage,
    width: u32,
    height: u32,
    filter: image::imageops::FilterType,
) -> (r: DynamicImage)
    requires
        fill_feasible(image_size_of(*img), width, height),
    ensures
        image_size_of(r) == (width, height),
{
    img.resize_to_fill(width, height, filter)
}

/// Relies on `image::DynamicImage::write_to`: encodes the image in `format`
/// into an in-memory buffer, or fails.
#[verifier::external_body]
pub(crate) fn encode(img: &DynamicImage, format: image::ImageFormat) -> (r: Option<Vec<u8>>)
    ensures
        r is Some == encoding_of(*img, format) is Some,
        r matches Some(b) ==> encoding_of(*img, format) == Some(b@),
{
    let mut out = std::io::Cursor::new(Vec::new());
    match img.write_to(&mut out, format) {
        Ok(()) => Some(out.into_inner()),
        Err(_) => None,
    }
}

} // verus!
