use vstd::prelude::*;

verus! {

/// The encodings an image domain can store its images in.
#[derive(Clone, Copy, Debug, PartialEq, Eq, Structural)]
pub enum TargetFormat {
    Png,
    Jpeg,
    Gif,
    Bmp,
    WebP,
}

/// Resampling algorithms available for resizing.
#[derive(Clone, Copy, Debug, PartialEq, Eq, Structural)]
pub enum ResizeFilter {
    Nearest,
    Triangle,
    CatmullRom,
    Gaussian,
    Lanczos3,
}

/// The format used when a domain leaves its format unspecified.
pub open spec fn effective_format(f: Option<TargetFormat>) -> TargetFormat {
    match f {
        Some(g) => g,
        None => TargetFormat::Jpeg,
    }
}

/// The filter used when a domain leaves its filter unspecified.
pub open spec fn effective_filter(f: Option<ResizeFilter>) -> ResizeFilter {
    match f {
        Some(g) => g,
        None => ResizeFilter::Lanczos3,
    }
}

/// The MIME type of images stored in format `f`.
pub open spec fn mime_of(f: TargetFormat) -> Seq<char> {
    match f {
        TargetFormat::Png => "image/png"@,
        TargetFormat::Jpeg => "image/jpeg"@,
        TargetFormat::Gif => "image/gif"@,
        TargetFormat::Bmp => "image/bmp"@,
        TargetFormat::WebP => "image/webp"@,
    }
}

/// The MIME type of images stored in the (possibly unspecified) format `f`.
pub open spec fn content_type_of(f: Option<TargetFormat>) -> Seq<char> {
    mime_of(effective_format(f))
}

impl TargetFormat {
    /// The MIME type of this format.
    pub fn mime(&self) -> (r: &'static str)
        ensures
            r@ == mime_of(*self),
    {
        match self {
            TargetFormat::Png => "image/png",
            TargetFormat::Jpeg => "image/jpeg",
            TargetFormat::Gif => "image/gif",
            TargetFormat::Bmp => "image/bmp",
            TargetFormat::WebP => "image/webp",
        }
    }
}

/// Resolves an optional format to the one actually written.
pub fn resolve_format(f: Option<TargetFormat>) -> (r: TargetFormat)
    ensures
        r == effective_format(f),
{
    match f {
        Some(g) => g,
        None => TargetFormat::Jpeg,
    }
}

/// Resolves an optional filter to the one actually used.
pub fn resolve_filter(f: Option<ResizeFilter>) -> (r: ResizeFilter)
    ensures
        r == effective_filter(f),
{
    match f {
        Some(g) => g,
        None => ResizeFilter::Lanczos3,
    }
}

} // verus!
