//! Per-domain configuration and the transformation policy.
use crate::codec::{
    decode_as, decoded_of, dimensions, encode, encoding_of, fill_feasible, guess_format,
    guessed_format_of, image_format_of, image_size_of, resize_to_fill, to_image_filter,
    to_image_format, MAX_FILL_PIXELS,
};
use crate::errors::ImageError;
use crate::format::{
    content_type_of, effective_filter, effective_format, resolve_filter, resolve_format,
    ResizeFilter, TargetFormat,
};
use image::DynamicImage;
use vstd::prelude::*;
use vstd::string::{StrSliceExecFns, StringExecFns};

verus! {

/// What an image domain is configured with.
pub ghost struct DomainConfig {
    /// The full container name: the deployment prefix followed by the domain name.
    pub container: Seq<char>,
    pub format: Option<TargetFormat>,
    pub size: Option<(u32, u32)>,
    pub filter: Option<ResizeFilter>,
}

/// One image domain: its container and its transformation policy.
#[derive(Clone, Debug)]
pub struct ImageService {
    bucket_name: String,
    image_format: Option<TargetFormat>,
    image_size: Option<(u32, u32)>,
    image_filter: Option<ResizeFilter>,
}

impl View for ImageService {
    type V = DomainConfig;

    closed spec fn view(&self) -> DomainConfig {
        DomainConfig {
            container: self.bucket_name@,
            format: self.image_format,
            size: self.image_size,
            filter: self.image_filter,
        }
    }
}

/// The resize a domain applies: exact target size and filter, if any.
pub open spec fn resize_of(c: DomainConfig) -> Option<(u32, u32, ResizeFilter)> {
    match c.size {
        Some((w, h)) => Some((w, h, effective_filter(c.filter))),
        None => None,
    }
}

/// `t` is an image a domain may encode for `img`: `img` itself when no
/// target size is set, otherwise an image of exactly the target size, filled
/// from `img` when that fill is feasible.
pub open spec fn shaped(c: DomainConfig, img: DynamicImage, t: DynamicImage) -> bool {
    match resize_of(c) {
        None => t == img,
        Some((w, h, _)) => fill_feasible(image_size_of(img), w, h) && image_size_of(t) == (w, h),
    }
}

/// The encoding a domain writes.
pub open spec fn format_of(c: DomainConfig) -> image::ImageFormat {
    image_format_of(effective_format(c.format))
}

/// The outcome of a domain's transformation on every run: a failure when the
/// fill is not feasible; with no target size, success exactly when `img`
/// encodes, into its encoding; otherwise the encoding of a shaped image.
pub open spec fn transform_outcome(c: DomainConfig, img: DynamicImage, r: Result<Seq<u8>, ()>) -> bool {
    &&& (resize_of(c) matches Some((w, h, _)) && !fill_feasible(image_size_of(img), w, h)) ==> r is Err
    &&& resize_of(c) is None ==> (r is Ok == encoding_of(img, format_of(c)) is Some)
    &&& r matches Ok(b) ==> exists|t: DynamicImage| shaped(c, img, t) && encoding_of(t, format_of(c)) == Some(b)
}

/// The view of a transformation result.
pub open spec fn bytes_result(r: Result<Vec<u8>, ImageError>) -> Result<Seq<u8>, ()> {
    match r {
        Ok(b) => Ok(b@),
        Err(_) => Err(()),
    }
}

/// What `open_image` yields for `bytes`: the decoding in the detected format.
pub open spec fn opened_of(bytes: Seq<u8>) -> Option<DynamicImage> {
    match guessed_format_of(bytes) {
        Some(f) => decoded_of(bytes, f),
        None => None,
    }
}

pub open spec fn is_lower_alnum(c: char) -> bool {
    ('a' <= c && c <= 'z') || ('0' <= c && c <= '9')
}

pub open spec fn is_container_char(c: char) -> bool {
    is_lower_alnum(c) || c == '.' || c == '-'
}

/// `s` is usable as a container (bucket) name: 3 to 63 characters among
/// lower-case letters, digits, dots and hyphens, starting and ending with a
/// letter or digit, with no two dots in a row.
pub open spec fn valid_container_name(s: Seq<char>) -> bool {
    &&& 3 <= s.len() <= 63
    &&& forall|i: int| 0 <= i < s.len() ==> is_container_char(#[trigger] s[i])
    &&& is_lower_alnum(s[0])
    &&& is_lower_alnum(s[s.len() - 1])
    &&& forall|i: int| 0 <= i < s.len() - 1 ==> !(#[trigger] s[i] == '.' && s[i + 1] == '.')
}

impl ImageService {
    /// A domain whose container is `prefix` followed by `bucket_name`.
    pub fn new(
        prefix: &str,
        bucket_name: &str,
        image_format: Option<TargetFormat>,
        image_size: Option<(u32, u32)>,
        image_filter: Option<ResizeFilter>,
    ) -> (r: Self)
        ensures
            r@ == (DomainConfig {
                container: prefix@ + bucket_name@,
                format: image_format,
                size: image_size,
                filter: image_filter,
            }),
    {
        let mut name = String::from_str(prefix);
        name.append(bucket_name);
        ImageService { bucket_name: name, image_format, image_size, image_filter }
    }

    /// The name of this domain's container.
    pub fn bucket_name(&self) -> (r: &str)
        ensures
            r@ == self@.container,
    {
        self.bucket_name.as_str()
    }

    /// Whether the container name is acceptable to the object store.
    pub fn has_valid_container_name(&self) -> (r: bool)
        ensures
            r == valid_container_name(self@.container),
    {
        let name = self.bucket_name.as_str();
        let n = name.unicode_len();
        if n < 3 || n > 63 {
            return false;
        }
        if !is_lower_alnum_char(name.get_char(0)) || !is_lower_alnum_char(name.get_char(n - 1)) {
            return false;
        }
        let mut prev = ' ';
        let mut i: usize = 0;
        while i < n
            invariant
                name@ == self@.container,
                n == name@.len(),
                3 <= n <= 63,
                is_lower_alnum(name@[0]),
                is_lower_alnum(name@[n - 1]),
                i <= n,
                i > 0 ==> prev == name@[i - 1],
                forall|j: int| 0 <= j < i ==> is_container_char(#[trigger] name@[j]),
                forall|j: int| 0 <= j < i - 1 ==> !(#[trigger] name@[j] == '.' && name@[j + 1] == '.'),
            decreases n - i,
        {
            let c = name.get_char(i);
            if !(is_lower_alnum_char(c) || c == '.' || c == '-') {
                assert(!is_container_char(name@[i as int]));
                return false;
            }
            if i > 0 && prev == '.' && c == '.' {
                assert(name@[i - 1] == '.' && name@[(i - 1) + 1] == '.');
                return false;
            }
            prev = c;
            i = i + 1;
        }
        true
    }

    /// The MIME type of the images this domain stores.
    pub fn image_content_type(&self) -> (r: &'static str)
        ensures
            r@ == content_type_of(self@.format),
    {
        resolve_format(self.image_format).mime()
    }

    /// The encoding images are written in.
    pub fn output_format(&self) -> (r: TargetFormat)
        ensures
            r == effective_format(self@.format),
    {
        resolve_format(self.image_format)
    }

    /// The exact size images are brought to, and the filter used, if any.
    pub fn resize_target(&self) -> (r: Option<(u32, u32, ResizeFilter)>)
        ensures
            r == resize_of(self@),
    {
        match self.image_size {
            Some((w, h)) => Some((w, h, resolve_filter(self.image_filter))),
            None => None,
        }
    }

    /// Encodes an already shaped image in this domain's format.
    pub fn encode_image(&self, t: &DynamicImage) -> (r: Result<Vec<u8>, ImageError>)
        ensures
            r is Ok == encoding_of(*t, format_of(self@)) is Some,
            r matches Ok(b) ==> encoding_of(*t, format_of(self@)) == Some(b@),
    {
        match encode(t, to_image_format(self.output_format())) {
            Some(bytes) => Ok(bytes),
            None => Err(ImageError::ProcessError("Cannot write image to bytes")),
        }
    }

    /// Whether filling `width` x `height` from `img` is feasible.
    pub fn can_fill(img: &DynamicImage, width: u32, height: u32) -> (r: bool)
        ensures
            r == fill_feasible(image_size_of(*img), width, height),
    {
        let (sw, sh) = dimensions(img);
        if sw == 0 || sh == 0 || width == 0 || height == 0 {
            return false;
        }
        let (w, h, sw, sh) = (width as u128, height as u128, sw as u128, sh as u128);
        let m = MAX_FILL_PIXELS as u128;
        assert(w * w <= 0xffff_ffff * 0xffff_ffff && h * h <= 0xffff_ffff * 0xffff_ffff) by (nonlinear_arith)
            requires w <= 0xffff_ffff, h <= 0xffff_ffff;
        let ww = w * w;
        let hh = h * h;
        assert(ww * sh <= 0xffff_ffff * 0xffff_ffff * 0xffff_ffff && hh * sw <= 0xffff_ffff * 0xffff_ffff
            * 0xffff_ffff) by (nonlinear_arith)
            requires ww <= 0xffff_ffff * 0xffff_ffff, hh <= 0xffff_ffff * 0xffff_ffff, sh <= 0xffff_ffff, sw
                <= 0xffff_ffff;
        assert(m * sw <= 67108864 * 0xffff_ffff && m * sh <= 67108864 * 0xffff_ffff) by (nonlinear_arith)
            requires m == 67108864, sw <= 0xffff_ffff, sh <= 0xffff_ffff;
        ww * sh <= m * sw && hh * sw <= m * sh
    }

    /// Applies the transformation policy: fills the target size (scale to
    /// cover, crop the middle) when one is set, then encodes in the target
    /// format.
    ///
    /// A fill that is not feasible (an image without pixels, a zero target
    /// side, or a cover image of more than `MAX_FILL_PIXELS` pixels) is
    /// reported as a processing error, as is a failed encoding.
    pub fn process_image(&self, image: DynamicImage) -> (r: Result<Vec<u8>, ImageError>)
        ensures
            transform_outcome(self@, image, bytes_result(r)),
    {
        match self.resize_target() {
            Some((w, h, filter)) => {
                if !ImageService::can_fill(&image, w, h) {
                    return Err(ImageError::ProcessError("Image cannot fill the target size"));
                }
                let t = resize_to_fill(&image, w, h, to_image_filter(filter));
                let r = self.encode_image(&t);
                assert(r matches Ok(b) ==> shaped(self@, image, t) && encoding_of(t, format_of(self@)) == Some(b@));
                r
            },
            None => self.encode_image(&image),
        }
    }
}

fn is_lower_alnum_char(c: char) -> (r: bool)
    ensures
        r == is_lower_alnum(c),
{
    ('a' <= c && c <= 'z') || ('0' <= c && c <= '9')
}

/// Decodes an image from its encoded bytes, detecting the encoding from
/// its signature.
pub fn open_image(bytes: &[u8]) -> (r: Result<DynamicImage, ImageError>)
    ensures
        r is Ok == opened_of(bytes@) is Some,
        r matches Ok(img) ==> opened_of(bytes@) == Some(img),
{
    match guess_format(bytes) {
        Some(f) => match decode_as(bytes, f) {
            Some(img) => Ok(img),
            None => Err(ImageError::ProcessError("Cannot decode image")),
        },
        None => Err(ImageError::ProcessError("Unknown image format")),
    }
}

} // verus!
