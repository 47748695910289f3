//! Checks on submitted form data.
use vstd::prelude::*;
use vstd::string::StrSliceExecFns;

verus! {

/// A form that passed validation.
#[derive(Debug)]
pub struct ValidatedForm<T>(pub T);

/// `c` is the letter given in its two cases.
pub open spec fn is_letter(c: char, lower: char, upper: char) -> bool {
    c == lower || c == upper
}

/// The media type `s` has the top-level type `image` (in any case).
pub open spec fn is_image_media_type(s: Seq<char>) -> bool {
    &&& s.len() >= 6
    &&& is_letter(s[0], 'i', 'I')
    &&& is_letter(s[1], 'm', 'M')
    &&& is_letter(s[2], 'a', 'A')
    &&& is_letter(s[3], 'g', 'G')
    &&& is_letter(s[4], 'e', 'E')
    &&& s[5] == '/'
}

/// Accepts an uploaded file only when its content type is `image/*`.
pub fn is_image_file(content_type: Option<&str>) -> (r: Result<(), &'static str>)
    ensures
        r is Ok <==> (content_type matches Some(ct) && is_image_media_type(ct@)),
        r matches Err(m) ==> m@ == "content_type must be image/*"@,
{
    if let Some(ct) = content_type {
        if ct.unicode_len() >= 6 {
            let c0 = ct.get_char(0);
            let c1 = ct.get_char(1);
            let c2 = ct.get_char(2);
            let c3 = ct.get_char(3);
            let c4 = ct.get_char(4);
            let c5 = ct.get_char(5);
            if (c0 == 'i' || c0 == 'I') && (c1 == 'm' || c1 == 'M') && (c2 == 'a' || c2 == 'A') && (c3
                == 'g' || c3 == 'G') && (c4 == 'e' || c4 == 'E') && c5 == '/' {
                return Ok(());
            }
        }
    }
    Err("content_type must be image/*")
}

} // verus!
