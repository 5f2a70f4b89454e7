//! Content-based detection of image types.
use vstd::prelude::*;
use crate::classify::str_eq;

verus! {

/// The MIME type that `infer` detects from the leading bytes of a file, if any.
pub uninterp spec fn detected_mime(header: Seq<u8>) -> Option<Seq<char>>;

/// Relies on `infer::get` and `infer::Type::mime_type`: the type is chosen
/// from the bytes given and nothing else.
#[verifier::external_body]
fn infer_mime(header: &[u8]) -> (r: Option<String>)
    ensures
        r matches Some(m) ==> detected_mime(header@) == Some(m@),
        r is None ==> detected_mime(header@) is None,
{
    match infer::get(header) {
        Some(kind) => Some(kind.mime_type().to_string()),
        None => None,
    }
}

/// The MIME types that count as images.
pub open spec fn is_image_mime(m: Seq<char>) -> bool {
    m == "image/jpeg"@ || m == "image/png"@ || m == "image/webp"@
}

/// What remains of a detected type once it is restricted to the image types.
pub open spec fn image_mime_of(detected: Option<Seq<char>>) -> Option<Seq<char>> {
    match detected {
        Some(m) => if is_image_mime(m) {
            Some(m)
        } else {
            None
        },
        None => None,
    }
}

/// True when `mime` is `image/jpeg`, `image/png` or `image/webp`.
pub fn accept_image_mime(mime: &str) -> (r: bool)
    ensures
        r == is_image_mime(mime@),
{
    str_eq(mime, "image/jpeg") || str_eq(mime, "image/png") || str_eq(mime, "image/webp")
}

/// The image MIME type of a file, judged from its leading bytes rather than
/// its name; `None` when the content is not a JPEG, PNG or WebP image.
pub fn get_image_mime(header: &[u8]) -> (r: Option<String>)
    ensures
        r matches Some(m) ==> image_mime_of(detected_mime(header@)) == Some(m@),
        r is None ==> image_mime_of(detected_mime(header@)) is None,
{
    match infer_mime(header) {
        Some(m) => if accept_image_mime(m.as_str()) {
            Some(m)
        } else {
            None
        },
        None => None,
    }
}

} // verus!
