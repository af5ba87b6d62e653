use vstd::prelude::*;

use mime_sniffer::MimeTypeSniffer;

use crate::record::{opt_string_view, Picture, PictureView};

verus! {

/// The MIME type that content sniffing finds for `data`, if any.
pub uninterp spec fn sniffed_mime(data: Seq<u8>) -> Option<Seq<char>>;

/// Relies on mime_sniffer's `MimeTypeSniffer::sniff_mime_type` on a byte
/// slice, which matches the content against tables of magic numbers: its
/// answer depends on the bytes alone.
#[verifier::external_body]
fn sniff(data: &Vec<u8>) -> (r: Option<String>)
    ensures
        opt_string_view(r) == sniffed_mime(data@),
{
    data.as_slice().sniff_mime_type().map(String::from)
}

/// The type assumed for cover art whose content nothing recognizes.
pub open spec fn fallback_mime() -> Seq<char> {
    "image/jpeg"@
}

pub open spec fn mime_or_fallback(found: Option<Seq<char>>) -> Seq<char> {
    match found {
        Some(t) => t,
        None => fallback_mime(),
    }
}

/// The cover art made of `data`, given what sniffing found for it.
pub open spec fn picture_of(data: Seq<u8>, found: Option<Seq<char>>) -> PictureView {
    PictureView { mime_type: mime_or_fallback(found), data }
}

/// Builds cover art from image bytes and the MIME type sniffed from them:
/// that type when there is one, JPEG otherwise.
pub fn picture_from_sniffed(data: Vec<u8>, sniffed: Option<String>) -> (r: Picture)
    ensures
        r@ == picture_of(data@, opt_string_view(sniffed)),
{
    let mime_type = match sniffed {
        Some(t) => t,
        None => String::from_str("image/jpeg"),
    };
    Picture { mime_type, data }
}

/// Builds cover art from raw image bytes. The MIME type comes from the
/// content alone; where it cannot be told, JPEG is assumed. The bytes are
/// kept as they are, whether or not they decode as an image.
pub fn ingest(data: Vec<u8>) -> (r: Picture)
    ensures
        r@ == picture_of(data@, sniffed_mime(data@)),
{
    let sniffed = sniff(&data);
    picture_from_sniffed(data, sniffed)
}

} // verus!
