//! The thumbnail of a chosen stream: where to fetch it, and what becomes of
//! the bytes that come back.
use crate::error::ErrorKind;
use crate::request::{get, plain_get, Request};
use crate::stream::ResponseStreamsData;
use crate::text::{decimal, decimal_string, replace, replaced};
use egui_extras::RetainedImage;
use vstd::prelude::*;

verus! {

/// Width at which thumbnails are requested: a third of 1920.
pub const THUMBNAIL_WIDTH: u32 = 1920 / 3;

/// Height at which thumbnails are requested: a third of 1080.
pub const THUMBNAIL_HEIGHT: u32 = 1080 / 3;

/// The address that a template stands for: each `{width}` replaced by the
/// numeral of the width, then each `{height}` by that of the height.
pub open spec fn thumbnail_url_of(template: Seq<char>) -> Seq<char> {
    replaced(
        replaced(template, "{width}"@, decimal(THUMBNAIL_WIDTH as nat)),
        "{height}"@,
        decimal(THUMBNAIL_HEIGHT as nat),
    )
}

/// Whether a sequence of bytes decodes as an image in one of the formats
/// that the image decoder was built with.
pub uninterp spec fn is_image(bytes: Seq<u8>) -> bool;

/// `RetainedImage::from_image_bytes` decodes the bytes and keeps the picture
/// under the given name. It succeeds exactly on the byte sequences that
/// `is_image` names; the name given plays no part in that. Of the picture
/// itself, and of the text of the error, nothing is claimed.
#[verifier::external_body]
fn load_image(debug_name: &str, bytes: &[u8]) -> (loaded: Result<RetainedImage, String>)
    ensures
        loaded is Ok <==> is_image(bytes@),
{
    RetainedImage::from_image_bytes(debug_name, bytes)
}

/// Fills the placeholders of a thumbnail address template.
pub fn thumbnail_url(template: &str) -> (url: String)
    ensures
        url@ == thumbnail_url_of(template@),
{
    let width = decimal_string(THUMBNAIL_WIDTH);
    let height = decimal_string(THUMBNAIL_HEIGHT);
    let widened = replace(template, "{width}", width.as_str());
    replace(widened.as_str(), "{height}", height.as_str())
}

/// The request that fetches the thumbnail of `stream`.
pub fn thumbnail_request(stream: &ResponseStreamsData) -> (request: Request)
    ensures
        request@ == plain_get(thumbnail_url_of(stream@.thumbnail_url)),
{
    get(thumbnail_url(stream.thumbnail_url.as_str()))
}

/// Decodes downloaded bytes. Bytes that are no image give `ImageDecode`.
pub fn decode_thumbnail(bytes: &Vec<u8>) -> (decoded: Result<RetainedImage, ErrorKind>)
    ensures
        decoded is Ok <==> is_image(bytes@),
        decoded is Err ==> decoded == Err::<RetainedImage, ErrorKind>(ErrorKind::ImageDecode),
{
    match load_image("image", bytes.as_slice()) {
        Ok(image) => Ok(image),
        Err(_) => Err(ErrorKind::ImageDecode),
    }
}

/// The record with what came of decoding its thumbnail: the picture, or
/// nothing where decoding failed. A failure to decode is not an error of the
/// record.
pub fn with_decoded(
    stream: &ResponseStreamsData,
    decoded: Result<RetainedImage, ErrorKind>,
) -> (loaded: ResponseStreamsData)
    ensures
        loaded@ == stream@.with_image(
            match decoded {
                Ok(image) => Some(image),
                Err(_) => None,
            },
        ),
{
    match decoded {
        Ok(image) => stream.with_image(Some(image)),
        Err(_) => stream.with_image(None),
    }
}

/// The record with the thumbnail that the downloaded bytes decode to. Every
/// other field is kept. The thumbnail is present exactly when the bytes are an
/// image; when they are not, the record simply has none.
pub fn with_thumbnail(
    stream: &ResponseStreamsData,
    bytes: &Vec<u8>,
) -> (loaded: ResponseStreamsData)
    ensures
        loaded@.without_image() == stream@.without_image(),
        loaded@.image is Some <==> is_image(bytes@),
{
    with_decoded(stream, decode_thumbnail(bytes))
}

} // verus!
