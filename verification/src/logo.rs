//! The logo: an image that is decoded once, when the session starts, and
//! kept for as long as the session lasts.

use vstd::prelude::*;
use egui_extras::RetainedImage;

verus! {

/// `egui_extras::RetainedImage`, carried through as an opaque value.
#[verifier::external_type_specification]
#[verifier::external_body]
pub struct ExRetainedImage(egui_extras::RetainedImage);

/// Name under which the decoded logo is known to the interface.
pub const LOGO_NAME: &'static str = "logo.png";

/// The message with which decoding `bytes` as an image fails, and `None`
/// where it succeeds.
pub uninterp spec fn image_error(bytes: Seq<u8>) -> Option<Seq<char>>;

/// Calls `RetainedImage::from_image_bytes`, which decodes the bytes of an
/// image file. Whether it succeeds, and the message it fails with, depend on
/// the bytes alone and not on the name given to the image.
#[verifier::external_body]
pub(crate) fn image_from_bytes(name: &str, bytes: &[u8]) -> (image: Result<RetainedImage, String>)
    ensures
        match image {
            Ok(_) => image_error(bytes@) is None,
            Err(message) => image_error(bytes@) == Some(message@),
        },
{
    RetainedImage::from_image_bytes(name, bytes)
}

} // verus!
