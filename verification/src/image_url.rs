//! Image URLs in the form that the vision provider accepts.

use vstd::prelude::*;

use crate::error::{outcome_view, text_view, VisionError, VisionErrorView};
use crate::text::{has_prefix_ignoring_case, starts_with_ignoring_case};

verus! {

/// A `data:` URL, whatever the case of the scheme.
pub open spec fn is_data_url(image_url: Seq<char>) -> bool {
    has_prefix_ignoring_case(image_url, "data:"@)
}

/// A `data:` URL that is labelled as an image.
pub open spec fn is_image_data_url(image_url: Seq<char>) -> bool {
    has_prefix_ignoring_case(image_url, "data:image/"@)
}

/// A URL that the vision provider would refuse: data that is not labelled as
/// an image.
pub open spec fn must_load(image_url: Seq<char>) -> bool {
    is_data_url(image_url) && !is_image_data_url(image_url)
}

/// What is sent in place of `image_url`, where `loaded` is what loading it as
/// an image gives: the data URL of the loaded image, or the reason why it
/// cannot be loaded.
pub open spec fn normalized<E>(
    image_url: Seq<char>,
    loaded: Result<Seq<char>, Seq<char>>,
) -> Result<Seq<char>, VisionErrorView<E>> {
    if !must_load(image_url) {
        Ok(image_url)
    } else {
        match loaded {
            Ok(data_url) => Ok(data_url),
            Err(reason) => Err(
                VisionErrorView::InvalidRequest("invalid image for vision provider: "@ + reason),
            ),
        }
    }
}

/// Whether `image_url` has to be loaded as an image before it can be sent.
/// Remote URLs and data URLs that are labelled as an image need not.
pub fn needs_loading(image_url: &str) -> (r: bool)
    ensures
        r == must_load(image_url@),
{
    starts_with_ignoring_case(image_url, "data:") && !starts_with_ignoring_case(image_url, "data:image/")
}

/// Rewrites a data URL that is not labelled as an image into one that the
/// vision provider accepts. Local images and the images of tools come labelled
/// as `application/octet-stream`, which providers reject for an image. Remote
/// URLs and correctly labelled data URLs pass through unchanged.
///
/// `loaded` is what loading `image_url` as an image gave: the data URL of the
/// image, or the reason of the failure. It is not looked at where `image_url`
/// passes through.
pub fn normalize_image_url<E>(image_url: &str, loaded: Result<String, String>) -> (r: Result<
    String,
    VisionError<E>,
>)
    ensures
        outcome_view(r) == normalized::<E>(image_url@, text_view(loaded)),
{
    if !needs_loading(image_url) {
        return Ok(image_url.to_string());
    }
    match loaded {
        Ok(data_url) => Ok(data_url),
        Err(reason) => {
            let mut message: String = "invalid image for vision provider: ".to_string();
            message.append(reason.as_str());
            Err(VisionError::InvalidRequest(message))
        },
    }
}

} // verus!
