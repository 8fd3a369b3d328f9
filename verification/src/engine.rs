//! What this crate takes on trust from the document engine and the image
//! codec: their types, which stay opaque, and the few of their functions
//! that the library calls itself. None of these contracts is proved.

use vstd::prelude::*;
use image::DynamicImage;
use pdfium_render::prelude::PdfRenderConfig;

verus! {

/// The image codec's decoded picture. Nothing inside it is visible here.
#[verifier::external_type_specification]
#[verifier::external_body]
pub struct ExDynamicImage(image::DynamicImage);

/// The engine's settings for rendering one page. Nothing inside it is
/// visible here.
#[verifier::external_type_specification]
#[verifier::external_body]
pub struct ExPdfRenderConfig(pdfium_render::prelude::PdfRenderConfig);

/// The target width that the engine's render settings hold, if one was
/// set.
pub uninterp spec fn config_target_width(config: PdfRenderConfig) -> Option<i32>;

/// The maximum height that the engine's render settings hold, if one was
/// set.
pub uninterp spec fn config_maximum_height(config: PdfRenderConfig) -> Option<i32>;

/// The width and height in pixels that the codec gives for a picture.
pub uninterp spec fn pixel_size(picture: DynamicImage) -> (u32, u32);

/// `PdfRenderConfig::new` gives the engine's default settings, in which
/// neither a target width nor a maximum height is set. Nothing is
/// claimed of the other settings.
pub assume_specification[ PdfRenderConfig::new ]() -> (config: PdfRenderConfig)
    ensures
        config_target_width(config) == None::<i32>,
        config_maximum_height(config) == None::<i32>,
;

/// `PdfRenderConfig::set_target_width` hands the settings back with the
/// given width as the target width, and the maximum height as it was.
pub assume_specification[ PdfRenderConfig::set_target_width ](
    config: PdfRenderConfig,
    width: i32,
) -> (r: PdfRenderConfig)
    ensures
        config_target_width(r) == Some(width),
        config_maximum_height(r) == config_maximum_height(config),
;

/// `PdfRenderConfig::set_maximum_height` hands the settings back with
/// the given height as the maximum height, and the target width as it
/// was.
pub assume_specification[ PdfRenderConfig::set_maximum_height ](
    config: PdfRenderConfig,
    height: i32,
) -> (r: PdfRenderConfig)
    ensures
        config_maximum_height(r) == Some(height),
        config_target_width(r) == config_target_width(config),
;

/// `GenericImageView::dimensions` on a `DynamicImage`: the picture's
/// width and height in pixels, which depend on the picture alone.
#[verifier::external_body]
pub(crate) fn image_dimensions(picture: &DynamicImage) -> (r: (u32, u32))
    ensures
        r == pixel_size(*picture),
{
    image::GenericImageView::dimensions(picture)
}

} // verus!
