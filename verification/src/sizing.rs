use vstd::prelude::*;
use pdfium_render::prelude::PdfRenderConfig;
use crate::engine::{config_maximum_height, config_target_width};

verus! {

/// The bounding box that every page is rendered into: a page is scaled to
/// the target width, and scaled down further where it would then be
/// taller than the maximum height. Proportions are kept.
#[derive(Clone, Copy, Debug, PartialEq, Eq, Structural)]
pub struct RenderLimits {
    pub target_width: i32,
    pub max_height: i32,
}

impl RenderLimits {
    /// The limits of an ordinary run: 2000 by 2000.
    pub open spec fn standard_spec() -> RenderLimits {
        RenderLimits { target_width: 2000, max_height: 2000 }
    }

    /// The limits of an ordinary run: 2000 by 2000.
    pub fn standard() -> (r: RenderLimits)
        ensures
            r == Self::standard_spec(),
    {
        RenderLimits { target_width: 2000, max_height: 2000 }
    }

    /// Limits of the caller's choice.
    pub fn new(target_width: i32, max_height: i32) -> (r: RenderLimits)
        ensures
            r.target_width == target_width,
            r.max_height == max_height,
    {
        RenderLimits { target_width, max_height }
    }

    /// The engine's render settings for these limits: its defaults, with
    /// the target width and the maximum height set to the limits.
    pub fn to_config(&self) -> (config: PdfRenderConfig)
        ensures
            config_target_width(config) == Some(self.target_width),
            config_maximum_height(config) == Some(self.max_height),
    {
        PdfRenderConfig::new().set_target_width(self.target_width).set_maximum_height(
            self.max_height,
        )
    }
}

/// The size of a page in points.
#[derive(Clone, Copy, Debug, PartialEq, Eq, Structural)]
pub struct PageGeometry {
    pub width: u32,
    pub height: u32,
}

impl PageGeometry {
    /// The page for an image of the given pixel size: one point per
    /// pixel, each way.
    pub open spec fn from_pixels_spec(width_px: u32, height_px: u32) -> PageGeometry {
        PageGeometry { width: width_px, height: height_px }
    }

    /// The page for an image of the given pixel size: one point per
    /// pixel, with no scaling and no rounding.
    pub fn from_pixels(width_px: u32, height_px: u32) -> (r: PageGeometry)
        ensures
            r == Self::from_pixels_spec(width_px, height_px),
            r.width == width_px,
            r.height == height_px,
    {
        PageGeometry { width: width_px, height: height_px }
    }

    /// The factors by which an image object is scaled so that it covers
    /// the page exactly: the page's own width and height.
    pub open spec fn cover_scale_spec(self) -> (u32, u32) {
        (self.width, self.height)
    }

    /// The horizontal and vertical factors by which the image object of
    /// this page is scaled: the page's width and height, so that the
    /// image covers the page with no margin.
    pub fn cover_scale(&self) -> (r: (u32, u32))
        ensures
            r == self.cover_scale_spec(),
    {
        (self.width, self.height)
    }
}

} // verus!
