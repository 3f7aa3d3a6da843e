//! Plain-value model of what the bound surface reports.
//!
//! The shell queries the driver once, immediately after binding the
//! surface, and hands the whole report over as one value; nothing here
//! is cached across resizes.

use vstd::prelude::*;

verus! {

/// A pixel size in integer units.
#[derive(Clone, Copy, Debug, PartialEq, Eq, Structural)]
pub struct Extent2d {
    pub width: u32,
    pub height: u32,
}

/// A supported (pixel format, color space) pair, as the raw codes the
/// driver reports them under.
#[derive(Clone, Copy, Debug, PartialEq, Eq, Structural)]
pub struct SurfaceFormat {
    pub format: u32,
    pub color_space: u32,
}

/// The surface's capability block: image-count bounds, extent bounds,
/// and the transform the chain must be created with.
///
/// A `max_image_count` of zero means the surface imposes no upper bound.
#[derive(Clone, Copy, Debug, PartialEq, Eq, Structural)]
pub struct SurfaceCapabilities {
    pub min_image_count: u32,
    pub max_image_count: u32,
    pub current_extent: Extent2d,
    pub min_image_extent: Extent2d,
    pub max_image_extent: Extent2d,
    pub current_transform: u32,
}

/// Everything the negotiator reads off the surface in one atomic query:
/// capabilities, the supported format pairs, and the presentation modes.
#[derive(Clone, Debug)]
pub struct SurfaceReport {
    pub capabilities: SurfaceCapabilities,
    pub formats: Vec<SurfaceFormat>,
    pub present_modes: Vec<u32>,
}

impl SurfaceCapabilities {
    /// What the driver guarantees of every capability block it reports:
    /// the extent bounds are proper intervals, the image-count bounds
    /// are consistent (unless the maximum is zero, meaning unbounded),
    /// and the minimum image count leaves room for one extra image.
    pub open spec fn wf(self) -> bool {
        &&& self.min_image_extent.width <= self.max_image_extent.width
        &&& self.min_image_extent.height <= self.max_image_extent.height
        &&& self.max_image_count == 0 || self.min_image_count <= self.max_image_count
        &&& self.min_image_count < u32::MAX
    }
}

impl SurfaceReport {
    /// A usable report: well-formed capabilities and at least one
    /// supported format pair (the driver always reports one).
    pub open spec fn wf(self) -> bool {
        &&& self.capabilities.wf()
        &&& self.formats@.len() > 0
    }
}

} // verus!
