//! Swapchain negotiation: the deterministic choice of format, presentation
//! mode, extent and image count against what the surface reports.

use vstd::prelude::*;

use crate::surface::{Extent2d, SurfaceCapabilities, SurfaceFormat, SurfaceReport};

verus! {

/// Raw code of the 8-bit BGRA, SRGB-encoded pixel format.
pub const FORMAT_B8G8R8A8_SRGB: u32 = 50;
/// Raw code of the SRGB-nonlinear color space.
pub const COLOR_SPACE_SRGB_NONLINEAR: u32 = 0;
/// Raw code of the low-latency triple-buffered presentation mode.
pub const PRESENT_MODE_MAILBOX: u32 = 1;
/// Raw code of the universally supported queued presentation mode.
pub const PRESENT_MODE_FIFO: u32 = 2;
/// Raw code of single-queue-family image ownership.
pub const SHARING_MODE_EXCLUSIVE: u32 = 0;
/// Usage bit for color-attachment-only images.
pub const IMAGE_USAGE_COLOR_ATTACHMENT: u32 = 16;
/// The opaque composite-alpha bit the chain is created with.
pub const COMPOSITE_ALPHA_OPAQUE: u32 = 1;

/// The format pair the negotiator prefers when the surface offers it.
pub open spec fn preferred_surface_format() -> SurfaceFormat {
    SurfaceFormat { format: FORMAT_B8G8R8A8_SRGB, color_space: COLOR_SPACE_SRGB_NONLINEAR }
}

/// Whether the surface offers the preferred format pair at all.
pub open spec fn has_preferred_format(formats: Seq<SurfaceFormat>) -> bool {
    exists|i: int| 0 <= i < formats.len() && formats[i] == preferred_surface_format()
}

/// One dimension clamped into a closed interval.
pub open spec fn clamp_dim(v: u32, lo: u32, hi: u32) -> u32 {
    if v < lo {
        lo
    } else if v > hi {
        hi
    } else {
        v
    }
}

/// The image count the negotiation resolves to: one more than the
/// surface's minimum, capped by the maximum when that is nonzero.
pub open spec fn resolved_image_count(caps: SurfaceCapabilities) -> u32
    recommends
        caps.min_image_count < u32::MAX,
{
    let desired = (caps.min_image_count + 1) as u32;
    if caps.max_image_count > 0 && desired > caps.max_image_count {
        caps.max_image_count
    } else {
        desired
    }
}

/// The resolved tuple the presentable image chain is created with.
#[derive(Clone, Copy, Debug, PartialEq, Eq, Structural)]
pub struct SwapchainConfig {
    pub format: SurfaceFormat,
    pub present_mode: u32,
    pub extent: Extent2d,
    pub image_count: u32,
    pub sharing_mode: u32,
    pub usage: u32,
    pub pre_transform: u32,
    pub composite_alpha: u32,
    pub array_layers: u32,
}

/// The invariant every resolved configuration satisfies: the image count
/// lies within the surface's count bounds (a maximum of zero meaning
/// unbounded), and the extent lies within the surface's extent bounds.
pub open spec fn config_within_bounds(cfg: SwapchainConfig, caps: SurfaceCapabilities) -> bool {
    &&& caps.min_image_count <= cfg.image_count
    &&& caps.max_image_count == 0 || cfg.image_count <= caps.max_image_count
    &&& caps.min_image_extent.width <= cfg.extent.width <= caps.max_image_extent.width
    &&& caps.min_image_extent.height <= cfg.extent.height <= caps.max_image_extent.height
}

/// Picks the 8-bit BGRA / SRGB-nonlinear pair when the surface offers it,
/// and otherwise falls back to the first pair the surface reports.
pub fn choose_format(formats: &Vec<SurfaceFormat>) -> (r: SurfaceFormat)
    requires
        formats@.len() > 0,
    ensures
        has_preferred_format(formats@) ==> r == preferred_surface_format(),
        !has_preferred_format(formats@) ==> r == formats@[0],
{
    let n = formats.len();
    let mut i: usize = 0;
    while i < n
        invariant
            n == formats@.len(),
            i <= n,
            forall|k: int| 0 <= k < i ==> formats@[k] != preferred_surface_format(),
        decreases n - i,
    {
        let f = formats[i];
        if f.format == FORMAT_B8G8R8A8_SRGB && f.color_space == COLOR_SPACE_SRGB_NONLINEAR {
            assert(formats@[i as int] == preferred_surface_format());
            return f;
        }
        i = i + 1;
    }
    formats[0]
}

/// Picks the low-latency triple-buffered mode when the surface offers it,
/// and otherwise the universally supported queued mode.
pub fn choose_present_mode(modes: &Vec<u32>) -> (r: u32)
    ensures
        modes@.contains(PRESENT_MODE_MAILBOX) ==> r == PRESENT_MODE_MAILBOX,
        !modes@.contains(PRESENT_MODE_MAILBOX) ==> r == PRESENT_MODE_FIFO,
{
    let n = modes.len();
    let mut i: usize = 0;
    while i < n
        invariant
            n == modes@.len(),
            i <= n,
            forall|k: int| 0 <= k < i ==> modes@[k] != PRESENT_MODE_MAILBOX,
        decreases n - i,
    {
        if modes[i] == PRESENT_MODE_MAILBOX {
            assert(modes@.contains(PRESENT_MODE_MAILBOX));
            return PRESENT_MODE_MAILBOX;
        }
        i = i + 1;
    }
    assert(!modes@.contains(PRESENT_MODE_MAILBOX));
    PRESENT_MODE_FIFO
}

/// One dimension clamped into the surface's bounds.
fn clamp_u32(v: u32, lo: u32, hi: u32) -> (r: u32)
    requires
        lo <= hi,
    ensures
        r == clamp_dim(v, lo, hi),
{
    if v < lo {
        lo
    } else if v > hi {
        hi
    } else {
        v
    }
}

/// Clamps the window's current pixel size, dimension by dimension, into
/// the surface's extent bounds. The window size is authoritative: the
/// surface's reported current extent plays no part in the result.
pub fn resolve_extent(window: Extent2d, caps: &SurfaceCapabilities) -> (r: Extent2d)
    requires
        caps.min_image_extent.width <= caps.max_image_extent.width,
        caps.min_image_extent.height <= caps.max_image_extent.height,
    ensures
        r.width == clamp_dim(window.width, caps.min_image_extent.width, caps.max_image_extent.width),
        r.height == clamp_dim(window.height, caps.min_image_extent.height, caps.max_image_extent.height),
{
    Extent2d {
        width: clamp_u32(window.width, caps.min_image_extent.width, caps.max_image_extent.width),
        height: clamp_u32(window.height, caps.min_image_extent.height, caps.max_image_extent.height),
    }
}

/// Resolves the image count: one more than the surface's minimum, clamped
/// to the surface's maximum only when that maximum is nonzero (a zero
/// maximum means the surface imposes no upper bound).
pub fn resolve_image_count(caps: &SurfaceCapabilities) -> (r: u32)
    requires
        caps.min_image_count < u32::MAX,
    ensures
        r == resolved_image_count(*caps),
        caps.max_image_count == 0 ==> r == caps.min_image_count + 1,
        caps.max_image_count > 0 && caps.min_image_count + 1 > caps.max_image_count
            ==> r == caps.max_image_count,
        caps.max_image_count > 0 && caps.min_image_count + 1 <= caps.max_image_count
            ==> r == caps.min_image_count + 1,
{
    let desired = caps.min_image_count + 1;
    if caps.max_image_count > 0 && desired > caps.max_image_count {
        caps.max_image_count
    } else {
        desired
    }
}

/// Resolves the whole swapchain configuration from one surface report and
/// the window's current pixel size. The choice is deterministic and the
/// result always respects the surface's count and extent bounds; sharing
/// is always exclusive and the images carry color-attachment usage only.
pub fn resolve_config(report: &SurfaceReport, window: Extent2d) -> (cfg: SwapchainConfig)
    requires
        report.wf(),
    ensures
        has_preferred_format(report.formats@) ==> cfg.format == preferred_surface_format(),
        !has_preferred_format(report.formats@) ==> cfg.format == report.formats@[0],
        report.present_modes@.contains(PRESENT_MODE_MAILBOX) ==> cfg.present_mode == PRESENT_MODE_MAILBOX,
        !report.present_modes@.contains(PRESENT_MODE_MAILBOX) ==> cfg.present_mode == PRESENT_MODE_FIFO,
        cfg.extent.width == clamp_dim(
            window.width,
            report.capabilities.min_image_extent.width,
            report.capabilities.max_image_extent.width,
        ),
        cfg.extent.height == clamp_dim(
            window.height,
            report.capabilities.min_image_extent.height,
            report.capabilities.max_image_extent.height,
        ),
        cfg.image_count == resolved_image_count(report.capabilities),
        cfg.sharing_mode == SHARING_MODE_EXCLUSIVE,
        cfg.usage == IMAGE_USAGE_COLOR_ATTACHMENT,
        cfg.pre_transform == report.capabilities.current_transform,
        cfg.composite_alpha == COMPOSITE_ALPHA_OPAQUE,
        cfg.array_layers == 1,
        config_within_bounds(cfg, report.capabilities),
{
    let format = choose_format(&report.formats);
    let present_mode = choose_present_mode(&report.present_modes);
    let extent = resolve_extent(window, &report.capabilities);
    let image_count = resolve_image_count(&report.capabilities);
    SwapchainConfig {
        format,
        present_mode,
        extent,
        image_count,
        sharing_mode: SHARING_MODE_EXCLUSIVE,
        usage: IMAGE_USAGE_COLOR_ATTACHMENT,
        pre_transform: report.capabilities.current_transform,
        composite_alpha: COMPOSITE_ALPHA_OPAQUE,
        array_layers: 1,
    }
}

} // verus!
