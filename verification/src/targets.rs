//! Frame target planning: one image view per chain image and one
//! framebuffer per view, in chain order.

use vstd::prelude::*;

use crate::surface::Extent2d;

verus! {

/// Aspect bit of a color-only image view.
pub const IMAGE_ASPECT_COLOR: u32 = 1;

/// The view the bootstrap creates over one chain image: identity
/// component mapping, color aspect, a single mip level and a single
/// array layer.
#[derive(Clone, Copy, Debug, PartialEq, Eq, Structural)]
pub struct ImageViewPlan {
    pub image_index: usize,
    pub identity_swizzle: bool,
    pub aspect: u32,
    pub base_mip_level: u32,
    pub mip_level_count: u32,
    pub base_array_layer: u32,
    pub array_layer_count: u32,
}

/// The framebuffer wrapped around one image view: single-attachment,
/// sized from the chain extent, one layer.
#[derive(Clone, Copy, Debug, PartialEq, Eq, Structural)]
pub struct FramebufferPlan {
    pub view_index: usize,
    pub width: u32,
    pub height: u32,
    pub layers: u32,
}

/// The view planned for chain image `i`.
pub open spec fn spec_image_view_plan(i: int) -> ImageViewPlan {
    ImageViewPlan {
        image_index: i as usize,
        identity_swizzle: true,
        aspect: IMAGE_ASPECT_COLOR,
        base_mip_level: 0,
        mip_level_count: 1,
        base_array_layer: 0,
        array_layer_count: 1,
    }
}

/// One view per chain image, in chain order.
pub open spec fn spec_image_view_plans(n: nat) -> Seq<ImageViewPlan> {
    Seq::new(n, |i: int| spec_image_view_plan(i))
}

/// The framebuffer planned for view `i` at the given extent.
pub open spec fn spec_framebuffer_plan(i: int, extent: Extent2d) -> FramebufferPlan {
    FramebufferPlan { view_index: i as usize, width: extent.width, height: extent.height, layers: 1 }
}

/// One framebuffer per view, in view order.
pub open spec fn spec_framebuffer_plans(n: nat, extent: Extent2d) -> Seq<FramebufferPlan> {
    Seq::new(n, |i: int| spec_framebuffer_plan(i, extent))
}

/// Plans one view per image actually returned by the created chain
/// (`image_count` is the returned count, not the requested one).
pub fn plan_image_views(image_count: usize) -> (r: Vec<ImageViewPlan>)
    ensures
        r@ == spec_image_view_plans(image_count as nat),
{
    let mut r: Vec<ImageViewPlan> = Vec::new();
    let mut i: usize = 0;
    while i < image_count
        invariant
            i <= image_count,
            r@.len() == i,
            forall|k: int| 0 <= k < i ==> r@[k] == spec_image_view_plan(k),
        decreases image_count - i,
    {
        r.push(
            ImageViewPlan {
                image_index: i,
                identity_swizzle: true,
                aspect: IMAGE_ASPECT_COLOR,
                base_mip_level: 0,
                mip_level_count: 1,
                base_array_layer: 0,
                array_layer_count: 1,
            },
        );
        i = i + 1;
    }
    proof {
        assert(r@ =~= spec_image_view_plans(image_count as nat));
    }
    r
}

/// Plans one framebuffer per view, each referencing exactly the view at
/// its own index, sized from the chain extent, one layer.
pub fn plan_framebuffers(view_count: usize, extent: Extent2d) -> (r: Vec<FramebufferPlan>)
    ensures
        r@ == spec_framebuffer_plans(view_count as nat, extent),
{
    let mut r: Vec<FramebufferPlan> = Vec::new();
    let mut i: usize = 0;
    while i < view_count
        invariant
            i <= view_count,
            r@.len() == i,
            forall|k: int| 0 <= k < i ==> r@[k] == spec_framebuffer_plan(k, extent),
        decreases view_count - i,
    {
        r.push(FramebufferPlan { view_index: i, width: extent.width, height: extent.height, layers: 1 });
        i = i + 1;
    }
    proof {
        assert(r@ =~= spec_framebuffer_plans(view_count as nat, extent));
    }
    r
}

/// The frame targets track the chain: for a chain that returned `n`
/// images, the planned views number exactly `n`, the framebuffers built
/// on them number exactly `n` as well, and framebuffer `i` references
/// exactly view `i` (chain image index equals framebuffer index).
pub proof fn lemma_frame_targets_track_chain(n: nat, extent: Extent2d)
    ensures
        spec_image_view_plans(n).len() == n,
        spec_framebuffer_plans(n, extent).len() == n,
        forall|i: int| 0 <= i < n ==> #[trigger] spec_framebuffer_plans(n, extent)[i].view_index
            == spec_image_view_plans(n)[i].image_index,
{
}

} // verus!
