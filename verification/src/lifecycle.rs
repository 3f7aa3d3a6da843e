//! Resource-lifetime ordering: later-created objects hold implicit
//! back-references to earlier ones, so destruction must happen in the
//! exact reverse of construction order, and any other order is flagged
//! as a lifetime-ordering violation.

use vstd::prelude::*;

verus! {

/// The kinds of objects the bootstrap creates, from the instance down.
#[derive(Clone, Copy, Debug, PartialEq, Eq, Structural)]
pub enum ResourceKind {
    Instance,
    DebugMessenger,
    Surface,
    Device,
    Swapchain,
    ImageViews,
    RenderPass,
    Pipeline,
    Framebuffers,
}

/// The required destruction order over the object kinds: pipeline,
/// render pass, framebuffers and views, swapchain, surface, device,
/// debug messenger, instance.
pub open spec fn spec_teardown_order() -> Seq<ResourceKind> {
    seq![
        ResourceKind::Pipeline,
        ResourceKind::RenderPass,
        ResourceKind::Framebuffers,
        ResourceKind::ImageViews,
        ResourceKind::Swapchain,
        ResourceKind::Surface,
        ResourceKind::Device,
        ResourceKind::DebugMessenger,
        ResourceKind::Instance,
    ]
}

/// The required destruction order over the object kinds.
pub fn teardown_order() -> (r: Vec<ResourceKind>)
    ensures
        r@ == spec_teardown_order(),
{
    let mut r: Vec<ResourceKind> = Vec::new();
    r.push(ResourceKind::Pipeline);
    r.push(ResourceKind::RenderPass);
    r.push(ResourceKind::Framebuffers);
    r.push(ResourceKind::ImageViews);
    r.push(ResourceKind::Swapchain);
    r.push(ResourceKind::Surface);
    r.push(ResourceKind::Device);
    r.push(ResourceKind::DebugMessenger);
    r.push(ResourceKind::Instance);
    proof {
        assert(r@ =~= spec_teardown_order());
    }
    r
}

/// The one destruction order a construction log admits: its exact
/// reverse, newest object first.
pub fn expected_teardown(built: &Vec<u64>) -> (r: Vec<u64>)
    ensures
        r@ == built@.reverse(),
{
    let n = built.len();
    let mut r: Vec<u64> = Vec::new();
    let mut i: usize = 0;
    while i < n
        invariant
            n == built@.len(),
            i <= n,
            r@.len() == i,
            forall|k: int| 0 <= k < i ==> r@[k] == built@[n - 1 - k],
        decreases n - i,
    {
        r.push(built[n - 1 - i]);
        i = i + 1;
    }
    proof {
        assert(r@ =~= built@.reverse());
    }
    r
}

/// Flags a lifetime-ordering violation: the result is true exactly when
/// the destruction log is anything other than the exact reverse of the
/// construction log.
pub fn teardown_violation(built: &Vec<u64>, torn_down: &Vec<u64>) -> (violation: bool)
    ensures
        violation == (torn_down@ != built@.reverse()),
{
    let n = built.len();
    if torn_down.len() != n {
        proof {
            assert(built@.reverse().len() == n);
        }
        return true;
    }
    let mut i: usize = 0;
    while i < n
        invariant
            n == built@.len(),
            n == torn_down@.len(),
            i <= n,
            forall|k: int| 0 <= k < i ==> torn_down@[k] == built@[n - 1 - k],
        decreases n - i,
    {
        if torn_down[i] != built[n - 1 - i] {
            proof {
                assert(built@.reverse()[i as int] == built@[n - 1 - i]);
            }
            return true;
        }
        i = i + 1;
    }
    proof {
        assert(torn_down@ =~= built@.reverse());
    }
    false
}

} // verus!
