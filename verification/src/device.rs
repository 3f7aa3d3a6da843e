//! Device factory planning: which queue families the logical device is
//! created with, which queues are retrieved afterwards, and which device
//! extensions are enabled.

use vstd::prelude::*;

use crate::errors::BootError;

verus! {

/// The queues the bootstrap retrieves after device creation: the graphics
/// family unconditionally, and a distinct presentation family only when
/// one was identified and reports presentation support.
///
/// An absent presentation family means presentation shares the graphics
/// queue; the absence is signaled, never defaulted silently.
#[derive(Clone, Copy, Debug)]
pub struct QueuePlan {
    pub graphics_family: usize,
    pub presentation_family: Option<usize>,
}

/// A device-level extension the logical device is created with.
#[derive(Clone, Copy, Debug, PartialEq, Eq, Structural)]
pub enum DeviceExtension {
    /// The presentable-image-chain capability.
    Swapchain,
    /// The platform portability subset, for environments that require it.
    PortabilitySubset,
}

/// Plans the queues from the resolved family list. The graphics queue
/// comes unconditionally from index 0 of the list; a presentation queue
/// is designated only if a second, distinct family index exists and that
/// family reports presentation support against the bound surface
/// (`second_family_presents`, queried by the shell). An empty family
/// list is the `QueueFamilyNotFound` failure.
pub fn plan_queues(families: &Vec<usize>, second_family_presents: bool) -> (r: Result<
    QueuePlan,
    BootError,
>)
    ensures
        families@.len() == 0 ==> r == Err::<QueuePlan, BootError>(BootError::QueueFamilyNotFound),
        (r matches Ok(plan) ==> families@.len() > 0 && plan.graphics_family == families@[0]),
        (r matches Ok(plan) ==> (plan.presentation_family == if families@.len() > 1
            && families@[1] != families@[0] && second_family_presents {
            Some(families@[1])
        } else {
            None::<usize>
        })),
        r is Ok <==> families@.len() > 0,
{
    if families.len() == 0 {
        return Err(BootError::QueueFamilyNotFound);
    }
    let graphics_family = families[0];
    let presentation_family = if families.len() > 1 && families[1] != graphics_family
        && second_family_presents {
        Some(families[1])
    } else {
        None
    };
    Ok(QueuePlan { graphics_family, presentation_family })
}

/// The distinct families the device is created with: one queue-creation
/// request per required family, the graphics family always and the
/// presentation family only when it was separately designated.
pub fn queue_request_families(plan: &QueuePlan) -> (r: Vec<usize>)
    ensures
        (plan.presentation_family matches Some(p) ==> r@ == seq![plan.graphics_family, p]),
        plan.presentation_family is None ==> r@ == seq![plan.graphics_family],
{
    let mut r: Vec<usize> = Vec::new();
    r.push(plan.graphics_family);
    match plan.presentation_family {
        Some(p) => {
            r.push(p);
            proof {
                assert(r@ =~= seq![plan.graphics_family, p]);
            }
        },
        None => {
            proof {
                assert(r@ =~= seq![plan.graphics_family]);
            }
        },
    }
    r
}

/// The device extensions the logical device always enables: the
/// swapchain capability and the platform portability subset.
pub fn device_extensions() -> (r: Vec<DeviceExtension>)
    ensures
        r@ == seq![DeviceExtension::PortabilitySubset, DeviceExtension::Swapchain],
{
    let mut r: Vec<DeviceExtension> = Vec::new();
    r.push(DeviceExtension::PortabilitySubset);
    r.push(DeviceExtension::Swapchain);
    proof {
        assert(r@ =~= seq![DeviceExtension::PortabilitySubset, DeviceExtension::Swapchain]);
    }
    r
}

} // verus!
