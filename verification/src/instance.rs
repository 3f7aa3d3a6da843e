//! Instance-creation planning: which extensions are added on top of the
//! platform's required set, whether the validation layer set is enabled,
//! and the fixed application metadata.

use vstd::prelude::*;

verus! {

/// Instance-creation flag that enumerates portability-translated
/// adapters as well.
pub const INSTANCE_FLAG_ENUMERATE_PORTABILITY: u32 = 1;

/// An instance-level extension the bootstrap adds beyond what the
/// platform already requires for its window surface.
#[derive(Clone, Copy, Debug, PartialEq, Eq, Structural)]
pub enum InstanceExtension {
    /// Enumeration of portability-translated adapters.
    PortabilityEnumeration,
    /// The diagnostics messenger.
    DebugUtils,
}

/// The fixed application metadata the instance is created with.
#[derive(Clone, Copy, Debug, PartialEq, Eq, Structural)]
pub struct AppInfoPlan {
    pub api_version: u32,
    pub application_version: u32,
    pub engine_version: u32,
}

/// The extensions added on top of the platform's required set, in the
/// order they are appended.
pub fn instance_extra_extensions() -> (r: Vec<InstanceExtension>)
    ensures
        r@ == seq![InstanceExtension::PortabilityEnumeration, InstanceExtension::DebugUtils],
{
    let mut r: Vec<InstanceExtension> = Vec::new();
    r.push(InstanceExtension::PortabilityEnumeration);
    r.push(InstanceExtension::DebugUtils);
    proof {
        assert(r@ =~= seq![InstanceExtension::PortabilityEnumeration, InstanceExtension::DebugUtils]);
    }
    r
}

/// The fixed application metadata.
pub fn instance_app_info() -> (r: AppInfoPlan)
    ensures
        r == (AppInfoPlan { api_version: 0, application_version: 1, engine_version: 1 }),
{
    AppInfoPlan { api_version: 0, application_version: 1, engine_version: 1 }
}

/// Decides whether the requested validation layers are enabled: they are
/// exactly when at least one layer was requested and the enumerated set
/// holds some layer with a nonempty name. The requested names themselves
/// are not compared against the enumerated set.
pub fn validation_layers_enabled(requested: &Vec<Vec<u8>>, enumerated: &Vec<Vec<u8>>) -> (r: bool)
    ensures
        r == (requested@.len() > 0 && exists|j: int|
            0 <= j < enumerated@.len() && (#[trigger] enumerated@[j])@.len() > 0),
{
    if requested.len() == 0 {
        return false;
    }
    let n = enumerated.len();
    let mut j: usize = 0;
    while j < n
        invariant
            requested@.len() > 0,
            n == enumerated@.len(),
            j <= n,
            forall|k: int| 0 <= k < j ==> (#[trigger] enumerated@[k])@.len() == 0,
        decreases n - j,
    {
        if enumerated[j].len() > 0 {
            proof {
                assert((enumerated@[j as int])@.len() > 0);
            }
            return true;
        }
        j = j + 1;
    }
    false
}

} // verus!
