//! The bootstrap's error taxonomy and its stage-to-error mapping.
//!
//! Every stage failure is terminal: the bootstrap has no retry or
//! degraded-mode path, so each stage owns exactly one error variant.

use vstd::prelude::*;

verus! {

/// One error per way the bootstrap can fail.
#[derive(Clone, Copy, Debug, PartialEq, Eq, Structural)]
pub enum BootError {
    /// No adapter meets the capability and device-class predicate.
    AdapterNotFound,
    /// No queue family satisfies the required capability mask.
    QueueFamilyNotFound,
    /// The driver rejected logical-device creation.
    DeviceCreationFailed,
    /// The platform surface could not be bound to the window.
    SurfaceBindingFailed,
    /// The driver rejected the swapchain or an image view.
    SwapchainCreationFailed,
    /// A shader binary is corrupt or not valid intermediate bytecode.
    ShaderModuleInvalid,
    /// The pipeline batch failed compilation or linking.
    PipelineCompilationFailed,
    /// The driver rejected a framebuffer.
    FramebufferCreationFailed,
}

/// The strictly sequential stages of the bootstrap, in dependency order.
#[derive(Clone, Copy, Debug, PartialEq, Eq, Structural)]
pub enum BootStage {
    AdapterProbe,
    QueueResolution,
    DeviceCreation,
    SurfaceBinding,
    SwapchainCreation,
    ShaderDecoding,
    PipelineCompilation,
    FramebufferCreation,
}

/// The error that a failure of the given stage surfaces to the caller.
pub open spec fn spec_stage_error(stage: BootStage) -> BootError {
    match stage {
        BootStage::AdapterProbe => BootError::AdapterNotFound,
        BootStage::QueueResolution => BootError::QueueFamilyNotFound,
        BootStage::DeviceCreation => BootError::DeviceCreationFailed,
        BootStage::SurfaceBinding => BootError::SurfaceBindingFailed,
        BootStage::SwapchainCreation => BootError::SwapchainCreationFailed,
        BootStage::ShaderDecoding => BootError::ShaderModuleInvalid,
        BootStage::PipelineCompilation => BootError::PipelineCompilationFailed,
        BootStage::FramebufferCreation => BootError::FramebufferCreationFailed,
    }
}

/// Maps a failed stage to the single terminal error it surfaces.
pub fn stage_error(stage: BootStage) -> (e: BootError)
    ensures
        e == spec_stage_error(stage),
{
    match stage {
        BootStage::AdapterProbe => BootError::AdapterNotFound,
        BootStage::QueueResolution => BootError::QueueFamilyNotFound,
        BootStage::DeviceCreation => BootError::DeviceCreationFailed,
        BootStage::SurfaceBinding => BootError::SurfaceBindingFailed,
        BootStage::SwapchainCreation => BootError::SwapchainCreationFailed,
        BootStage::ShaderDecoding => BootError::ShaderModuleInvalid,
        BootStage::PipelineCompilation => BootError::PipelineCompilationFailed,
        BootStage::FramebufferCreation => BootError::FramebufferCreationFailed,
    }
}

} // verus!
