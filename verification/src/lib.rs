//! Decision core of a graphics-context bootstrap.
//!
//! The library holds the logic that drives a one-shot rendering-context
//! bootstrap: picking a suitable GPU adapter, resolving queue families,
//! negotiating a swapchain configuration against the surface's reported
//! capabilities, decoding shader binaries, planning the render pass,
//! pipeline, image views and framebuffers, and checking that teardown
//! happens in the exact reverse of construction order.
//!
//! Every function here works on plain values: the unverified shell that
//! owns the window and talks to the driver converts its handles and
//! reports into these types, asks the library for each decision, and
//! carries the decision out.

pub mod device;
pub mod diagnostics;
pub mod errors;
pub mod instance;
pub mod lifecycle;
pub mod probe;
pub mod render_graph;
pub mod shaders;
pub mod surface;
pub mod swapchain;
pub mod targets;

use vstd::prelude::*;

verus! {

} // verus!
