//! Fathom is a small game-engine layer: it manages shader assets, lazily
//! allocates GPU vertex/index buffers for mesh entities, resolves each mesh's
//! shader identity to a compiled render pipeline, and drives the per-frame
//! render pass sequencing.
//!
//! The GPU device, queue and surface come from `wgpu`; every call into `wgpu`
//! stands behind a small trusted wrapper in [`gpu`], while the caching,
//! identifier and draw-dispatch logic around those calls is verified.

pub mod gpu;
pub mod shaders;
pub mod mesh;
pub mod pipeline;
pub mod material;
pub mod render;
