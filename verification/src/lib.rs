//! Verified core of a compute-shader ray tracer that renders through wgpu
//! into a winit window: the shader parameter block and its uniform-buffer
//! bytes, surface sizing, compute dispatch sizing, the per-frame decisions
//! taken on the status of the acquired surface texture, and the routing of
//! window events.

pub mod app;
pub mod compute;
pub mod graphics;
