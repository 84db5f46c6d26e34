//! A 2D sprite renderer core: scene registry, sprite resource caching,
//! camera and transform math over exact fixed-point arithmetic, and the
//! per-frame command stream that drives a GPU backend.
//!
//! The GPU itself (device, swapchain, pipelines) lives behind the thin
//! integer handles in [`resources`] and [`targets`]; the backend that owns
//! the real objects interprets the command stream built by [`program`].

pub mod camera;
pub mod context;
pub mod data;
pub mod device;
pub mod fixed;
pub mod loader;
pub mod mat;
pub mod transform;
pub mod program;
pub mod resources;
pub mod sprite;
pub mod sprite_renderer;
pub mod targets;
