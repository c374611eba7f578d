//! Pipeline description and frame protocol of a small GPU renderer.
//!
//! The library lays out what the device is asked to build (bind-group layout
//! and bind group, vertex attribute offsets, placeholder texture) and decides
//! each step of drawing (wait for the uniform write, then draw), with each
//! result stated and proved. Creating and driving the device objects is left
//! to the caller.

pub mod bindings;
pub mod renderer;
pub mod renderer_builder;
pub mod shader;
pub mod texture;
pub mod uniform_buffer;
pub mod vertex_format;
pub mod vertex_layout;
