//! A declarative description of a fixed scene for a GPU rendering API.
//!
//! A caller registers shaders, vertex layouts, textures, meshes and render
//! passes with an [`engine::Engine`]. The library turns that registry into
//! the description of every device object that the scene needs, and into the
//! list of commands that redraws the scene each frame; it says how the
//! presentation surface is configured and what each window event leads to.
//! Everything is computed on plain values: talking to the device and to the
//! window system is left to the program around the library.
//!
//! - [`format`]: the sizes of vertex and index formats.
//! - [`layout`]: from a list of attribute formats to stride and offsets.
//! - [`engine`]: the registry and its handles.
//! - [`descriptor`]: the fixed settings of textures, samplers and pipelines.
//! - [`scene`]: materialization of the registry, stage by stage.
//! - [`surface`]: the configuration of the presentation surface.
//! - [`frame`]: the frame loop and the commands of a frame.

pub mod descriptor;
pub mod engine;
pub mod format;
pub mod frame;
pub mod layout;
pub mod scene;
pub mod surface;
