//! Planning and lifecycle rules for bringing up a GPU rendering context on a
//! window: which device to pick, how to size and format the swapchain, what
//! each fixed descriptor holds, and in which order resources are created and
//! destroyed. Every function here works on plain values; the driver calls
//! themselves are made by the program around this library.

pub mod device;
pub mod diagnostics;
pub mod error;
pub mod event_loop;
pub mod helper;
pub mod instance;
pub mod pipeline;
pub mod render_pass;
pub mod renderer;
pub mod resource;
pub mod surface;
pub mod swapchain;
