//! Frame-lifecycle and resource-synchronisation core of a small renderer.
//!
//! Everything here works on plain values: handles, queries and submissions
//! belong to the caller, which feeds their results in and carries the
//! decisions out.

pub mod buffer;
pub mod commands;
pub mod device;
pub mod frame;
pub mod img;
pub mod init;
pub mod input;
pub mod pipeline;
pub mod render_pass;
pub mod setup;
pub mod swapchain;
pub mod sync;
pub mod teardown;
pub mod uniform;
pub mod upload;
pub mod vulkan;
