//! Planning and protocol rules for a single compute dispatch whose output is
//! copied to a staging buffer, mapped for reading and assembled into an RGBA
//! image. The device itself is driven elsewhere; this crate decides sizes,
//! workgroup counts, binding layouts, command order and the mapping lifecycle.

pub mod buffers;
pub mod commands;
pub mod dispatch;
pub mod driver;
pub mod error;
pub mod gpu;
pub mod layout;
pub mod pixels;
pub mod plan;
pub mod readback;
