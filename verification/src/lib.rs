//! The device side of a virtio GPU.
//!
//! The crate keeps the tables of a paravirtual GPU (resources, scanouts,
//! fences, host copies of 2D dumb buffers), decides how each guest command is
//! answered, and drives the 3D renderer and guest memory through narrow,
//! documented boundaries.

pub mod blob;
pub mod config;
pub mod contexts;
pub mod device;
pub mod fence;
pub mod flush;
pub mod guest_memory;
pub mod laws;
pub mod model;
pub mod pixels;
pub mod protocol;
pub mod renderer;
pub mod resource;
pub mod scanout;
