//! Acquisition-and-distribution core for a low-resolution thermal camera.
//!
//! The library models temperatures as fixed-point integers (eighths of a
//! degree), computes per-frame display bounds and colors, and provides the
//! single-slot latest-wins mailbox and fan-out wake signal that decouple the
//! sampling loop from its consumers.

pub mod camera;
pub mod color;
pub mod fixed;
pub mod frame;
pub mod grid;
pub mod mailbox;
pub mod notify;
pub mod render;
pub mod wrapper;
