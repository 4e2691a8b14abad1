//! Render orchestration for an immediate-mode overlay drawn on top of a host
//! application's graphics pipeline.
//!
//! The overlay's widget toolkit and the graphics device are outside
//! collaborators; what this library owns is the per-frame protocol between
//! them: snapshot the device state, reconfigure the surface, translate the
//! toolkit's draw lists into an ordered sequence of device actions, and
//! restore the snapshot on every exit path.

pub mod buffers;
pub mod laws;
pub mod model;
pub mod plan;
