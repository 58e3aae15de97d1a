//! The core of a small real-time renderer that draws a scene of spheres with one
//! full-screen shading pass.
//!
//! The core owns every decision the renderer makes and none of the work on the
//! device: it lays records out as bytes, sizes the object buffer, orders the
//! commands of a frame and answers a failed acquisition of the surface. A host
//! carries out what the core hands back.

pub mod error;
pub mod frame;
pub mod layout;
pub mod pipeline;
pub mod renderer;
pub mod store;
pub mod surface;
pub mod targets;
