//! Frame lifecycle and surface state of a viewer that draws one textured,
//! camera-viewed pentagon into a resizable window.
//!
//! The library decides; the program around it talks to the GPU and the
//! window system and hands the outcomes back as plain values.

pub mod frame;
pub mod input;
pub mod mesh;
pub mod render_pass;
pub mod surface;
