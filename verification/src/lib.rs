//! Render-state machine and frame lifecycle of an interactive real-time
//! renderer: surface configuration, pipeline selection, per-frame decisions
//! and the keyboard-driven camera controller.
//!
//! The library decides; its caller owns the window, the GPU device and the
//! event loop, performs what the library returns, and reports back what
//! happened.

pub mod app;
pub mod camera;
pub mod input;
pub mod mesh;
pub mod pipeline;
pub mod state;
pub mod surface;
pub mod vertex;
