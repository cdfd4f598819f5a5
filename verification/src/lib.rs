//! A verified model of a small real-time rendering toy: teapot instances
//! scattered in a cube, a fly-through camera driven by keyboard intent and
//! mouse look, and per-frame update rules (integration, follow behavior,
//! spawning, a shared decorative spin angle).
//!
//! All scalar state is fixed-point (see [`fixed`]); the unverified platform
//! shell owns the window, the GPU and the audio device, converts its
//! floating-point values at this boundary, and calls the verified update
//! and dispatch functions once per event or frame.

pub mod camera;
pub mod color;
pub mod fixed;
pub mod geom;
pub mod input;
pub mod rng;
pub mod scene;
pub mod update;
