//! Decision logic of a full-screen, click-through Wayland overlay: which
//! presentation settings to pick from what the GPU surface offers, how the
//! overlay reacts to compositor and frame events, and how its event loop
//! proceeds. Everything that talks to the compositor or the GPU lives in the
//! program around this library.

pub mod capabilities;
pub mod surface;
pub mod overlay;
pub mod layer;
pub mod laws;
