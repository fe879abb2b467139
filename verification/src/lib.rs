//! Core logic of a deferred-shading terrain demo.
//!
//! The renderer itself (window, GPU resources, draw submission) is ordinary
//! unverified code; this crate holds the decisions and data that drive it:
//! the terrain color rule, the light placement distribution, the layout of
//! the geometry and result buffers, the grid mesh topology, the static cube
//! and blit meshes, and the keyboard handling of the main loop.

pub mod frame;
pub mod gbuffer;
pub mod grid;
pub mod lights;
pub mod mesh;
pub mod terrain;
pub mod view;
