//! Screen-space lightmap compositing for a layered 2D sprite renderer.
//!
//! Sprites and lights are drawn into two off-screen targets of the window's
//! size; a final pass multiplies the two and presents the product. This crate
//! holds the rules of that pipeline: the sizing and lifecycle of the target
//! pair, the blend arithmetic, the camera set-up and the reaction to window
//! resizes.

pub mod blend;
pub mod cameras;
pub mod color;
pub mod layers;
pub mod passes;
pub mod plugin;
pub mod settings;
pub mod targets;
pub mod window;
