//! A verified model of a 2D sprite batch renderer.
//!
//! The crate keeps the decision logic of the engine — texture slot
//! assignment, batch buffer layout, index generation, the renderer state
//! machine, the animation clock and the layer registry — in verified code
//! over exact integer data, while the device-facing plumbing lives outside
//! the library.

pub mod helpers;
pub mod layers;
pub mod renderer;
pub mod sprite;
pub mod textures;
pub mod tilemaps;
