//! Procedural generation of a small 2D tile world.
//!
//! A noise field (a grid of fixed-point noise samples) is classified cell by
//! cell into tile texture indices, producing a tile grid ready for rendering.
//! A small helper computes the camera movement direction from key states.

pub mod camera;
pub mod grid;
pub mod noise_field;
pub mod terrain;
pub mod world;
