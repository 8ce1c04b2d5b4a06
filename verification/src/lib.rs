//! Voxel world generation, input bookkeeping and gpu resource bookkeeping
//! for a voxel ray-marching renderer.

pub mod encoding;
pub mod controls;
pub mod game;
pub mod graphics;
pub mod utils;
