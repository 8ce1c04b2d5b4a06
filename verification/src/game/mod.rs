pub mod region;
pub mod world_gen;
pub mod world;
pub mod game;
pub mod plan;
pub mod palette;
pub mod rendering;
