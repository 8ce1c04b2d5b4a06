pub mod blit;
pub mod blueprints;
pub mod globals;
pub mod raymarch;
pub mod taa;
