pub mod buffer;
pub mod context;
pub mod commands;
pub mod gpu_context;
pub mod handler;
pub mod validator;
pub mod bg_registry;
pub mod pip_registry;
pub mod resources;
pub mod table;
pub mod renderer;
pub mod gpu_init;
