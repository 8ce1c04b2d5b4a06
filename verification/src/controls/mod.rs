pub mod bindings;
pub mod keyboard;
pub mod mouse;
