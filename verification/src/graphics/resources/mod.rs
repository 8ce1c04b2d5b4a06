pub mod bindgroup;
pub mod buffer;
pub mod pipeline;
pub mod sampler;
pub mod texture;
pub mod vertex;
