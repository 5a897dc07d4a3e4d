pub mod access;
pub mod descriptor;
pub mod device;
pub mod epochs;
pub mod physical;
pub mod pipeline;
pub mod resources;
pub mod shader_module;
pub mod ray_tracing;
pub mod render_pass;
pub mod surface;
