pub mod combine;
pub mod defines;
pub mod opengl_program;
pub mod gl_state;
pub mod wgpu_program;
