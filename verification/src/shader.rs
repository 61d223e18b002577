//! Shader-related components: stages, uniforms and linked programs.

pub mod stage;
pub mod uniform;
pub mod program;
