//! Shader-backed surface materials described independently of any engine:
//! the fixed binding slots a material asks for, the entry points of its
//! shader stages, and the pipeline description a renderer builds from it.

pub mod error;
pub mod laws;
pub mod layout;
pub mod material;
pub mod pipeline;
pub mod shader;
