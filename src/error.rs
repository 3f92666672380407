use vstd::prelude::*;

use crate::shader::ShaderStage;

verus! {

/// Why a pipeline cannot be built for a material.
#[derive(Clone, Copy, Debug, PartialEq, Eq, Structural)]
pub enum MaterialError {
    /// The bindings the shader declares differ from the material's layout.
    BindingLayoutMismatch,
    /// The material names no entry function for this stage.
    MissingEntryPoint(ShaderStage),
}

} // verus!
