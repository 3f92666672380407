use vstd::prelude::*;

verus! {

/// A programmable stage of the render pipeline.
#[derive(Clone, Copy, Debug, PartialEq, Eq, Structural)]
pub enum ShaderStage {
    Vertex,
    Fragment,
}

} // verus!
