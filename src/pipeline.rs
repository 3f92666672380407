use vstd::prelude::*;

use crate::error::MaterialError;
use crate::layout::{layout_for, BindGroupLayout, BindingSlot};
use crate::material::{AlphaMode, MaterialDescriptor, MaterialView};
use crate::shader::ShaderStage;

verus! {

/// Everything a render backend needs to build the pipeline of a material:
/// the entry function of each stage, the bind-group layout and the alpha
/// mode its blend state is derived from.
#[derive(Debug)]
pub struct PipelineDescriptor {
    pub vertex_entry: String,
    pub fragment_entry: String,
    pub layout: BindGroupLayout,
    pub alpha_mode: AlphaMode,
}

/// The outcome of building a pipeline for material `m` whose shaders declare
/// the bindings `declared`: the first missing entry point (vertex before
/// fragment), else a layout mismatch, else the pipeline.
pub open spec fn pipeline_result<C, T>(
    m: MaterialView<C, T>,
    declared: Seq<BindingSlot>,
    r: Result<PipelineDescriptor, MaterialError>,
) -> bool {
    let layout = layout_for(m.color_texture is Some);
    if m.vertex_entry is None {
        r == Err::<PipelineDescriptor, MaterialError>(
            MaterialError::MissingEntryPoint(ShaderStage::Vertex),
        )
    } else if m.fragment_entry is None {
        r == Err::<PipelineDescriptor, MaterialError>(
            MaterialError::MissingEntryPoint(ShaderStage::Fragment),
        )
    } else if !layout.spec_matches(declared) {
        r == Err::<PipelineDescriptor, MaterialError>(MaterialError::BindingLayoutMismatch)
    } else {
        &&& r is Ok
        &&& r->Ok_0.vertex_entry@ == m.vertex_entry->Some_0
        &&& r->Ok_0.fragment_entry@ == m.fragment_entry->Some_0
        &&& r->Ok_0.layout == layout
        &&& r->Ok_0.alpha_mode == m.alpha_mode
    }
}

impl<C, T> MaterialDescriptor<C, T> {
    /// Builds the pipeline description of this material for shaders that
    /// declare the bindings `declared`. Fails before any draw when a stage
    /// has no entry function or the declared bindings differ from the
    /// material's layout.
    pub fn build_pipeline(&self, declared: &Vec<BindingSlot>) -> (r: Result<
        PipelineDescriptor,
        MaterialError,
    >)
        ensures
            pipeline_result(self@, declared@, r),
    {
        let vertex_entry = match self.resolve_entry_point(ShaderStage::Vertex) {
            Ok(n) => n,
            Err(e) => return Err(e),
        };
        let fragment_entry = match self.resolve_entry_point(ShaderStage::Fragment) {
            Ok(n) => n,
            Err(e) => return Err(e),
        };
        let layout = self.build_bind_group_layout();
        match layout.check_declared(declared) {
            Ok(()) => {},
            Err(e) => return Err(e),
        }
        Ok(PipelineDescriptor { vertex_entry, fragment_entry, layout, alpha_mode: self.alpha_mode() })
    }
}

} // verus!
