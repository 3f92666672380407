use vstd::prelude::*;

use crate::layout::{layout_for, BindGroupLayout, BindingKind, BindingSlot};
use crate::material::{glsl_entry, stage_entry, AlphaMode, MaterialView};
use crate::shader::ShaderStage;

verus! {

/// A blended GLSL material with a colour texture binds its uniform at slot 0,
/// its texture at slot 1 and its sampler at slot 2, and both of its stages
/// start at `main`.
pub proof fn glsl_blended_textured_material<C, T>(m: MaterialView<C, T>)
    requires
        m.color_texture is Some,
        m.alpha_mode == AlphaMode::Blend,
        m.vertex_entry == Some(glsl_entry()),
        m.fragment_entry == Some(glsl_entry()),
    ensures
        layout_for(m.color_texture is Some) == (BindGroupLayout {
            uniform_slot: 0,
            texture_slot: Some(1),
            sampler_slot: Some(2),
        }),
        layout_for(m.color_texture is Some).spec_entries() == seq![
            BindingSlot { index: 0, kind: BindingKind::Uniform },
            BindingSlot { index: 1, kind: BindingKind::Texture },
            BindingSlot { index: 2, kind: BindingKind::Sampler },
        ],
        stage_entry(m, ShaderStage::Vertex) == Some(seq!['m', 'a', 'i', 'n']),
        stage_entry(m, ShaderStage::Fragment) == Some(seq!['m', 'a', 'i', 'n']),
{
    assert(layout_for(true).spec_entries() =~= seq![
        BindingSlot { index: 0, kind: BindingKind::Uniform },
        BindingSlot { index: 1, kind: BindingKind::Texture },
        BindingSlot { index: 2, kind: BindingKind::Sampler },
    ]);
}

} // verus!
