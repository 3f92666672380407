use vstd::prelude::*;
use vstd::string::StringExecFns;

use crate::error::MaterialError;
use crate::layout::{layout_for, BindGroupLayout};
use crate::shader::ShaderStage;

verus! {

/// How a surface's transparency combines with what lies behind it.
#[derive(Clone, Copy, Debug, PartialEq, Eq, Structural)]
pub enum AlphaMode {
    /// No blending: the surface hides what is behind it.
    Opaque,
    /// Straight alpha blending.
    Blend,
    /// Fragments under the threshold are discarded; the threshold is held as
    /// the bit pattern of a 32-bit float.
    Mask(u32),
}

/// The name both stages of a GLSL shader start from.
pub open spec fn glsl_entry() -> Seq<char> {
    seq!['m', 'a', 'i', 'n']
}

/// What a material descriptor holds, with entry names as character sequences.
pub struct MaterialView<C, T> {
    pub base_color: C,
    pub color_texture: Option<T>,
    pub alpha_mode: AlphaMode,
    pub vertex_entry: Option<Seq<char>>,
    pub fragment_entry: Option<Seq<char>>,
}

/// The name of an optional entry function, as characters.
pub open spec fn entry_view(e: Option<String>) -> Option<Seq<char>> {
    match e {
        Some(s) => Some(s@),
        None => None,
    }
}

/// A shader-backed surface material. It is immutable once built and can be
/// shared by every object drawn with it. `C` is the base colour handed to the
/// uniform slot, `T` a handle to the colour texture; the descriptor reads
/// neither.
pub struct MaterialDescriptor<C, T> {
    base_color: C,
    color_texture: Option<T>,
    alpha_mode: AlphaMode,
    vertex_entry: Option<String>,
    fragment_entry: Option<String>,
}

impl<C, T> View for MaterialDescriptor<C, T> {
    type V = MaterialView<C, T>;

    closed spec fn view(&self) -> MaterialView<C, T> {
        MaterialView {
            base_color: self.base_color,
            color_texture: self.color_texture,
            alpha_mode: self.alpha_mode,
            vertex_entry: entry_view(self.vertex_entry),
            fragment_entry: entry_view(self.fragment_entry),
        }
    }
}

/// The entry name a material gives a stage, if any.
pub open spec fn stage_entry<C, T>(m: MaterialView<C, T>, stage: ShaderStage) -> Option<Seq<char>> {
    match stage {
        ShaderStage::Vertex => m.vertex_entry,
        ShaderStage::Fragment => m.fragment_entry,
    }
}

impl<C, T> MaterialDescriptor<C, T> {
    /// A material with explicitly named entry functions; a stage left
    /// without one makes pipeline building fail.
    pub fn new(
        base_color: C,
        color_texture: Option<T>,
        alpha_mode: AlphaMode,
        vertex_entry: Option<String>,
        fragment_entry: Option<String>,
    ) -> (r: Self)
        ensures
            r@ == (MaterialView {
                base_color,
                color_texture,
                alpha_mode,
                vertex_entry: entry_view(vertex_entry),
                fragment_entry: entry_view(fragment_entry),
            }),
    {
        MaterialDescriptor { base_color, color_texture, alpha_mode, vertex_entry, fragment_entry }
    }

    /// A material for a GLSL shader pair: both stages start at `main`.
    pub fn glsl(base_color: C, color_texture: Option<T>, alpha_mode: AlphaMode) -> (r: Self)
        ensures
            r@ == (MaterialView {
                base_color,
                color_texture,
                alpha_mode,
                vertex_entry: Some(glsl_entry()),
                fragment_entry: Some(glsl_entry()),
            }),
    {
        let v = String::from_str("main");
        let f = String::from_str("main");
        proof {
            reveal_strlit("main");
            assert(v@ =~= glsl_entry());
            assert(f@ =~= glsl_entry());
        }
        MaterialDescriptor {
            base_color,
            color_texture,
            alpha_mode,
            vertex_entry: Some(v),
            fragment_entry: Some(f),
        }
    }

    /// The base colour bound at the uniform slot.
    pub fn base_color(&self) -> (r: &C)
        ensures
            *r == self@.base_color,
    {
        &self.base_color
    }

    /// The colour texture, if the material has one.
    pub fn color_texture(&self) -> (r: &Option<T>)
        ensures
            *r == self@.color_texture,
    {
        &self.color_texture
    }

    /// The alpha mode; the renderer derives its blend state from it.
    pub fn alpha_mode(&self) -> (r: AlphaMode)
        ensures
            r == self@.alpha_mode,
    {
        self.alpha_mode
    }

    /// The bind-group layout: uniform at its slot, and texture and sampler at
    /// theirs only when the material has a colour texture.
    pub fn build_bind_group_layout(&self) -> (r: BindGroupLayout)
        ensures
            r == layout_for(self@.color_texture is Some),
    {
        BindGroupLayout::for_texture(self.color_texture.is_some())
    }

    /// The entry function of `stage`, or `MissingEntryPoint` when the
    /// material names none.
    pub fn resolve_entry_point(&self, stage: ShaderStage) -> (r: Result<String, MaterialError>)
        ensures
            match stage_entry(self@, stage) {
                Some(n) => r is Ok && r->Ok_0@ == n,
                None => r == Err::<String, MaterialError>(MaterialError::MissingEntryPoint(stage)),
            },
    {
        let e = match stage {
            ShaderStage::Vertex => &self.vertex_entry,
            ShaderStage::Fragment => &self.fragment_entry,
        };
        match e {
            Some(n) => Ok(n.clone()),
            None => Err(MaterialError::MissingEntryPoint(stage)),
        }
    }
}

} // verus!
