use shader_material::error::MaterialError;
use shader_material::layout::{BindGroupLayout, BindingKind, BindingSlot, SAMPLER_SLOT, TEXTURE_SLOT, UNIFORM_SLOT};
use shader_material::material::{AlphaMode, MaterialDescriptor};
use shader_material::shader::ShaderStage;

fn slot(index: u32, kind: BindingKind) -> BindingSlot {
    BindingSlot { index, kind }
}

fn full_bindings() -> Vec<BindingSlot> {
    vec![
        slot(0, BindingKind::Uniform),
        slot(1, BindingKind::Texture),
        slot(2, BindingKind::Sampler),
    ]
}

#[test]
fn glsl_blended_textured_material_reports_slots_and_main() {
    let m = MaterialDescriptor::glsl([0u8, 0, 255, 255], Some(7u32), AlphaMode::Blend);
    let layout = m.build_bind_group_layout();
    assert_eq!(
        layout,
        BindGroupLayout { uniform_slot: 0, texture_slot: Some(1), sampler_slot: Some(2) }
    );
    assert_eq!(layout.entries(), full_bindings());
    assert_eq!(m.resolve_entry_point(ShaderStage::Vertex), Ok("main".to_string()));
    assert_eq!(m.resolve_entry_point(ShaderStage::Fragment), Ok("main".to_string()));
    assert_eq!(m.alpha_mode(), AlphaMode::Blend);
}

#[test]
fn untextured_opaque_material_binds_only_the_uniform() {
    let m: MaterialDescriptor<[u8; 4], u32> = MaterialDescriptor::glsl([0, 100, 0, 255], None, AlphaMode::Opaque);
    let layout = m.build_bind_group_layout();
    assert_eq!(layout.uniform_slot, 0);
    assert_eq!(layout.texture_slot, None);
    assert_eq!(layout.sampler_slot, None);
    assert_eq!(layout.entries(), vec![slot(0, BindingKind::Uniform)]);
}

#[test]
fn slot_constants() {
    assert_eq!(UNIFORM_SLOT, 0);
    assert_eq!(TEXTURE_SLOT, 1);
    assert_eq!(SAMPLER_SLOT, 2);
}

#[test]
fn build_pipeline_for_textured_material() {
    let m = MaterialDescriptor::glsl(3u8, Some("pattern.png".to_string()), AlphaMode::Blend);
    let p = m.build_pipeline(&full_bindings()).unwrap();
    assert_eq!(p.vertex_entry, "main");
    assert_eq!(p.fragment_entry, "main");
    assert_eq!(p.layout, BindGroupLayout { uniform_slot: 0, texture_slot: Some(1), sampler_slot: Some(2) });
    assert_eq!(p.alpha_mode, AlphaMode::Blend);
}

#[test]
fn build_pipeline_accepts_bindings_in_any_order_and_repeated() {
    let m = MaterialDescriptor::glsl(3u8, Some(1u8), AlphaMode::Opaque);
    let declared = vec![
        slot(2, BindingKind::Sampler),
        slot(0, BindingKind::Uniform),
        slot(1, BindingKind::Texture),
        slot(0, BindingKind::Uniform),
    ];
    assert!(m.build_pipeline(&declared).is_ok());
}

#[test]
fn build_pipeline_uses_named_entry_points() {
    let m: MaterialDescriptor<u8, u8> = MaterialDescriptor::new(
        0,
        None,
        AlphaMode::Opaque,
        Some("vertex".to_string()),
        Some("fragment".to_string()),
    );
    let p = m.build_pipeline(&vec![slot(0, BindingKind::Uniform)]).unwrap();
    assert_eq!(p.vertex_entry, "vertex");
    assert_eq!(p.fragment_entry, "fragment");
    assert_eq!(p.layout.texture_slot, None);
    assert_eq!(p.alpha_mode, AlphaMode::Opaque);
}

#[test]
fn missing_vertex_entry_point() {
    let m: MaterialDescriptor<u8, u8> = MaterialDescriptor::new(0, None, AlphaMode::Opaque, None, None);
    assert_eq!(
        m.resolve_entry_point(ShaderStage::Vertex),
        Err(MaterialError::MissingEntryPoint(ShaderStage::Vertex))
    );
    assert_eq!(
        m.build_pipeline(&vec![slot(0, BindingKind::Uniform)]).unwrap_err(),
        MaterialError::MissingEntryPoint(ShaderStage::Vertex)
    );
}

#[test]
fn missing_fragment_entry_point() {
    let m: MaterialDescriptor<u8, u8> =
        MaterialDescriptor::new(0, None, AlphaMode::Opaque, Some("main".to_string()), None);
    assert_eq!(m.resolve_entry_point(ShaderStage::Vertex), Ok("main".to_string()));
    assert_eq!(
        m.build_pipeline(&vec![slot(0, BindingKind::Uniform)]).unwrap_err(),
        MaterialError::MissingEntryPoint(ShaderStage::Fragment)
    );
}

#[test]
fn undeclared_sampler_is_a_mismatch() {
    let m = MaterialDescriptor::glsl(0u8, Some(0u8), AlphaMode::Blend);
    let declared = vec![slot(0, BindingKind::Uniform), slot(1, BindingKind::Texture)];
    assert_eq!(m.build_pipeline(&declared).unwrap_err(), MaterialError::BindingLayoutMismatch);
}

#[test]
fn texture_declared_without_a_texture_is_a_mismatch() {
    let m: MaterialDescriptor<u8, u8> = MaterialDescriptor::glsl(0, None, AlphaMode::Opaque);
    assert_eq!(m.build_pipeline(&full_bindings()).unwrap_err(), MaterialError::BindingLayoutMismatch);
}

#[test]
fn binding_at_the_wrong_index_is_a_mismatch() {
    let m = MaterialDescriptor::glsl(0u8, Some(0u8), AlphaMode::Blend);
    let declared = vec![
        slot(0, BindingKind::Uniform),
        slot(2, BindingKind::Texture),
        slot(1, BindingKind::Sampler),
    ];
    assert_eq!(m.build_pipeline(&declared).unwrap_err(), MaterialError::BindingLayoutMismatch);
    assert_eq!(
        m.build_bind_group_layout().check_declared(&declared),
        Err(MaterialError::BindingLayoutMismatch)
    );
    assert_eq!(m.build_bind_group_layout().check_declared(&full_bindings()), Ok(()));
}

#[test]
fn no_declared_bindings_is_a_mismatch() {
    let m: MaterialDescriptor<u8, u8> = MaterialDescriptor::glsl(0, None, AlphaMode::Opaque);
    assert_eq!(m.build_pipeline(&Vec::new()).unwrap_err(), MaterialError::BindingLayoutMismatch);
}

#[test]
fn accessors_return_what_was_given() {
    let threshold = 0.5f32.to_bits();
    let m = MaterialDescriptor::glsl([1u8, 2, 3, 4], Some(9u16), AlphaMode::Mask(threshold));
    assert_eq!(*m.base_color(), [1u8, 2, 3, 4]);
    assert_eq!(*m.color_texture(), Some(9u16));
    assert_eq!(m.alpha_mode(), AlphaMode::Mask(threshold));
    assert_eq!(f32::from_bits(threshold), 0.5);
}

#[test]
fn layout_contains_only_its_slots() {
    let with = BindGroupLayout::for_texture(true);
    let without = BindGroupLayout::for_texture(false);
    assert!(with.contains(slot(2, BindingKind::Sampler)));
    assert!(!without.contains(slot(2, BindingKind::Sampler)));
    assert!(without.contains(slot(0, BindingKind::Uniform)));
    assert!(!with.contains(slot(0, BindingKind::Texture)));
}
