use engine::gl_consts::{GL_BACK, GL_FRONT, GL_FRONT_AND_BACK};
use engine::renderer::gl::{attribute_layout, AttributeIssue, CullingChange, GlError, GlState, GlTexture};
use engine::renderer::shader::{Type, Variable};
use engine::renderer::{CullingMode, PipelineId, TextureId};

fn var(name: &str, ty: Type) -> Variable {
    Variable { name: String::from(name), ty }
}

#[test]
fn ids_are_handed_out_in_turn() {
    let mut state = GlState::new(4);
    assert_eq!(state.next_id(), 0);
    assert_eq!(state.next_id(), 1);
    let t = state.load_texture(77);
    assert_eq!(t, TextureId(2));
    assert_eq!(state.texture(t), Some(GlTexture { id: 77, active_index: 0 }));
}

#[test]
fn unloading_forgets_a_texture() {
    let mut state = GlState::new(2);
    let t = state.load_texture(5);
    assert_eq!(state.unload_texture(t), Some(GlTexture { id: 5, active_index: 0 }));
    assert_eq!(state.texture(t), None);
    assert_eq!(state.unload_texture(t), None);
}

#[test]
fn culling_changes_only_what_it_must() {
    let mut state = GlState::new(1);
    // fresh state: culling off, back faces
    assert_eq!(
        state.backface_culling(CullingMode::Back),
        CullingChange { enable: true, disable: false, cull_face: None }
    );
    assert_eq!(
        state.backface_culling(CullingMode::Back),
        CullingChange { enable: false, disable: false, cull_face: None }
    );
    assert_eq!(
        state.backface_culling(CullingMode::Front),
        CullingChange { enable: false, disable: false, cull_face: Some(GL_FRONT) }
    );
    assert_eq!(
        state.backface_culling(CullingMode::FrontBack),
        CullingChange { enable: false, disable: false, cull_face: Some(GL_FRONT_AND_BACK) }
    );
    assert_eq!(
        state.backface_culling(CullingMode::Disabled),
        CullingChange { enable: false, disable: true, cull_face: None }
    );
    assert_eq!(
        state.backface_culling(CullingMode::Disabled),
        CullingChange { enable: false, disable: false, cull_face: None }
    );
    assert_eq!(
        state.backface_culling(CullingMode::Back),
        CullingChange { enable: true, disable: false, cull_face: Some(GL_BACK) }
    );
}

#[test]
fn texture_units_are_taken_in_order_and_freed_on_unbind() {
    let mut state = GlState::new(3);
    let tex = state.load_texture(10);
    let p = PipelineId(100);
    state.bind_pipeline(p);
    // unit 0 is kept for loading images
    assert_eq!(state.bind_texture_unit(p, tex).unwrap(), 1);
    assert_eq!(state.texture(tex).unwrap().active_index, 1);
    assert_eq!(state.bind_texture_unit(p, tex).unwrap(), 2);
    assert!(matches!(state.bind_texture_unit(p, tex), Err(GlError::TextureUnitsFull)));
    state.unbind_pipeline(p);
    state.bind_pipeline(p);
    assert_eq!(state.bind_texture_unit(p, tex).unwrap(), 1);
}

#[test]
fn binding_needs_a_bound_pipeline_and_a_loaded_texture() {
    let mut state = GlState::new(4);
    let tex = state.load_texture(10);
    assert!(matches!(
        state.bind_texture_unit(PipelineId(9), tex),
        Err(GlError::PipelineNotBound)
    ));
    let p = PipelineId(1);
    state.bind_pipeline(p);
    assert!(matches!(state.bind_texture_unit(p, TextureId(999)), Err(GlError::TextureUnloaded)));
    // the units taken by the failed attempts stay taken
    assert_eq!(state.bind_texture_unit(p, tex).unwrap(), 3);
}

#[test]
fn attribute_layouts_count_floats() {
    let inputs = vec![
        var("pos", Type::vec3()),
        var("uv", Type::vec2()),
        var("w", Type::Floating),
        var("m", Type::mat4()),
    ];
    assert_eq!(attribute_layout(&inputs).unwrap(), vec![3, 2, 1, 16]);
    assert_eq!(attribute_layout(&vec![]).unwrap(), Vec::<usize>::new());
}

#[test]
fn attribute_layout_issues() {
    let inputs = vec![var("pos", Type::vec3()), var("bad\0name", Type::vec2())];
    assert!(matches!(attribute_layout(&inputs), Err(AttributeIssue::NulInName(1))));
    let inputs = vec![var("tex", Type::Sampler2D)];
    assert!(matches!(attribute_layout(&inputs), Err(AttributeIssue::Opaque)));
}
