use engine::gl_consts::{GL_LINE_STRIP, GL_TRIANGLES, GL_UNSIGNED_BYTE, GL_UNSIGNED_INT, GL_UNSIGNED_SHORT};
use engine::renderer::{
    drawing_mode_gl, index_type_gl, AttributeType, DrawingMode, IndexType, Pipeline,
    VertexAttribute,
};
use engine::window::WindowConfig;

#[test]
fn pipeline_builder_sets_sources_and_attributes() {
    let mut p = Pipeline::new();
    assert!(p.vertex_source().is_none());
    assert!(p.fragment_source().is_none());
    p.vertex_shader("void main() {}")
        .frag_shader("out vec4 c;")
        .vertex_attribute(0, 3, AttributeType::F32, false)
        .vertex_attribute(1, 4, AttributeType::U8, true);
    assert_eq!(p.vertex_source().unwrap(), "void main() {}");
    assert_eq!(p.fragment_source().unwrap(), "out vec4 c;");
    assert_eq!(
        p.attributes(),
        &vec![
            VertexAttribute::new(0, 3, AttributeType::F32, false),
            VertexAttribute { location: 1, count: 4, item_type: AttributeType::U8, normalised: true },
        ]
    );
    p.from_vertex_shader(String::from("replaced"));
    assert_eq!(p.vertex_source().unwrap(), "replaced");
}

#[test]
fn gl_enums_of_modes_and_index_types() {
    assert_eq!(drawing_mode_gl(DrawingMode::Triangles), GL_TRIANGLES);
    assert_eq!(drawing_mode_gl(DrawingMode::LineStrip), GL_LINE_STRIP);
    assert_eq!(index_type_gl(IndexType::U8), GL_UNSIGNED_BYTE);
    assert_eq!(index_type_gl(IndexType::U16), GL_UNSIGNED_SHORT);
    assert_eq!(index_type_gl(IndexType::U32), GL_UNSIGNED_INT);
}

#[test]
fn game_window_defaults() {
    let c = WindowConfig::game_default();
    assert_eq!((c.width, c.height), (900, 700));
    assert_eq!(c.title, "Game");
    assert!(c.resizable);
    assert!(c.debug);
    assert_eq!(c.gl_version, (4, 5));
}
