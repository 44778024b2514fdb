use engine::dynamic_shader::{AttributeType, Component, DynamicShader};
use engine::gltf::{
    Accessor, BufferView, ComponentType, Material, MaterialRoughness, Model, Primitive,
    PrimitiveMode, TextureInfo, Type,
};
use engine::model::{GPUBuffer, ModelError};
use engine::renderer::{Pipeline, VertexBufferId};

fn accessor(view: usize, ty: Type, count: usize) -> Accessor {
    Accessor {
        buffer_view: Some(view),
        byte_offset: 0,
        component_type: ComponentType::Float,
        normalised: false,
        count,
        accessor_type: ty,
        sparse: None,
    }
}

fn model() -> Model {
    let view = BufferView { buffer: 0, byte_offset: 0, byte_length: 4, byte_stride: None, target: None };
    Model {
        accessors: vec![
            accessor(0, Type::Vec3, 3),
            accessor(1, Type::Vec3, 3),
            accessor(2, Type::Vec2, 3),
            accessor(1, Type::Vec4, 5),
        ],
        buffer_views: vec![view, view, view],
        meshes: vec![],
        images: vec![],
        materials: vec![Material {
            pbr_metallic_roughness: Some(MaterialRoughness {
                base_color_factor: [1.0f32.to_bits(); 4],
                base_color_texture: Some(TextureInfo { index: 0, tex_coord: 1 }),
            }),
            double_sided: false,
        }],
    }
}

fn prim(attrs: &[(&str, i32)], material: Option<usize>) -> Primitive {
    Primitive {
        attributes: attrs.iter().map(|(n, a)| (String::from(*n), *a)).collect(),
        indices: None,
        material,
        mode: PrimitiveMode::Triangles,
    }
}

fn comps(list: &[(AttributeType, usize)]) -> Vec<Component> {
    list.iter().map(|&(kind, accessor_idx)| Component { kind, accessor_idx }).collect()
}

fn gpu() -> Vec<GPUBuffer> {
    vec![
        GPUBuffer::Vertex(VertexBufferId(0)),
        GPUBuffer::Vertex(VertexBufferId(1)),
        GPUBuffer::Vertex(VertexBufferId(2)),
    ]
}

#[test]
fn attribute_types_from_names() {
    assert_eq!(AttributeType::from("POSITION"), Some(AttributeType::Position));
    assert_eq!(AttributeType::from("NORMAL"), Some(AttributeType::Normal));
    assert_eq!(AttributeType::from("TANGENT"), Some(AttributeType::Tangent));
    assert_eq!(AttributeType::from("TEXCOORD_3"), Some(AttributeType::TexCoord(3)));
    assert_eq!(AttributeType::from("COLOR_0"), Some(AttributeType::Color(0)));
    assert_eq!(AttributeType::from("JOINTS_1"), Some(AttributeType::Joints(1)));
    assert_eq!(AttributeType::from("WEIGHTS_+2"), Some(AttributeType::Weights(2)));
    assert_eq!(AttributeType::from("COLOR_a"), None);
    assert_eq!(AttributeType::from("POSITION_0"), None);
    assert_eq!(AttributeType::from(""), None);
}

#[test]
fn shaders_for_positions_only() {
    let m = model();
    let p = prim(&[("POSITION", 0)], None);
    let c = comps(&[(AttributeType::Position, 0)]);
    assert_eq!(
        DynamicShader::create_vertex(&c, &p, &m),
        "#version 330 core\nin vec3 Position;\nuniform mat4 model;\nuniform mat4 view;\nuniform mat4 projection;\nvoid main() {\n    gl_Position = projection * view * model * vec4(Position, 1.0);\n}\n"
    );
    assert_eq!(
        DynamicShader::create_fragment(&c, &p, &m),
        "#version 330 core\nout vec4 Color;\nvoid main() {\n  Color = vec4(vec3(0.5), 1.0);\n}\n"
    );
}

#[test]
fn shaders_pass_colors_through() {
    let m = model();
    let p = prim(&[("POSITION", 0), ("COLOR_0", 1)], None);
    let c = comps(&[(AttributeType::Position, 0), (AttributeType::Color(0), 1)]);
    assert_eq!(
        DynamicShader::create_vertex(&c, &p, &m),
        "#version 330 core\nin vec3 Position;\nin vec3 Color0;\nout VS_OUT {\n    vec3 Color0;\n} OUT;\nuniform mat4 model;\nuniform mat4 view;\nuniform mat4 projection;\nvoid main() {\n    gl_Position = projection * view * model * vec4(Position, 1.0);\n    OUT.Color0 = Color0;\n}\n"
    );
    assert_eq!(
        DynamicShader::create_fragment(&c, &p, &m),
        "#version 330 core\nin VS_OUT {\n    vec3 Color0;\n} IN;\nout vec4 Color;\nvoid main() {\n  Color = vec4(IN.Color0, 1.0);\n}\n"
    );
}

#[test]
fn fragment_multiplies_colors_and_base_color_texture() {
    let m = model();
    let p = prim(&[("POSITION", 0), ("COLOR_0", 3), ("TEXCOORD_1", 2)], Some(0));
    let c = comps(&[
        (AttributeType::Position, 0),
        (AttributeType::Color(0), 3),
        (AttributeType::TexCoord(1), 2),
    ]);
    assert_eq!(
        DynamicShader::create_fragment(&c, &p, &m),
        "#version 330 core\nin VS_OUT {\n    vec4 Color0;\n    vec2 TexCoord1;\n} IN;\nout vec4 Color;\nuniform sampler2D baseColor;\nvoid main() {\n  Color = IN.Color0 * texture(baseColor, IN.TexCoord1);\n}\n"
    );
}

#[test]
fn new_writes_both_shaders_and_gives_the_vertex_count() {
    let m = model();
    let p = prim(&[("POSITION", 0), ("COLOR_0", 1)], None);
    let mut pipeline = Pipeline::new();
    assert_eq!(DynamicShader::new(&mut pipeline, &p, &m, &gpu()).unwrap(), 3);
    let c = comps(&[(AttributeType::Position, 0), (AttributeType::Color(0), 1)]);
    assert_eq!(pipeline.vertex_source().unwrap(), &DynamicShader::create_vertex(&c, &p, &m));
    assert_eq!(pipeline.fragment_source().unwrap(), &DynamicShader::create_fragment(&c, &p, &m));
}

#[test]
fn new_needs_positions_and_equal_counts() {
    let m = model();
    let mut pipeline = Pipeline::new();
    let p = prim(&[("COLOR_0", 1)], None);
    assert!(matches!(DynamicShader::new(&mut pipeline, &p, &m, &gpu()), Err(ModelError::NoPositions)));
    let p = prim(&[("POSITION", 0), ("COLOR_0", 3)], None);
    assert!(matches!(DynamicShader::new(&mut pipeline, &p, &m, &gpu()), Err(ModelError::AttribLen)));
    let short = vec![GPUBuffer::Vertex(VertexBufferId(0))];
    let p = prim(&[("POSITION", 0), ("COLOR_0", 1)], None);
    assert!(matches!(
        DynamicShader::new(&mut pipeline, &p, &m, &short),
        Err(ModelError::BadIndex { got: 1, max: 1, .. })
    ));
}
