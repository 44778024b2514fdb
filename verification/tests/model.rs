use engine::gltf::{
    SparseAccessor, SparseIndicies, SparseValues,
    Accessor, BufferView, BufferViewTarget, ComponentType, Image, Material, MaterialRoughness,
    Mesh, Model as Gltf, Primitive, PrimitiveMode, TextureInfo, Type,
};
use engine::model::{
    create_shader, draw_mode, Attribute, Buffer, BufferViewType, Model, ModelError,
};
use engine::model::{DrawCall, GPUPrimitive, GPUPrimitiveIndexInfo};
use engine::renderer::{CullingMode, DrawingMode, IndexBufferId, IndexType, PipelineId};

fn accessor(view: Option<usize>, ty: Type, component_type: ComponentType, count: usize) -> Accessor {
    Accessor {
        buffer_view: view,
        byte_offset: 0,
        component_type,
        normalised: false,
        count,
        accessor_type: ty,
        sparse: None,
    }
}

fn view(buffer: usize, byte_offset: usize, byte_length: usize) -> BufferView {
    BufferView { buffer, byte_offset, byte_length, byte_stride: None, target: None }
}

fn primitive(attributes: Vec<(&str, i32)>, indices: Option<usize>, material: Option<usize>) -> Primitive {
    Primitive {
        attributes: attributes.into_iter().map(|(n, a)| (String::from(n), a)).collect(),
        indices,
        material,
        mode: PrimitiveMode::Triangles,
    }
}

fn triangle_model() -> Gltf {
    Gltf {
        accessors: vec![
            accessor(Some(0), Type::Vec3, ComponentType::Float, 3),
            accessor(Some(1), Type::Scalar, ComponentType::UnsignedShort, 3),
        ],
        buffer_views: vec![view(0, 0, 36), view(0, 36, 6), view(0, 42, 10)],
        meshes: vec![Mesh { primitives: vec![primitive(vec![("POSITION", 0)], Some(1), None)] }],
        images: vec![Image { uri: None, buffer_view: Some(2) }],
        materials: vec![],
    }
}

#[test]
fn attribute_names() {
    assert!(matches!(Attribute::from("POSITION", 0), Some(Attribute::Position)));
    assert!(matches!(Attribute::from("NORMAL", 4), Some(Attribute::Normal { accessor: 4 })));
    assert!(matches!(Attribute::from("TANGENT", 2), Some(Attribute::Tangent { accessor: 2 })));
    assert!(matches!(Attribute::from("TEXCOORD_1", 7), Some(Attribute::TexCoord { idx: 1 })));
    assert!(matches!(
        Attribute::from("COLOR_0", 3),
        Some(Attribute::VertexColor { accessor: 3, idx: 0 })
    ));
    assert!(matches!(
        Attribute::from("JOINTS_2", 5),
        Some(Attribute::Joints { accessor: 5, idx: 2 })
    ));
    assert!(matches!(
        Attribute::from("WEIGHTS_12", 5),
        Some(Attribute::Weights { accessor: 5, idx: 12 })
    ));
    assert!(Attribute::from("TEXCOORD_x", 0).is_none());
    assert!(Attribute::from("TEXCOORD", 0).is_none());
    assert!(Attribute::from("NORMAL_0", 0).is_none());
    assert!(Attribute::from("_DIFFUSE", 0).is_none());
    assert!(Attribute::from("COLOR_0_1", 0).is_none());
}

#[test]
fn material_base_color_unless_white() {
    let one = 1.0f32.to_bits();
    let white = Material {
        pbr_metallic_roughness: Some(MaterialRoughness {
            base_color_factor: [one; 4],
            base_color_texture: None,
        }),
        double_sided: false,
    };
    assert!(Attribute::material(&white).is_empty());
    let red = [one, 0, 0, one];
    let redm = Material {
        pbr_metallic_roughness: Some(MaterialRoughness { base_color_factor: red, base_color_texture: None }),
        double_sided: true,
    };
    let attrs = Attribute::material(&redm);
    assert_eq!(attrs.len(), 1);
    assert!(matches!(attrs[0], Attribute::BaseColor { color } if color == red));
    let plain = Material { pbr_metallic_roughness: None, double_sided: false };
    assert!(Attribute::material(&plain).is_empty());
}

#[test]
fn buffer_view_usage_is_derived() {
    let types = BufferViewType::derive_types(&triangle_model()).unwrap();
    assert_eq!(
        types,
        vec![BufferViewType::ArrayBuffer, BufferViewType::ElementArrayBuffer, BufferViewType::CPUBuffer]
    );
}

#[test]
fn unused_buffer_view_cannot_be_inferred() {
    let mut model = triangle_model();
    model.buffer_views.push(view(0, 0, 1));
    assert!(matches!(
        BufferViewType::derive_types(&model),
        Err(ModelError::BufferViewNoInference)
    ));
}

#[test]
fn a_declared_target_is_used_or_checked() {
    let mut model = triangle_model();
    model.buffer_views.push(BufferView { target: Some(BufferViewTarget::ArrayBuffer), ..view(0, 0, 1) });
    let types = BufferViewType::derive_types(&model).unwrap();
    assert_eq!(types[3], BufferViewType::ArrayBuffer);
    let mut model = triangle_model();
    model.buffer_views[0].target = Some(BufferViewTarget::ElementArrayBuffer);
    assert!(matches!(BufferViewType::derive_types(&model), Err(ModelError::BufferViewType)));
}

#[test]
fn conflicting_usage_is_refused() {
    let mut model = triangle_model();
    // the index accessor reads the vertex view
    model.accessors[1].buffer_view = Some(0);
    assert!(matches!(BufferViewType::derive_types(&model), Err(ModelError::BufferViewType)));
}

#[test]
fn set_view_takes_or_keeps_usage() {
    let mut v = BufferViewType::NoUsage;
    assert!(BufferViewType::set_view(&mut v, BufferViewType::CPUBuffer).is_ok());
    assert_eq!(v, BufferViewType::CPUBuffer);
    assert!(BufferViewType::set_view(&mut v, BufferViewType::CPUBuffer).is_ok());
    assert!(matches!(
        BufferViewType::set_view(&mut v, BufferViewType::ArrayBuffer),
        Err(ModelError::BufferViewType)
    ));
    assert_eq!(v, BufferViewType::CPUBuffer);
}

#[test]
fn bad_accessor_index_is_reported() {
    let mut model = triangle_model();
    model.meshes[0].primitives[0].attributes.insert(String::from("NORMAL"), 9);
    assert!(matches!(
        BufferViewType::derive_types(&model),
        Err(ModelError::BadIndex { got: 9, max: 2, .. })
    ));
}

#[test]
fn drawing_modes() {
    assert_eq!(draw_mode(PrimitiveMode::Triangles), DrawingMode::Triangles);
    assert_eq!(draw_mode(PrimitiveMode::LineLoop), DrawingMode::LineLoop);
    assert_eq!(draw_mode(PrimitiveMode::Points), DrawingMode::Points);
}

#[test]
fn shader_for_positions_only() {
    let model = triangle_model();
    let prim = &model.meshes[0].primitives[0];
    let prog = create_shader(prim, &model).unwrap();
    let shaders = prog.to_glsl().unwrap();
    let vert = shaders.vert.unwrap();
    assert_eq!(
        vert.texts(),
        &vec![
            String::from(
                "uniform mat4 projection;\nuniform mat4 view;\nuniform mat4 model;\nin vec3 Position_in;\nvoid main() {\n    mat4 var_0 = projection * view;\n    mat4 var_1 = var_0 * model;\n    float f32_2 = "
            ),
            String::from(
                ";\n    vec4 var_3 = vec4(Position_in, f32_2);\n    vec4 var_4 = var_1 * var_3;\n    gl_Position = var_4;\n}\n"
            ),
        ]
    );
    assert_eq!(vert.floats(), &vec![1.0f32.to_bits()]);
    let frag = shaders.frag.unwrap();
    assert_eq!(frag.texts()[0], "out vec4 frag_color;\nvoid main() {\n    float f32_0 = ");
    assert_eq!(
        frag.texts()[4],
        ";\n    vec4 var_4 = vec4(f32_0, f32_1, f32_2, f32_3);\n    frag_color = var_4;\n}\n"
    );
    let half = 0.5f32.to_bits();
    assert_eq!(frag.floats(), &vec![half, half, half, 1.0f32.to_bits()]);
}

#[test]
fn shader_with_base_color_texture() {
    let mut model = triangle_model();
    model.accessors.push(accessor(Some(0), Type::Vec2, ComponentType::Float, 3));
    model.materials.push(Material {
        pbr_metallic_roughness: Some(MaterialRoughness {
            base_color_factor: [1.0f32.to_bits(); 4],
            base_color_texture: Some(TextureInfo { index: 0, tex_coord: 0 }),
        }),
        double_sided: false,
    });
    let prim = primitive(vec![("POSITION", 0), ("TEXCOORD_0", 2)], Some(1), Some(0));
    let prog = create_shader(&prim, &model).unwrap();
    let shaders = prog.to_glsl().unwrap();
    let frag = shaders.frag.unwrap();
    assert_eq!(
        frag.texts(),
        &vec![String::from(
            "uniform sampler2D base_color;\nin vec2 TexCoord0;\nout vec4 frag_color;\nvoid main() {\n    vec4 var_0 = texture(base_color, TexCoord0);\n    frag_color = var_0;\n}\n"
        )]
    );
    let vert = shaders.vert.unwrap();
    assert!(vert.texts()[0].contains("in vec2 TexCoord0_in;\nout vec2 TexCoord0;\n"));
}

#[test]
fn buffers_load_from_files_or_the_binary_chunk() {
    let with_uri = engine::gltf::Buffer { uri: Some(String::from("data.bin")), byte_length: 2 };
    let mut chunk = Some(vec![9, 9, 9]);
    let b = Buffer::new(&with_uri, |p: &str| {
        assert_eq!(p, "data.bin");
        Ok(vec![1, 2, 3])
    }, &mut chunk)
    .unwrap();
    assert_eq!(b.data, vec![1, 2, 3]);
    assert_eq!(chunk, Some(vec![9, 9, 9]));

    let inner = engine::gltf::Buffer { uri: None, byte_length: 3 };
    let b = Buffer::new(&inner, |_p: &str| Ok(vec![]), &mut chunk).unwrap();
    assert_eq!(b.data, vec![9, 9, 9]);
    assert_eq!(chunk, None);
    assert!(matches!(Buffer::new(&inner, |_p: &str| Ok(vec![]), &mut chunk), Err(ModelError::InternalBuffer)));
}

#[test]
fn short_or_missing_buffers_are_refused() {
    let b = engine::gltf::Buffer { uri: Some(String::from("x.bin")), byte_length: 4 };
    let mut chunk = None;
    assert!(matches!(
        Buffer::new(&b, |_p: &str| Ok(vec![1]), &mut chunk),
        Err(ModelError::BufferLength { len: 1, expected: 4 })
    ));
    assert!(matches!(
        Buffer::new(&b, |_p: &str| Err(engine::resources::Error::Parent), &mut chunk),
        Err(ModelError::BufferLoad { name, .. }) if name == "x.bin"
    ));
}

#[test]
fn images_load_from_files_or_buffer_views() {
    let model = triangle_model();
    let buffers = vec![Buffer { data: (0u8..52).collect() }];
    let img = Image { uri: None, buffer_view: Some(2) };
    let data = Model::load_image(&img, |_p: &str| Ok(vec![]), &model, &buffers).unwrap();
    assert_eq!(data, (42u8..52).collect::<Vec<_>>());
    let img = Image { uri: Some(String::from("tex.png")), buffer_view: None };
    let data = Model::load_image(&img, |p: &str| Ok(p.as_bytes().to_vec()), &model, &buffers).unwrap();
    assert_eq!(data, b"tex.png".to_vec());
    let img = Image { uri: None, buffer_view: None };
    assert!(matches!(Model::load_image(&img, |_p: &str| Ok(vec![]), &model, &buffers), Err(ModelError::NoSource)));
    let img = Image { uri: None, buffer_view: Some(7) };
    assert!(matches!(
        Model::load_image(&img, |_p: &str| Ok(vec![]), &model, &buffers),
        Err(ModelError::BadIndex { got: 7, max: 3, .. })
    ));
    let short = vec![Buffer { data: vec![0; 45] }];
    let img = Image { uri: None, buffer_view: Some(2) };
    assert!(matches!(
        Model::load_image(&img, |_p: &str| Ok(vec![]), &model, &short),
        Err(ModelError::BadIndex { got: 0, max: 1, .. })
    ));
}

#[test]
fn draw_calls_of_primitives() {
    let mut prim = GPUPrimitive {
        pipeline: PipelineId(1),
        vertex_count: 36,
        base_color_texidx: None,
        indicies: None,
        draw_mode: DrawingMode::Triangles,
        culling: true,
        vertex_buffers: vec![],
        vertex_strides: vec![],
        vertex_offsets: vec![],
    };
    assert_eq!(prim.culling_mode(), CullingMode::Back);
    assert_eq!(prim.draw_call(), DrawCall::Arrays { mode: DrawingMode::Triangles, first: 0, count: 36 });
    prim.culling = false;
    prim.indicies = Some(GPUPrimitiveIndexInfo {
        buffer: IndexBufferId(4),
        item_type: IndexType::U16,
        count: 12,
        offset: 8,
    });
    assert_eq!(prim.culling_mode(), CullingMode::Disabled);
    assert_eq!(
        prim.draw_call(),
        DrawCall::Indexed {
            mode: DrawingMode::Triangles,
            buffer: IndexBufferId(4),
            item_type: IndexType::U16,
            offset: 8,
            count: 12
        }
    );
}

fn sparse_model(target: Option<usize>, index_type: ComponentType) -> Model {
    let mut acc = accessor(target, Type::Scalar, ComponentType::UnsignedByte, 4);
    acc.sparse = Some(SparseAccessor {
        count: 2,
        indices: SparseIndicies { buffer_view: 0, byte_offset: 0, component_type: index_type },
        values: SparseValues { buffer_view: 1, byte_offset: 0 },
    });
    Model {
        buffers: vec![Buffer { data: vec![1, 3, 7, 9, 5, 5, 5, 5] }],
        gltf: Gltf {
            accessors: vec![acc],
            buffer_views: vec![view(0, 0, 2), view(0, 2, 2), view(0, 4, 4)],
            meshes: vec![],
            images: vec![],
            materials: vec![],
        },
        buffer_view_types: vec![],
    }
}

#[test]
fn sparse_accessor_without_view_gets_a_zero_view() {
    let mut model = sparse_model(None, ComponentType::UnsignedByte);
    assert!(model.check_load_accessors().is_ok());
    assert_eq!(model.buffers.len(), 2);
    assert_eq!(model.buffers[1].data, vec![0, 7, 0, 9]);
    assert_eq!(model.gltf.buffer_views.len(), 4);
    assert_eq!(model.gltf.buffer_views[3], view(1, 0, 4));
    assert_eq!(model.gltf.accessors[0].buffer_view, Some(3));
}

#[test]
fn sparse_accessor_writes_into_its_view() {
    let mut model = sparse_model(Some(2), ComponentType::UnsignedByte);
    assert!(model.check_load_accessors().is_ok());
    assert_eq!(model.buffers.len(), 1);
    assert_eq!(model.buffers[0].data, vec![1, 3, 7, 9, 5, 7, 5, 9]);
    assert_eq!(model.gltf.accessors[0].buffer_view, Some(2));
}

#[test]
fn sparse_float_indices_are_refused() {
    let mut model = sparse_model(Some(2), ComponentType::Float);
    model.gltf.buffer_views[0] = view(0, 0, 8);
    assert!(matches!(model.check_load_accessors(), Err(ModelError::SparseFloat)));
}

#[test]
fn model_error_messages() {
    assert_eq!(
        ModelError::BadIndex { max: 2, got: 9, array: "accessors" }.message(),
        "Unable to get item 9 from accessors, the maximum is 2"
    );
    assert_eq!(
        ModelError::BufferLength { len: 3, expected: 12 }.message(),
        "Buffer read is too short: got 3 expected 12"
    );
    assert_eq!(
        ModelError::RootPath { inner: String::from("a/b") }.message(),
        "Could not get root path of scene: path = \"a/b\""
    );
    assert_eq!(
        ModelError::BufferLoad {
            name: String::from("x.bin"),
            inner: engine::resources::Error::FileContainsNil
        }
        .message(),
        "Error loading model buffer x.bin: \nFile loaded contains null byte"
    );
    assert_eq!(ModelError::NoPositions.message(), "Mesh does not contain position data");
}

#[test]
fn sparse_duplicate_index_keeps_the_later_value() {
    let mut model = sparse_model(Some(2), ComponentType::UnsignedByte);
    // indices 1, 1 and values 7, 9: the second write wins
    model.buffers[0].data = vec![1, 1, 7, 9, 5, 5, 5, 5];
    assert!(model.check_load_accessors().is_ok());
    assert_eq!(model.buffers[0].data, vec![1, 1, 7, 9, 5, 9, 5, 5]);
}
