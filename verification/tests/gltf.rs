use engine::gl_consts::{GL_FLOAT, GL_TRIANGLES, GL_UNSIGNED_SHORT};
use engine::gltf::{
    align_up, is_glb, read_u32_le, split_glb, ComponentType, GlbError, PrimitiveMode,
    SamplerWrap, Type, GLB_BIN_CHUNK, GLB_JSON_CHUNK,
};
use engine::renderer::IndexType;
use engine::renderer::shader::Type as ShaderType;

fn word(v: u32) -> [u8; 4] {
    v.to_le_bytes()
}

fn glb(json: &[u8], bin: Option<&[u8]>) -> Vec<u8> {
    let mut out = Vec::new();
    out.extend_from_slice(b"glTF");
    out.extend_from_slice(&word(2));
    out.extend_from_slice(&word(0));
    out.extend_from_slice(&word(json.len() as u32));
    out.extend_from_slice(&word(GLB_JSON_CHUNK));
    out.extend_from_slice(json);
    while out.len() % 4 != 0 {
        out.push(b' ');
    }
    if let Some(bin) = bin {
        out.extend_from_slice(&word(bin.len() as u32));
        out.extend_from_slice(&word(GLB_BIN_CHUNK));
        out.extend_from_slice(bin);
    }
    let len = out.len() as u32;
    out[8..12].copy_from_slice(&word(len));
    out
}

#[test]
fn component_types_and_gl_values() {
    for t in [
        ComponentType::Byte,
        ComponentType::UnsignedByte,
        ComponentType::Short,
        ComponentType::UnsignedShort,
        ComponentType::UnsignedInt,
        ComponentType::Float,
    ] {
        assert_eq!(ComponentType::from_gl(t.gl_type()), Some(t));
    }
    assert_eq!(ComponentType::from_gl(GL_FLOAT), Some(ComponentType::Float));
    assert_eq!(ComponentType::UnsignedShort.gl_type(), GL_UNSIGNED_SHORT);
    assert_eq!(ComponentType::from_gl(0), None);
    assert_eq!(ComponentType::Short.size(), 2);
    assert_eq!(ComponentType::Float.size(), 4);
    assert_eq!(ComponentType::UnsignedByte.index_type(), Some(IndexType::U8));
    assert_eq!(ComponentType::UnsignedInt.index_type(), Some(IndexType::U32));
    assert_eq!(ComponentType::Float.index_type(), None);
}

#[test]
fn accessor_types() {
    assert_eq!(Type::Scalar.component_count(), 1);
    assert_eq!(Type::Vec3.component_count(), 3);
    assert_eq!(Type::Mat3.component_count(), 9);
    assert_eq!(Type::Mat4.component_count(), 16);
    assert_eq!(Type::Vec2.to_shader_type(), ShaderType::Vector(2));
    assert_eq!(Type::Mat4.to_shader_type(), ShaderType::Matrix(4, 4));
    assert_eq!(Type::Scalar.to_shader_type(), ShaderType::Floating);
}

#[test]
fn modes_and_sampler_defaults() {
    assert_eq!(PrimitiveMode::default(), PrimitiveMode::Triangles);
    assert_eq!(PrimitiveMode::Triangles.to_gl_enum(), GL_TRIANGLES);
    assert_eq!(SamplerWrap::default(), SamplerWrap::Repeat);
    assert_eq!(SamplerWrap::Repeat.gl_value(), 0x2901);
}

#[test]
fn align_up_rounds_to_the_next_multiple() {
    assert_eq!(align_up(0, 4), 0);
    assert_eq!(align_up(1, 4), 4);
    assert_eq!(align_up(4, 4), 4);
    assert_eq!(align_up(21, 4), 24);
    assert_eq!(align_up(7, 1), 7);
}

#[test]
fn little_endian_words() {
    assert_eq!(read_u32_le(&[1, 2, 3, 4, 5], 1), 0x05040302);
    assert_eq!(read_u32_le(b"glTF", 0), 0x46546C67);
}

#[test]
fn recognises_the_binary_container() {
    assert!(is_glb(b"glTF...."));
    assert!(!is_glb(b"{\"asset\":{}}"));
    assert!(!is_glb(b"glT"));
}

#[test]
fn splits_json_and_binary_chunks() {
    let data = glb(b"{\"a\":1}", Some(&[1, 2, 3, 4]));
    let chunks = split_glb(data).unwrap();
    assert_eq!(chunks.json, b"{\"a\":1}".to_vec());
    assert_eq!(chunks.binary.unwrap(), Some(vec![1, 2, 3, 4]));
}

#[test]
fn container_without_binary_chunk() {
    let data = glb(b"{}", None);
    let chunks = split_glb(data).unwrap();
    assert_eq!(chunks.json, b"{}".to_vec());
    assert_eq!(chunks.binary.unwrap(), None);
}

#[test]
fn container_errors() {
    assert_eq!(split_glb(b"glTF".to_vec()).err(), Some(GlbError::BinaryTooShort));
    let mut data = glb(b"{}", None);
    data[4] = 1;
    assert_eq!(split_glb(data).err(), Some(GlbError::BinaryVersion));
    let mut data = glb(b"{}", None);
    data[8] = data[8].wrapping_add(1);
    assert_eq!(split_glb(data).err(), Some(GlbError::BinaryTooShort));
    let mut data = glb(b"{}", None);
    data[16] = b'X';
    assert_eq!(split_glb(data).err(), Some(GlbError::ChunkError));
    let mut data = glb(b"{}", Some(&[9, 9]));
    let at = data.len() - 6;
    data[at] = b'X';
    assert_eq!(split_glb(data).unwrap().binary, Err(GlbError::ChunkError));
    let mut data = glb(b"{}", Some(&[9, 9]));
    let at = data.len() - 10;
    data[at] = 200;
    assert_eq!(split_glb(data).unwrap().binary, Err(GlbError::BinaryTooShort));
}
