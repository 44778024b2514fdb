//! The plain-valued part of the glTF format: the enumerations of the JSON
//! schema, their OpenGL values, and the binary (GLB) container framing.
use crate::gl_consts::{
    GL_BYTE, GL_CLAMP_TO_EDGE, GL_FLOAT, GL_LINEAR, GL_LINEAR_MIPMAP_LINEAR,
    GL_LINEAR_MIPMAP_NEAREST, GL_LINES, GL_LINE_LOOP, GL_LINE_STRIP, GL_MIRRORED_REPEAT,
    GL_NEAREST, GL_NEAREST_MIPMAP_LINEAR, GL_NEAREST_MIPMAP_NEAREST, GL_POINTS, GL_REPEAT,
    GL_SHORT, GL_TRIANGLES, GL_TRIANGLE_FAN, GL_TRIANGLE_STRIP, GL_UNSIGNED_BYTE, GL_UNSIGNED_INT,
    GL_UNSIGNED_SHORT,
};
use crate::renderer::shader::Type as ShaderType;
use crate::renderer::IndexType;
use indexmap::IndexMap;
use vstd::prelude::*;

verus! {

/// The type of data represented by an accessor.
#[derive(Debug, Clone, Copy, PartialEq, Eq, Structural)]
pub enum ComponentType {
    Byte,
    UnsignedByte,
    Short,
    UnsignedShort,
    UnsignedInt,
    Float,
}

impl ComponentType {
    /// The index buffer type of an unsigned integer type.
    pub open spec fn spec_index_type(self) -> Option<IndexType> {
        match self {
            ComponentType::UnsignedByte => Some(IndexType::U8),
            ComponentType::UnsignedShort => Some(IndexType::U16),
            ComponentType::UnsignedInt => Some(IndexType::U32),
            _ => None,
        }
    }

    /// The index buffer type of an unsigned integer type.
    pub fn index_type(&self) -> (r: Option<IndexType>)
        ensures
            r == self.spec_index_type(),
    {
        match self {
            ComponentType::UnsignedByte => Some(IndexType::U8),
            ComponentType::UnsignedShort => Some(IndexType::U16),
            ComponentType::UnsignedInt => Some(IndexType::U32),
            _ => None,
        }
    }
}

impl ComponentType {
    /// The size in bytes of one component.
    pub open spec fn spec_size(self) -> nat {
        match self {
            ComponentType::Byte => 1,
            ComponentType::UnsignedByte => 1,
            ComponentType::Short => 2,
            ComponentType::UnsignedShort => 2,
            ComponentType::UnsignedInt => 4,
            ComponentType::Float => 4,
        }
    }

    /// The OpenGL enumeration value of the type.
    pub open spec fn spec_gl_type(self) -> u32 {
        match self {
            ComponentType::Byte => GL_BYTE,
            ComponentType::UnsignedByte => GL_UNSIGNED_BYTE,
            ComponentType::Short => GL_SHORT,
            ComponentType::UnsignedShort => GL_UNSIGNED_SHORT,
            ComponentType::UnsignedInt => GL_UNSIGNED_INT,
            ComponentType::Float => GL_FLOAT,
        }
    }

    /// The type whose OpenGL enumeration value (the value used in the glTF
    /// JSON) is `value`.
    pub open spec fn spec_from_gl(value: u32) -> Option<ComponentType> {
        if value == GL_BYTE {
            Some(ComponentType::Byte)
        } else if value == GL_UNSIGNED_BYTE {
            Some(ComponentType::UnsignedByte)
        } else if value == GL_SHORT {
            Some(ComponentType::Short)
        } else if value == GL_UNSIGNED_SHORT {
            Some(ComponentType::UnsignedShort)
        } else if value == GL_UNSIGNED_INT {
            Some(ComponentType::UnsignedInt)
        } else if value == GL_FLOAT {
            Some(ComponentType::Float)
        } else {
            None
        }
    }

    /// convert a type to the OpenGL enum value for the type
    pub fn gl_type(&self) -> (r: u32)
        ensures
            r == self.spec_gl_type(),
    {
        match self {
            ComponentType::Byte => GL_BYTE,
            ComponentType::UnsignedByte => GL_UNSIGNED_BYTE,
            ComponentType::Short => GL_SHORT,
            ComponentType::UnsignedShort => GL_UNSIGNED_SHORT,
            ComponentType::UnsignedInt => GL_UNSIGNED_INT,
            ComponentType::Float => GL_FLOAT,
        }
    }

    /// The size in bytes of one component.
    pub fn size(&self) -> (r: usize)
        ensures
            r == self.spec_size(),
    {
        match self {
            ComponentType::Byte => 1,
            ComponentType::UnsignedByte => 1,
            ComponentType::Short => 2,
            ComponentType::UnsignedShort => 2,
            ComponentType::UnsignedInt => 4,
            ComponentType::Float => 4,
        }
    }

    /// The type with OpenGL enumeration value `value`, as the glTF JSON
    /// writes it; None for any other number.
    pub fn from_gl(value: u32) -> (r: Option<ComponentType>)
        ensures
            r == ComponentType::spec_from_gl(value),
            r matches Some(t) ==> t.spec_gl_type() == value,
    {
        if value == GL_BYTE {
            Some(ComponentType::Byte)
        } else if value == GL_UNSIGNED_BYTE {
            Some(ComponentType::UnsignedByte)
        } else if value == GL_SHORT {
            Some(ComponentType::Short)
        } else if value == GL_UNSIGNED_SHORT {
            Some(ComponentType::UnsignedShort)
        } else if value == GL_UNSIGNED_INT {
            Some(ComponentType::UnsignedInt)
        } else if value == GL_FLOAT {
            Some(ComponentType::Float)
        } else {
            None
        }
    }
}

/// Converting a component type to its OpenGL value and back gives the type.
pub proof fn lemma_component_type_roundtrip(t: ComponentType)
    ensures
        ComponentType::spec_from_gl(t.spec_gl_type()) == Some(t),
{
}

/// How the elements of an accessor are layed out
#[derive(Debug, Clone, Copy, PartialEq, Eq, Structural)]
pub enum Type {
    Scalar,
    Vec2,
    Vec3,
    Vec4,
    Mat2,
    Mat3,
    Mat4,
}

impl Type {
    /// The number of numeric values in one element of the type.
    pub open spec fn spec_component_count(self) -> nat {
        match self {
            Type::Scalar => 1,
            Type::Vec2 => 2,
            Type::Vec3 => 3,
            Type::Vec4 => 4,
            Type::Mat2 => 4,
            Type::Mat3 => 9,
            Type::Mat4 => 16,
        }
    }

    /// Get the number of components, i.e individual numeric values in
    /// a value of this type.  E.g. Scalar => 1, Vec2 => 2, etc.
    pub fn component_count(&self) -> (r: usize)
        ensures
            r == self.spec_component_count(),
    {
        match self {
            Type::Scalar => 1,
            Type::Vec2 => 2,
            Type::Vec3 => 3,
            Type::Vec4 => 4,
            Type::Mat2 => 4,
            Type::Mat3 => 9,
            Type::Mat4 => 16,
        }
    }

    /// The shader type of a value of this type.
    pub open spec fn spec_shader_type(self) -> ShaderType {
        match self {
            Type::Scalar => ShaderType::Floating,
            Type::Vec2 => ShaderType::Vector(2),
            Type::Vec3 => ShaderType::Vector(3),
            Type::Vec4 => ShaderType::Vector(4),
            Type::Mat2 => ShaderType::Matrix(2, 2),
            Type::Mat3 => ShaderType::Matrix(3, 3),
            Type::Mat4 => ShaderType::Matrix(4, 4),
        }
    }

    /// The shader type of a value of this type.
    pub fn to_shader_type(&self) -> (r: ShaderType)
        ensures
            r == self.spec_shader_type(),
    {
        match self {
            Type::Scalar => ShaderType::Floating,
            Type::Vec2 => ShaderType::Vector(2),
            Type::Vec3 => ShaderType::Vector(3),
            Type::Vec4 => ShaderType::Vector(4),
            Type::Mat2 => ShaderType::Matrix(2, 2),
            Type::Mat3 => ShaderType::Matrix(3, 3),
            Type::Mat4 => ShaderType::Matrix(4, 4),
        }
    }
}

/// The interpolation mode for an animation
#[derive(Debug, Clone, Copy, PartialEq, Eq, Structural)]
pub enum AnimationInterpolation {
    /// Linear interpolation between frames.
    Linear,
    /// No interpolation, values are constant until the next keyframe.
    Step,
    /// Cubic spline with specified tangents.
    CubicSpline,
}

impl Default for AnimationInterpolation {
    /// If unspecified, animations are linearly interpolated.
    fn default() -> (r: Self)
        ensures
            r == AnimationInterpolation::Linear,
    {
        AnimationInterpolation::Linear
    }
}

/// The target property of an animation
#[derive(Debug, Clone, Copy, PartialEq, Eq, Structural)]
pub enum AnimationTargetPath {
    /// translation (x,y,z)
    Translation,
    /// rotation quaternion (x,y,z,w)
    Rotation,
    /// scale (x,y,z)
    Scale,
    /// weights of morph targets
    Weights,
}

/// The possible targets of a buffer view.
#[derive(Debug, Clone, Copy, PartialEq, Eq, Structural)]
pub enum BufferViewTarget {
    ArrayBuffer,
    ElementArrayBuffer,
}

/// The possible camera types
#[derive(Debug, Clone, Copy, PartialEq, Eq, Structural)]
pub enum CameraType {
    Perspective,
    Orthographic,
}

/// The alpha blending mode of a material
#[derive(Debug, Clone, Copy, PartialEq, Eq, Structural)]
pub enum MaterialAlphaMode {
    /// Alpha ignored, fully opaque
    Opaque,
    /// The value is either fully opaque or fully transparant
    Mask,
    /// The alpha is used to composite the source and destination areas
    Blend,
}

impl Default for MaterialAlphaMode {
    /// By default alpha is ignored
    fn default() -> (r: Self)
        ensures
            r == MaterialAlphaMode::Opaque,
    {
        MaterialAlphaMode::Opaque
    }
}

/// How a primitive should be rendered.
#[derive(Debug, Clone, Copy, PartialEq, Eq, Structural)]
pub enum PrimitiveMode {
    Points,
    Lines,
    LineLoop,
    LineStrip,
    Triangles,
    TriangleStrip,
    TriangleFan,
}

impl Default for PrimitiveMode {
    /// By default triangle rendering is used
    fn default() -> (r: Self)
        ensures
            r == PrimitiveMode::Triangles,
    {
        PrimitiveMode::Triangles
    }
}

impl PrimitiveMode {
    /// Convert a primitive mode to the relavant OpenGL enum value.
    pub fn to_gl_enum(&self) -> (r: u32)
        ensures
            r == match self {
                PrimitiveMode::Points => GL_POINTS,
                PrimitiveMode::Lines => GL_LINES,
                PrimitiveMode::LineLoop => GL_LINE_LOOP,
                PrimitiveMode::LineStrip => GL_LINE_STRIP,
                PrimitiveMode::Triangles => GL_TRIANGLES,
                PrimitiveMode::TriangleStrip => GL_TRIANGLE_STRIP,
                PrimitiveMode::TriangleFan => GL_TRIANGLE_FAN,
            },
    {
        match self {
            PrimitiveMode::Points => GL_POINTS,
            PrimitiveMode::Lines => GL_LINES,
            PrimitiveMode::LineLoop => GL_LINE_LOOP,
            PrimitiveMode::LineStrip => GL_LINE_STRIP,
            PrimitiveMode::Triangles => GL_TRIANGLES,
            PrimitiveMode::TriangleStrip => GL_TRIANGLE_STRIP,
            PrimitiveMode::TriangleFan => GL_TRIANGLE_FAN,
        }
    }
}

/// A sampler magnification filter
#[derive(Debug, Clone, Copy, PartialEq, Eq, Structural)]
pub enum SamplerMagFilter {
    Nearest,
    Linear,
}

impl Default for SamplerMagFilter {
    /// Default magnification filter is nearest
    fn default() -> (r: Self)
        ensures
            r == SamplerMagFilter::Nearest,
    {
        SamplerMagFilter::Nearest
    }
}

impl SamplerMagFilter {
    /// The OpenGL value of the filter, the number the glTF JSON uses.
    pub fn gl_value(&self) -> (r: u32)
        ensures
            r == match self {
                SamplerMagFilter::Nearest => GL_NEAREST,
                SamplerMagFilter::Linear => GL_LINEAR,
            },
    {
        match self {
            SamplerMagFilter::Nearest => GL_NEAREST,
            SamplerMagFilter::Linear => GL_LINEAR,
        }
    }
}

/// A sampler minification filter
#[derive(Debug, Clone, Copy, PartialEq, Eq, Structural)]
pub enum SamplerMinFilter {
    Nearest,
    Linear,
    NearestMipmapNearest,
    LinearMipmapNearest,
    NearestMipmapLinear,
    LinearMipmapLinear,
}

impl Default for SamplerMinFilter {
    /// The default minification filter is nearest.
    fn default() -> (r: Self)
        ensures
            r == SamplerMinFilter::Nearest,
    {
        SamplerMinFilter::Nearest
    }
}

impl SamplerMinFilter {
    /// The OpenGL value of the filter, the number the glTF JSON uses.
    pub fn gl_value(&self) -> (r: u32)
        ensures
            r == match self {
                SamplerMinFilter::Nearest => GL_NEAREST,
                SamplerMinFilter::Linear => GL_LINEAR,
                SamplerMinFilter::NearestMipmapNearest => GL_NEAREST_MIPMAP_NEAREST,
                SamplerMinFilter::LinearMipmapNearest => GL_LINEAR_MIPMAP_NEAREST,
                SamplerMinFilter::NearestMipmapLinear => GL_NEAREST_MIPMAP_LINEAR,
                SamplerMinFilter::LinearMipmapLinear => GL_LINEAR_MIPMAP_LINEAR,
            },
    {
        match self {
            SamplerMinFilter::Nearest => GL_NEAREST,
            SamplerMinFilter::Linear => GL_LINEAR,
            SamplerMinFilter::NearestMipmapNearest => GL_NEAREST_MIPMAP_NEAREST,
            SamplerMinFilter::LinearMipmapNearest => GL_LINEAR_MIPMAP_NEAREST,
            SamplerMinFilter::NearestMipmapLinear => GL_NEAREST_MIPMAP_LINEAR,
            SamplerMinFilter::LinearMipmapLinear => GL_LINEAR_MIPMAP_LINEAR,
        }
    }
}

/// A sampler wrapping mode
#[derive(Debug, Clone, Copy, PartialEq, Eq, Structural)]
pub enum SamplerWrap {
    ClampToEdge,
    MirroredRepeat,
    Repeat,
}

impl Default for SamplerWrap {
    /// The default wrapping mode is repeat
    fn default() -> (r: Self)
        ensures
            r == SamplerWrap::Repeat,
    {
        SamplerWrap::Repeat
    }
}

impl SamplerWrap {
    /// The OpenGL value of the wrapping mode, the number the glTF JSON uses.
    pub fn gl_value(&self) -> (r: u32)
        ensures
            r == match self {
                SamplerWrap::ClampToEdge => GL_CLAMP_TO_EDGE,
                SamplerWrap::MirroredRepeat => GL_MIRRORED_REPEAT,
                SamplerWrap::Repeat => GL_REPEAT,
            },
    {
        match self {
            SamplerWrap::ClampToEdge => GL_CLAMP_TO_EDGE,
            SamplerWrap::MirroredRepeat => GL_MIRRORED_REPEAT,
            SamplerWrap::Repeat => GL_REPEAT,
        }
    }
}

// ----------------------------------------------------------------------
// The parts of a glTF document the loader computes with
// ----------------------------------------------------------------------

/// Where the indices of a sparse accessor are stored.
#[derive(Debug, Clone, Copy, PartialEq, Eq, Structural)]
pub struct SparseIndicies {
    /// The buffer view containing the sparse indices
    pub buffer_view: usize,
    /// The offset into the buffer view in bytes
    pub byte_offset: usize,
    /// The integer type of the indices
    pub component_type: ComponentType,
}

/// Where the substituted values of a sparse accessor are stored.
#[derive(Debug, Clone, Copy, PartialEq, Eq, Structural)]
pub struct SparseValues {
    /// The view containing the values
    pub buffer_view: usize,
    /// The offset into the buffer view to start at
    pub byte_offset: usize,
}

/// The sparse substitutions of an accessor.
#[derive(Debug, Clone, Copy, PartialEq, Eq, Structural)]
pub struct SparseAccessor {
    /// The number of entries stored in the array
    pub count: usize,
    /// The indices modified by the sparse accessor
    pub indices: SparseIndicies,
    /// The values substituted by the sparse accessor
    pub values: SparseValues,
}

/// A strongly typed view into a buffer view's raw binary data.
#[derive(Debug, Clone, Copy, PartialEq, Eq, Structural)]
pub struct Accessor {
    /// The buffer view containing the data; none means all zeros
    pub buffer_view: Option<usize>,
    /// The offset into the start of the buffer view
    pub byte_offset: usize,
    /// The datatype of the components
    pub component_type: ComponentType,
    /// Should integer data be normalised when it is accessed?
    pub normalised: bool,
    /// The number of elements referenced by this accessor
    pub count: usize,
    /// Whether the data referenced is scalar, vector or matrix
    pub accessor_type: Type,
    /// The sparse substitutions, if any
    pub sparse: Option<SparseAccessor>,
}

/// A view representing a subset of a buffer
#[derive(Debug, Clone, Copy, PartialEq, Eq, Structural)]
pub struct BufferView {
    /// The index of the buffer
    pub buffer: usize,
    /// The byte offset into the buffer the view starts at
    pub byte_offset: usize,
    /// The length of the view
    pub byte_length: usize,
    /// The stride of the data in this view in bytes
    pub byte_stride: Option<i32>,
    /// The type of buffer that this view should be bound to
    pub target: Option<BufferViewTarget>,
}

/// A piece of geometry to be rendered with a material
#[derive(Debug, Clone)]
pub struct Primitive {
    /// The attributes of the primitive, names mapped to accessor indices,
    /// in the order of the document
    pub attributes: IndexMap<String, i32>,
    /// The accessor of the indices of the primitive
    pub indices: Option<usize>,
    /// The index of the material of the primitive
    pub material: Option<usize>,
    /// The type of primitive described
    pub mode: PrimitiveMode,
}

/// A buffer of the model's data
#[derive(Debug, Clone)]
pub struct Buffer {
    /// Where to find the data, can be external file or data uri; the
    /// binary chunk of the container when absent
    pub uri: Option<String>,
    /// The length of the buffer in bytes
    pub byte_length: usize,
}

impl Primitive {
    /// The attributes of the primitive, in the order of the document.
    pub open spec fn spec_attributes(&self) -> Seq<(String, i32)> {
        index_map_entries(self.attributes)
    }
}

// ----------------------------------------------------------------------
// The attribute map
// ----------------------------------------------------------------------

#[verifier::external_type_specification]
#[verifier::external_body]
#[verifier::reject_recursive_types(K)]
#[verifier::reject_recursive_types(V)]
#[verifier::reject_recursive_types(S)]
pub struct ExIndexMap<K, V, S>(IndexMap<K, V, S>);

/// `IndexMap`'s `Clone`: accepted as a call; nothing is claimed of the copy.
pub assume_specification<K: Clone, V: Clone, S: Clone>[<IndexMap<K, V, S> as Clone>::clone](
    m: &IndexMap<K, V, S>,
) -> IndexMap<K, V, S>;

/// The entries of an `IndexMap` of attributes, in its order (the order
/// they were inserted in).
pub uninterp spec fn index_map_entries(m: IndexMap<String, i32>) -> Seq<(String, i32)>;

/// Calls `IndexMap::len`: the number of entries.
#[verifier::external_body]
pub(crate) fn attribute_count(m: &IndexMap<String, i32>) -> (r: usize)
    ensures
        r == index_map_entries(*m).len(),
{
    m.len()
}

/// Calls `IndexMap::get_index`: the entry at position `i` in the map's
/// order, where there is one.
#[verifier::external_body]
pub(crate) fn attribute_at(m: &IndexMap<String, i32>, i: usize) -> (r: Option<(&String, i32)>)
    ensures
        match r {
            Some(e) => i < index_map_entries(*m).len() && e.0 == index_map_entries(*m)[i as int].0
                && e.1 == index_map_entries(*m)[i as int].1,
            None => i >= index_map_entries(*m).len(),
        },
{
    m.get_index(i).map(|(k, v)| (k, *v))
}

/// Calls `IndexMap::contains_key`: some entry has the key.
#[verifier::external_body]
pub(crate) fn attribute_contains(m: &IndexMap<String, i32>, key: &str) -> (r: bool)
    ensures
        r == (exists|i: int|
            0 <= i < index_map_entries(*m).len() && (#[trigger] index_map_entries(*m)[i]).0@ == key@),
{
    m.contains_key(key)
}

/// A set of primitives to be rendered
#[derive(Debug, Clone)]
pub struct Mesh {
    /// The primitives to be rendered
    pub primitives: Vec<Primitive>,
}

/// Data required to create a texture
#[derive(Debug, Clone)]
pub struct Image {
    /// The uri of the texture, could be an external file or data uri
    pub uri: Option<String>,
    /// A buffer view that contains the image data
    pub buffer_view: Option<usize>,
}

/// A reference to a texture.
#[derive(Debug, Clone, Copy, PartialEq, Eq, Structural)]
pub struct TextureInfo {
    /// Texture index
    pub index: usize,
    /// The set of uv coordinates the texture uses: `tex_coord` 0 reads the
    /// `TEXCOORD_0` attribute
    pub tex_coord: usize,
}

/// The physically based rendering parameters of a material.
#[derive(Debug, Clone, Copy)]
pub struct MaterialRoughness {
    /// The base color factor, rgba, each given by the bits of an `f32`
    pub base_color_factor: [u32; 4],
    /// The base color texture
    pub base_color_texture: Option<TextureInfo>,
}

/// The appearance of a primitive.
#[derive(Debug, Clone, Copy)]
pub struct Material {
    /// The phisically based rendering parameters
    pub pbr_metallic_roughness: Option<MaterialRoughness>,
    /// Whether back faces are drawn as well
    pub double_sided: bool,
}

/// The parts of a glTF document that the loader computes with.
#[derive(Debug, Clone)]
pub struct Model {
    /// All accessors
    pub accessors: Vec<Accessor>,
    /// All views into the buffers
    pub buffer_views: Vec<BufferView>,
    /// All meshes
    pub meshes: Vec<Mesh>,
    /// All images
    pub images: Vec<Image>,
    /// All materials
    pub materials: Vec<Material>,
}

// ----------------------------------------------------------------------
// The binary container
// ----------------------------------------------------------------------

/// The errors of the binary (GLB) container framing.
#[derive(Debug, Clone, Copy, PartialEq, Eq, Structural)]
pub enum GlbError {
    /// The file is shorter than its headers say.
    BinaryTooShort,
    /// The container version is not 2.
    BinaryVersion,
    /// A chunk has the wrong type.
    ChunkError,
}

/// The chunk type of the JSON chunk ("JSON").
pub const GLB_JSON_CHUNK: u32 = 0x4E4F534A;

/// The chunk type of the binary chunk ("BIN\0").
pub const GLB_BIN_CHUNK: u32 = 0x004E4942;

/// The little-endian 32 bit number stored at byte `i` of `s`.
pub open spec fn le_u32(s: Seq<u8>, i: int) -> int {
    s[i] + 256 * s[i + 1] + 65536 * s[i + 2] + 16777216 * s[i + 3]
}

/// The smallest multiple of `align` that is not below `val`.
pub open spec fn spec_align_up(val: int, align: int) -> int {
    if val % align > 0 {
        val + (align - val % align)
    } else {
        val
    }
}

/// increase a value up to the next multiple of the alignment
pub fn align_up(val: usize, align: usize) -> (r: usize)
    requires
        align > 0,
        spec_align_up(val as int, align as int) <= usize::MAX,
    ensures
        r == spec_align_up(val as int, align as int),
        r % align == 0,
        val <= r < val + align,
{
    let remainder = val % align;
    if remainder > 0 {
        proof {
            let v = val as int;
            let a = align as int;
            vstd::arithmetic::div_mod::lemma_fundamental_div_mod(v, a);
            vstd::arithmetic::div_mod::lemma_mod_multiples_basic(v / a + 1, a);
            assert((v / a + 1) * a == a * (v / a) + a) by (nonlinear_arith);
            assert(v + (a - v % a) == (v / a + 1) * a);
        }
        val + (align - remainder)
    } else {
        val
    }
}

/// Binary glTF files start with the magic "glTF", which no JSON text does.
pub open spec fn spec_is_glb(s: Seq<u8>) -> bool {
    s.len() >= 4 && s[0] == 0x67 && s[1] == 0x6C && s[2] == 0x54 && s[3] == 0x46
}

/// Does a model file hold the binary container rather than JSON text?
pub fn is_glb(data: &[u8]) -> (r: bool)
    ensures
        r == spec_is_glb(data@),
{
    data.len() >= 4 && data[0] == 0x67 && data[1] == 0x6C && data[2] == 0x54 && data[3] == 0x46
}

/// The JSON chunk of a binary container, or why there is none: the file
/// header is 12 bytes (magic, version 2, total length), then the chunk
/// header (length, type "JSON") and the chunk data.
pub open spec fn spec_glb_json(s: Seq<u8>) -> Result<Seq<u8>, GlbError> {
    if s.len() < 24 {
        Err(GlbError::BinaryTooShort)
    } else if le_u32(s, 4) != 2 {
        Err(GlbError::BinaryVersion)
    } else if le_u32(s, 8) != s.len() % 0x1_0000_0000 {
        Err(GlbError::BinaryTooShort)
    } else if le_u32(s, 16) != GLB_JSON_CHUNK {
        Err(GlbError::ChunkError)
    } else if 20 + le_u32(s, 12) > s.len() {
        Err(GlbError::BinaryTooShort)
    } else {
        Ok(s.subrange(20, 20 + le_u32(s, 12)))
    }
}

/// The binary chunk that follows the JSON chunk (aligned to four bytes), if
/// the file holds one: `None` when the file ends before its chunk header,
/// otherwise everything after that header, which must be at least as long
/// as the chunk says.
pub open spec fn spec_glb_binary(s: Seq<u8>) -> Result<Option<Seq<u8>>, GlbError> {
    let idx = spec_align_up(20 + le_u32(s, 12), 4);
    if idx + 4 > s.len() {
        Ok(None)
    } else if idx + 8 > s.len() {
        Err(GlbError::BinaryTooShort)
    } else if le_u32(s, idx + 4) != GLB_BIN_CHUNK {
        Err(GlbError::ChunkError)
    } else if s.len() - (idx + 8) < le_u32(s, idx) {
        Err(GlbError::BinaryTooShort)
    } else {
        Ok(Some(s.subrange(idx + 8, s.len() as int)))
    }
}

/// The chunks of a binary container whose headers and JSON chunk are sound.
pub struct GlbChunks {
    /// The bytes of the JSON chunk
    pub json: Vec<u8>,
    /// The binary chunk, which is only to be looked at once the JSON chunk
    /// has been parsed
    pub binary: Result<Option<Vec<u8>>, GlbError>,
}

/// Read the little-endian 32 bit number stored at byte `at`.
pub fn read_u32_le(data: &[u8], at: usize) -> (r: u32)
    requires
        at + 4 <= data@.len(),
    ensures
        r == le_u32(data@, at as int),
{
    let a = data[at] as u32;
    let b = data[at + 1] as u32;
    let c = data[at + 2] as u32;
    let d = data[at + 3] as u32;
    assert(a < 256 && b < 256 && c < 256 && d < 256 ==> (a | (b << 8u32) | (c << 16u32) | (d
        << 24u32)) == a + 256 * b + 65536 * c + 16777216 * d) by (bit_vector);
    a | (b << 8u32) | (c << 16u32) | (d << 24u32)
}

/// Split a binary glTF container into its JSON chunk and its binary chunk.
/// The error comes from the file and JSON chunk headers; the binary chunk's
/// own outcome is kept apart, as it only matters once the JSON is read.
pub fn split_glb(data: Vec<u8>) -> (r: Result<GlbChunks, GlbError>)
    requires
        data@.len() <= isize::MAX,
    ensures
        match spec_glb_json(data@) {
            Err(e) => r == Err::<GlbChunks, GlbError>(e),
            Ok(json) => r matches Ok(c) && c.json@ == json && match spec_glb_binary(data@) {
                Err(e) => c.binary == Err::<Option<Vec<u8>>, GlbError>(e),
                Ok(None) => c.binary is Ok && c.binary->Ok_0 is None,
                Ok(Some(b)) => c.binary matches Ok(Some(v)) && v@ == b,
            },
        },
{
    let len = data.len();
    if len < 24 {
        return Err(GlbError::BinaryTooShort);
    }
    let version = read_u32_le(data.as_slice(), 4);
    if version != 2 {
        return Err(GlbError::BinaryVersion);
    }
    let length = read_u32_le(data.as_slice(), 8);
    let len64 = len as u64;
    let len_word = (len64 % 0x1_0000_0000) as u32;
    if length != len_word {
        return Err(GlbError::BinaryTooShort);
    }
    let chunk_len = read_u32_le(data.as_slice(), 12);
    let chunk_type = read_u32_le(data.as_slice(), 16);
    if chunk_type != GLB_JSON_CHUNK {
        return Err(GlbError::ChunkError);
    }
    if 20 + (chunk_len as u64) > len64 {
        return Err(GlbError::BinaryTooShort);
    }
    let end = 20 + chunk_len as usize;
    let mut json: Vec<u8> = Vec::new();
    let mut i: usize = 20;
    while i < end
        invariant
            20 <= i <= end <= data@.len(),
            json@ == data@.subrange(20, i as int),
        decreases end - i,
    {
        json.push(data[i]);
        i = i + 1;
    }
    let binary = glb_binary_chunk(data, end);
    Ok(GlbChunks { json, binary })
}

/// The binary chunk of a container whose JSON chunk ends at byte `json_end`.
fn glb_binary_chunk(data: Vec<u8>, json_end: usize) -> (r: Result<Option<Vec<u8>>, GlbError>)
    requires
        data@.len() >= 24,
        json_end == 20 + le_u32(data@, 12),
        json_end <= data@.len(),
        data@.len() <= isize::MAX,
    ensures
        match spec_glb_binary(data@) {
            Err(e) => r == Err::<Option<Vec<u8>>, GlbError>(e),
            Ok(None) => r is Ok && r->Ok_0 is None,
            Ok(Some(b)) => r matches Ok(Some(v)) && v@ == b,
        },
{
    let idx = align_up(json_end, 4);
    let len = data.len();
    if idx > len || len - idx < 4 {
        return Ok(None);
    }
    if len - idx < 8 {
        return Err(GlbError::BinaryTooShort);
    }
    let chunk_len = read_u32_le(data.as_slice(), idx);
    let chunk_type = read_u32_le(data.as_slice(), idx + 4);
    if chunk_type != GLB_BIN_CHUNK {
        return Err(GlbError::ChunkError);
    }
    let mut data = data;
    let rest = data.split_off(idx + 8);
    if ((rest.len() as u64) < (chunk_len as u64)) {
        return Err(GlbError::BinaryTooShort);
    }
    Ok(Some(rest))
}

} // verus!
