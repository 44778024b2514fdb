pub mod shader;
pub mod glsl;
pub mod listing;
pub mod gl;

use crate::gl_consts::{
    GL_BYTE, GL_DOUBLE, GL_FLOAT, GL_SHORT, GL_LINES, GL_LINE_LOOP, GL_LINE_STRIP, GL_POINTS, GL_TRIANGLES, GL_TRIANGLE_FAN,
    GL_TRIANGLE_STRIP, GL_UNSIGNED_BYTE, GL_UNSIGNED_INT, GL_UNSIGNED_SHORT,
};
use vstd::prelude::*;

verus! {

/// The numeric type of renderer resource handles.
pub type IdType = u64;

/// A texture loaded by the renderer.
#[derive(Debug, Clone, Copy, PartialEq, Eq, Structural, Hash)]
pub struct TextureId(pub IdType);

/// A vertex buffer loaded by the renderer.
#[derive(Debug, Clone, Copy, PartialEq, Eq, Structural, Hash)]
pub struct VertexBufferId(pub IdType);

/// An index buffer loaded by the renderer.
#[derive(Debug, Clone, Copy, PartialEq, Eq, Structural, Hash)]
pub struct IndexBufferId(pub IdType);

/// A pipeline loaded by the renderer.
#[derive(Debug, Clone, Copy, PartialEq, Eq, Structural, Hash)]
pub struct PipelineId(pub IdType);

/// Which faces are culled when drawing.
#[derive(Debug, Clone, Copy, PartialEq, Eq, Structural, Hash)]
pub enum CullingMode {
    Disabled,
    Front,
    Back,
    FrontBack,
}

/// The depth test used when drawing.
#[derive(Debug, Clone, Copy, PartialEq, Eq, Structural, Hash)]
pub enum DepthTesting {
    Disabled,
    Default,
}

/// The type of a vertex attribute, enum names correspond to the equivalent rust types
#[derive(Debug, Hash, PartialEq, Eq, Structural, Clone, Copy)]
pub enum AttributeType {
    I8,
    I16,
    F32,
    F64,
    U8,
    U16,
    U32,
}

/// How vertices are assembled into primitives.
#[derive(Debug, Clone, Copy, PartialEq, Eq, Structural, Hash)]
pub enum DrawingMode {
    Points,
    Lines,
    LineLoop,
    LineStrip,
    Triangles,
    TriangleStrip,
    TriangleFan,
}

/// The integer type of the entries of an index buffer.
#[derive(Debug, Clone, Copy, PartialEq, Eq, Structural, Hash)]
pub enum IndexType {
    U8,
    U16,
    U32,
}

/// A single vertex attribute of a pipeline.
#[derive(Debug, Clone, Copy, PartialEq, Eq, Structural)]
pub struct VertexAttribute {
    /// Location specified in the shader by layout(location = N)
    pub location: u32,
    /// The number of items in this vertex attribute, e.g. vec3 => 3
    pub count: usize,
    /// The type of the items in this attribute
    pub item_type: AttributeType,
    /// Whether the values should be normalised
    pub normalised: bool,
}

impl VertexAttribute {
    pub fn new(location: u32, count: usize, item_type: AttributeType, normalised: bool) -> (r: Self)
        ensures
            r == (VertexAttribute { location, count, item_type, normalised }),
    {
        Self { location, count, item_type, normalised }
    }
}

/// A rendering pipeline, in OpenGl would be one shader program
pub struct Pipeline {
    vertex_shader: Option<String>,
    fragment_shader: Option<String>,
    attributes: Vec<VertexAttribute>,
}

/// The model of a pipeline: its shader sources and its vertex attributes.
pub struct PipelineView {
    pub vertex_shader: Option<Seq<char>>,
    pub fragment_shader: Option<Seq<char>>,
    pub attributes: Seq<VertexAttribute>,
}

pub open spec fn source_view(s: Option<String>) -> Option<Seq<char>> {
    match s {
        Some(s) => Some(s@),
        None => None,
    }
}

impl View for Pipeline {
    type V = PipelineView;

    closed spec fn view(&self) -> PipelineView {
        PipelineView {
            vertex_shader: source_view(self.vertex_shader),
            fragment_shader: source_view(self.fragment_shader),
            attributes: self.attributes@,
        }
    }
}

impl Pipeline {
    /// create a new pipeline, with no shader and no attribute
    pub fn new() -> (r: Self)
        ensures
            r@ == (PipelineView {
                vertex_shader: None,
                fragment_shader: None,
                attributes: Seq::empty(),
            }),
    {
        Pipeline { vertex_shader: None, fragment_shader: None, attributes: Vec::new() }
    }

    /// set the vertex shader source
    pub fn vertex_shader(&mut self, source: &str) -> (r: &mut Self)
        ensures
            r@ == (PipelineView { vertex_shader: Some(source@), ..old(self)@ }),
            final(self)@ == final(r)@,
    {
        self.from_vertex_shader(source.to_owned())
    }

    /// set the vertex shader source
    pub fn from_vertex_shader(&mut self, source: String) -> (r: &mut Self)
        ensures
            r@ == (PipelineView { vertex_shader: Some(source@), ..old(self)@ }),
            final(self)@ == final(r)@,
    {
        self.vertex_shader = Some(source);
        self
    }

    /// set the fragment shader source
    pub fn frag_shader(&mut self, source: &str) -> (r: &mut Self)
        ensures
            r@ == (PipelineView { fragment_shader: Some(source@), ..old(self)@ }),
            final(self)@ == final(r)@,
    {
        self.from_frag_shader(source.to_owned())
    }

    /// set the fragment shader source
    pub fn from_frag_shader(&mut self, source: String) -> (r: &mut Self)
        ensures
            r@ == (PipelineView { fragment_shader: Some(source@), ..old(self)@ }),
            final(self)@ == final(r)@,
    {
        self.fragment_shader = Some(source);
        self
    }

    /// add a vertex attribute, e.g. vertex position, uv coordinates, ...
    pub fn vertex_attribute(
        &mut self,
        location: u32,
        count: usize,
        item_type: AttributeType,
        normalised: bool,
    ) -> (r: &mut Self)
        ensures
            r@ == (PipelineView {
                attributes: old(self)@.attributes.push(
                    VertexAttribute { location, count, item_type, normalised },
                ),
                ..old(self)@
            }),
            final(self)@ == final(r)@,
    {
        self.attributes.push(VertexAttribute::new(location, count, item_type, normalised));
        self
    }

    /// The vertex shader source, if set.
    pub fn vertex_source(&self) -> (r: Option<&String>)
        ensures
            match r {
                Some(s) => self@.vertex_shader == Some(s@),
                None => self@.vertex_shader is None,
            },
    {
        match &self.vertex_shader {
            Some(s) => Some(s),
            None => None,
        }
    }

    /// The fragment shader source, if set.
    pub fn fragment_source(&self) -> (r: Option<&String>)
        ensures
            match r {
                Some(s) => self@.fragment_shader == Some(s@),
                None => self@.fragment_shader is None,
            },
    {
        match &self.fragment_shader {
            Some(s) => Some(s),
            None => None,
        }
    }

    /// The vertex attributes, in the order they were added.
    pub fn attributes(&self) -> (r: &Vec<VertexAttribute>)
        ensures
            r@ == self@.attributes,
    {
        &self.attributes
    }
}

/// The OpenGL primitive mode of a drawing mode.
pub fn drawing_mode_gl(mode: DrawingMode) -> (r: u32)
    ensures
        r == match mode {
            DrawingMode::Points => GL_POINTS,
            DrawingMode::Lines => GL_LINES,
            DrawingMode::LineLoop => GL_LINE_LOOP,
            DrawingMode::LineStrip => GL_LINE_STRIP,
            DrawingMode::Triangles => GL_TRIANGLES,
            DrawingMode::TriangleStrip => GL_TRIANGLE_STRIP,
            DrawingMode::TriangleFan => GL_TRIANGLE_FAN,
        },
{
    match mode {
        DrawingMode::Points => GL_POINTS,
        DrawingMode::Lines => GL_LINES,
        DrawingMode::LineLoop => GL_LINE_LOOP,
        DrawingMode::LineStrip => GL_LINE_STRIP,
        DrawingMode::Triangles => GL_TRIANGLES,
        DrawingMode::TriangleStrip => GL_TRIANGLE_STRIP,
        DrawingMode::TriangleFan => GL_TRIANGLE_FAN,
    }
}

/// The OpenGL component type of an index type.
pub fn index_type_gl(index_type: IndexType) -> (r: u32)
    ensures
        r == match index_type {
            IndexType::U8 => GL_UNSIGNED_BYTE,
            IndexType::U16 => GL_UNSIGNED_SHORT,
            IndexType::U32 => GL_UNSIGNED_INT,
        },
{
    match index_type {
        IndexType::U8 => GL_UNSIGNED_BYTE,
        IndexType::U16 => GL_UNSIGNED_SHORT,
        IndexType::U32 => GL_UNSIGNED_INT,
    }
}


/// The OpenGL component type of a vertex attribute type.
pub fn attribute_type_gl(ty: AttributeType) -> (r: u32)
    ensures
        r == match ty {
            AttributeType::I8 => GL_BYTE,
            AttributeType::I16 => GL_SHORT,
            AttributeType::F32 => GL_FLOAT,
            AttributeType::F64 => GL_DOUBLE,
            AttributeType::U8 => GL_UNSIGNED_BYTE,
            AttributeType::U16 => GL_UNSIGNED_SHORT,
            AttributeType::U32 => GL_UNSIGNED_INT,
        },
{
    match ty {
        AttributeType::I8 => GL_BYTE,
        AttributeType::I16 => GL_SHORT,
        AttributeType::F32 => GL_FLOAT,
        AttributeType::F64 => GL_DOUBLE,
        AttributeType::U8 => GL_UNSIGNED_BYTE,
        AttributeType::U16 => GL_UNSIGNED_SHORT,
        AttributeType::U32 => GL_UNSIGNED_INT,
    }
}

} // verus!
