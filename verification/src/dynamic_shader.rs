//! GLSL shaders written as text for a primitive, from its vertex
//! attributes: positions are transformed, colors and base color texture
//! coordinates are passed from the vertex shader to the fragment shader,
//! and the fragment color is the product of the colors.
use crate::gltf::{attribute_at, attribute_contains, attribute_count, index_map_entries, Model, Primitive, Type};
use indexmap::IndexMap;
use crate::model::{is_base_color, material_exists, spec_is_base_color, ModelError};
use crate::renderer::Pipeline;
use crate::text::{decimal, parse_usize, push_decimal, spec_parse_usize, split_chars, split_str};
use vstd::prelude::*;
use vstd::string::StringExecFns;

verus! {

/// Shaders written as text for a primitive.
pub struct DynamicShader;

/// What a vertex attribute holds.
#[derive(Debug, Clone, Copy, PartialEq, Eq, Structural)]
pub enum AttributeType {
    Position,
    Normal,
    Tangent,
    TexCoord(usize),
    Color(usize),
    Joints(usize),
    Weights(usize),
}

/// What a vertex attribute name stands for: `POSITION`, `NORMAL` and
/// `TANGENT`, or `TEXCOORD`, `COLOR`, `JOINTS` and `WEIGHTS` followed by `_`
/// and a set number.
pub open spec fn spec_attribute_type(value: Seq<char>) -> Option<AttributeType> {
    let c = split_chars(value, '_');
    if c.len() == 1 && c[0] == "POSITION"@ {
        Some(AttributeType::Position)
    } else if c.len() == 1 && c[0] == "NORMAL"@ {
        Some(AttributeType::Normal)
    } else if c.len() == 1 && c[0] == "TANGENT"@ {
        Some(AttributeType::Tangent)
    } else if c.len() == 2 && c[0] == "TEXCOORD"@ {
        match spec_parse_usize(c[1]) {
            Some(a) => Some(AttributeType::TexCoord(a)),
            None => None,
        }
    } else if c.len() == 2 && c[0] == "COLOR"@ {
        match spec_parse_usize(c[1]) {
            Some(a) => Some(AttributeType::Color(a)),
            None => None,
        }
    } else if c.len() == 2 && c[0] == "JOINTS"@ {
        match spec_parse_usize(c[1]) {
            Some(a) => Some(AttributeType::Joints(a)),
            None => None,
        }
    } else if c.len() == 2 && c[0] == "WEIGHTS"@ {
        match spec_parse_usize(c[1]) {
            Some(a) => Some(AttributeType::Weights(a)),
            None => None,
        }
    } else {
        None
    }
}

fn text_is(s: &String, lit: &str) -> (r: bool)
    ensures
        r == (s@ == lit@),
{
    *s == lit.to_owned()
}

impl AttributeType {
    /// What a vertex attribute name stands for; see `spec_attribute_type`.
    pub fn from(value: &str) -> (r: Option<AttributeType>)
        ensures
            r == spec_attribute_type(value@),
    {
        let c = split_str(value, '_');
        let ghost cv = c@.map_values(|p: String| p@);
        assert(cv == split_chars(value@, '_'));
        if c.len() == 1 {
            assert(c@[0]@ == cv[0]);
            if text_is(&c[0], "POSITION") {
                return Some(AttributeType::Position);
            } else if text_is(&c[0], "NORMAL") {
                return Some(AttributeType::Normal);
            } else if text_is(&c[0], "TANGENT") {
                return Some(AttributeType::Tangent);
            }
            return None;
        }
        if c.len() == 2 {
            assert(c@[0]@ == cv[0]);
            assert(c@[1]@ == cv[1]);
            if text_is(&c[0], "TEXCOORD") {
                return match parse_usize(c[1].as_str()) {
                    Some(a) => Some(AttributeType::TexCoord(a)),
                    None => None,
                };
            } else if text_is(&c[0], "COLOR") {
                return match parse_usize(c[1].as_str()) {
                    Some(a) => Some(AttributeType::Color(a)),
                    None => None,
                };
            } else if text_is(&c[0], "JOINTS") {
                return match parse_usize(c[1].as_str()) {
                    Some(a) => Some(AttributeType::Joints(a)),
                    None => None,
                };
            } else if text_is(&c[0], "WEIGHTS") {
                return match parse_usize(c[1].as_str()) {
                    Some(a) => Some(AttributeType::Weights(a)),
                    None => None,
                };
            }
        }
        None
    }
}

/// A vertex attribute of the primitive: what it holds and its accessor.
#[derive(Debug, Clone, Copy, PartialEq, Eq, Structural)]
pub struct Component {
    pub kind: AttributeType,
    pub accessor_idx: usize,
}

/// The shader variable of a component.
pub open spec fn spec_variable(c: Component) -> Seq<char> {
    match c.kind {
        AttributeType::Position => "Position"@,
        AttributeType::Normal => "Normal"@,
        AttributeType::Tangent => "Tangent"@,
        AttributeType::TexCoord(a) => "TexCoord"@ + decimal(a as nat),
        AttributeType::Color(a) => "Color"@ + decimal(a as nat),
        AttributeType::Joints(a) => "Joints"@ + decimal(a as nat),
        AttributeType::Weights(a) => "Weights"@ + decimal(a as nat),
    }
}

/// The type of a color: three or four channels, as its accessor has.
pub open spec fn color_type(c: Component, model: Model) -> Seq<char> {
    if model.accessors@[c.accessor_idx as int].accessor_type == Type::Vec3 {
        "vec3"@
    } else {
        "vec4"@
    }
}

/// The component is texture coordinates of the base color texture.
pub open spec fn is_base_coords(c: Component, prim: Primitive, model: Model) -> bool {
    c.kind matches AttributeType::TexCoord(idx) && spec_is_base_color(prim, model.materials@, idx)
}

/// The input declaration of a component in the vertex shader: positions,
/// colors and base color texture coordinates are read.
pub open spec fn spec_layout_line(c: Component, prim: Primitive, model: Model) -> Seq<char> {
    match c.kind {
        AttributeType::Position => "in vec3 "@ + spec_variable(c) + ";\n"@,
        AttributeType::Color(_) => "in "@ + color_type(c, model) + " "@ + spec_variable(c) + ";\n"@,
        _ => if is_base_coords(c, prim, model) {
            "in vec2 "@ + spec_variable(c) + ";\n"@
        } else {
            Seq::empty()
        },
    }
}

/// The declaration of a component in the block between the shaders:
/// colors and base color texture coordinates are passed on.
pub open spec fn spec_interface_line(c: Component, prim: Primitive, model: Model) -> Seq<char> {
    match c.kind {
        AttributeType::Color(_) => "    "@ + color_type(c, model) + " "@ + spec_variable(c) + ";\n"@,
        _ => if is_base_coords(c, prim, model) {
            "    vec2 "@ + spec_variable(c) + ";\n"@
        } else {
            Seq::empty()
        },
    }
}

/// The component is passed between the shaders.
pub open spec fn has_interface(c: Component, prim: Primitive, model: Model) -> bool {
    c.kind is Color || is_base_coords(c, prim, model)
}

/// The vertex shader uniforms a component needs.
pub open spec fn spec_vert_uniforms(c: Component) -> Seq<char> {
    match c.kind {
        AttributeType::Position => "uniform mat4 model;\n"@ + "uniform mat4 view;\n"@
            + "uniform mat4 projection;\n"@,
        _ => Seq::empty(),
    }
}

/// The vertex shader code of a component.
pub open spec fn spec_vert_code(c: Component, prim: Primitive, model: Model) -> Seq<char> {
    match c.kind {
        AttributeType::Position => "    gl_Position = projection * view * model * vec4(Position, 1.0);\n"@,
        _ => if has_interface(c, prim, model) {
            "    OUT."@ + spec_variable(c) + " = "@ + spec_variable(c) + ";\n"@
        } else {
            Seq::empty()
        },
    }
}

/// The fragment shader uniforms a component needs.
pub open spec fn spec_frag_uniforms(c: Component, prim: Primitive, model: Model) -> Seq<char> {
    if is_base_coords(c, prim, model) {
        "uniform sampler2D baseColor;\n"@
    } else {
        Seq::empty()
    }
}

/// The color a component gives the fragment, if any.
pub open spec fn spec_out(c: Component, prim: Primitive, model: Model) -> Option<Seq<char>> {
    match c.kind {
        AttributeType::Color(_) => if model.accessors@[c.accessor_idx as int].accessor_type
            == Type::Vec3 {
            Some("vec4(IN."@ + spec_variable(c) + ", 1.0)"@)
        } else {
            Some("IN."@ + spec_variable(c))
        },
        AttributeType::TexCoord(idx) => if spec_is_base_color(prim, model.materials@, idx) {
            Some("texture(baseColor, IN.TexCoord"@ + decimal(idx as nat) + ")"@)
        } else {
            None
        },
        _ => None,
    }
}

/// The input declarations of the components, one after another.
pub open spec fn join_layout(comps: Seq<Component>, prim: Primitive, model: Model) -> Seq<char>
    decreases comps.len(),
{
    if comps.len() == 0 {
        Seq::empty()
    } else {
        join_layout(comps.drop_last(), prim, model) + spec_layout_line(comps.last(), prim, model)
    }
}

/// The declarations between the shaders of the components, one after another.
pub open spec fn join_interface(comps: Seq<Component>, prim: Primitive, model: Model) -> Seq<char>
    decreases comps.len(),
{
    if comps.len() == 0 {
        Seq::empty()
    } else {
        join_interface(comps.drop_last(), prim, model) + spec_interface_line(comps.last(), prim, model)
    }
}

/// The vertex shader uniforms of the components, one after another.
pub open spec fn join_vert_uniforms(comps: Seq<Component>, prim: Primitive, model: Model) -> Seq<char>
    decreases comps.len(),
{
    if comps.len() == 0 {
        Seq::empty()
    } else {
        join_vert_uniforms(comps.drop_last(), prim, model) + spec_vert_uniforms(comps.last())
    }
}

/// The vertex shader code of the components, one after another.
pub open spec fn join_vert_code(comps: Seq<Component>, prim: Primitive, model: Model) -> Seq<char>
    decreases comps.len(),
{
    if comps.len() == 0 {
        Seq::empty()
    } else {
        join_vert_code(comps.drop_last(), prim, model) + spec_vert_code(comps.last(), prim, model)
    }
}

/// The fragment shader uniforms of the components, one after another.
pub open spec fn join_frag_uniforms(comps: Seq<Component>, prim: Primitive, model: Model) -> Seq<char>
    decreases comps.len(),
{
    if comps.len() == 0 {
        Seq::empty()
    } else {
        join_frag_uniforms(comps.drop_last(), prim, model) + spec_frag_uniforms(comps.last(), prim, model)
    }
}

/// Some component is passed between the shaders.
pub open spec fn any_interface(comps: Seq<Component>, prim: Primitive, model: Model) -> bool {
    exists|i: int| 0 <= i < comps.len() && has_interface(#[trigger] comps[i], prim, model)
}

/// The vertex shader of the components.
pub open spec fn spec_vertex_shader(comps: Seq<Component>, prim: Primitive, model: Model) -> Seq<char> {
    "#version 330 core\n"@ + join_layout(comps, prim, model) + (
    if any_interface(comps, prim, model) {
        "out VS_OUT {\n"@ + join_interface(comps, prim, model)
            + "} OUT;\n"@
    } else {
        Seq::empty()
    }) + join_vert_uniforms(comps, prim, model) + "void main() {\n"@ + join_vert_code(comps, prim, model) + "}\n"@
}

/// The colors of the components joined by ` * `.
pub open spec fn spec_outs(comps: Seq<Component>, prim: Primitive, model: Model) -> Seq<char>
    decreases comps.len(),
{
    if comps.len() == 0 {
        Seq::empty()
    } else {
        let prev = spec_outs(comps.drop_last(), prim, model);
        match spec_out(comps.last(), prim, model) {
            Some(o) => if prev.len() == 0 {
                o
            } else {
                prev + " * "@ + o
            },
            None => prev,
        }
    }
}

/// The fragment shader of the components: the color is the product of
/// their colors, or grey.
pub open spec fn spec_fragment_shader(comps: Seq<Component>, prim: Primitive, model: Model) -> Seq<char> {
    let outs = spec_outs(comps, prim, model);
    "#version 330 core\n"@ + (if any_interface(comps, prim, model) {
        "in VS_OUT {\n"@ + join_interface(comps, prim, model)
            + "} IN;\n"@
    } else {
        Seq::empty()
    }) + "out vec4 Color;\n"@ + join_frag_uniforms(comps, prim, model)
        + "void main() {\n"@ + "  Color = "@ + (if outs.len() == 0 {
        "vec4(vec3(0.5), 1.0)"@
    } else {
        outs
    }) + ";\n"@ + "}\n"@
}

/// The accessors the colors read, and the primitive's material, exist.
pub open spec fn components_readable(comps: Seq<Component>, prim: Primitive, model: Model) -> bool {
    &&& material_exists(prim, model.materials@)
    &&& forall|i: int|
        0 <= i < comps.len() ==> ((#[trigger] comps[i]).kind is Color ==> comps[i].accessor_idx
            < model.accessors@.len())
}

fn variable(c: &Component) -> (r: String)
    ensures
        r@ == spec_variable(*c),
{
    let mut s = String::new();
    match c.kind {
        AttributeType::Position => s.append("Position"),
        AttributeType::Normal => s.append("Normal"),
        AttributeType::Tangent => s.append("Tangent"),
        AttributeType::TexCoord(a) => {
            s.append("TexCoord");
            push_decimal(&mut s, a);
        },
        AttributeType::Color(a) => {
            s.append("Color");
            push_decimal(&mut s, a);
        },
        AttributeType::Joints(a) => {
            s.append("Joints");
            push_decimal(&mut s, a);
        },
        AttributeType::Weights(a) => {
            s.append("Weights");
            push_decimal(&mut s, a);
        },
    }
    proof {
        assert(s@ =~= spec_variable(*c));
    }
    s
}

fn color_type_of(c: &Component, model: &Model) -> (r: &'static str)
    requires
        c.accessor_idx < model.accessors@.len(),
    ensures
        r@ == color_type(*c, *model),
{
    if model.accessors[c.accessor_idx].accessor_type == Type::Vec3 {
        "vec3"
    } else {
        "vec4"
    }
}

fn base_coords(c: &Component, prim: &Primitive, model: &Model) -> (r: bool)
    requires
        material_exists(*prim, model.materials@),
    ensures
        r == is_base_coords(*c, *prim, *model),
{
    match c.kind {
        AttributeType::TexCoord(idx) => is_base_color(prim, &model.materials, idx),
        _ => false,
    }
}

/// The text of one section for one component.
pub open spec fn spec_piece(which: u8, c: Component, prim: Primitive, model: Model) -> Seq<char> {
    if which == 0 {
        spec_layout_line(c, prim, model)
    } else if which == 1 {
        spec_interface_line(c, prim, model)
    } else if which == 2 {
        spec_vert_uniforms(c)
    } else if which == 3 {
        spec_vert_code(c, prim, model)
    } else {
        spec_frag_uniforms(c, prim, model)
    }
}

/// The text of one section for all components.
pub open spec fn spec_section(which: u8, comps: Seq<Component>, prim: Primitive, model: Model) -> Seq<char> {
    if which == 0 {
        join_layout(comps, prim, model)
    } else if which == 1 {
        join_interface(comps, prim, model)
    } else if which == 2 {
        join_vert_uniforms(comps, prim, model)
    } else if which == 3 {
        join_vert_code(comps, prim, model)
    } else {
        join_frag_uniforms(comps, prim, model)
    }
}

fn push_piece(s: &mut String, which: u8, c: &Component, prim: &Primitive, model: &Model)
    requires
        material_exists(*prim, model.materials@),
        c.kind is Color ==> c.accessor_idx < model.accessors@.len(),
    ensures
        final(s)@ == old(s)@ + spec_piece(which, *c, *prim, *model),
{
    let v = variable(c);
    let base = base_coords(c, prim, model);
    let ghost s0 = s@;
    if which == 0 {
        match c.kind {
            AttributeType::Position => {
                s.append("in vec3 ");
                s.append(v.as_str());
                s.append(";\n");
            },
            AttributeType::Color(_) => {
                s.append("in ");
                s.append(color_type_of(c, model));
                s.append(" ");
                s.append(v.as_str());
                s.append(";\n");
            },
            _ => {
                if base {
                    s.append("in vec2 ");
                    s.append(v.as_str());
                    s.append(";\n");
                }
            },
        }
    } else if which == 1 {
        match c.kind {
            AttributeType::Color(_) => {
                s.append("    ");
                s.append(color_type_of(c, model));
                s.append(" ");
                s.append(v.as_str());
                s.append(";\n");
            },
            _ => {
                if base {
                    s.append("    vec2 ");
                    s.append(v.as_str());
                    s.append(";\n");
                }
            },
        }
    } else if which == 2 {
        match c.kind {
            AttributeType::Position => {
                s.append("uniform mat4 model;\n");
                s.append("uniform mat4 view;\n");
                s.append("uniform mat4 projection;\n");
            },
            _ => {},
        }
    } else if which == 3 {
        match c.kind {
            AttributeType::Position => {
                s.append("    gl_Position = projection * view * model * vec4(Position, 1.0);\n");
            },
            _ => {
                let is_color = match c.kind {
                    AttributeType::Color(_) => true,
                    _ => false,
                };
                if is_color || base {
                    s.append("    OUT.");
                    s.append(v.as_str());
                    s.append(" = ");
                    s.append(v.as_str());
                    s.append(";\n");
                }
            },
        }
    } else {
        if base {
            s.append("uniform sampler2D baseColor;\n");
        }
    }
    proof {
        assert(s@ =~= s0 + spec_piece(which, *c, *prim, *model));
    }
}

fn push_section(s: &mut String, which: u8, comps: &Vec<Component>, prim: &Primitive, model: &Model)
    requires
        components_readable(comps@, *prim, *model),
    ensures
        final(s)@ == old(s)@ + spec_section(which, comps@, *prim, *model),
{
    let ghost s0 = s@;
    let n = comps.len();
    let mut i: usize = 0;
    proof {
        assert(comps@.take(0) =~= Seq::<Component>::empty());
        assert(s0 + spec_section(which, comps@.take(0), *prim, *model) =~= s0);
    }
    while i < n
        invariant
            n == comps@.len(),
            i <= n,
            components_readable(comps@, *prim, *model),
            s@ == s0 + spec_section(which, comps@.take(i as int), *prim, *model),
        decreases n - i,
    {
        proof {
            assert(comps@.take(i + 1).drop_last() =~= comps@.take(i as int));
            assert(comps@.take(i + 1).last() == comps@[i as int]);
        }
        push_piece(s, which, &comps[i], prim, model);
        proof {
            assert(s@ =~= s0 + spec_section(which, comps@.take(i + 1), *prim, *model));
        }
        i = i + 1;
    }
    proof {
        assert(comps@.take(n as int) =~= comps@);
    }
}

fn has_interface_any(comps: &Vec<Component>, prim: &Primitive, model: &Model) -> (r: bool)
    requires
        components_readable(comps@, *prim, *model),
    ensures
        r == any_interface(comps@, *prim, *model),
{
    let n = comps.len();
    let mut i: usize = 0;
    while i < n
        invariant
            n == comps@.len(),
            i <= n,
            components_readable(comps@, *prim, *model),
            forall|k: int| 0 <= k < i ==> !has_interface(#[trigger] comps@[k], *prim, *model),
        decreases n - i,
    {
        let is_color = match comps[i].kind {
            AttributeType::Color(_) => true,
            _ => false,
        };
        if is_color || base_coords(&comps[i], prim, model) {
            return true;
        }
        i = i + 1;
    }
    false
}

fn out_of(c: &Component, prim: &Primitive, model: &Model) -> (r: Option<String>)
    requires
        material_exists(*prim, model.materials@),
        c.kind is Color ==> c.accessor_idx < model.accessors@.len(),
    ensures
        match (r, spec_out(*c, *prim, *model)) {
            (Some(a), Some(b)) => a@ == b,
            (None, None) => true,
            _ => false,
        },
{
    let mut s = String::new();
    match c.kind {
        AttributeType::Color(_) => {
            let v = variable(c);
            if model.accessors[c.accessor_idx].accessor_type == Type::Vec3 {
                s.append("vec4(IN.");
                s.append(v.as_str());
                s.append(", 1.0)");
            } else {
                s.append("IN.");
                s.append(v.as_str());
            }
            proof {
                assert(s@ =~= spec_out(*c, *prim, *model)->0);
            }
            Some(s)
        },
        AttributeType::TexCoord(idx) => {
            if is_base_color(prim, &model.materials, idx) {
                s.append("texture(baseColor, IN.TexCoord");
                push_decimal(&mut s, idx);
                s.append(")");
                proof {
                    assert(s@ =~= spec_out(*c, *prim, *model)->0);
                }
                Some(s)
            } else {
                None
            }
        },
        _ => None,
    }
}

impl DynamicShader {
    /// The vertex shader of the components.
    pub fn create_vertex(comps: &Vec<Component>, prim: &Primitive, model: &Model) -> (r: String)
        requires
            components_readable(comps@, *prim, *model),
        ensures
            r@ == spec_vertex_shader(comps@, *prim, *model),
    {
        let mut shader = String::new();
        shader.append("#version 330 core\n");
        push_section(&mut shader, 0, comps, prim, model);
        let ghost s1 = shader@;
        if has_interface_any(comps, prim, model) {
            shader.append("out VS_OUT {\n");
            push_section(&mut shader, 1, comps, prim, model);
            shader.append("} OUT;\n");
        }
        let ghost s2 = shader@;
        push_section(&mut shader, 2, comps, prim, model);
        shader.append("void main() {\n");
        push_section(&mut shader, 3, comps, prim, model);
        shader.append("}\n");
        proof {
            assert(shader@ =~= spec_vertex_shader(comps@, *prim, *model));
        }
        shader
    }

    /// The fragment shader of the components.
    pub fn create_fragment(comps: &Vec<Component>, prim: &Primitive, model: &Model) -> (r: String)
        requires
            components_readable(comps@, *prim, *model),
        ensures
            r@ == spec_fragment_shader(comps@, *prim, *model),
    {
        let mut shader = String::new();
        shader.append("#version 330 core\n");
        if has_interface_any(comps, prim, model) {
            shader.append("in VS_OUT {\n");
            push_section(&mut shader, 1, comps, prim, model);
            shader.append("} IN;\n");
        }
        shader.append("out vec4 Color;\n");
        push_section(&mut shader, 4, comps, prim, model);
        shader.append("void main() {\n");
        shader.append("  Color = ");
        let ghost before = shader@;
        let mut outs = String::new();
        let mut count: usize = 0;
        let n = comps.len();
        let mut i: usize = 0;
        proof {
            assert(comps@.take(0) =~= Seq::<Component>::empty());
        }
        while i < n
            invariant
                n == comps@.len(),
                i <= n,
                components_readable(comps@, *prim, *model),
                outs@ == spec_outs(comps@.take(i as int), *prim, *model),
                (count == 0) == (outs@.len() == 0),
            decreases n - i,
        {
            proof {
                assert(comps@.take(i + 1).drop_last() =~= comps@.take(i as int));
                assert(comps@.take(i + 1).last() == comps@[i as int]);
            }
            if let Some(o) = out_of(&comps[i], prim, model) {
                if count != 0 {
                    outs.append(" * ");
                }
                outs.append(o.as_str());
                proof {
                    assert(o@.len() > 0) by {
                        reveal_strlit("IN.");
                        reveal_strlit("vec4(IN.");
                        reveal_strlit("texture(baseColor, IN.TexCoord");
                        assert(o@.len() >= 1);
                    }
                }
                count = 1;
            }
            i = i + 1;
        }
        proof {
            assert(comps@.take(n as int) =~= comps@);
        }
        if count == 0 {
            shader.append("vec4(vec3(0.5), 1.0)");
        } else {
            shader.append(outs.as_str());
        }
        shader.append(";\n");
        shader.append("}\n");
        proof {
            assert(shader@ =~= spec_fragment_shader(comps@, *prim, *model));
        }
        shader
    }
}

/// The components of a primitive: its vertex attributes that stand for
/// something, in order.
pub open spec fn spec_dyn_components(attrs: Seq<(String, i32)>) -> Seq<Component>
    decreases attrs.len(),
{
    if attrs.len() == 0 {
        Seq::empty()
    } else {
        let prev = spec_dyn_components(attrs.drop_last());
        match spec_attribute_type(attrs.last().0@) {
            Some(kind) => prev.push(Component { kind, accessor_idx: attrs.last().1 as usize }),
            None => prev,
        }
    }
}

fn dyn_components(attrs: &IndexMap<String, i32>) -> (r: Vec<Component>)
    ensures
        r@ == spec_dyn_components(index_map_entries(*attrs)),
{
    let ghost entries = index_map_entries(*attrs);
    let mut comps: Vec<Component> = Vec::new();
    let n = attribute_count(attrs);
    let mut i: usize = 0;
    while i < n
        invariant
            entries == index_map_entries(*attrs),
            n == entries.len(),
            i <= n,
            comps@ == spec_dyn_components(entries.take(i as int)),
        decreases n - i,
    {
        proof {
            assert(entries.take(i + 1).drop_last() =~= entries.take(i as int));
        }
        if let Some((name, id)) = attribute_at(attrs, i) {
            if let Some(kind) = AttributeType::from(name.as_str()) {
                comps.push(Component { kind, accessor_idx: id as usize });
            }
        }
        i = i + 1;
    }
    proof {
        assert(entries.take(n as int) =~= entries);
    }
    comps
}

/// The vertex count of the attributes from the `k`-th on, given the
/// counts so far: each attribute's accessor must exist and have a buffer
/// view that is loaded; all counts must agree.
pub open spec fn spec_counts(
    attrs: Seq<(String, i32)>,
    model: Model,
    gpu_buffers: Seq<crate::model::GPUBuffer>,
) -> Result<Seq<usize>, ModelError>
    decreases attrs.len(),
{
    if attrs.len() == 0 {
        Ok(Seq::empty())
    } else {
        match spec_counts(attrs.drop_last(), model, gpu_buffers) {
            Err(e) => Err(e),
            Ok(prev) => {
                let a = attrs.last().1 as usize;
                if a >= model.accessors@.len() {
                    Err(
                        ModelError::BadIndex {
                            array: "accessors",
                            max: model.accessors@.len() as usize,
                            got: a,
                        },
                    )
                } else {
                    match model.accessors@[a as int].buffer_view {
                        None => Err(ModelError::NoSource),
                        Some(b) => if b >= gpu_buffers.len() {
                            Err(
                                ModelError::BadIndex {
                                    array: "views",
                                    max: gpu_buffers.len() as usize,
                                    got: b,
                                },
                            )
                        } else {
                            Ok(prev.push(model.accessors@[a as int].count))
                        },
                    }
                }
            },
        }
    }
}

/// The attributes' common vertex count: a primitive needs a position, and
/// all its attributes the same count.
pub open spec fn spec_set_attribs(
    prim: Primitive,
    model: Model,
    gpu_buffers: Seq<crate::model::GPUBuffer>,
) -> Result<usize, ModelError> {
    if !(exists|i: int| 0 <= i < prim.spec_attributes().len() && (#[trigger] prim.spec_attributes()[i]).0@ == "POSITION"@) {
        Err(ModelError::NoPositions)
    } else {
        match spec_counts(prim.spec_attributes(), model, gpu_buffers) {
            Err(e) => Err(e),
            Ok(c) => if exists|i: int| 0 <= i < c.len() && #[trigger] c[i] != c[0] {
                Err(ModelError::AttribLen)
            } else {
                Ok(c[0])
            },
        }
    }
}

proof fn lemma_counts_stop(
    attrs: Seq<(String, i32)>,
    model: Model,
    gpu_buffers: Seq<crate::model::GPUBuffer>,
    i: int,
    k: int,
)
    requires
        0 < i <= k <= attrs.len(),
        spec_counts(attrs.take(i), model, gpu_buffers) is Err,
    ensures
        spec_counts(attrs.take(k), model, gpu_buffers) == spec_counts(attrs.take(i), model, gpu_buffers),
    decreases k - i,
{
    if k > i {
        lemma_counts_stop(attrs, model, gpu_buffers, i, k - 1);
        assert(attrs.take(k).drop_last() =~= attrs.take(k - 1));
    }
}

proof fn lemma_counts_len(attrs: Seq<(String, i32)>, model: Model, gpu_buffers: Seq<crate::model::GPUBuffer>)
    ensures
        spec_counts(attrs, model, gpu_buffers) matches Ok(c) ==> c.len() == attrs.len(),
    decreases attrs.len(),
{
    if attrs.len() > 0 {
        lemma_counts_len(attrs.drop_last(), model, gpu_buffers);
    }
}

impl DynamicShader {
    /// The attributes' common vertex count; see `spec_set_attribs`.
    fn set_attribs(prim: &Primitive, model: &Model, gpu_buffers: &Vec<crate::model::GPUBuffer>) -> (r: Result<
        usize,
        ModelError,
    >)
        ensures
            r == spec_set_attribs(*prim, *model, gpu_buffers@),
    {
        let ghost attrs = prim.spec_attributes();
        let n = attribute_count(&prim.attributes);
        let found = attribute_contains(&prim.attributes, "POSITION");
        if !found {
            return Err(ModelError::NoPositions);
        }
        let mut counts: Vec<usize> = Vec::new();
        let mut j: usize = 0;
        proof {
            assert(attrs.take(0) =~= Seq::<(String, i32)>::empty());
        }
        while j < n
            invariant
                n == attrs.len(),
                attrs == prim.spec_attributes(),
                j <= n,
                exists|k: int| 0 <= k < n && (#[trigger] attrs[k]).0@ == "POSITION"@,
                spec_counts(attrs.take(j as int), *model, gpu_buffers@) == Ok::<Seq<usize>, ModelError>(
                    counts@,
                ),
            decreases n - j,
        {
            proof {
                assert(attrs.take(j + 1).drop_last() =~= attrs.take(j as int));
                assert(attrs.take(j + 1).last() == attrs[j as int]);
            }
            let a = match attribute_at(&prim.attributes, j) {
                Some((_, id)) => id as usize,
                None => 0,
            };
            if a >= model.accessors.len() {
                proof {
                    lemma_counts_stop(attrs, *model, gpu_buffers@, j + 1, n as int);
                    assert(attrs.take(n as int) =~= attrs);
                }
                return Err(
                    ModelError::BadIndex { array: "accessors", max: model.accessors.len(), got: a },
                );
            }
            let accessor = model.accessors[a];
            let b = match accessor.buffer_view {
                Some(b) => b,
                None => {
                    proof {
                        lemma_counts_stop(attrs, *model, gpu_buffers@, j + 1, n as int);
                        assert(attrs.take(n as int) =~= attrs);
                    }
                    return Err(ModelError::NoSource);
                },
            };
            if b >= gpu_buffers.len() {
                proof {
                    lemma_counts_stop(attrs, *model, gpu_buffers@, j + 1, n as int);
                    assert(attrs.take(n as int) =~= attrs);
                }
                return Err(ModelError::BadIndex { array: "views", max: gpu_buffers.len(), got: b });
            }
            counts.push(accessor.count);
            j = j + 1;
        }
        proof {
            assert(attrs.take(n as int) =~= attrs);
            lemma_counts_len(attrs, *model, gpu_buffers@);
        }
        let zero = counts[0];
        let m = counts.len();
        let mut k: usize = 0;
        while k < m
            invariant
                m == counts@.len(),
                m > 0,
                zero == counts@[0],
                attrs == prim.spec_attributes(),
                n == attrs.len(),
                exists|k: int| 0 <= k < n && (#[trigger] attrs[k]).0@ == "POSITION"@,
                spec_counts(attrs, *model, gpu_buffers@) == Ok::<Seq<usize>, ModelError>(counts@),
                k <= m,
                forall|x: int| 0 <= x < k ==> counts@[x] == zero,
            decreases m - k,
        {
            if counts[k] != zero {
                proof {
                    assert(counts@[k as int] != counts@[0]);
                    assert(exists|x: int| 0 <= x < counts@.len() && #[trigger] counts@[x] != counts@[0]);
                }
                return Err(ModelError::AttribLen);
            }
            k = k + 1;
        }
        Ok(zero)
    }

    /// Write the shaders of a primitive into a pipeline; gives the vertex
    /// count of its attributes.  See `spec_vertex_shader`,
    /// `spec_fragment_shader` and `spec_set_attribs`.
    pub fn new(pipeline: &mut Pipeline, prim: &Primitive, model: &Model, gpu_buffers: &Vec<crate::model::GPUBuffer>) -> (r: Result<
        usize,
        ModelError,
    >)
        requires
            components_readable(spec_dyn_components(prim.spec_attributes()), *prim, *model),
        ensures
            ({
                let comps = spec_dyn_components(prim.spec_attributes());
                final(pipeline)@ == crate::renderer::PipelineView {
                    vertex_shader: Some(spec_vertex_shader(comps, *prim, *model)),
                    fragment_shader: Some(spec_fragment_shader(comps, *prim, *model)),
                    ..old(pipeline)@
                }
            }),
            r == spec_set_attribs(*prim, *model, gpu_buffers@),
    {
        let comps = dyn_components(&prim.attributes);
        let vert = Self::create_vertex(&comps, prim, model);
        let frag = Self::create_fragment(&comps, prim, model);
        pipeline.from_vertex_shader(vert).from_frag_shader(frag);
        Self::set_attribs(prim, model, gpu_buffers)
    }
}

} // verus!
