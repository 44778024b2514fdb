use engine::renderer::listing::is_whitespace;
use engine::renderer::shader::{BuiltinFunction, BuiltinVariable, Expression, Function, Program, Type};

#[test]
fn listing_of_a_vertex_program() {
    let mut prog = Program::new();
    let mvp = prog.uniform("mvp", Type::mat4());
    let mut f = Function::new_empty();
    let pos = f.input("pos", Type::vec3());
    let one = Expression::float(1.0f32.to_bits());
    let p4 = Expression::vec(vec![pos, one]);
    let v = Expression::binary(BuiltinFunction::Mul, mvp, p4);
    f.set_builtin(BuiltinVariable::VertexPosition, v);
    prog.vertex(f);
    let text = prog.listing();
    assert_eq!(
        text.texts(),
        &vec![
            String::from(
                "Program {\n    uniform $mvp: mat4;\n\n    vertex main(\n        $pos: vec3,\n    ) {\n        @0:\n          %f32_0: f32 = "
            ),
            String::from(
                ";\n          %1: vec4 = MakeVec $pos: vec3, %f32_0: f32\n          %2: vec4 = $mvp: mat4 * %1: vec4\n          gl_Position = %2: vec4\n    }\n}\n"
            ),
        ]
    );
    assert_eq!(text.floats(), &vec![1.0f32.to_bits()]);
}

#[test]
fn listing_of_a_fragment_program_with_outputs() {
    let mut prog = Program::new();
    let tex = prog.uniform("tex", Type::Sampler2D);
    let mut f = Function::new_empty();
    let uv = f.input("my uv", Type::vec2());
    let c = Expression::texture(tex, uv);
    let out = f.output("color", Type::vec4());
    f.set_output(out, c);
    prog.frag(f);
    let text = prog.listing();
    assert_eq!(
        text.texts(),
        &vec![String::from(
            "Program {\n    uniform $tex: sampler2D;\n\n    fragment main(\n        $my uv: vec2,\n    ) -> $color: vec4 {\n        @0:\n          %0: vec4 = Texture $tex: sampler2D, $\"my uv\": vec2\n          SetGlobal $color: vec4, %0: vec4\n    }\n}\n"
        )]
    );
}

#[test]
fn listing_of_an_empty_program() {
    let text = Program::new().listing();
    assert_eq!(text.texts(), &vec![String::from("Program {\n}\n")]);
}

#[test]
fn several_outputs_are_listed_in_brackets() {
    let mut prog = Program::new();
    let mut f = Function::new_empty();
    let a = f.output("a", Type::Floating);
    let b = f.output("b", Type::Floating);
    f.set_output(a, Expression::float(0));
    f.set_output(b, Expression::float(0));
    prog.frag(f);
    let text = prog.listing();
    assert!(text.texts()[0].starts_with(
        "Program {\n\n    fragment main() -> (\n        $a: f32,\n        $b: f32,\n    ) {\n"
    ));
}

#[test]
fn white_space_characters() {
    for c in [' ', '\t', '\n', '\r', '\u{0B}', '\u{0C}', '\u{85}', '\u{A0}', '\u{2003}', '\u{3000}'] {
        assert!(is_whitespace(c), "{:?}", c);
        assert_eq!(is_whitespace(c), c.is_whitespace());
    }
    for c in ['a', '_', '0', '\u{200B}', '\u{1F600}'] {
        assert!(!is_whitespace(c));
        assert_eq!(is_whitespace(c), c.is_whitespace());
    }
}
