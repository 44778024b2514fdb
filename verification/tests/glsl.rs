use engine::renderer::glsl::GlslError;
use engine::text::SourceText;
use engine::renderer::shader::{
    BuiltinFunction, BuiltinVariable, Expression, Function, Program, Type,
};

fn vertex_program() -> Program {
    let mut prog = Program::new();
    let mvp = prog.uniform("mvp", Type::mat4());
    let mut f = Function::new_empty();
    let pos = f.input("pos", Type::vec3());
    let one = Expression::float(1.0f32.to_bits());
    let p4 = Expression::vec(vec![pos, one]);
    let v = Expression::binary(BuiltinFunction::Mul, mvp, p4);
    f.set_builtin(BuiltinVariable::VertexPosition, v);
    prog.vertex(f);
    prog
}

fn fragment_program() -> Program {
    let mut prog = Program::new();
    let tex = prog.uniform("tex", Type::Sampler2D);
    prog.uniform("unused", Type::Floating);
    let mut f = Function::new_empty();
    let uv = f.input("uv", Type::vec2());
    let c = Expression::texture(tex, uv);
    let out = f.output("color", Type::vec4());
    f.set_output(out, c);
    prog.frag(f);
    prog
}

#[test]
fn glsl_type_names() {
    assert_eq!(Type::vec3().to_glsl(), "vec3");
    assert_eq!(Type::Matrix(2, 3).to_glsl(), "mat2x3");
    assert_eq!(Type::mat4().to_glsl(), "mat4");
    assert_eq!(Type::Floating.to_glsl(), "float");
    assert_eq!(Type::Sampler2D.to_glsl(), "sampler2D");
    assert_eq!(Type::Unknown.to_glsl(), "");
    assert!(Type::Vector(4).is_representable());
    assert!(!Type::Vector(5).is_representable());
    assert!(!Type::Matrix(2, 5).is_representable());
    assert!(!Type::Unknown.is_representable());
}

#[test]
fn source_texts_keep_floats_apart() {
    let mut s = SourceText::new();
    s.push_str("a = ");
    s.push_float(0.5f32.to_bits());
    s.push_str(";");
    assert_eq!(s.texts(), &vec![String::from("a = "), String::from(";")]);
    assert_eq!(s.floats(), &vec![0.5f32.to_bits()]);
}

#[test]
fn vertex_shader_source() {
    let prog = vertex_program();
    let shaders = prog.to_glsl().unwrap();
    let vert = shaders.vert.unwrap();
    assert!(shaders.frag.is_none());
    assert_eq!(
        vert.texts(),
        &vec![
            String::from("uniform mat4 mvp;\nin vec3 pos;\nvoid main() {\n    float f32_0 = "),
            String::from(
                ";\n    vec4 var_1 = vec4(pos, f32_0);\n    vec4 var_2 = mvp * var_1;\n    gl_Position = var_2;\n}\n"
            ),
        ]
    );
    assert_eq!(vert.floats(), &vec![1.0f32.to_bits()]);
}

#[test]
fn fragment_shader_source_declares_only_used_uniforms() {
    let prog = fragment_program();
    let frag = prog.to_glsl().unwrap().frag.unwrap();
    assert_eq!(
        frag.texts(),
        &vec![String::from(
            "uniform sampler2D tex;\nin vec2 uv;\nout vec4 color;\nvoid main() {\n    vec4 var_0 = texture(tex, uv);\n    color = var_0;\n}\n"
        )]
    );
    assert!(frag.floats().is_empty());
}

#[test]
fn write_shader_of_a_main_function() {
    let prog = fragment_program();
    let main = prog.frag_main().unwrap();
    let src = prog.write_shader(main);
    assert_eq!(src.texts().len(), 1);
    assert!(src.texts()[0].starts_with("uniform sampler2D tex;\n"));
}

#[test]
fn unrepresentable_types_are_refused() {
    let mut prog = Program::new();
    prog.uniform("big", Type::Vector(7));
    assert!(matches!(
        prog.glsl_verification(),
        Err(GlslError::UnreprsentableType { ty: Type::Vector(7) })
    ));
    assert!(matches!(prog.to_glsl(), Err(GlslError::UnreprsentableType { .. })));
    assert!(vertex_program().glsl_verification().is_ok());
}
