use engine::renderer::shader::{
    BuiltinFunction, BuiltinVariable, ErrorList, Expression, Function, Program,
    ShaderCreationError, Statement, Type, VariableAllocationContext,
};

fn position_program() -> Program {
    let mut prog = Program::new();
    let mvp = prog.uniform("mvp", Type::mat4());
    let mut f = Function::new_empty();
    let pos = f.input("pos", Type::vec3());
    let one = Expression::float(1.0f32.to_bits());
    let p4 = Expression::vec(vec![pos, one]);
    let v = Expression::binary(BuiltinFunction::Mul, mvp, p4);
    f.set_builtin(BuiltinVariable::VertexPosition, v);
    prog.vertex(f);
    prog
}

#[test]
fn type_names() {
    assert_eq!(Type::vec3().name(), "vec3");
    assert_eq!(Type::mat4().name(), "mat4");
    assert_eq!(Type::Matrix(2, 3).name(), "mat2x3");
    assert_eq!(Type::Floating.name(), "f32");
    assert_eq!(Type::Sampler2D.name(), "sampler2D");
    assert_eq!(Type::Unknown.name(), "null_type");
}

#[test]
fn shapes_make_types() {
    assert_eq!(Type::from_shape(1, 1), Type::Floating);
    assert_eq!(Type::from_shape(1, 3), Type::Vector(3));
    assert_eq!(Type::from_shape(4, 1), Type::Vector(4));
    assert_eq!(Type::from_shape(3, 3), Type::mat3());
    assert_eq!(Type::mat2(), Type::Matrix(2, 2));
    assert_eq!(Type::vec2(), Type::Vector(2));
    assert_eq!(Type::vec4(), Type::Vector(4));
}

#[test]
fn lowering_makes_ssa_statements_and_types_them() {
    let mut prog = position_program();
    assert!(prog.ok().is_ok());
    let main = prog.vertex_main().unwrap();
    let locals = main.locals();
    assert_eq!(locals.len(), 3);
    assert_eq!(locals[0].name, "f32_0");
    assert_eq!(locals[0].ty, Type::Floating);
    assert_eq!(locals[1].name, "");
    assert_eq!(locals[1].ty, Type::vec4());
    assert_eq!(locals[2].ty, Type::vec4());
    let stmts = main.blocks()[0].statements();
    assert_eq!(stmts.len(), 4);
    assert!(matches!(stmts[0], Statement::MakeFloat { value, .. } if value == 1.0f32.to_bits()));
    assert!(matches!(
        &stmts[1],
        Statement::CallBuiltin { function: BuiltinFunction::MakeVec, arguments, result: Some(_) }
            if arguments.len() == 2
    ));
    match &stmts[2] {
        Statement::CallBuiltin { function: BuiltinFunction::Mul, arguments, result: Some(r) } => {
            assert_eq!(arguments[0].allocation_kind(), VariableAllocationContext::Uniform);
            assert_eq!(arguments[1].allocation_kind(), VariableAllocationContext::Local);
            assert_eq!(arguments[1].id(), 1);
            assert_eq!(r.id(), 2);
        }
        other => panic!("unexpected statement {:?}", other),
    }
    assert!(matches!(
        stmts[3],
        Statement::SetBuiltinVariable { variable: BuiltinVariable::VertexPosition, .. }
    ));
    assert_eq!(prog.uniforms().len(), 1);
    assert_eq!(prog.functions().len(), 1);
    assert!(prog.frag_main().is_none());
}

#[test]
fn expr_to_variable_of_a_variable_adds_nothing() {
    let mut f = Function::new_empty();
    let a = f.input("a", Type::Floating);
    let v = f.expr_to_variable(&a);
    assert_eq!(v.allocation_kind(), VariableAllocationContext::Input);
    assert_eq!(v.id(), 0);
    assert!(f.blocks()[0].statements().is_empty());
    assert!(f.locals().is_empty());
}

#[test]
fn outputs_are_set_with_set_global() {
    let mut prog = Program::new();
    let mut f = Function::new_empty();
    let color = f.input("color", Type::vec4());
    let out = f.output("out_color", Type::vec4());
    f.set_output(out, color);
    prog.frag(f);
    assert!(prog.ok().is_ok());
    let main = prog.frag_main().unwrap();
    let stmts = main.blocks()[0].statements();
    assert_eq!(stmts.len(), 1);
    assert!(matches!(
        &stmts[0],
        Statement::CallBuiltin { function: BuiltinFunction::SetGlobal, arguments, result: None }
            if arguments.len() == 2
    ));
}

#[test]
fn scalar_broadcasts_in_binary_operations() {
    let mut prog = Program::new();
    let mut f = Function::new_empty();
    let a = f.input("a", Type::vec3());
    let b = Expression::binary(BuiltinFunction::Add, Expression::float(2.0f32.to_bits()), a);
    let out = f.output("o", Type::vec3());
    f.set_output(out, b);
    prog.frag(f);
    assert!(prog.ok().is_ok());
    let main = prog.frag_main().unwrap();
    assert_eq!(main.locals()[1].ty, Type::vec3());
}

#[test]
fn wrong_types_are_reported() {
    let mut prog = Program::new();
    let tex = prog.uniform("tex", Type::Sampler2D);
    let mut f = Function::new_empty();
    let sum = Expression::binary(BuiltinFunction::Add, Expression::float(0), tex);
    let out = f.output("o", Type::Floating);
    f.set_output(out, sum);
    prog.frag(f);
    let err = prog.ok().unwrap_err();
    let text = err.message();
    assert!(text.starts_with("Found multiple errors while compiling shader:\nError 0:\n"));
    assert!(text.contains(
        "Wrong types passed to function add: Expected numeric type such as matrix or scalar, got sampler2D"
    ));
    // the errors were handed over
    assert!(prog.ok().is_ok());
}

#[test]
fn mismatched_shapes_are_reported() {
    let mut prog = Program::new();
    let mut f = Function::new_empty();
    let a = f.input("a", Type::vec3());
    let b = f.input("b", Type::vec2());
    let sum = Expression::binary(BuiltinFunction::Sub, a, b);
    f.expr_to_variable(&sum);
    prog.function(f);
    match prog.ok() {
        Err(ShaderCreationError::ErrorList { errors }) => {
            let text = errors.message();
            assert_eq!(
                text,
                "Error 0:\nWrong types passed to function sub: Unable to sub values of type vec3 and vec2\n\n"
            );
        }
        other => panic!("unexpected result {:?}", other),
    }
}

#[test]
fn wrong_argument_counts_are_reported() {
    let mut prog = Program::new();
    let mut f = Function::new_empty();
    let call = Expression::call(BuiltinFunction::Mul, vec![Expression::float(0)]);
    f.expr_to_variable(&call);
    prog.function(f);
    let err = prog.ok().unwrap_err();
    assert!(err.message().contains("Wrong number of arguments passed to mul: got 1, expected: 2"));
}

#[test]
fn texture_lookup_gives_vec4() {
    let mut prog = Program::new();
    let tex = prog.uniform("tex", Type::Sampler2D);
    let mut f = Function::new_empty();
    let uv = f.input("uv", Type::vec2());
    let c = Expression::texture(tex, uv);
    let out = f.output("color", Type::vec4());
    f.set_output(out, c);
    prog.frag(f);
    assert!(prog.ok().is_ok());
    assert_eq!(prog.frag_main().unwrap().locals()[0].ty, Type::vec4());
}

#[test]
fn recorded_errors_are_listed_in_order() {
    let mut prog = Program::new();
    prog.error("first");
    prog.error("second");
    let err = prog.ok().unwrap_err();
    assert_eq!(
        err.message(),
        "Found multiple errors while compiling shader:\nError 0:\nfirst\n\nError 1:\nsecond\n\n"
    );
}

#[test]
fn single_error_messages() {
    let e = ShaderCreationError::VariableLocation { name: String::from("x") };
    assert_eq!(e.message(), "Variable cannot have location applied: x");
    let e = ShaderCreationError::ArgumentCount { func: String::from("f"), got: 3, expected: 2 };
    assert_eq!(e.message(), "Wrong number of arguments passed to f: got 3, expected: 2");
    let list = ErrorList(vec![]);
    assert_eq!(list.message(), "");
}
