//! Writing a shader program as GLSL source.
//!
//! The source is held as text with the float constants kept apart (as the
//! bits of an `f32`): `texts[0]`, then `floats[0]`, then `texts[1]`, and so
//! on, ending with the last text.  Each float is written in decimal with
//! twenty digits after the point.
use crate::renderer::shader::{
    env_valid, env_vars, function_env, function_valid, BuiltinFunction, BuiltinVariable, Function,
    FunctionView, Program, ProgramView, Statement, StatementView, Type, Variable, VariableAllocationContext,
    VariableId, VariableView, vars_view,
};
use crate::text::{decimal, emit, emit_float, push_decimal, source_empty, source_wf, SourceText, SourceView};
use vstd::prelude::*;
use vstd::string::StringExecFns;

verus! {

/// A type that GLSL cannot represent.
#[derive(Debug)]
pub enum GlslError {
    UnreprsentableType { ty: Type },
}

// ===== //
// types //
// ===== //

impl Type {
    /// GLSL has the type: vectors and matrices of at most four, floats and
    /// samplers.
    pub open spec fn spec_is_representable(self) -> bool {
        match self {
            Type::Vector(n) => n <= 4,
            Type::Matrix(m, n) => m <= 4 && n <= 4,
            Type::Floating => true,
            Type::Sampler2D => true,
            Type::Unknown => false,
        }
    }

    /// GLSL has the type.
    pub fn is_representable(&self) -> (r: bool)
        ensures
            r == self.spec_is_representable(),
    {
        match self {
            Type::Vector(n) => *n <= 4,
            Type::Matrix(m, n) => *m <= 4 && *n <= 4,
            Type::Floating => true,
            Type::Sampler2D => true,
            Type::Unknown => false,
        }
    }

    /// The GLSL name of the type (empty for an unknown type).
    pub open spec fn spec_glsl(self) -> Seq<char> {
        match self {
            Type::Vector(n) => "vec"@ + decimal(n as nat),
            Type::Matrix(rows, cols) => if rows == cols {
                "mat"@ + decimal(rows as nat)
            } else {
                "mat"@ + decimal(rows as nat) + "x"@ + decimal(cols as nat)
            },
            Type::Floating => "float"@,
            Type::Sampler2D => "sampler2D"@,
            Type::Unknown => Seq::empty(),
        }
    }

    /// The GLSL name of the type (empty for an unknown type).
    pub fn to_glsl(&self) -> (r: String)
        ensures
            r@ == self.spec_glsl(),
    {
        let mut s = String::new();
        match *self {
            Type::Vector(n) => {
                s.append("vec");
                push_decimal(&mut s, n);
            },
            Type::Matrix(rows, cols) => {
                s.append("mat");
                push_decimal(&mut s, rows);
                if rows != cols {
                    s.append("x");
                    push_decimal(&mut s, cols);
                }
            },
            Type::Floating => s.append("float"),
            Type::Sampler2D => s.append("sampler2D"),
            Type::Unknown => {},
        }
        proof {
            assert(s@ =~= self.spec_glsl());
        }
        s
    }
}

impl BuiltinVariable {
    /// The GLSL name of the builtin variable.
    pub open spec fn spec_glsl(self) -> Seq<char> {
        match self {
            BuiltinVariable::VertexPosition => "gl_Position"@,
        }
    }
}

// ========= //
// variables //
// ========= //

/// The variable `v` of function `f` in program `p`.
pub open spec fn var_of(f: FunctionView, p: ProgramView, v: VariableId) -> VariableView {
    env_vars(function_env(f, p), v.spec_kind())[v.spec_id() as int]
}

/// The GLSL name of variable `v`: its own name, or `var_` and its index
/// when it has none.
pub open spec fn spec_var_get(f: FunctionView, p: ProgramView, v: VariableId) -> Seq<char> {
    let var = var_of(f, p, v);
    if var.name.len() == 0 {
        "var_"@ + decimal(v.spec_id() as nat)
    } else {
        var.name
    }
}

/// The declaration of variable `v` as it starts a line.
pub open spec fn spec_var_new(f: FunctionView, p: ProgramView, v: VariableId) -> Seq<char> {
    "    "@ + var_of(f, p, v).ty.spec_glsl() + " "@ + spec_var_get(f, p, v)
}

proof fn lemma_emit_emit(g: SourceView, a: Seq<char>, b: Seq<char>)
    requires
        source_wf(g),
    ensures
        emit(emit(g, a), b) == emit(g, a + b),
        source_wf(emit(g, a)),
{
    assert(g.texts.last() + a + b =~= g.texts.last() + (a + b));
    assert(emit(emit(g, a), b).texts =~= emit(g, a + b).texts);
}

proof fn lemma_emit_empty(g: SourceView)
    requires
        source_wf(g),
    ensures
        emit(g, Seq::empty()) == g,
{
    assert(g.texts.last() + Seq::<char>::empty() =~= g.texts.last());
    assert(emit(g, Seq::empty()).texts =~= g.texts);
}

fn write_variable_name(out: &mut SourceText, var: &Variable, id: usize)
    requires
        source_wf(old(out)@),
    ensures
        final(out)@ == emit(
            old(out)@,
            if var@.name.len() == 0 {
                "var_"@ + decimal(id as nat)
            } else {
                var@.name
            },
        ),
        source_wf(final(out)@),
{
    if var.name.as_str().is_empty() {
        out.push_str("var_");
        out.push_decimal(id);
        proof {
            lemma_emit_emit(old(out)@, "var_"@, decimal(id as nat));
        }
    } else {
        out.push_str(var.name.as_str());
    }
}

fn write_variable_get(out: &mut SourceText, prog: &Program, func: &Function, v: VariableId)
    requires
        source_wf(old(out)@),
        env_valid(function_env(func@, prog@), v),
    ensures
        final(out)@ == emit(old(out)@, spec_var_get(func@, prog@, v)),
        source_wf(final(out)@),
{
    let var = prog.get_variable(func, v);
    let id = v.id();
    write_variable_name(out, var, id);
}

fn write_variable_new(out: &mut SourceText, prog: &Program, func: &Function, v: VariableId)
    requires
        source_wf(old(out)@),
        env_valid(function_env(func@, prog@), v),
    ensures
        final(out)@ == emit(old(out)@, spec_var_new(func@, prog@, v)),
        source_wf(final(out)@),
{
    out.push_str("    ");
    let var = prog.get_variable(func, v);
    let ty = var.ty.to_glsl();
    out.push_str(ty.as_str());
    out.push_str(" ");
    let ghost g1 = out@;
    write_variable_get(out, prog, func, v);
    proof {
        let ty_s = var_of(func@, prog@, v).ty.spec_glsl();
        lemma_emit_emit(old(out)@, "    "@, ty_s);
        lemma_emit_emit(old(out)@, "    "@ + ty_s, " "@);
        lemma_emit_emit(old(out)@, "    "@ + ty_s + " "@, spec_var_get(func@, prog@, v));
    }
}

// ===== //
// calls //
// ===== //

/// The operator of an arithmetic builtin.
pub open spec fn op_symbol(function: BuiltinFunction) -> Option<Seq<char>> {
    match function {
        BuiltinFunction::Add => Some("+"@),
        BuiltinFunction::Div => Some("/"@),
        BuiltinFunction::Mul => Some("*"@),
        BuiltinFunction::Sub => Some("-"@),
        _ => None,
    }
}

/// The arguments of a call, separated by commas.
pub open spec fn spec_join(f: FunctionView, p: ProgramView, args: Seq<VariableId>) -> Seq<char>
    decreases args.len(),
{
    if args.len() == 0 {
        Seq::empty()
    } else {
        spec_join(f, p, args.drop_last()) + (if args.len() > 1 {
            ", "@
        } else {
            Seq::empty()
        }) + spec_var_get(f, p, args.last())
    }
}

/// The line of a builtin call: the declared result and `=`, or an indent
/// where there is no result; then an operator between the two arguments, a
/// `texture` call, an assignment of the second argument to the first, or a
/// constructor of the result's type (named as errors name it) applied to
/// the arguments.
pub open spec fn spec_call_text(
    f: FunctionView,
    p: ProgramView,
    function: BuiltinFunction,
    args: Seq<VariableId>,
    result: Option<VariableId>,
) -> Seq<char> {
    let head = match result {
        Some(r) => spec_var_new(f, p, r) + " = "@,
        None => "    "@,
    };
    head + match op_symbol(function) {
        Some(op) => spec_var_get(f, p, args[0]) + " "@ + op + " "@ + spec_var_get(f, p, args[1])
            + ";\n"@,
        None => match function {
            BuiltinFunction::Texture => "texture("@ + spec_var_get(f, p, args[0]) + ", "@
                + spec_var_get(f, p, args[1]) + ");\n"@,
            BuiltinFunction::SetGlobal => spec_var_get(f, p, args[0]) + " = "@ + spec_var_get(
                f,
                p,
                args[1],
            ) + ";\n"@,
            BuiltinFunction::MakeVec => match result {
                Some(r) => var_of(f, p, r).ty.spec_name() + "("@ + spec_join(f, p, args) + ");\n"@,
                None => Seq::empty(),
            },
            _ => Seq::empty(),
        },
    }
}

/// The four arithmetic builtins are written as GLSL's infix operators
/// `+`, `-`, `*` and `/` between the two arguments, after the declared
/// result and `=` (or an indent where there is no result); a texture
/// lookup is a call of GLSL's `texture`, and setting a global assigns the
/// second argument to the first.
pub proof fn lemma_arithmetic_call_text(
    f: FunctionView,
    p: ProgramView,
    args: Seq<VariableId>,
    result: Option<VariableId>,
    head: Seq<char>,
)
    requires
        head == match result {
            Some(r) => spec_var_new(f, p, r) + " = "@,
            None => "    "@,
        },
    ensures
        spec_call_text(f, p, BuiltinFunction::Add, args, result) == head + spec_var_get(f, p, args[0])
            + " "@ + "+"@ + " "@ + spec_var_get(f, p, args[1]) + ";\n"@,
        spec_call_text(f, p, BuiltinFunction::Sub, args, result) == head + spec_var_get(f, p, args[0])
            + " "@ + "-"@ + " "@ + spec_var_get(f, p, args[1]) + ";\n"@,
        spec_call_text(f, p, BuiltinFunction::Mul, args, result) == head + spec_var_get(f, p, args[0])
            + " "@ + "*"@ + " "@ + spec_var_get(f, p, args[1]) + ";\n"@,
        spec_call_text(f, p, BuiltinFunction::Div, args, result) == head + spec_var_get(f, p, args[0])
            + " "@ + "/"@ + " "@ + spec_var_get(f, p, args[1]) + ";\n"@,
        spec_call_text(f, p, BuiltinFunction::Texture, args, result) == head + "texture("@
            + spec_var_get(f, p, args[0]) + ", "@ + spec_var_get(f, p, args[1]) + ");\n"@,
        spec_call_text(f, p, BuiltinFunction::SetGlobal, args, result) == head + spec_var_get(
            f,
            p,
            args[0],
        ) + " = "@ + spec_var_get(f, p, args[1]) + ";\n"@,
{
}

/// A call can be written: the functions of two values have two arguments.
pub open spec fn call_writable(function: BuiltinFunction, args: Seq<VariableId>) -> bool {
    match function {
        BuiltinFunction::MakeVec => true,
        _ => args.len() >= 2,
    }
}

fn write_builtin_call(
    out: &mut SourceText,
    prog: &Program,
    func: &Function,
    function: BuiltinFunction,
    arguments: &Vec<VariableId>,
    result: Option<VariableId>,
)
    requires
        source_wf(old(out)@),
        call_writable(function, arguments@),
        forall|i: int|
            0 <= i < arguments@.len() ==> env_valid(function_env(func@, prog@), #[trigger] arguments@[i]),
        result matches Some(r) ==> env_valid(function_env(func@, prog@), r),
    ensures
        final(out)@ == emit(old(out)@, spec_call_text(func@, prog@, function, arguments@, result)),
        source_wf(final(out)@),
{
    let ghost f = func@;
    let ghost p = prog@;
    let ghost g0 = out@;
    match result {
        Some(r) => {
            write_variable_new(out, prog, func, r);
            out.push_str(" = ");
            proof {
                lemma_emit_emit(g0, spec_var_new(f, p, r), " = "@);
            }
        },
        None => {
            out.push_str("    ");
        },
    }
    let ghost head = match result {
        Some(r) => spec_var_new(f, p, r) + " = "@,
        None => "    "@,
    };
    assert(out@ == emit(g0, head));
    let ghost g1 = out@;
    let op: Option<&str> = match function {
        BuiltinFunction::Add => Some("+"),
        BuiltinFunction::Div => Some("/"),
        BuiltinFunction::Mul => Some("*"),
        BuiltinFunction::Sub => Some("-"),
        _ => None,
    };
    if let Some(op) = op {
        write_variable_get(out, prog, func, arguments[0]);
        out.push_str(" ");
        out.push_str(op);
        out.push_str(" ");
        write_variable_get(out, prog, func, arguments[1]);
        out.push_str(";\n");
        proof {
            let a = spec_var_get(f, p, arguments@[0]);
            let b = spec_var_get(f, p, arguments@[1]);
            lemma_emit_emit(g1, a, " "@);
            lemma_emit_emit(g1, a + " "@, op@);
            lemma_emit_emit(g1, a + " "@ + op@, " "@);
            lemma_emit_emit(g1, a + " "@ + op@ + " "@, b);
            lemma_emit_emit(g1, a + " "@ + op@ + " "@ + b, ";\n"@);
            lemma_emit_emit(g0, head, a + " "@ + op@ + " "@ + b + ";\n"@);
        }
        return ;
    }
    match function {
        BuiltinFunction::Texture => {
            out.push_str("texture(");
            write_variable_get(out, prog, func, arguments[0]);
            out.push_str(", ");
            write_variable_get(out, prog, func, arguments[1]);
            out.push_str(");\n");
            proof {
                let a = spec_var_get(f, p, arguments@[0]);
                let b = spec_var_get(f, p, arguments@[1]);
                lemma_emit_emit(g1, "texture("@, a);
                lemma_emit_emit(g1, "texture("@ + a, ", "@);
                lemma_emit_emit(g1, "texture("@ + a + ", "@, b);
                lemma_emit_emit(g1, "texture("@ + a + ", "@ + b, ");\n"@);
                lemma_emit_emit(g0, head, "texture("@ + a + ", "@ + b + ");\n"@);
            }
        },
        BuiltinFunction::SetGlobal => {
            write_variable_get(out, prog, func, arguments[0]);
            out.push_str(" = ");
            write_variable_get(out, prog, func, arguments[1]);
            out.push_str(";\n");
            proof {
                let a = spec_var_get(f, p, arguments@[0]);
                let b = spec_var_get(f, p, arguments@[1]);
                lemma_emit_emit(g1, a, " = "@);
                lemma_emit_emit(g1, a + " = "@, b);
                lemma_emit_emit(g1, a + " = "@ + b, ";\n"@);
                lemma_emit_emit(g0, head, a + " = "@ + b + ";\n"@);
            }
        },
        BuiltinFunction::MakeVec => {
            if let Some(r) = result {
                let var = prog.get_variable(func, r);
                let name = var.ty.name();
                out.push_str(name.as_str());
                out.push_str("(");
                let ghost g2 = out@;
                proof {
                    assert(arguments@.take(0) =~= Seq::<VariableId>::empty());
                    lemma_emit_empty(g2);
                }
                let n = arguments.len();
                let mut i: usize = 0;
                while i < n
                    invariant
                        n == arguments@.len(),
                        i <= n,
                        source_wf(g2),
                        forall|k: int|
                            0 <= k < arguments@.len() ==> env_valid(
                                function_env(func@, prog@),
                                #[trigger] arguments@[k],
                            ),
                        f == func@,
                        p == prog@,
                        out@ == emit(g2, spec_join(f, p, arguments@.take(i as int))),
                        source_wf(out@),
                    decreases n - i,
                {
                    proof {
                        assert(arguments@.take(i + 1).drop_last() =~= arguments@.take(i as int));
                    }
                    let ghost before = out@;
                    if i > 0 {
                        out.push_str(", ");
                    }
                    write_variable_get(out, prog, func, arguments[i]);
                    proof {
                        let prev = spec_join(f, p, arguments@.take(i as int));
                        let sep = if i > 0 {
                            ", "@
                        } else {
                            Seq::<char>::empty()
                        };
                        let v = spec_var_get(f, p, arguments@[i as int]);
                        if i > 0 {
                            lemma_emit_emit(g2, prev, ", "@);
                            lemma_emit_emit(g2, prev + ", "@, v);
                        } else {
                            lemma_emit_emit(g2, prev, v);
                            assert(prev + sep =~= prev);
                        }
                        assert(spec_join(f, p, arguments@.take(i + 1)) == prev + sep + v);
                    }
                    i = i + 1;
                }
                out.push_str(");\n");
                proof {
                    assert(arguments@.take(n as int) =~= arguments@);
                    let nm = var_of(f, p, r).ty.spec_name();
                    let j = spec_join(f, p, arguments@);
                    lemma_emit_emit(g1, nm, "("@);
                    lemma_emit_emit(g1, nm + "("@, j);
                    lemma_emit_emit(g1, nm + "("@ + j, ");\n"@);
                    lemma_emit_emit(g0, head, nm + "("@ + j + ");\n"@);
                }
            } else {
                proof {
                    assert(head + Seq::<char>::empty() =~= head);
                }
            }
        },
        _ => {
            proof {
                assert(head + Seq::<char>::empty() =~= head);
            }
        },
    }
}

// ========== //
// statements //
// ========== //

/// Writing one statement.
pub open spec fn spec_write_statement(g: SourceView, f: FunctionView, p: ProgramView, s: StatementView) -> SourceView {
    match s {
        StatementView::CallBuiltin { function, arguments, result } => emit(
            g,
            spec_call_text(f, p, function, arguments, result),
        ),
        StatementView::MakeFloat { value, variable } => emit(
            emit_float(emit(g, spec_var_new(f, p, variable) + " = "@), value),
            ";\n"@,
        ),
        StatementView::SetBuiltinVariable { variable, value } => emit(
            g,
            "    "@ + variable.spec_glsl() + " = "@ + spec_var_get(f, p, value) + ";\n"@,
        ),
        StatementView::GetBuiltinVariable { variable, result } => emit(
            g,
            spec_var_new(f, p, result) + " = "@ + variable.spec_glsl() + ";\n"@,
        ),
    }
}

/// Writing statements in order.
pub open spec fn spec_write_statements(
    g: SourceView,
    f: FunctionView,
    p: ProgramView,
    stmts: Seq<StatementView>,
) -> SourceView
    decreases stmts.len(),
{
    if stmts.len() == 0 {
        g
    } else {
        spec_write_statement(spec_write_statements(g, f, p, stmts.drop_last()), f, p, stmts.last())
    }
}

/// Writing the blocks of a function in order.
pub open spec fn spec_write_blocks(g: SourceView, f: FunctionView, p: ProgramView, blocks: Seq<Seq<StatementView>>) -> SourceView
    decreases blocks.len(),
{
    if blocks.len() == 0 {
        g
    } else {
        spec_write_statements(spec_write_blocks(g, f, p, blocks.drop_last()), f, p, blocks.last())
    }
}

/// A statement can be written: its variables exist and its call has the
/// arguments it needs.
pub open spec fn statement_writable(f: FunctionView, p: ProgramView, s: StatementView) -> bool {
    &&& crate::renderer::shader::statement_valid(function_env(f, p), s)
    &&& match s {
        StatementView::CallBuiltin { function, arguments, .. } => call_writable(function, arguments),
        _ => true,
    }
}

/// A function can be written.
pub open spec fn function_writable(f: FunctionView, p: ProgramView) -> bool {
    forall|b: int, i: int|
        0 <= b < f.blocks.len() && 0 <= i < f.blocks[b].len() ==> statement_writable(
            f,
            p,
            #[trigger] f.blocks[b][i],
        )
}

fn write_statement(out: &mut SourceText, prog: &Program, func: &Function, s: &Statement)
    requires
        source_wf(old(out)@),
        statement_writable(func@, prog@, s@),
    ensures
        final(out)@ == spec_write_statement(old(out)@, func@, prog@, s@),
        source_wf(final(out)@),
{
    let ghost f = func@;
    let ghost p = prog@;
    let ghost g0 = out@;
    match s {
        Statement::CallBuiltin { function, arguments, result } => {
            write_builtin_call(out, prog, func, *function, arguments, *result);
        },
        Statement::MakeFloat { value, variable } => {
            write_variable_new(out, prog, func, *variable);
            out.push_str(" = ");
            out.push_float(*value);
            out.push_str(";\n");
            proof {
                lemma_emit_emit(g0, spec_var_new(f, p, *variable), " = "@);
            }
        },
        Statement::SetBuiltinVariable { variable, value } => {
            out.push_str("    ");
            out.push_str("gl_Position");
            out.push_str(" = ");
            write_variable_get(out, prog, func, *value);
            out.push_str(";\n");
            proof {
                let b = spec_var_get(f, p, *value);
                assert(variable.spec_glsl() == "gl_Position"@);
                lemma_emit_emit(g0, "    "@, "gl_Position"@);
                lemma_emit_emit(g0, "    "@ + "gl_Position"@, " = "@);
                lemma_emit_emit(g0, "    "@ + "gl_Position"@ + " = "@, b);
                lemma_emit_emit(g0, "    "@ + "gl_Position"@ + " = "@ + b, ";\n"@);
            }
        },
        Statement::GetBuiltinVariable { variable, result } => {
            write_variable_new(out, prog, func, *result);
            out.push_str(" = ");
            out.push_str("gl_Position");
            out.push_str(";\n");
            proof {
                let a = spec_var_new(f, p, *result);
                assert(variable.spec_glsl() == "gl_Position"@);
                lemma_emit_emit(g0, a, " = "@);
                lemma_emit_emit(g0, a + " = "@, "gl_Position"@);
                lemma_emit_emit(g0, a + " = "@ + "gl_Position"@, ";\n"@);
            }
        },
    }
}

fn write_func(out: &mut SourceText, prog: &Program, func: &Function)
    requires
        source_wf(old(out)@),
        function_writable(func@, prog@),
    ensures
        final(out)@ == spec_write_blocks(old(out)@, func@, prog@, func@.blocks),
        source_wf(final(out)@),
{
    let ghost f = func@;
    let ghost p = prog@;
    let blocks = func.blocks();
    let nb = blocks.len();
    let mut b: usize = 0;
    while b < nb
        invariant
            nb == f.blocks.len(),
            blocks@.map_values(|x: crate::renderer::shader::Block| crate::renderer::shader::block_view(x)) == f.blocks,
            f == func@,
            p == prog@,
            b <= nb,
            function_writable(f, p),
            source_wf(out@),
            out@ == spec_write_blocks(old(out)@, f, p, f.blocks.take(b as int)),
        decreases nb - b,
    {
        proof {
            assert(f.blocks.take(b + 1).drop_last() =~= f.blocks.take(b as int));
        }
        let stmts = blocks[b].statements();
        let ghost sv = f.blocks[b as int];
        assert(stmts@.map_values(|s: Statement| s@) == sv);
        let ghost g1 = out@;
        let ns = stmts.len();
        let mut i: usize = 0;
        while i < ns
            invariant
                ns == stmts@.len(),
                stmts@.map_values(|s: Statement| s@) == sv,
                sv == f.blocks[b as int],
                0 <= b < f.blocks.len(),
                f == func@,
                p == prog@,
                i <= ns,
                function_writable(f, p),
                source_wf(out@),
                out@ == spec_write_statements(g1, f, p, sv.take(i as int)),
            decreases ns - i,
        {
            proof {
                assert(sv.take(i + 1).drop_last() =~= sv.take(i as int));
                assert(sv[i as int] == stmts@[i as int]@);
                assert(statement_writable(f, p, f.blocks[b as int][i as int]));
            }
            write_statement(out, prog, func, &stmts[i]);
            i = i + 1;
        }
        proof {
            assert(sv.take(ns as int) =~= sv);
        }
        b = b + 1;
    }
    proof {
        assert(f.blocks.take(nb as int) =~= f.blocks);
    }
}

// ======= //
// globals //
// ======= //

/// Declaring variables of a kind (`uniform`, `in` or `out`), one per line.
pub open spec fn spec_global_output(g: SourceView, kind: Seq<char>, vars: Seq<VariableView>) -> SourceView
    decreases vars.len(),
{
    if vars.len() == 0 {
        g
    } else {
        let v = vars.last();
        emit(
            spec_global_output(g, kind, vars.drop_last()),
            kind + " "@ + v.ty.spec_glsl() + " "@ + v.name + ";\n"@,
        )
    }
}

fn global_output(out: &mut SourceText, kind: &str, vars: &Vec<&Variable>)
    requires
        source_wf(old(out)@),
    ensures
        final(out)@ == spec_global_output(old(out)@, kind@, vars@.map_values(|v: &Variable| v@)),
        source_wf(final(out)@),
{
    let ghost vv = vars@.map_values(|v: &Variable| v@);
    let n = vars.len();
    let mut i: usize = 0;
    while i < n
        invariant
            n == vars@.len(),
            vv == vars@.map_values(|v: &Variable| v@),
            i <= n,
            source_wf(out@),
            out@ == spec_global_output(old(out)@, kind@, vv.take(i as int)),
        decreases n - i,
    {
        proof {
            assert(vv.take(i + 1).drop_last() =~= vv.take(i as int));
        }
        let ghost g1 = out@;
        let var = vars[i];
        out.push_str(kind);
        out.push_str(" ");
        let ty = var.ty.to_glsl();
        out.push_str(ty.as_str());
        out.push_str(" ");
        out.push_str(var.name.as_str());
        out.push_str(";\n");
        proof {
            let t = var@.ty.spec_glsl();
            lemma_emit_emit(g1, kind@, " "@);
            lemma_emit_emit(g1, kind@ + " "@, t);
            lemma_emit_emit(g1, kind@ + " "@ + t, " "@);
            lemma_emit_emit(g1, kind@ + " "@ + t + " "@, var@.name);
            lemma_emit_emit(g1, kind@ + " "@ + t + " "@ + var@.name, ";\n"@);
            assert(vv.take(i + 1).last() == var@);
        }
        i = i + 1;
    }
    proof {
        assert(vv.take(n as int) =~= vv);
    }
}

/// The uniforms that the calls of some statements read, in order, once per
/// reading.
pub open spec fn spec_statement_uniforms(p: ProgramView, stmts: Seq<StatementView>) -> Seq<VariableView>
    decreases stmts.len(),
{
    if stmts.len() == 0 {
        Seq::empty()
    } else {
        spec_statement_uniforms(p, stmts.drop_last()) + match stmts.last() {
            StatementView::CallBuiltin { arguments, .. } => spec_arg_uniforms(p, arguments),
            _ => Seq::empty(),
        }
    }
}

/// The uniforms among some arguments, in order.
pub open spec fn spec_arg_uniforms(p: ProgramView, args: Seq<VariableId>) -> Seq<VariableView>
    decreases args.len(),
{
    if args.len() == 0 {
        Seq::empty()
    } else {
        let a = args.last();
        spec_arg_uniforms(p, args.drop_last()) + if a.spec_kind() == VariableAllocationContext::Uniform {
            seq![p.uniforms[a.spec_id() as int]]
        } else {
            Seq::empty()
        }
    }
}

/// The uniforms that a function reads, in order, once per reading.
pub open spec fn spec_used_uniforms(p: ProgramView, blocks: Seq<Seq<StatementView>>) -> Seq<VariableView>
    decreases blocks.len(),
{
    if blocks.len() == 0 {
        Seq::empty()
    } else {
        spec_used_uniforms(p, blocks.drop_last()) + spec_statement_uniforms(p, blocks.last())
    }
}

fn used_uniforms<'a>(prog: &'a Program, func: &Function) -> (r: Vec<&'a Variable>)
    requires
        function_writable(func@, prog@),
    ensures
        r@.map_values(|v: &Variable| v@) == spec_used_uniforms(prog@, func@.blocks),
{
    let ghost f = func@;
    let ghost p = prog@;
    let mut uniforms: Vec<&'a Variable> = Vec::new();
    let blocks = func.blocks();
    let nb = blocks.len();
    let mut b: usize = 0;
    while b < nb
        invariant
            nb == f.blocks.len(),
            blocks@.map_values(|x: crate::renderer::shader::Block| crate::renderer::shader::block_view(x)) == f.blocks,
            f == func@,
            p == prog@,
            b <= nb,
            function_writable(f, p),
            uniforms@.map_values(|v: &Variable| v@) == spec_used_uniforms(p, f.blocks.take(b as int)),
        decreases nb - b,
    {
        proof {
            assert(f.blocks.take(b + 1).drop_last() =~= f.blocks.take(b as int));
        }
        let stmts = blocks[b].statements();
        let ghost sv = f.blocks[b as int];
        let ghost u1 = uniforms@.map_values(|v: &Variable| v@);
        let ns = stmts.len();
        let mut i: usize = 0;
        proof {
            assert(sv.take(0) =~= Seq::<StatementView>::empty());
            assert(u1 + spec_statement_uniforms(p, sv.take(0)) =~= u1);
        }
        while i < ns
            invariant
                ns == stmts@.len(),
                stmts@.map_values(|s: Statement| s@) == sv,
                sv == f.blocks[b as int],
                0 <= b < f.blocks.len(),
                f == func@,
                p == prog@,
                i <= ns,
                function_writable(f, p),
                uniforms@.map_values(|v: &Variable| v@) == u1 + spec_statement_uniforms(p, sv.take(i as int)),
            decreases ns - i,
        {
            proof {
                assert(sv.take(i + 1).drop_last() =~= sv.take(i as int));
                assert(sv[i as int] == stmts@[i as int]@);
                assert(statement_writable(f, p, f.blocks[b as int][i as int]));
            }
            let ghost u2 = uniforms@.map_values(|v: &Variable| v@);
            match &stmts[i] {
                Statement::CallBuiltin { arguments, .. } => {
                    let na = arguments.len();
                    let mut j: usize = 0;
                    proof {
                        assert(arguments@.take(0) =~= Seq::<VariableId>::empty());
                        assert(u2 + spec_arg_uniforms(p, arguments@.take(0)) =~= u2);
                    }
                    while j < na
                        invariant
                            na == arguments@.len(),
                            j <= na,
                            p == prog@,
                            forall|k: int|
                                0 <= k < arguments@.len() ==> env_valid(
                                    function_env(f, p),
                                    #[trigger] arguments@[k],
                                ),
                            uniforms@.map_values(|v: &Variable| v@) == u2 + spec_arg_uniforms(
                                p,
                                arguments@.take(j as int),
                            ),
                        decreases na - j,
                    {
                        proof {
                            assert(arguments@.take(j + 1).drop_last() =~= arguments@.take(j as int));
                        }
                        let arg = arguments[j];
                        let ghost before = uniforms@.map_values(|v: &Variable| v@);
                        if arg.allocation_kind() == VariableAllocationContext::Uniform {
                            assert(env_valid(function_env(f, p), arguments@[j as int]));
                            let all = prog.uniforms();
                            let id = arg.id();
                            uniforms.push(&all[id]);
                            proof {
                                assert(uniforms@.map_values(|v: &Variable| v@) =~= before.push(
                                    p.uniforms[id as int],
                                ));
                                assert(u2 + spec_arg_uniforms(p, arguments@.take(j + 1))
                                    =~= u2 + spec_arg_uniforms(p, arguments@.take(j as int))
                                    + seq![p.uniforms[id as int]]);
                            }
                        } else {
                            proof {
                                assert(u2 + spec_arg_uniforms(p, arguments@.take(j + 1))
                                    =~= u2 + spec_arg_uniforms(p, arguments@.take(j as int)));
                            }
                        }
                        j = j + 1;
                    }
                    proof {
                        assert(arguments@.take(na as int) =~= arguments@);
                        assert(u1 + spec_statement_uniforms(p, sv.take(i + 1)) =~= u1
                            + spec_statement_uniforms(p, sv.take(i as int)) + spec_arg_uniforms(
                            p,
                            arguments@,
                        ));
                    }
                },
                _ => {
                    proof {
                        assert(u1 + spec_statement_uniforms(p, sv.take(i + 1)) =~= u1
                            + spec_statement_uniforms(p, sv.take(i as int)));
                    }
                },
            }
            i = i + 1;
        }
        proof {
            assert(sv.take(ns as int) =~= sv);
            assert(spec_used_uniforms(p, f.blocks.take(b + 1)) =~= u1 + spec_statement_uniforms(p, sv));
        }
        b = b + 1;
    }
    proof {
        assert(f.blocks.take(nb as int) =~= f.blocks);
    }
    uniforms
}

/// The GLSL source of a shader main function.
pub open spec fn spec_write_shader(p: ProgramView, f: FunctionView) -> SourceView {
    let g1 = spec_global_output(source_empty(), "uniform"@, spec_used_uniforms(p, f.blocks));
    let g2 = spec_global_output(g1, "in"@, f.inputs);
    let g3 = spec_global_output(g2, "out"@, f.outputs);
    let g4 = emit(g3, "void main() {\n"@);
    emit(spec_write_blocks(g4, f, p, f.blocks), "}\n"@)
}

fn refs<'a>(v: &'a Vec<Variable>) -> (r: Vec<&'a Variable>)
    ensures
        r@.map_values(|x: &Variable| x@) == vars_view(v@),
{
    let mut r: Vec<&'a Variable> = Vec::new();
    let n = v.len();
    let mut i: usize = 0;
    while i < n
        invariant
            n == v@.len(),
            i <= n,
            r@.len() == i,
            r@.map_values(|x: &Variable| x@) == vars_view(v@).take(i as int),
        decreases n - i,
    {
        let x = &v[i];
        r.push(x);
        proof {
            assert(r@[i as int] == v@[i as int]);
            assert(r@.map_values(|x: &Variable| x@)[i as int] == vars_view(v@)[i as int]);
            assert(r@.map_values(|x: &Variable| x@) =~= vars_view(v@).take(i + 1));
        }
        i = i + 1;
    }
    proof {
        assert(vars_view(v@).take(n as int) =~= vars_view(v@));
    }
    r
}

impl Program {
    /// The GLSL source of one of the program's functions, as its main.
    pub fn write_shader(&self, shader: &Function) -> (r: SourceText)
        requires
            function_writable(shader@, self@),
        ensures
            r@ == spec_write_shader(self@, shader@),
    {
        let mut source = SourceText::new();
        let uniforms = used_uniforms(self, shader);
        global_output(&mut source, "uniform", &uniforms);
        let inputs = refs(shader.inputs());
        global_output(&mut source, "in", &inputs);
        let outputs = refs(shader.outputs());
        global_output(&mut source, "out", &outputs);
        source.push_str("void main() {\n");
        write_func(&mut source, self, shader);
        source.push_str("}\n");
        source
    }
}

// ============ //
// whole shader //
// ============ //

/// The first variable of a list whose type GLSL cannot represent.
pub open spec fn spec_first_bad(vars: Seq<VariableView>) -> Option<Type>
    decreases vars.len(),
{
    if vars.len() == 0 {
        None
    } else {
        match spec_first_bad(vars.drop_last()) {
            Some(t) => Some(t),
            None => if vars.last().ty.spec_is_representable() {
                None
            } else {
                Some(vars.last().ty)
            },
        }
    }
}

/// The first variable of some functions (inputs, then outputs, then
/// locals of each) whose type GLSL cannot represent.
pub open spec fn spec_first_bad_fn(fs: Seq<FunctionView>) -> Option<Type>
    decreases fs.len(),
{
    if fs.len() == 0 {
        None
    } else {
        match spec_first_bad_fn(fs.drop_last()) {
            Some(t) => Some(t),
            None => spec_first_bad(fs.last().inputs + fs.last().outputs + fs.last().locals),
        }
    }
}

/// The first variable of a program, uniforms first, whose type GLSL cannot
/// represent.
pub open spec fn spec_glsl_check(p: ProgramView) -> Option<Type> {
    match spec_first_bad(p.uniforms) {
        Some(t) => Some(t),
        None => spec_first_bad_fn(p.functions),
    }
}

proof fn lemma_first_bad_append(a: Seq<VariableView>, b: Seq<VariableView>)
    ensures
        spec_first_bad(a + b) == match spec_first_bad(a) {
            Some(t) => Some(t),
            None => spec_first_bad(b),
        },
    decreases b.len(),
{
    if b.len() == 0 {
        assert(a + b =~= a);
    } else {
        lemma_first_bad_append(a, b.drop_last());
        assert((a + b).drop_last() =~= a + b.drop_last());
    }
}

fn first_bad(vars: &Vec<Variable>) -> (r: Option<Type>)
    ensures
        r == spec_first_bad(vars_view(vars@)),
{
    let ghost vv = vars_view(vars@);
    let n = vars.len();
    let mut i: usize = 0;
    while i < n
        invariant
            n == vars@.len(),
            vv == vars_view(vars@),
            i <= n,
            spec_first_bad(vv.take(i as int)) is None,
        decreases n - i,
    {
        proof {
            assert(vv.take(i + 1).drop_last() =~= vv.take(i as int));
        }
        if !vars[i].ty.is_representable() {
            proof {
                lemma_first_bad_append(vv.take(i + 1), vv.skip(i + 1));
                assert(vv.take(i + 1) + vv.skip(i + 1) =~= vv);
            }
            return Some(vars[i].ty);
        }
        i = i + 1;
    }
    proof {
        assert(vv.take(n as int) =~= vv);
    }
    None
}

impl Program {
    /// Check that GLSL can represent every variable of the program: the
    /// uniforms, then each function's inputs, outputs and locals.
    pub fn glsl_verification(&self) -> (r: Result<(), GlslError>)
        ensures
            match spec_glsl_check(self@) {
                Some(ty) => r matches Err(GlslError::UnreprsentableType { ty: t }) && t == ty,
                None => r is Ok,
            },
    {
        let ghost p = self@;
        if let Some(ty) = first_bad(self.uniforms()) {
            return Err(GlslError::UnreprsentableType { ty });
        }
        let fs = self.functions();
        let n = fs.len();
        let mut i: usize = 0;
        while i < n
            invariant
                n == p.functions.len(),
                fs@.map_values(|f: Function| f@) == p.functions,
                p == self@,
                i <= n,
                spec_first_bad(p.uniforms) is None,
                spec_first_bad_fn(p.functions.take(i as int)) is None,
            decreases n - i,
        {
            proof {
                assert(p.functions.take(i + 1).drop_last() =~= p.functions.take(i as int));
                assert(p.functions[i as int] == fs@[i as int]@);
            }
            let f = &fs[i];
            let ghost fv = f@;
            let bad = match first_bad(f.inputs()) {
                Some(t) => Some(t),
                None => match first_bad(f.outputs()) {
                    Some(t) => Some(t),
                    None => first_bad(f.locals()),
                },
            };
            proof {
                lemma_first_bad_append(fv.inputs, fv.outputs);
                lemma_first_bad_append(fv.inputs + fv.outputs, fv.locals);
            }
            if let Some(ty) = bad {
                proof {
                    lemma_first_bad_fn_stop(p.functions, i as int + 1, n as int);
                    assert(p.functions.take(n as int) =~= p.functions);
                }
                return Err(GlslError::UnreprsentableType { ty });
            }
            i = i + 1;
        }
        proof {
            assert(p.functions.take(n as int) =~= p.functions);
        }
        Ok(())
    }
}

proof fn lemma_first_bad_fn_stop(fs: Seq<FunctionView>, i: int, k: int)
    requires
        0 < i <= k <= fs.len(),
        spec_first_bad_fn(fs.take(i)) is Some,
    ensures
        spec_first_bad_fn(fs.take(k)) == spec_first_bad_fn(fs.take(i)),
    decreases k - i,
{
    if k > i {
        lemma_first_bad_fn_stop(fs, i, k - 1);
        assert(fs.take(k).drop_last() =~= fs.take(k - 1));
    }
}

/// The GLSL source of the vertex and fragment shaders of a program; `None`
/// for one the program does not have.
#[derive(Debug)]
pub struct GlslShaders {
    pub vert: Option<SourceText>,
    pub frag: Option<SourceText>,
}

/// The main function at index `main` of a program, where there is one.
pub open spec fn main_of(p: ProgramView, main: Option<usize>) -> Option<FunctionView> {
    match main {
        Some(i) => if i < p.functions.len() {
            Some(p.functions[i as int])
        } else {
            None
        },
        None => None,
    }
}

/// The main functions of a program can be written.
pub open spec fn program_writable(p: ProgramView) -> bool {
    &&& (main_of(p, p.vertex) matches Some(f) ==> function_writable(f, p))
    &&& (main_of(p, p.frag) matches Some(f) ==> function_writable(f, p))
}

/// The source of a main function, where there is one.
pub open spec fn spec_main_source(p: ProgramView, main: Option<usize>) -> Option<SourceView> {
    match main_of(p, main) {
        Some(f) => Some(spec_write_shader(p, f)),
        None => None,
    }
}

/// The source is the given one, or both are missing.
pub open spec fn source_is(s: Option<SourceText>, v: Option<SourceView>) -> bool {
    match (s, v) {
        (Some(a), Some(b)) => a@ == b,
        (None, None) => true,
        _ => false,
    }
}

impl Program {
    /// The GLSL source of the program's shaders, once GLSL is known to
    /// represent all its variables.
    pub fn to_glsl(&self) -> (r: Result<GlslShaders, GlslError>)
        requires
            program_writable(self@),
        ensures
            match spec_glsl_check(self@) {
                Some(ty) => r matches Err(GlslError::UnreprsentableType { ty: t }) && t == ty,
                None => r matches Ok(s) && source_is(s.vert, spec_main_source(self@, self@.vertex))
                    && source_is(s.frag, spec_main_source(self@, self@.frag)),
            },
    {
        if let Err(e) = self.glsl_verification() {
            return Err(e);
        }
        let vert = match self.vertex_main() {
            Some(f) => Some(self.write_shader(f)),
            None => None,
        };
        let frag = match self.frag_main() {
            Some(f) => Some(self.write_shader(f)),
            None => None,
        };
        Ok(GlslShaders { vert, frag })
    }
}

} // verus!
