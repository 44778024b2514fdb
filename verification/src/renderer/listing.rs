//! The text listing of a shader program, for reading it: its uniforms,
//! then the vertex and fragment main functions, each with its inputs and
//! outputs and the SSA statements of its blocks.  Local variables are
//! shown with `%`, the others with `$`; a variable without a name by its
//! index, and a name holding white space in quotes.
use crate::renderer::glsl::{main_of, op_symbol, var_of};
use crate::renderer::shader::{
    env_valid, function_env, BuiltinFunction, BuiltinVariable, Function, FunctionView, Program,
    ProgramView, Statement, StatementView, Type, Variable, VariableAllocationContext, VariableId,
    VariableView, vars_view,
};
use crate::text::{decimal, emit, emit_float, push_decimal, source_empty, source_wf, SourceText, SourceView};
use vstd::prelude::*;
use vstd::std_specs::iter::IteratorSpec;
use vstd::string::{StrSliceExecFns, StringExecFns};

verus! {

// ========== //
// white space //
// ========== //

/// Unicode white space (the `White_Space` property), which is what
/// `char::is_whitespace` tests.
pub open spec fn spec_is_whitespace(c: char) -> bool {
    let u = c as u32;
    (0x9 <= u <= 0xD) || u == 0x20 || u == 0x85 || u == 0xA0 || u == 0x1680 || (0x2000 <= u
        <= 0x200A) || u == 0x2028 || u == 0x2029 || u == 0x202F || u == 0x205F || u == 0x3000
}

/// The character is Unicode white space.
pub fn is_whitespace(c: char) -> (r: bool)
    ensures
        r == spec_is_whitespace(c),
{
    let u = c as u32;
    (0x9 <= u && u <= 0xD) || u == 0x20 || u == 0x85 || u == 0xA0 || u == 0x1680 || (0x2000 <= u
        && u <= 0x200A) || u == 0x2028 || u == 0x2029 || u == 0x202F || u == 0x205F || u == 0x3000
}

/// Some character of the text is white space.
pub open spec fn has_whitespace(s: Seq<char>) -> bool {
    exists|i: int| 0 <= i < s.len() && spec_is_whitespace(#[trigger] s[i])
}

/// Some character of the string is white space.
fn string_has_whitespace(name: &String) -> (r: bool)
    ensures
        r == has_whitespace(name@),
{
    broadcast use vstd::string::group_string_axioms;

    let s = name.as_str();
    let mut chars = s.chars();
    let ghost all = s@;
    let ghost mut i: int = 0;
    proof {
        assert(all.skip(0) =~= all);
    }
    loop
        invariant
            chars.obeys_prophetic_iter_laws(),
            chars.remaining() == all.skip(i),
            all == name@,
            0 <= i <= all.len(),
            forall|k: int| 0 <= k < i ==> !spec_is_whitespace(#[trigger] all[k]),
        decreases all.len() - i,
    {
        match chars.next() {
            Some(c) => {
                proof {
                    assert(all.skip(i)[0] == all[i]);
                    assert(all.skip(i).drop_first() =~= all.skip(i + 1));
                }
                if is_whitespace(c) {
                    assert(spec_is_whitespace(all[i]));
                    return true;
                }
                proof {
                    i = i + 1;
                }
            },
            None => {
                proof {
                    assert(all.skip(i).len() == 0);
                }
                return false;
            },
        }
    }
}

// ========= //
// variables //
// ========= //

/// A variable as the listing shows it: the prefix, then its index where it
/// has no name, its name in quotes where the name holds white space, or
/// its name; then its type.
pub open spec fn spec_var_text(prefix: Seq<char>, id: usize, v: VariableView) -> Seq<char> {
    if v.name.len() == 0 {
        prefix + decimal(id as nat) + ": "@ + v.ty.spec_name()
    } else if has_whitespace(v.name) {
        prefix + "\""@ + v.name + "\""@ + ": "@ + v.ty.spec_name()
    } else {
        prefix + v.name + ": "@ + v.ty.spec_name()
    }
}

/// Variable `v` of function `f` as the listing shows it: locals with `%`,
/// the others with `$`.
pub open spec fn spec_varid_text(f: FunctionView, p: ProgramView, v: VariableId) -> Seq<char> {
    let prefix = if v.spec_kind() == VariableAllocationContext::Local {
        "%"@
    } else {
        "$"@
    };
    spec_var_text(prefix, v.spec_id(), var_of(f, p, v))
}

fn var_text(prefix: &str, id: usize, v: &Variable) -> (r: String)
    ensures
        r@ == spec_var_text(prefix@, id, v@),
{
    let mut s = String::new();
    s.append(prefix);
    if v.name.as_str().unicode_len() == 0 {
        push_decimal(&mut s, id);
    } else if string_has_whitespace(&v.name) {
        s.append("\"");
        s.append(v.name.as_str());
        s.append("\"");
    } else {
        s.append(v.name.as_str());
    }
    s.append(": ");
    v.ty.push_name(&mut s);
    proof {
        assert(s@ =~= spec_var_text(prefix@, id, v@));
    }
    s
}

fn varid_text(prog: &Program, func: &Function, v: VariableId) -> (r: String)
    requires
        env_valid(function_env(func@, prog@), v),
    ensures
        r@ == spec_varid_text(func@, prog@, v),
{
    let var = prog.get_variable(func, v);
    if v.allocation_kind() == VariableAllocationContext::Local {
        var_text("%", v.id(), var)
    } else {
        var_text("$", v.id(), var)
    }
}

/// A variable declared in a function header or as a uniform: `$`, its
/// name and its type.
pub open spec fn spec_decl_text(v: VariableView) -> Seq<char> {
    "$"@ + v.name + ": "@ + v.ty.spec_name()
}

fn decl_text(v: &Variable) -> (r: String)
    ensures
        r@ == spec_decl_text(v@),
{
    let mut s = String::new();
    s.append("$");
    s.append(v.name.as_str());
    s.append(": ");
    v.ty.push_name(&mut s);
    proof {
        assert(s@ =~= spec_decl_text(v@));
    }
    s
}

// ========== //
// statements //
// ========== //

/// The name of a builtin function, as its variant is named.
pub open spec fn spec_builtin_name(function: BuiltinFunction) -> Seq<char> {
    match function {
        BuiltinFunction::Add => "Add"@,
        BuiltinFunction::Div => "Div"@,
        BuiltinFunction::Mul => "Mul"@,
        BuiltinFunction::Sub => "Sub"@,
        BuiltinFunction::Texture => "Texture"@,
        BuiltinFunction::MakeVec => "MakeVec"@,
        BuiltinFunction::SetGlobal => "SetGlobal"@,
    }
}

/// The arguments of a call as the listing shows them, separated by
/// commas.
pub open spec fn spec_args_text(f: FunctionView, p: ProgramView, args: Seq<VariableId>) -> Seq<char>
    decreases args.len(),
{
    if args.len() == 0 {
        Seq::empty()
    } else {
        spec_args_text(f, p, args.drop_last()) + (if args.len() > 1 {
            ", "@
        } else {
            Seq::empty()
        }) + spec_varid_text(f, p, args.last())
    }
}

/// A call as the listing shows it: an operator between two arguments, or
/// the function's name and then its arguments.
pub open spec fn spec_call_text(
    f: FunctionView,
    p: ProgramView,
    function: BuiltinFunction,
    args: Seq<VariableId>,
) -> Seq<char> {
    match op_symbol(function) {
        Some(op) if args.len() == 2 => spec_varid_text(f, p, args[0]) + " "@ + op + " "@
            + spec_varid_text(f, p, args[1]),
        _ => spec_builtin_name(function) + " "@ + spec_args_text(f, p, args),
    }
}

/// The listing of a statement.
pub open spec fn spec_list_statement(g: SourceView, f: FunctionView, p: ProgramView, s: StatementView) -> SourceView {
    match s {
        StatementView::CallBuiltin { function, arguments, result } => emit(
            g,
            match result {
                Some(r) => spec_varid_text(f, p, r) + " = "@,
                None => Seq::empty(),
            } + spec_call_text(f, p, function, arguments),
        ),
        StatementView::MakeFloat { value, variable } => emit(
            emit_float(emit(g, spec_varid_text(f, p, variable) + " = "@), value),
            ";"@,
        ),
        StatementView::GetBuiltinVariable { variable, result } => emit(
            g,
            spec_varid_text(f, p, result) + " = "@ + builtin_text(variable) + ";"@,
        ),
        StatementView::SetBuiltinVariable { variable, value } => emit(
            g,
            builtin_text(variable) + " = "@ + spec_varid_text(f, p, value),
        ),
    }
}

/// The name a builtin variable has in shaders.
pub open spec fn builtin_text(b: BuiltinVariable) -> Seq<char> {
    match b {
        BuiltinVariable::VertexPosition => "gl_Position"@,
    }
}

fn args_text(prog: &Program, func: &Function, args: &Vec<VariableId>) -> (r: String)
    requires
        forall|i: int| 0 <= i < args@.len() ==> env_valid(function_env(func@, prog@), #[trigger] args@[i]),
    ensures
        r@ == spec_args_text(func@, prog@, args@),
{
    let mut s = String::new();
    let n = args.len();
    let mut i: usize = 0;
    while i < n
        invariant
            n == args@.len(),
            i <= n,
            forall|k: int| 0 <= k < args@.len() ==> env_valid(function_env(func@, prog@), #[trigger] args@[k]),
            s@ == spec_args_text(func@, prog@, args@.take(i as int)),
        decreases n - i,
    {
        proof {
            assert(args@.take(i + 1).drop_last() =~= args@.take(i as int));
        }
        if i > 0 {
            s.append(", ");
        }
        let t = varid_text(prog, func, args[i]);
        s.append(t.as_str());
        proof {
            let prev = spec_args_text(func@, prog@, args@.take(i as int));
            if i > 0 {
                assert(s@ =~= prev + ", "@ + spec_varid_text(func@, prog@, args@[i as int]));
            } else {
                assert(s@ =~= prev + Seq::<char>::empty() + spec_varid_text(func@, prog@, args@[i as int]));
            }
        }
        i = i + 1;
    }
    proof {
        assert(args@.take(n as int) =~= args@);
    }
    s
}

fn call_text(prog: &Program, func: &Function, function: BuiltinFunction, args: &Vec<VariableId>) -> (r: String)
    requires
        forall|i: int| 0 <= i < args@.len() ==> env_valid(function_env(func@, prog@), #[trigger] args@[i]),
    ensures
        r@ == spec_call_text(func@, prog@, function, args@),
{
    let op: Option<&str> = match function {
        BuiltinFunction::Add => Some("+"),
        BuiltinFunction::Div => Some("/"),
        BuiltinFunction::Mul => Some("*"),
        BuiltinFunction::Sub => Some("-"),
        _ => None,
    };
    let mut s = String::new();
    if args.len() == 2 {
        if let Some(o) = op {
            let a = varid_text(prog, func, args[0]);
            let b = varid_text(prog, func, args[1]);
            s.append(a.as_str());
            s.append(" ");
            s.append(o);
            s.append(" ");
            s.append(b.as_str());
            proof {
                assert(s@ =~= spec_call_text(func@, prog@, function, args@));
            }
            return s;
        }
    }
    let name = match function {
        BuiltinFunction::Add => "Add",
        BuiltinFunction::Div => "Div",
        BuiltinFunction::Mul => "Mul",
        BuiltinFunction::Sub => "Sub",
        BuiltinFunction::Texture => "Texture",
        BuiltinFunction::MakeVec => "MakeVec",
        BuiltinFunction::SetGlobal => "SetGlobal",
    };
    s.append(name);
    s.append(" ");
    let rest = args_text(prog, func, args);
    s.append(rest.as_str());
    proof {
        assert(s@ =~= spec_call_text(func@, prog@, function, args@));
    }
    s
}

fn list_statement(out: &mut SourceText, prog: &Program, func: &Function, s: &Statement)
    requires
        source_wf(old(out)@),
        crate::renderer::shader::statement_valid(function_env(func@, prog@), s@),
    ensures
        final(out)@ == spec_list_statement(old(out)@, func@, prog@, s@),
        source_wf(final(out)@),
{
    match s {
        Statement::CallBuiltin { function, arguments, result } => {
            assert(s@->CallBuiltin_arguments == arguments@);
            assert(forall|i: int|
                0 <= i < arguments@.len() ==> env_valid(
                    function_env(func@, prog@),
                    #[trigger] arguments@[i],
                ));
            let mut t = String::new();
            if let Some(r) = result {
                let v = varid_text(prog, func, *r);
                t.append(v.as_str());
                t.append(" = ");
            }
            let c = call_text(prog, func, *function, arguments);
            t.append(c.as_str());
            proof {
                let head = match *result {
                    Some(r) => spec_varid_text(func@, prog@, r) + " = "@,
                    None => Seq::<char>::empty(),
                };
                assert(t@ =~= head + spec_call_text(func@, prog@, *function, arguments@));
            }
            out.push_str(t.as_str());
        },
        Statement::MakeFloat { value, variable } => {
            let mut t = varid_text(prog, func, *variable);
            t.append(" = ");
            out.push_str(t.as_str());
            out.push_float(*value);
            out.push_str(";");
        },
        Statement::GetBuiltinVariable { variable, result } => {
            let mut t = varid_text(prog, func, *result);
            t.append(" = ");
            t.append("gl_Position");
            t.append(";");
            proof {
                assert(t@ =~= spec_varid_text(func@, prog@, *result) + " = "@ + builtin_text(*variable) + ";"@);
            }
            out.push_str(t.as_str());
        },
        Statement::SetBuiltinVariable { variable, value } => {
            let mut t = String::new();
            t.append("gl_Position");
            t.append(" = ");
            let v = varid_text(prog, func, *value);
            t.append(v.as_str());
            proof {
                assert(t@ =~= builtin_text(*variable) + " = "@ + spec_varid_text(func@, prog@, *value));
            }
            out.push_str(t.as_str());
        },
    }
}

// ========= //
// functions //
// ========= //

/// The listing of a block's statements, one a line, indented.
pub open spec fn spec_list_statements(
    g: SourceView,
    f: FunctionView,
    p: ProgramView,
    stmts: Seq<StatementView>,
) -> SourceView
    decreases stmts.len(),
{
    if stmts.len() == 0 {
        g
    } else {
        emit(
            spec_list_statement(
                emit(spec_list_statements(g, f, p, stmts.drop_last()), "          "@),
                f,
                p,
                stmts.last(),
            ),
            "\n"@,
        )
    }
}

/// The listing of the first `n` blocks of a function, each under its
/// number.
pub open spec fn spec_list_blocks(g: SourceView, f: FunctionView, p: ProgramView, n: nat) -> SourceView
    decreases n,
{
    if n == 0 {
        g
    } else {
        spec_list_statements(
            emit(spec_list_blocks(g, f, p, (n - 1) as nat), "        @"@ + decimal((n - 1) as nat) + ":\n"@),
            f,
            p,
            f.blocks[n - 1],
        )
    }
}

/// Variables of a function header, one a line.
pub open spec fn spec_decl_lines(vars: Seq<VariableView>) -> Seq<char>
    decreases vars.len(),
{
    if vars.len() == 0 {
        Seq::empty()
    } else {
        spec_decl_lines(vars.drop_last()) + "        "@ + spec_decl_text(vars.last()) + ",\n"@
    }
}

/// The header of a function: its inputs in brackets, then its output, or
/// its outputs in brackets.
pub open spec fn spec_header(inputs: Seq<VariableView>, outputs: Seq<VariableView>) -> Seq<char> {
    "("@ + (if inputs.len() == 0 {
        ") "@
    } else {
        "\n"@ + spec_decl_lines(inputs) + "    ) "@
    }) + (if outputs.len() == 1 {
        "-> "@ + spec_decl_text(outputs[0]) + " "@
    } else if outputs.len() > 1 {
        "-> (\n"@ + spec_decl_lines(outputs) + "    ) "@
    } else {
        Seq::empty()
    })
}

/// The listing of a function: its header, then its blocks in braces.
pub open spec fn spec_list_function(g: SourceView, f: FunctionView, p: ProgramView) -> SourceView {
    emit(
        spec_list_blocks(emit(g, spec_header(f.inputs, f.outputs) + "{\n"@), f, p, f.blocks.len()),
        "    }\n"@,
    )
}

fn decl_lines(vars: &Vec<Variable>) -> (r: String)
    ensures
        r@ == spec_decl_lines(vars_view(vars@)),
{
    let mut s = String::new();
    let n = vars.len();
    let mut i: usize = 0;
    while i < n
        invariant
            n == vars@.len(),
            i <= n,
            s@ == spec_decl_lines(vars_view(vars@).take(i as int)),
        decreases n - i,
    {
        proof {
            assert(vars_view(vars@).take(i + 1).drop_last() =~= vars_view(vars@).take(i as int));
            assert(vars_view(vars@).take(i + 1).last() == vars@[i as int]@);
        }
        let d = decl_text(&vars[i]);
        s.append("        ");
        s.append(d.as_str());
        s.append(",\n");
        proof {
            assert(s@ =~= spec_decl_lines(vars_view(vars@).take(i + 1)));
        }
        i = i + 1;
    }
    proof {
        assert(vars_view(vars@).take(n as int) =~= vars_view(vars@));
    }
    s
}

fn header_text(inputs: &Vec<Variable>, outputs: &Vec<Variable>) -> (r: String)
    ensures
        r@ == spec_header(vars_view(inputs@), vars_view(outputs@)),
{
    let mut s = String::new();
    s.append("(");
    if inputs.len() == 0 {
        s.append(") ");
    } else {
        s.append("\n");
        let d = decl_lines(inputs);
        s.append(d.as_str());
        s.append("    ) ");
    }
    if outputs.len() == 1 {
        let d = decl_text(&outputs[0]);
        s.append("-> ");
        s.append(d.as_str());
        s.append(" ");
    } else if outputs.len() > 1 {
        s.append("-> (\n");
        let d = decl_lines(outputs);
        s.append(d.as_str());
        s.append("    ) ");
    }
    proof {
        assert(s@ =~= spec_header(vars_view(inputs@), vars_view(outputs@)));
    }
    s
}

fn list_function(out: &mut SourceText, prog: &Program, func: &Function)
    requires
        source_wf(old(out)@),
        crate::renderer::shader::function_valid(function_env(func@, prog@), func@),
    ensures
        final(out)@ == spec_list_function(old(out)@, func@, prog@),
        source_wf(final(out)@),
{
    let ghost f = func@;
    let ghost p = prog@;
    let mut h = header_text(func.inputs(), func.outputs());
    h.append("{\n");
    proof {
        assert(h@ =~= spec_header(f.inputs, f.outputs) + "{\n"@);
    }
    out.push_str(h.as_str());
    let ghost g0 = out@;
    let blocks = func.blocks();
    let nb = blocks.len();
    let mut b: usize = 0;
    while b < nb
        invariant
            nb == f.blocks.len(),
            blocks@.map_values(|x: crate::renderer::shader::Block| crate::renderer::shader::block_view(x)) == f.blocks,
            f == func@,
            p == prog@,
            b <= nb,
            crate::renderer::shader::function_valid(function_env(f, p), f),
            source_wf(out@),
            out@ == spec_list_blocks(g0, f, p, b as nat),
        decreases nb - b,
    {
        let mut label = String::new();
        label.append("        @");
        push_decimal(&mut label, b);
        label.append(":\n");
        proof {
            assert(label@ =~= "        @"@ + decimal(b as nat) + ":\n"@);
        }
        out.push_str(label.as_str());
        let ghost g1 = out@;
        let stmts = blocks[b].statements();
        let ghost sv = f.blocks[b as int];
        assert(stmts@.map_values(|s: Statement| s@) == sv);
        let ns = stmts.len();
        let mut i: usize = 0;
        while i < ns
            invariant
                ns == stmts@.len(),
                stmts@.map_values(|s: Statement| s@) == sv,
                sv == f.blocks[b as int],
                0 <= b < f.blocks.len(),
                f == func@,
                p == prog@,
                i <= ns,
                crate::renderer::shader::function_valid(function_env(f, p), f),
                source_wf(out@),
                out@ == spec_list_statements(g1, f, p, sv.take(i as int)),
            decreases ns - i,
        {
            proof {
                assert(sv.take(i + 1).drop_last() =~= sv.take(i as int));
                assert(sv.take(i + 1).last() == stmts@[i as int]@);
                assert(crate::renderer::shader::statement_valid(function_env(f, p), f.blocks[b as int][i as int]));
            }
            out.push_str("          ");
            list_statement(out, prog, func, &stmts[i]);
            out.push_str("\n");
            i = i + 1;
        }
        proof {
            assert(sv.take(ns as int) =~= sv);
        }
        b = b + 1;
    }
    out.push_str("    }\n");
}

// ======== //
// programs //
// ======== //

/// The uniforms of a program, one a line.
pub open spec fn spec_uniform_lines(vars: Seq<VariableView>) -> Seq<char>
    decreases vars.len(),
{
    if vars.len() == 0 {
        Seq::empty()
    } else {
        spec_uniform_lines(vars.drop_last()) + "    uniform "@ + spec_decl_text(vars.last()) + ";\n"@
    }
}

/// The listing of a program: its uniforms, then its vertex main function
/// and its fragment main function where it has them.
pub open spec fn spec_listing(p: ProgramView) -> SourceView {
    let g0 = emit(source_empty(), "Program {\n"@ + spec_uniform_lines(p.uniforms));
    let g1 = match main_of(p, p.vertex) {
        Some(f) => spec_list_function(emit(g0, "\n    vertex main"@), f, p),
        None => g0,
    };
    let g2 = match main_of(p, p.frag) {
        Some(f) => spec_list_function(emit(g1, "\n    fragment main"@), f, p),
        None => g1,
    };
    emit(g2, "}\n"@)
}

/// Every variable the main functions name exists.
pub open spec fn program_listable(p: ProgramView) -> bool {
    &&& (main_of(p, p.vertex) matches Some(f) ==> crate::renderer::shader::function_valid(
        function_env(f, p),
        f,
    ))
    &&& (main_of(p, p.frag) matches Some(f) ==> crate::renderer::shader::function_valid(
        function_env(f, p),
        f,
    ))
}

fn uniform_lines(vars: &Vec<Variable>) -> (r: String)
    ensures
        r@ == spec_uniform_lines(vars_view(vars@)),
{
    let mut s = String::new();
    let n = vars.len();
    let mut i: usize = 0;
    while i < n
        invariant
            n == vars@.len(),
            i <= n,
            s@ == spec_uniform_lines(vars_view(vars@).take(i as int)),
        decreases n - i,
    {
        proof {
            assert(vars_view(vars@).take(i + 1).drop_last() =~= vars_view(vars@).take(i as int));
            assert(vars_view(vars@).take(i + 1).last() == vars@[i as int]@);
        }
        let d = decl_text(&vars[i]);
        s.append("    uniform ");
        s.append(d.as_str());
        s.append(";\n");
        proof {
            assert(s@ =~= spec_uniform_lines(vars_view(vars@).take(i + 1)));
        }
        i = i + 1;
    }
    proof {
        assert(vars_view(vars@).take(n as int) =~= vars_view(vars@));
    }
    s
}

impl Program {
    /// The listing of the program, for reading it: see `spec_listing`.
    pub fn listing(&self) -> (r: SourceText)
        requires
            program_listable(self@),
        ensures
            r@ == spec_listing(self@),
    {
        let ghost p = self@;
        let mut out = SourceText::new();
        let mut head = String::new();
        head.append("Program {\n");
        let u = uniform_lines(self.uniforms());
        head.append(u.as_str());
        proof {
            assert(head@ =~= "Program {\n"@ + spec_uniform_lines(p.uniforms));
        }
        out.push_str(head.as_str());
        if let Some(f) = self.vertex_main() {
            out.push_str("\n    vertex main");
            list_function(&mut out, self, f);
        }
        if let Some(f) = self.frag_main() {
            out.push_str("\n    fragment main");
            list_function(&mut out, self, f);
        }
        out.push_str("}\n");
        out
    }
}

} // verus!
