//! The shader intermediate representation: programs made of functions whose
//! single block holds statements in SSA form, the lowering of expression
//! trees into those statements, and the type checker.
use crate::text::{decimal, push_decimal};
use vstd::prelude::*;
use vstd::string::StringExecFns;

verus! {

// ================= //
// type declarations //
// ================= //

/// An error found while building a shader program.
#[derive(Debug)]
pub enum ShaderCreationError {
    /// Several errors, in the order they were found
    ErrorList { errors: ErrorList },
    /// An error reported by the code building the program
    Other { error: String },
    /// A builtin function was given the wrong number of arguments
    ArgumentCount { func: String, got: usize, expected: usize },
    /// A builtin function was given arguments of the wrong types
    ArgumentType { func: String, message: String },
    /// A variable that cannot have a location was given one
    VariableLocation { name: String },
}

/// The errors found while building a shader program.
#[derive(Debug)]
pub struct ErrorList(pub Vec<ShaderCreationError>);

/// The list of currently supported functions builtin to the shaders
#[derive(Debug, Clone, Copy, PartialEq, Eq, Structural)]
pub enum BuiltinFunction {
    Add,
    Div,
    Mul,
    Sub,
    Texture,
    MakeVec,
    SetGlobal,
}

/// Variables automagically provided by a shader without having to declare them
#[derive(Debug, Clone, Copy, PartialEq, Eq, Structural)]
pub enum BuiltinVariable {
    VertexPosition,
}

/// Where a variable is allocated.
#[derive(Debug, Clone, Copy, PartialEq, Eq, Structural, Hash)]
pub enum VariableAllocationContext {
    Local,
    Uniform,
    Input,
    Output,
}

/// A variable: its index among those of its allocation context.
#[derive(Debug, Clone, Copy, PartialEq, Eq, Structural, Hash)]
pub struct VariableId {
    id: usize,
    kind: VariableAllocationContext,
}

/// The type of a shader value.
#[derive(Debug, Clone, Copy, PartialEq, Eq, Structural)]
pub enum Type {
    Vector(usize),
    /// matrix rows x columns
    Matrix(usize, usize),
    Floating,
    Sampler2D,
    Unknown,
}

/// A named, typed variable.
#[derive(Debug, Clone)]
pub struct Variable {
    pub name: String,
    pub ty: Type,
}

/// A single expression's AST
#[derive(Debug)]
pub enum Expression {
    /// Call a function, this is most expressions, including binary operators
    CallBuiltin { function: BuiltinFunction, arguments: Vec<Expression> },
    /// Create a constant floating point value, given by the bits of an `f32`
    MakeFloat { value: u32 },
    /// Read a variable
    GetVariable { variable: VariableId },
}

/// A single operation in ssa form
#[derive(Debug, Clone)]
pub enum Statement {
    CallBuiltin {
        function: BuiltinFunction,
        arguments: Vec<VariableId>,
        result: Option<VariableId>,
    },
    /// A constant, given by the bits of an `f32`
    MakeFloat { value: u32, variable: VariableId },
    SetBuiltinVariable { variable: BuiltinVariable, value: VariableId },
    GetBuiltinVariable { variable: BuiltinVariable, result: VariableId },
}

/// An ssa basic block, contains no control flow, all jumps will be at the end
/// of the block, all entry will be at the start of the block
#[derive(Debug)]
pub struct Block {
    statements: Vec<Statement>,
}

/// The variables of a function.
#[derive(Debug)]
pub struct FunctionVars {
    locals: Vec<Variable>,
    outputs: Vec<Variable>,
    inputs: Vec<Variable>,
}

/// A single function in a shader program, either a shader main function or
/// a utility function
#[derive(Debug)]
pub struct Function {
    blocks: Vec<Block>,
    vars: FunctionVars,
}

/// A complete shader program containing vertex, fragment, etc. shaders
#[derive(Debug)]
pub struct Program {
    functions: Vec<Function>,
    vertex: Option<usize>,
    frag: Option<usize>,
    uniforms: Vec<Variable>,
    errors: Vec<ShaderCreationError>,
}

// ===== //
// views //
// ===== //

/// A variable as a value: its name and its type.
pub struct VariableView {
    pub name: Seq<char>,
    pub ty: Type,
}

impl View for Variable {
    type V = VariableView;

    open spec fn view(&self) -> VariableView {
        VariableView { name: self.name@, ty: self.ty }
    }
}

/// A statement as a value.
pub enum StatementView {
    CallBuiltin {
        function: BuiltinFunction,
        arguments: Seq<VariableId>,
        result: Option<VariableId>,
    },
    MakeFloat { value: u32, variable: VariableId },
    SetBuiltinVariable { variable: BuiltinVariable, value: VariableId },
    GetBuiltinVariable { variable: BuiltinVariable, result: VariableId },
}

impl View for Statement {
    type V = StatementView;

    open spec fn view(&self) -> StatementView {
        match self {
            Statement::CallBuiltin { function, arguments, result } => StatementView::CallBuiltin {
                function: *function,
                arguments: arguments@,
                result: *result,
            },
            Statement::MakeFloat { value, variable } => StatementView::MakeFloat {
                value: *value,
                variable: *variable,
            },
            Statement::SetBuiltinVariable { variable, value } => StatementView::SetBuiltinVariable {
                variable: *variable,
                value: *value,
            },
            Statement::GetBuiltinVariable { variable, result } => StatementView::GetBuiltinVariable {
                variable: *variable,
                result: *result,
            },
        }
    }
}

/// An error as a value.
pub enum ErrorView {
    ErrorList { errors: Seq<ErrorView> },
    Other { error: Seq<char> },
    ArgumentCount { func: Seq<char>, got: usize, expected: usize },
    ArgumentType { func: Seq<char>, message: Seq<char> },
    VariableLocation { name: Seq<char> },
}

/// The values of a sequence of errors.
pub open spec fn error_views(errors: Seq<ShaderCreationError>) -> Seq<ErrorView>
    decreases errors,
{
    if errors.len() == 0 {
        Seq::empty()
    } else {
        proof {
            assert(decreases_to!(errors => errors.subrange(0, errors.len() - 1)));
            assert(decreases_to!(errors => errors[errors.len() - 1]));
        }
        error_views(errors.subrange(0, errors.len() - 1)).push(error_view(errors[errors.len() - 1]))
    }
}

/// The value of an error.
pub open spec fn error_view(e: ShaderCreationError) -> ErrorView
    decreases e,
{
    match e {
        ShaderCreationError::ErrorList { errors } => {
            proof {
                assert(decreases_to!(e => errors));
                assert(decreases_to!(errors => errors.0));
                assert(decreases_to!(errors.0 => errors.0@));
            }
            ErrorView::ErrorList { errors: error_views(errors.0@) }
        },
        ShaderCreationError::Other { error } => ErrorView::Other { error: error@ },
        ShaderCreationError::ArgumentCount { func, got, expected } => ErrorView::ArgumentCount {
            func: func@,
            got,
            expected,
        },
        ShaderCreationError::ArgumentType { func, message } => ErrorView::ArgumentType {
            func: func@,
            message: message@,
        },
        ShaderCreationError::VariableLocation { name } => ErrorView::VariableLocation {
            name: name@,
        },
    }
}

impl View for ShaderCreationError {
    type V = ErrorView;

    open spec fn view(&self) -> ErrorView {
        error_view(*self)
    }
}

/// A function as a value: its blocks and its variables.
pub struct FunctionView {
    pub blocks: Seq<Seq<StatementView>>,
    pub locals: Seq<VariableView>,
    pub inputs: Seq<VariableView>,
    pub outputs: Seq<VariableView>,
}

/// The statements of a block as values.
pub closed spec fn block_view(b: Block) -> Seq<StatementView> {
    b.statements@.map_values(|s: Statement| s@)
}

/// Variables as values.
pub open spec fn vars_view(v: Seq<Variable>) -> Seq<VariableView> {
    v.map_values(|x: Variable| x@)
}

impl View for Function {
    type V = FunctionView;

    closed spec fn view(&self) -> FunctionView {
        FunctionView {
            blocks: self.blocks@.map_values(|b: Block| block_view(b)),
            locals: vars_view(self.vars.locals@),
            inputs: vars_view(self.vars.inputs@),
            outputs: vars_view(self.vars.outputs@),
        }
    }
}

/// A program as a value.
pub struct ProgramView {
    pub functions: Seq<FunctionView>,
    pub vertex: Option<usize>,
    pub frag: Option<usize>,
    pub uniforms: Seq<VariableView>,
    pub errors: Seq<ErrorView>,
}

impl View for Program {
    type V = ProgramView;

    closed spec fn view(&self) -> ProgramView {
        ProgramView {
            functions: self.functions@.map_values(|f: Function| f@),
            vertex: self.vertex,
            frag: self.frag,
            uniforms: vars_view(self.uniforms@),
            errors: error_views(self.errors@),
        }
    }
}

// ===== //
// types //
// ===== //

impl Type {
    /// A 2x2 matrix.
    pub fn mat2() -> (t: Type)
        ensures
            t == Type::Matrix(2, 2),
    {
        Type::Matrix(2, 2)
    }

    /// A 3x3 matrix.
    pub fn mat3() -> (t: Type)
        ensures
            t == Type::Matrix(3, 3),
    {
        Type::Matrix(3, 3)
    }

    /// A 4x4 matrix.
    pub fn mat4() -> (t: Type)
        ensures
            t == Type::Matrix(4, 4),
    {
        Type::Matrix(4, 4)
    }

    /// A vector of four.
    pub fn vec4() -> (t: Type)
        ensures
            t == Type::Vector(4),
    {
        Type::Vector(4)
    }

    /// A vector of three.
    pub fn vec3() -> (t: Type)
        ensures
            t == Type::Vector(3),
    {
        Type::Vector(3)
    }

    /// A vector of two.
    pub fn vec2() -> (t: Type)
        ensures
            t == Type::Vector(2),
    {
        Type::Vector(2)
    }

    /// The (rows, columns) of a numeric type: a vector is a row, a float is
    /// one by one; other types have no shape.
    pub open spec fn spec_shape(self) -> Option<(usize, usize)> {
        match self {
            Type::Vector(cols) => Some((1, cols)),
            Type::Matrix(rows, cols) => Some((rows, cols)),
            Type::Floating => Some((1, 1)),
            _ => None,
        }
    }

    /// The type of a value with the given shape.
    pub open spec fn spec_from_shape(rows: usize, cols: usize) -> Type {
        if rows == 1 && cols == 1 {
            Type::Floating
        } else if rows == 1 {
            Type::Vector(cols)
        } else if cols == 1 {
            Type::Vector(rows)
        } else {
            Type::Matrix(rows, cols)
        }
    }

    /// The type of a value with the given shape.
    pub fn from_shape(rows: usize, cols: usize) -> (t: Type)
        ensures
            t == Type::spec_from_shape(rows, cols),
    {
        if rows == 1 && cols == 1 {
            Type::Floating
        } else if rows == 1 {
            Type::Vector(cols)
        } else if cols == 1 {
            Type::Vector(rows)
        } else {
            Type::Matrix(rows, cols)
        }
    }

    /// The name of the type, as errors show it.
    pub open spec fn spec_name(self) -> Seq<char> {
        match self {
            Type::Floating => "f32"@,
            Type::Sampler2D => "sampler2D"@,
            Type::Unknown => "null_type"@,
            Type::Vector(n) => "vec"@ + decimal(n as nat),
            Type::Matrix(n, m) => if n == m {
                "mat"@ + decimal(n as nat)
            } else {
                "mat"@ + decimal(n as nat) + "x"@ + decimal(m as nat)
            },
        }
    }

    /// Append the name of the type to `s`.
    pub fn push_name(&self, s: &mut String)
        ensures
            final(s)@ == old(s)@ + self.spec_name(),
    {
        match *self {
            Type::Floating => s.append("f32"),
            Type::Sampler2D => s.append("sampler2D"),
            Type::Unknown => s.append("null_type"),
            Type::Vector(n) => {
                s.append("vec");
                push_decimal(s, n);
                proof {
                    assert(old(s)@ + "vec"@ + decimal(n as nat) =~= old(s)@ + self.spec_name());
                }
            },
            Type::Matrix(n, m) => {
                s.append("mat");
                push_decimal(s, n);
                if n != m {
                    s.append("x");
                    push_decimal(s, m);
                    proof {
                        assert(old(s)@ + "mat"@ + decimal(n as nat) + "x"@ + decimal(m as nat)
                            =~= old(s)@ + self.spec_name());
                    }
                } else {
                    proof {
                        assert(old(s)@ + "mat"@ + decimal(n as nat) =~= old(s)@
                            + self.spec_name());
                    }
                }
            },
        }
    }

    /// The name of the type, as errors show it.
    pub fn name(&self) -> (r: String)
        ensures
            r@ == self.spec_name(),
    {
        let mut s = String::new();
        self.push_name(&mut s);
        proof {
            assert(Seq::<char>::empty() + self.spec_name() =~= self.spec_name());
        }
        s
    }
}

impl BuiltinVariable {
    /// The type of the builtin variable.
    pub open spec fn spec_type(self) -> Type {
        match self {
            BuiltinVariable::VertexPosition => Type::Vector(4),
        }
    }

    /// The type of the builtin variable.
    pub fn get_type(&self) -> (t: Type)
        ensures
            t == self.spec_type(),
    {
        match self {
            BuiltinVariable::VertexPosition => Type::Vector(4),
        }
    }
}

impl VariableId {
    /// The allocation context of the variable.
    pub closed spec fn spec_kind(self) -> VariableAllocationContext {
        self.kind
    }

    /// The index of the variable in its allocation context.
    pub closed spec fn spec_id(self) -> usize {
        self.id
    }

    /// A variable id from its index and context.
    pub closed spec fn spec_new(id: usize, kind: VariableAllocationContext) -> VariableId {
        VariableId { id, kind }
    }

    /// The allocation context of the variable.
    pub fn allocation_kind(&self) -> (k: VariableAllocationContext)
        ensures
            k == self.spec_kind(),
    {
        self.kind
    }

    /// The index of the variable in its allocation context.
    pub fn id(&self) -> (i: usize)
        ensures
            i == self.spec_id(),
    {
        self.id
    }
}

// ======== //
// lowering //
// ======== //

/// An expression as a value.
pub enum ExprView {
    Call { function: BuiltinFunction, arguments: Seq<ExprView> },
    Float { value: u32 },
    Get { variable: VariableId },
}

/// The value of an expression.
pub open spec fn expr_view(e: Expression) -> ExprView
    decreases e,
{
    match e {
        Expression::CallBuiltin { function, arguments } => {
            proof {
                assert(decreases_to!(e => arguments));
                assert(decreases_to!(arguments => arguments@));
            }
            ExprView::Call { function, arguments: exprs_view(arguments@) }
        },
        Expression::MakeFloat { value } => ExprView::Float { value },
        Expression::GetVariable { variable } => ExprView::Get { variable },
    }
}

/// The values of some expressions.
pub open spec fn exprs_view(args: Seq<Expression>) -> Seq<ExprView>
    decreases args,
{
    if args.len() == 0 {
        Seq::empty()
    } else {
        proof {
            assert(decreases_to!(args => args.subrange(0, args.len() - 1)));
            assert(decreases_to!(args => args[args.len() - 1]));
        }
        exprs_view(args.subrange(0, args.len() - 1)).push(expr_view(args[args.len() - 1]))
    }
}

impl View for Expression {
    type V = ExprView;

    open spec fn view(&self) -> ExprView {
        expr_view(*self)
    }
}

/// The values of some expressions, one for each, in order.
pub proof fn lemma_exprs_view(args: Seq<Expression>)
    ensures
        exprs_view(args).len() == args.len(),
        forall|i: int| 0 <= i < args.len() ==> #[trigger] exprs_view(args)[i] == args[i]@,
    decreases args.len(),
{
    if args.len() > 0 {
        let init = args.subrange(0, args.len() - 1);
        lemma_exprs_view(init);
        assert forall|i: int| 0 <= i < args.len() implies #[trigger] exprs_view(args)[i] == args[i]@ by {
            if i < args.len() - 1 {
                assert(init[i] == args[i]);
            }
        }
    }
}

/// The name a float constant's local variable gets: `f32_` and its index.
pub open spec fn float_name(id: nat) -> Seq<char> {
    "f32_"@ + decimal(id)
}

/// Lowering an expression into SSA statements, given the locals and the
/// statements so far: every float constant becomes a new local named after
/// its index and a statement that sets it; every call lowers its arguments
/// in order, then gets a new unnamed local of unknown type for its result
/// and a statement that calls the function.  Gives the locals, the
/// statements and the variable that holds the value.
pub open spec fn spec_lower(locals: Seq<VariableView>, stmts: Seq<StatementView>, e: ExprView) -> (
    Seq<VariableView>,
    Seq<StatementView>,
    VariableId,
)
    decreases e,
{
    match e {
        ExprView::Get { variable } => (locals, stmts, variable),
        ExprView::Float { value } => {
            let v = VariableId::spec_new(locals.len() as usize, VariableAllocationContext::Local);
            (
                locals.push(VariableView { name: float_name(locals.len()), ty: Type::Floating }),
                stmts.push(StatementView::MakeFloat { value, variable: v }),
                v,
            )
        },
        ExprView::Call { function, arguments } => {
            let a = spec_lower_args(locals, stmts, arguments);
            let v = VariableId::spec_new(a.0.len() as usize, VariableAllocationContext::Local);
            (
                a.0.push(VariableView { name: Seq::empty(), ty: Type::Unknown }),
                a.1.push(StatementView::CallBuiltin { function, arguments: a.2, result: Some(v) }),
                v,
            )
        },
    }
}

/// Lowering a list of expressions in order.
pub open spec fn spec_lower_args(
    locals: Seq<VariableView>,
    stmts: Seq<StatementView>,
    args: Seq<ExprView>,
) -> (Seq<VariableView>, Seq<StatementView>, Seq<VariableId>)
    decreases args,
{
    if args.len() == 0 {
        (locals, stmts, Seq::empty())
    } else {
        let p = spec_lower_args(locals, stmts, args.subrange(0, args.len() - 1));
        let r = spec_lower(p.0, p.1, args[args.len() - 1]);
        (r.0, r.1, p.2.push(r.2))
    }
}

impl Expression {
    /// A call of a builtin function.
    pub fn call(function: BuiltinFunction, arguments: Vec<Expression>) -> (e: Expression)
        ensures
            e@ == (ExprView::Call { function, arguments: exprs_view(arguments@) }),
    {
        Expression::CallBuiltin { function, arguments }
    }

    /// A builtin function applied to two values, such as an operator.
    pub fn binary(function: BuiltinFunction, lhs: Expression, rhs: Expression) -> (e: Expression)
        ensures
            e@ == (ExprView::Call { function, arguments: seq![lhs@, rhs@] }),
    {
        let mut arguments: Vec<Expression> = Vec::new();
        arguments.push(lhs);
        arguments.push(rhs);
        proof {
            lemma_exprs_view(arguments@);
            assert(exprs_view(arguments@) =~= seq![lhs@, rhs@]);
        }
        Expression::CallBuiltin { function, arguments }
    }

    /// A texture lookup.
    pub fn texture(tex: Expression, uv: Expression) -> (e: Expression)
        ensures
            e@ == (ExprView::Call { function: BuiltinFunction::Texture, arguments: seq![tex@, uv@] }),
    {
        Self::binary(BuiltinFunction::Texture, tex, uv)
    }

    /// A vector made of the given components.
    pub fn vec(components: Vec<Expression>) -> (e: Expression)
        ensures
            e@ == (ExprView::Call {
                function: BuiltinFunction::MakeVec,
                arguments: exprs_view(components@),
            }),
    {
        Expression::CallBuiltin { function: BuiltinFunction::MakeVec, arguments: components }
    }

    /// A float constant, given by the bits of an `f32`.
    pub fn float(value: u32) -> (e: Expression)
        ensures
            e@ == (ExprView::Float { value }),
    {
        Expression::MakeFloat { value }
    }
}

impl Block {
    /// All the statements of the block.
    pub fn statements(&self) -> (r: &Vec<Statement>)
        ensures
            r@.map_values(|s: Statement| s@) == block_view(*self),
    {
        &self.statements
    }
}

impl Function {
    /// A function with one empty block and no variables.
    pub fn new_empty() -> (f: Function)
        ensures
            f@.blocks == seq![Seq::<StatementView>::empty()],
            f@.locals == Seq::<VariableView>::empty(),
            f@.inputs == Seq::<VariableView>::empty(),
            f@.outputs == Seq::<VariableView>::empty(),
    {
        let mut blocks: Vec<Block> = Vec::new();
        blocks.push(Block { statements: Vec::new() });
        let f = Function {
            blocks,
            vars: FunctionVars { locals: Vec::new(), inputs: Vec::new(), outputs: Vec::new() },
        };
        proof {
            assert(block_view(f.blocks@[0]) =~= Seq::<StatementView>::empty());
            assert(f@.blocks =~= seq![Seq::<StatementView>::empty()]);
            assert(f@.locals =~= Seq::<VariableView>::empty());
            assert(f@.inputs =~= Seq::<VariableView>::empty());
            assert(f@.outputs =~= Seq::<VariableView>::empty());
        }
        f
    }

    /// The blocks of the function.
    pub fn blocks(&self) -> (r: &Vec<Block>)
        ensures
            r@.map_values(|b: Block| block_view(b)) == self@.blocks,
    {
        &self.blocks
    }

    /// The input variables of the function.
    pub fn inputs(&self) -> (r: &Vec<Variable>)
        ensures
            vars_view(r@) == self@.inputs,
    {
        &self.vars.inputs
    }

    /// The output variables of the function.
    pub fn outputs(&self) -> (r: &Vec<Variable>)
        ensures
            vars_view(r@) == self@.outputs,
    {
        &self.vars.outputs
    }

    /// The local variables of the function.
    pub fn locals(&self) -> (r: &Vec<Variable>)
        ensures
            vars_view(r@) == self@.locals,
    {
        &self.vars.locals
    }

    /// Add an input variable; gives an expression that reads it.
    pub fn input(&mut self, name: &str, ty: Type) -> (e: Expression)
        ensures
            final(self)@ == (FunctionView {
                inputs: old(self)@.inputs.push(VariableView { name: name@, ty }),
                ..old(self)@
            }),
            e@ == (ExprView::Get {
                variable: VariableId::spec_new(
                    old(self)@.inputs.len() as usize,
                    VariableAllocationContext::Input,
                ),
            }),
    {
        let id = self.vars.inputs.len();
        self.vars.inputs.push(Variable { name: name.to_owned(), ty });
        proof {
            assert(self@.inputs =~= old(self)@.inputs.push(VariableView { name: name@, ty }));
        }
        Expression::GetVariable { variable: VariableId { id, kind: VariableAllocationContext::Input } }
    }

    /// Add an output variable; gives an expression that names it.
    pub fn output(&mut self, name: &str, ty: Type) -> (e: Expression)
        ensures
            final(self)@ == (FunctionView {
                outputs: old(self)@.outputs.push(VariableView { name: name@, ty }),
                ..old(self)@
            }),
            e@ == (ExprView::Get {
                variable: VariableId::spec_new(
                    old(self)@.outputs.len() as usize,
                    VariableAllocationContext::Output,
                ),
            }),
    {
        let id = self.vars.outputs.len();
        self.vars.outputs.push(Variable { name: name.to_owned(), ty });
        proof {
            assert(self@.outputs =~= old(self)@.outputs.push(VariableView { name: name@, ty }));
        }
        Expression::GetVariable {
            variable: VariableId { id, kind: VariableAllocationContext::Output },
        }
    }

    /// Append a statement to the first block.
    fn push_statement(&mut self, s: Statement)
        requires
            old(self)@.blocks.len() >= 1,
        ensures
            final(self)@ == (FunctionView {
                blocks: old(self)@.blocks.update(0, old(self)@.blocks[0].push(s@)),
                ..old(self)@
            }),
    {
        let mut statements: Vec<Statement> = Vec::new();
        std::mem::swap(&mut statements, &mut self.blocks[0].statements);
        statements.push(s);
        std::mem::swap(&mut statements, &mut self.blocks[0].statements);
        proof {
            assert(block_view(self.blocks@[0]) =~= old(self)@.blocks[0].push(s@));
            assert(self@.blocks =~= old(self)@.blocks.update(0, old(self)@.blocks[0].push(s@)));
        }
    }

    /// Add a local variable.
    fn local_variable(&mut self, name: String, ty: Type) -> (v: VariableId)
        ensures
            final(self)@ == (FunctionView {
                locals: old(self)@.locals.push(VariableView { name: name@, ty }),
                ..old(self)@
            }),
            v == VariableId::spec_new(old(self)@.locals.len() as usize, VariableAllocationContext::Local),
    {
        let id = self.vars.locals.len();
        self.vars.locals.push(Variable { name, ty });
        proof {
            assert(self@.locals =~= old(self)@.locals.push(VariableView { name: name@, ty }));
        }
        VariableId { id, kind: VariableAllocationContext::Local }
    }
}

impl Function {
    /// Lower an expression into statements of the first block; gives the
    /// variable that holds its value.  See `spec_lower`.
    pub fn expr_to_variable(&mut self, expr: &Expression) -> (v: VariableId)
        requires
            old(self)@.blocks.len() >= 1,
        ensures
            ({
                let r = spec_lower(old(self)@.locals, old(self)@.blocks[0], expr@);
                &&& final(self)@ == (FunctionView {
                    locals: r.0,
                    blocks: old(self)@.blocks.update(0, r.1),
                    ..old(self)@
                })
                &&& v == r.2
            }),
        decreases expr,
    {
        match expr {
            Expression::GetVariable { variable } => {
                proof {
                    assert(old(self)@.blocks.update(0, old(self)@.blocks[0]) =~= old(self)@.blocks);
                }
                *variable
            },
            Expression::MakeFloat { value } => {
                let id = self.vars.locals.len();
                let mut name = String::new();
                name.append("f32_");
                push_decimal(&mut name, id);
                proof {
                    assert(name@ =~= float_name(id as nat));
                }
                let variable = self.local_variable(name, Type::Floating);
                self.push_statement(Statement::MakeFloat { value: *value, variable });
                variable
            },
            Expression::CallBuiltin { function, arguments } => {
                let ghost l0 = self@.locals;
                let ghost s0 = self@.blocks[0];
                let ghost av = exprs_view(arguments@);
                let mut args: Vec<VariableId> = Vec::new();
                let n = arguments.len();
                let mut i: usize = 0;
                proof {
                    assert(arguments@.take(0) =~= Seq::<Expression>::empty());
                    assert(old(self)@.blocks.update(0, s0) =~= old(self)@.blocks);
                }
                while i < n
                    invariant
                        n == arguments@.len(),
                        i <= n,
                        *expr == (Expression::CallBuiltin { function: *function, arguments: *arguments }),
                        old(self)@.blocks.len() >= 1,
                        s0 == old(self)@.blocks[0],
                        l0 == old(self)@.locals,
                        ({
                            let p = spec_lower_args(l0, s0, exprs_view(arguments@.take(i as int)));
                            &&& self@ == (FunctionView {
                                locals: p.0,
                                blocks: old(self)@.blocks.update(0, p.1),
                                ..old(self)@
                            })
                            &&& args@ == p.2
                        }),
                    decreases n - i,
                {
                    proof {
                        let t1 = arguments@.take(i + 1);
                        assert(t1.subrange(0, i as int) =~= arguments@.take(i as int));
                        assert(t1[i as int] == arguments@[i as int]);
                        let ev = exprs_view(t1);
                        lemma_exprs_view(arguments@.take(i as int));
                        assert(ev == exprs_view(arguments@.take(i as int)).push(arguments@[i as int]@));
                        assert(ev.subrange(0, i as int) =~= exprs_view(arguments@.take(i as int)));
                        assert(ev[i as int] == arguments@[i as int]@);
                        assert(decreases_to!(*expr => (*expr)->arguments));
                        assert((*expr)->arguments == *arguments);
                        assert(decreases_to!(*arguments => arguments@));
                        assert(decreases_to!(arguments@ => arguments@[i as int]));
                    }
                    let v = self.expr_to_variable(&arguments[i]);
                    args.push(v);
                    i = i + 1;
                    proof {
                        assert(self@.blocks =~= old(self)@.blocks.update(
                            0,
                            spec_lower_args(l0, s0, exprs_view(arguments@.take(i as int))).1,
                        ));
                    }
                }
                proof {
                    assert(arguments@.take(n as int) =~= arguments@);
                    assert(expr@ == ExprView::Call { function: *function, arguments: av });
                }
                let result = self.local_variable(String::new(), Type::Unknown);
                self.push_statement(
                    Statement::CallBuiltin { function: *function, arguments: args, result: Some(result) },
                );
                proof {
                    assert(self@.locals =~= spec_lower(old(self)@.locals, old(self)@.blocks[0], expr@).0);
                    assert(self@.blocks =~= old(self)@.blocks.update(
                        0,
                        spec_lower(old(self)@.locals, old(self)@.blocks[0], expr@).1,
                    ));
                }
                result
            },
        }
    }

    /// Set a builtin variable to the value of an expression.
    pub fn set_builtin(&mut self, builtin: BuiltinVariable, value: Expression)
        requires
            old(self)@.blocks.len() >= 1,
        ensures
            ({
                let r = spec_lower(old(self)@.locals, old(self)@.blocks[0], value@);
                final(self)@ == (FunctionView {
                    locals: r.0,
                    blocks: old(self)@.blocks.update(
                        0,
                        r.1.push(StatementView::SetBuiltinVariable { variable: builtin, value: r.2 }),
                    ),
                    ..old(self)@
                })
            }),
    {
        let v = self.expr_to_variable(&value);
        self.push_statement(Statement::SetBuiltinVariable { variable: builtin, value: v });
        proof {
            let r = spec_lower(old(self)@.locals, old(self)@.blocks[0], value@);
            assert(self@.blocks =~= old(self)@.blocks.update(
                0,
                r.1.push(StatementView::SetBuiltinVariable { variable: builtin, value: r.2 }),
            ));
        }
    }

    /// Set an output variable to the value of an expression.
    pub fn set_output(&mut self, target: Expression, value: Expression)
        requires
            old(self)@.blocks.len() >= 1,
        ensures
            ({
                let t = spec_lower(old(self)@.locals, old(self)@.blocks[0], target@);
                let v = spec_lower(t.0, t.1, value@);
                final(self)@ == (FunctionView {
                    locals: v.0,
                    blocks: old(self)@.blocks.update(
                        0,
                        v.1.push(
                            StatementView::CallBuiltin {
                                function: BuiltinFunction::SetGlobal,
                                arguments: seq![t.2, v.2],
                                result: None,
                            },
                        ),
                    ),
                    ..old(self)@
                })
            }),
    {
        let t = self.expr_to_variable(&target);
        let v = self.expr_to_variable(&value);
        let mut arguments: Vec<VariableId> = Vec::new();
        arguments.push(t);
        arguments.push(v);
        proof {
            assert(arguments@ =~= seq![t, v]);
        }
        self.push_statement(
            Statement::CallBuiltin { function: BuiltinFunction::SetGlobal, arguments, result: None },
        );
        proof {
            let tt = spec_lower(old(self)@.locals, old(self)@.blocks[0], target@);
            assert(self@.blocks =~= old(self)@.blocks.update(
                0,
                spec_lower(tt.0, tt.1, value@).1.push(
                    StatementView::CallBuiltin {
                        function: BuiltinFunction::SetGlobal,
                        arguments: seq![t, v],
                        result: None,
                    },
                ),
            ));
        }
    }
}

// ============= //
// type checking //
// ============= //

/// What a type check reads and writes: the variables it can see, and the
/// errors found so far.
pub struct TcEnv {
    pub locals: Seq<VariableView>,
    pub inputs: Seq<VariableView>,
    pub outputs: Seq<VariableView>,
    pub uniforms: Seq<VariableView>,
    pub errors: Seq<ErrorView>,
}

/// The variables of an allocation context.
pub open spec fn env_vars(env: TcEnv, k: VariableAllocationContext) -> Seq<VariableView> {
    match k {
        VariableAllocationContext::Local => env.locals,
        VariableAllocationContext::Uniform => env.uniforms,
        VariableAllocationContext::Input => env.inputs,
        VariableAllocationContext::Output => env.outputs,
    }
}

/// The variable exists.
pub open spec fn env_valid(env: TcEnv, v: VariableId) -> bool {
    v.spec_id() < env_vars(env, v.spec_kind()).len()
}

/// The type of a variable.
pub open spec fn env_type(env: TcEnv, v: VariableId) -> Type {
    env_vars(env, v.spec_kind())[v.spec_id() as int].ty
}

/// The environment with the type of `v` set to `ty`.
pub open spec fn env_set_type(env: TcEnv, v: VariableId, ty: Type) -> TcEnv {
    let vs = env_vars(env, v.spec_kind());
    let i = v.spec_id() as int;
    let nv = vs.update(i, VariableView { name: vs[i].name, ty });
    match v.spec_kind() {
        VariableAllocationContext::Local => TcEnv { locals: nv, ..env },
        VariableAllocationContext::Uniform => TcEnv { uniforms: nv, ..env },
        VariableAllocationContext::Input => TcEnv { inputs: nv, ..env },
        VariableAllocationContext::Output => TcEnv { outputs: nv, ..env },
    }
}

/// The environment with one more error.
pub open spec fn env_error(env: TcEnv, e: ErrorView) -> TcEnv {
    TcEnv { errors: env.errors.push(e), ..env }
}

/// Two environments have the same variables, up to their types.
pub open spec fn env_same_vars(a: TcEnv, b: TcEnv) -> bool {
    &&& a.locals.len() == b.locals.len()
    &&& a.inputs.len() == b.inputs.len()
    &&& a.outputs.len() == b.outputs.len()
    &&& a.uniforms.len() == b.uniforms.len()
}

/// The shape of a type that must be numeric; otherwise an error.
pub open spec fn spec_shape_check(env: TcEnv, ty: Type, func: Seq<char>) -> (
    Option<(usize, usize)>,
    TcEnv,
) {
    match ty.spec_shape() {
        Some(s) => (Some(s), env),
        None => (
            None,
            env_error(
                env,
                ErrorView::ArgumentType {
                    func,
                    message: "Expected numeric type such as matrix or scalar, got "@ + ty.spec_name(),
                },
            ),
        ),
    }
}

/// The error of a function given `got` arguments where it takes `expected`.
pub open spec fn count_error(func: Seq<char>, got: nat, expected: usize) -> ErrorView {
    ErrorView::ArgumentCount { func, got: got as usize, expected }
}

/// The two argument shapes, checked in order, of a function of two values.
pub open spec fn spec_two_shapes(env: TcEnv, func: Seq<char>, args: Seq<VariableId>) -> (
    Option<((usize, usize), (usize, usize))>,
    TcEnv,
) {
    if args.len() != 2 {
        (None, env_error(env, count_error(func, args.len(), 2)))
    } else {
        let s1 = spec_shape_check(env, env_type(env, args[0]), func);
        match s1.0 {
            None => (None, s1.1),
            Some(a) => {
                let s2 = spec_shape_check(s1.1, env_type(env, args[1]), func);
                match s2.0 {
                    None => (None, s2.1),
                    Some(b) => (Some((a, b)), s2.1),
                }
            },
        }
    }
}

/// The error of two values that a function cannot combine.
pub open spec fn combine_error(func: Seq<char>, t1: Type, t2: Type) -> ErrorView {
    ErrorView::ArgumentType {
        func,
        message: "Unable to "@ + func + " values of type "@ + t1.spec_name() + " and "@
            + t2.spec_name(),
    }
}

/// Element-wise operators: two values of one shape keep the first one's
/// type, and a float combined with anything gives the other's shape.
pub open spec fn spec_type_binary(env: TcEnv, func: Seq<char>, args: Seq<VariableId>) -> (
    Option<Type>,
    TcEnv,
) {
    let s = spec_two_shapes(env, func, args);
    match s.0 {
        None => (None, s.1),
        Some(sh) => {
            let (a, b) = sh;
            if a == b {
                (Some(env_type(env, args[0])), s.1)
            } else if a == (1usize, 1usize) {
                (Some(Type::spec_from_shape(b.0, b.1)), s.1)
            } else if b == (1usize, 1usize) {
                (Some(Type::spec_from_shape(a.0, a.1)), s.1)
            } else {
                (None, env_error(s.1, combine_error(func, env_type(env, args[0]), env_type(env, args[1]))))
            }
        },
    }
}

/// An element-wise builtin combines a float with a value of any shape,
/// on either side, into a value of that shape: a float with a float is a
/// float, a float with a vector is that vector type, and a float with a
/// matrix of more than one row and column is that matrix type.  The order
/// of the two arguments does not change the type (but for a one-element
/// vector or matrix, which keeps the first argument's type).
pub proof fn lemma_binary_scalar_broadcast(env: TcEnv, func: Seq<char>, x: VariableId, y: VariableId)
    requires
        env_type(env, y) == Type::Floating,
        env_type(env, x).spec_shape() is Some,
    ensures
        env_type(env, x) == Type::Floating || env_type(env, x).spec_shape() != Some(
            (1usize, 1usize),
        ) ==> spec_type_binary(env, func, seq![x, y]).0 == spec_type_binary(env, func, seq![y, x]).0,
        env_type(env, x) == Type::Floating ==> spec_type_binary(env, func, seq![x, y]).0 == Some(
            Type::Floating,
        ),
        env_type(env, x) matches Type::Vector(c) ==> spec_type_binary(env, func, seq![x, y]).0
            == Some(Type::Vector(c)),
        env_type(env, x) matches Type::Matrix(r, c) ==> (r > 1 && c > 1 ==> spec_type_binary(
            env,
            func,
            seq![x, y],
        ).0 == Some(Type::Matrix(r, c))),
{
}

/// Multiplication: floats scale anything, vectors of one length multiply
/// element-wise, and otherwise it is a matrix product, a vector on the
/// right counting as a column.
pub open spec fn spec_type_mul(env: TcEnv, args: Seq<VariableId>) -> (Option<Type>, TcEnv) {
    let s = spec_two_shapes(env, "mul"@, args);
    match s.0 {
        None => (None, s.1),
        Some(sh) => {
            let (a, b) = sh;
            if a == (1usize, 1usize) && b == (1usize, 1usize) {
                (Some(Type::Floating), s.1)
            } else if a == (1usize, 1usize) {
                (Some(Type::spec_from_shape(b.0, b.1)), s.1)
            } else if b == (1usize, 1usize) {
                (Some(Type::spec_from_shape(a.0, a.1)), s.1)
            } else if a.0 == 1 && b.0 == 1 && a.1 == b.1 {
                (Some(Type::spec_from_shape(1, a.1)), s.1)
            } else {
                let b2 = if b.0 == 1 {
                    (b.1, 1usize)
                } else {
                    b
                };
                if a.1 == b2.0 {
                    (Some(Type::spec_from_shape(a.0, b2.1)), s.1)
                } else {
                    (
                        None,
                        env_error(
                            s.1,
                            combine_error("mul"@, env_type(env, args[0]), env_type(env, args[1])),
                        ),
                    )
                }
            }
        },
    }
}

/// A texture lookup gives a vec4; it is refused only when neither argument
/// has its expected type (a sampler, then a vec2).
pub open spec fn spec_type_texture(env: TcEnv, args: Seq<VariableId>) -> (Option<Type>, TcEnv) {
    if args.len() != 2 {
        (None, env_error(env, count_error("texture"@, args.len(), 2)))
    } else {
        let t1 = env_type(env, args[0]);
        let t2 = env_type(env, args[1]);
        if t1 != Type::Sampler2D && t2 != Type::Vector(2) {
            (
                None,
                env_error(
                    env,
                    ErrorView::ArgumentType {
                        func: "texture"@,
                        message: "The texture function currently only supports (Sampler2D, vec2), got "@
                            + t1.spec_name() + ", "@ + t2.spec_name(),
                    },
                ),
            )
        } else {
            (Some(Type::Vector(4)), env)
        }
    }
}

/// The shapes of the arguments of `make_vec`, in order, stopping at the
/// first that has none.
pub open spec fn spec_vec_shapes(env: TcEnv, args: Seq<VariableId>) -> (
    Option<Seq<(usize, usize)>>,
    TcEnv,
)
    decreases args.len(),
{
    if args.len() == 0 {
        (Some(Seq::empty()), env)
    } else {
        let p = spec_vec_shapes(env, args.drop_last());
        match p.0 {
            None => p,
            Some(sh) => {
                let r = spec_shape_check(p.1, env_type(env, args.last()), "make_vec"@);
                match r.0 {
                    None => (None, r.1),
                    Some(x) => (Some(sh.push(x)), r.1),
                }
            },
        }
    }
}

/// `a + b` as a `usize` addition that wraps around.
pub open spec fn wrap_add(a: usize, b: usize) -> usize {
    if a + b > usize::MAX {
        (a + b - usize::MAX - 1) as usize
    } else {
        (a + b) as usize
    }
}

/// The length of a made vector (the sum of the argument lengths), whether
/// an argument is not a row, and the errors for those that are not.
pub open spec fn spec_vec_fold(env: TcEnv, shapes: Seq<(usize, usize)>) -> (usize, bool, TcEnv)
    decreases shapes.len(),
{
    if shapes.len() == 0 {
        (0, false, env)
    } else {
        let p = spec_vec_fold(env, shapes.drop_last());
        let a = shapes.last();
        let env2 = if a.0 != 1 {
            env_error(
                p.2,
                ErrorView::ArgumentType {
                    func: "make_vec"@,
                    message: "Cannot make vector from variable of type "@ + Type::spec_from_shape(
                        a.0,
                        a.1,
                    ).spec_name(),
                },
            )
        } else {
            p.2
        };
        (wrap_add(p.0, a.1), p.1 || a.0 != 1, env2)
    }
}

/// Making a vector: the arguments must be floats or vectors, and the result
/// is as long as they are together.
pub open spec fn spec_type_make_vec(env: TcEnv, args: Seq<VariableId>) -> (Option<Type>, TcEnv) {
    let s = spec_vec_shapes(env, args);
    match s.0 {
        None => (None, s.1),
        Some(sh) => {
            let f = spec_vec_fold(s.1, sh);
            if f.1 {
                (None, f.2)
            } else {
                (Some(Type::Vector(f.0)), f.2)
            }
        },
    }
}

/// Setting a global: the two arguments must have one type; no result.
pub open spec fn spec_type_setter(env: TcEnv, func: Seq<char>, args: Seq<VariableId>) -> TcEnv {
    if args.len() != 2 {
        env_error(env, count_error(func, args.len(), 2))
    } else {
        let t1 = env_type(env, args[0]);
        let t2 = env_type(env, args[1]);
        if t1 != t2 {
            env_error(
                env,
                ErrorView::ArgumentType {
                    func,
                    message: "Trying to set variable of type "@ + t1.spec_name()
                        + " to value of type "@ + t2.spec_name(),
                },
            )
        } else {
            env
        }
    }
}

/// The result type of a builtin call, and the errors it adds; nothing is
/// checked while an argument's type is still unknown.
pub open spec fn spec_type_builtin(env: TcEnv, function: BuiltinFunction, args: Seq<VariableId>) -> (
    Option<Type>,
    TcEnv,
) {
    if exists|i: int| 0 <= i < args.len() && env_type(env, #[trigger] args[i]) == Type::Unknown {
        (None, env)
    } else {
        match function {
            BuiltinFunction::Add => spec_type_binary(env, "add"@, args),
            BuiltinFunction::Div => spec_type_binary(env, "div"@, args),
            BuiltinFunction::Mul => spec_type_mul(env, args),
            BuiltinFunction::Sub => spec_type_binary(env, "sub"@, args),
            BuiltinFunction::Texture => spec_type_texture(env, args),
            BuiltinFunction::MakeVec => spec_type_make_vec(env, args),
            BuiltinFunction::SetGlobal => (None, spec_type_setter(env, "set_global"@, args)),
        }
    }
}

/// The variables a statement names all exist.
pub open spec fn statement_valid(env: TcEnv, s: StatementView) -> bool {
    match s {
        StatementView::CallBuiltin { arguments, result, .. } => {
            &&& forall|i: int| 0 <= i < arguments.len() ==> env_valid(env, #[trigger] arguments[i])
            &&& match result {
                Some(r) => env_valid(env, r),
                None => true,
            }
        },
        StatementView::MakeFloat { variable, .. } => env_valid(env, variable),
        StatementView::SetBuiltinVariable { value, .. } => env_valid(env, value),
        StatementView::GetBuiltinVariable { result, .. } => env_valid(env, result),
    }
}

/// Type checking one statement: a call gives its result the type it
/// computes; a float constant or a read builtin gives its variable its type
/// where that is still unknown.
pub open spec fn spec_type_statement(env: TcEnv, s: StatementView) -> TcEnv {
    match s {
        StatementView::CallBuiltin { function, arguments, result } => {
            let r = spec_type_builtin(env, function, arguments);
            match (r.0, result) {
                (Some(ty), Some(res)) => env_set_type(r.1, res, ty),
                _ => r.1,
            }
        },
        StatementView::MakeFloat { variable, .. } => if env_type(env, variable) == Type::Unknown {
            env_set_type(env, variable, Type::Floating)
        } else {
            env
        },
        StatementView::GetBuiltinVariable { variable, result } => if env_type(env, result)
            == Type::Unknown {
            env_set_type(env, result, variable.spec_type())
        } else {
            env
        },
        StatementView::SetBuiltinVariable { .. } => env,
    }
}

/// Type checking the statements of a block in order.
pub open spec fn spec_type_block(env: TcEnv, stmts: Seq<StatementView>) -> TcEnv
    decreases stmts.len(),
{
    if stmts.len() == 0 {
        env
    } else {
        spec_type_statement(spec_type_block(env, stmts.drop_last()), stmts.last())
    }
}

/// Type checking the blocks of a function in order.
pub open spec fn spec_type_blocks(env: TcEnv, blocks: Seq<Seq<StatementView>>) -> TcEnv
    decreases blocks.len(),
{
    if blocks.len() == 0 {
        env
    } else {
        spec_type_block(spec_type_blocks(env, blocks.drop_last()), blocks.last())
    }
}

/// The variables that a function's statements name all exist.
pub open spec fn function_valid(env: TcEnv, f: FunctionView) -> bool {
    forall|b: int, i: int|
        0 <= b < f.blocks.len() && 0 <= i < f.blocks[b].len() ==> statement_valid(
            env,
            #[trigger] f.blocks[b][i],
        )
}

/// The environment of a function in a program.
pub open spec fn function_env(f: FunctionView, p: ProgramView) -> TcEnv {
    TcEnv {
        locals: f.locals,
        inputs: f.inputs,
        outputs: f.outputs,
        uniforms: p.uniforms,
        errors: p.errors,
    }
}

/// Type checking a function of a program: only a program without errors
/// so far is checked.
pub open spec fn spec_type_check(f: FunctionView, p: ProgramView) -> TcEnv {
    let env = function_env(f, p);
    if env.errors.len() == 0 {
        spec_type_blocks(env, f.blocks)
    } else {
        env
    }
}

/// The environment that a function's variables and a program's uniforms
/// and errors make up.
closed spec fn exec_env(vars: FunctionVars, prog: Program) -> TcEnv {
    TcEnv {
        locals: vars_view(vars.locals@),
        inputs: vars_view(vars.inputs@),
        outputs: vars_view(vars.outputs@),
        uniforms: vars_view(prog.uniforms@),
        errors: error_views(prog.errors@),
    }
}

proof fn lemma_error_views_len(s: Seq<ShaderCreationError>)
    ensures
        error_views(s).len() == s.len(),
    decreases s.len(),
{
    if s.len() > 0 {
        lemma_error_views_len(s.subrange(0, s.len() - 1));
    }
}

proof fn lemma_error_views_push(s: Seq<ShaderCreationError>, e: ShaderCreationError)
    ensures
        error_views(s.push(e)) == error_views(s).push(e@),
{
    assert(s.push(e).subrange(0, s.len() as int) =~= s);
}

fn var_type(vars: &FunctionVars, prog: &Program, v: VariableId) -> (t: Type)
    requires
        env_valid(exec_env(*vars, *prog), v),
    ensures
        t == env_type(exec_env(*vars, *prog), v),
{
    match v.kind {
        VariableAllocationContext::Local => vars.locals[v.id].ty,
        VariableAllocationContext::Uniform => prog.uniforms[v.id].ty,
        VariableAllocationContext::Input => vars.inputs[v.id].ty,
        VariableAllocationContext::Output => vars.outputs[v.id].ty,
    }
}

fn set_var_type(vars: &mut FunctionVars, prog: &mut Program, v: VariableId, ty: Type)
    requires
        env_valid(exec_env(*old(vars), *old(prog)), v),
    ensures
        exec_env(*final(vars), *final(prog)) == env_set_type(exec_env(*old(vars), *old(prog)), v, ty),
        final(vars).locals@.len() == old(vars).locals@.len(),
        final(vars).inputs@.len() == old(vars).inputs@.len(),
        final(vars).outputs@.len() == old(vars).outputs@.len(),
        final(prog).uniforms@.len() == old(prog).uniforms@.len(),
        final(prog).errors == old(prog).errors,
        final(prog).functions == old(prog).functions,
        final(prog).vertex == old(prog).vertex,
        final(prog).frag == old(prog).frag,
{
    let i = v.id;
    match v.kind {
        VariableAllocationContext::Local => {
            vars.locals[i].ty = ty;
            proof {
                assert(vars_view(vars.locals@) =~= vars_view(old(vars).locals@).update(
                    i as int,
                    VariableView { name: vars_view(old(vars).locals@)[i as int].name, ty },
                ));
            }
        },
        VariableAllocationContext::Uniform => {
            prog.uniforms[i].ty = ty;
            proof {
                assert(vars_view(prog.uniforms@) =~= vars_view(old(prog).uniforms@).update(
                    i as int,
                    VariableView { name: vars_view(old(prog).uniforms@)[i as int].name, ty },
                ));
            }
        },
        VariableAllocationContext::Input => {
            vars.inputs[i].ty = ty;
            proof {
                assert(vars_view(vars.inputs@) =~= vars_view(old(vars).inputs@).update(
                    i as int,
                    VariableView { name: vars_view(old(vars).inputs@)[i as int].name, ty },
                ));
            }
        },
        VariableAllocationContext::Output => {
            vars.outputs[i].ty = ty;
            proof {
                assert(vars_view(vars.outputs@) =~= vars_view(old(vars).outputs@).update(
                    i as int,
                    VariableView { name: vars_view(old(vars).outputs@)[i as int].name, ty },
                ));
            }
        },
    }
}

fn push_error(vars: &FunctionVars, prog: &mut Program, e: ShaderCreationError)
    ensures
        exec_env(*vars, *final(prog)) == env_error(exec_env(*vars, *old(prog)), e@),
        final(prog).functions == old(prog).functions,
        final(prog).vertex == old(prog).vertex,
        final(prog).frag == old(prog).frag,
        final(prog).uniforms == old(prog).uniforms,
{
    let ghost ev = e@;
    prog.errors.push(e);
    proof {
        lemma_error_views_push(old(prog).errors@, e);
    }
}

/// The error of a non-numeric argument.
fn shape_error(func: &str, ty: Type) -> (e: ShaderCreationError)
    ensures
        e@ == (ErrorView::ArgumentType {
            func: func@,
            message: "Expected numeric type such as matrix or scalar, got "@ + ty.spec_name(),
        }),
{
    let mut message = String::new();
    message.append("Expected numeric type such as matrix or scalar, got ");
    ty.push_name(&mut message);
    proof {
        assert(message@ =~= "Expected numeric type such as matrix or scalar, got "@ + ty.spec_name());
    }
    ShaderCreationError::ArgumentType { func: func.to_owned(), message }
}

/// The error of two values a function cannot combine.
fn combine_error_of(func: &str, t1: Type, t2: Type) -> (e: ShaderCreationError)
    ensures
        e@ == combine_error(func@, t1, t2),
{
    let mut message = String::new();
    message.append("Unable to ");
    message.append(func);
    message.append(" values of type ");
    t1.push_name(&mut message);
    message.append(" and ");
    t2.push_name(&mut message);
    proof {
        assert(message@ =~= "Unable to "@ + func@ + " values of type "@ + t1.spec_name() + " and "@
            + t2.spec_name());
    }
    ShaderCreationError::ArgumentType { func: func.to_owned(), message }
}

fn get_shape(vars: &FunctionVars, prog: &mut Program, ty: Type, func: &str) -> (r: Option<
    (usize, usize),
>)
    ensures
        (r, exec_env(*vars, *final(prog))) == spec_shape_check(exec_env(*vars, *old(prog)), ty, func@),
        final(prog).functions == old(prog).functions,
        final(prog).vertex == old(prog).vertex,
        final(prog).frag == old(prog).frag,
        final(prog).uniforms == old(prog).uniforms,
{
    match ty {
        Type::Vector(cols) => Some((1, cols)),
        Type::Matrix(rows, cols) => Some((rows, cols)),
        Type::Floating => Some((1, 1)),
        _ => {
            push_error(vars, prog, shape_error(func, ty));
            None
        },
    }
}

fn check_arg_count(vars: &FunctionVars, prog: &mut Program, func: &str, args: &Vec<VariableId>) -> (r: bool)
    ensures
        r == (args@.len() == 2),
        exec_env(*vars, *final(prog)) == if r {
            exec_env(*vars, *old(prog))
        } else {
            env_error(exec_env(*vars, *old(prog)), count_error(func@, args@.len(), 2))
        },
        final(prog).functions == old(prog).functions,
        final(prog).vertex == old(prog).vertex,
        final(prog).frag == old(prog).frag,
        final(prog).uniforms == old(prog).uniforms,
{
    if args.len() != 2 {
        push_error(
            vars,
            prog,
            ShaderCreationError::ArgumentCount { func: func.to_owned(), got: args.len(), expected: 2 },
        );
        false
    } else {
        true
    }
}

fn two_shapes(vars: &FunctionVars, prog: &mut Program, func: &str, args: &Vec<VariableId>) -> (r: Option<
    ((usize, usize), (usize, usize)),
>)
    requires
        forall|i: int| 0 <= i < args@.len() ==> env_valid(exec_env(*vars, *old(prog)), #[trigger] args@[i]),
    ensures
        (r, exec_env(*vars, *final(prog))) == spec_two_shapes(exec_env(*vars, *old(prog)), func@, args@),
        final(prog).functions == old(prog).functions,
        final(prog).vertex == old(prog).vertex,
        final(prog).frag == old(prog).frag,
        final(prog).uniforms == old(prog).uniforms,
{
    let ghost env = exec_env(*vars, *prog);
    if !check_arg_count(vars, prog, func, args) {
        return None;
    }
    let t1 = var_type(vars, prog, args[0]);
    let a = match get_shape(vars, prog, t1, func) {
        Some(a) => a,
        None => return None,
    };
    assert(env_valid(exec_env(*vars, *prog), args@[1]));
    let t2 = var_type(vars, prog, args[1]);
    let b = match get_shape(vars, prog, t2, func) {
        Some(b) => b,
        None => return None,
    };
    Some((a, b))
}

/// All the variables in `args` exist.
pub open spec fn args_valid(env: TcEnv, args: Seq<VariableId>) -> bool {
    forall|i: int| 0 <= i < args.len() ==> env_valid(env, #[trigger] args[i])
}

fn type_binary(vars: &FunctionVars, prog: &mut Program, func: &str, args: &Vec<VariableId>) -> (r: Option<Type>)
    requires
        args_valid(exec_env(*vars, *old(prog)), args@),
    ensures
        (r, exec_env(*vars, *final(prog))) == spec_type_binary(exec_env(*vars, *old(prog)), func@, args@),
        final(prog).functions == old(prog).functions,
        final(prog).vertex == old(prog).vertex,
        final(prog).frag == old(prog).frag,
        final(prog).uniforms == old(prog).uniforms,
{
    let ghost env = exec_env(*vars, *prog);
    let (a, b) = match two_shapes(vars, prog, func, args) {
        Some(s) => s,
        None => return None,
    };
    assert(env_valid(env, args@[0]) && env_valid(env, args@[1]));
    let t1 = var_type(vars, prog, args[0]);
    if a.0 == b.0 && a.1 == b.1 {
        return Some(t1);
    }
    if a.0 == 1 && a.1 == 1 {
        return Some(Type::from_shape(b.0, b.1));
    }
    if b.0 == 1 && b.1 == 1 {
        return Some(Type::from_shape(a.0, a.1));
    }
    let t2 = var_type(vars, prog, args[1]);
    push_error(vars, prog, combine_error_of(func, t1, t2));
    None
}

fn type_mul(vars: &FunctionVars, prog: &mut Program, args: &Vec<VariableId>) -> (r: Option<Type>)
    requires
        args_valid(exec_env(*vars, *old(prog)), args@),
    ensures
        (r, exec_env(*vars, *final(prog))) == spec_type_mul(exec_env(*vars, *old(prog)), args@),
        final(prog).functions == old(prog).functions,
        final(prog).vertex == old(prog).vertex,
        final(prog).frag == old(prog).frag,
        final(prog).uniforms == old(prog).uniforms,
{
    let ghost env = exec_env(*vars, *prog);
    let (a, b) = match two_shapes(vars, prog, "mul", args) {
        Some(s) => s,
        None => return None,
    };
    if a.0 == 1 && a.1 == 1 && b.0 == 1 && b.1 == 1 {
        return Some(Type::Floating);
    }
    if a.0 == 1 && a.1 == 1 {
        return Some(Type::from_shape(b.0, b.1));
    }
    if b.0 == 1 && b.1 == 1 {
        return Some(Type::from_shape(a.0, a.1));
    }
    if a.0 == 1 && b.0 == 1 && a.1 == b.1 {
        return Some(Type::from_shape(1, a.1));
    }
    let b2 = if b.0 == 1 {
        (b.1, 1usize)
    } else {
        b
    };
    if a.1 == b2.0 {
        return Some(Type::from_shape(a.0, b2.1));
    }
    assert(env_valid(env, args@[0]) && env_valid(env, args@[1]));
    let t1 = var_type(vars, prog, args[0]);
    let t2 = var_type(vars, prog, args[1]);
    push_error(vars, prog, combine_error_of("mul", t1, t2));
    None
}

fn type_texture(vars: &FunctionVars, prog: &mut Program, args: &Vec<VariableId>) -> (r: Option<Type>)
    requires
        args_valid(exec_env(*vars, *old(prog)), args@),
    ensures
        (r, exec_env(*vars, *final(prog))) == spec_type_texture(exec_env(*vars, *old(prog)), args@),
        final(prog).functions == old(prog).functions,
        final(prog).vertex == old(prog).vertex,
        final(prog).frag == old(prog).frag,
        final(prog).uniforms == old(prog).uniforms,
{
    let ghost env = exec_env(*vars, *prog);
    if !check_arg_count(vars, prog, "texture", args) {
        return None;
    }
    assert(env_valid(env, args@[0]) && env_valid(env, args@[1]));
    let t1 = var_type(vars, prog, args[0]);
    let t2 = var_type(vars, prog, args[1]);
    if t1 != Type::Sampler2D && t2 != Type::Vector(2) {
        let mut message = String::new();
        message.append("The texture function currently only supports (Sampler2D, vec2), got ");
        t1.push_name(&mut message);
        message.append(", ");
        t2.push_name(&mut message);
        proof {
            assert(message@ =~= "The texture function currently only supports (Sampler2D, vec2), got "@
                + t1.spec_name() + ", "@ + t2.spec_name());
        }
        push_error(
            vars,
            prog,
            ShaderCreationError::ArgumentType { func: "texture".to_owned(), message },
        );
        None
    } else {
        Some(Type::Vector(4))
    }
}

fn wrapping_add(a: usize, b: usize) -> (r: usize)
    ensures
        r == wrap_add(a, b),
{
    match a.checked_add(b) {
        Some(v) => v,
        None => a - (usize::MAX - b) - 1,
    }
}

fn type_make_vec(vars: &FunctionVars, prog: &mut Program, args: &Vec<VariableId>) -> (r: Option<Type>)
    requires
        args_valid(exec_env(*vars, *old(prog)), args@),
    ensures
        (r, exec_env(*vars, *final(prog))) == spec_type_make_vec(exec_env(*vars, *old(prog)), args@),
        final(prog).functions == old(prog).functions,
        final(prog).vertex == old(prog).vertex,
        final(prog).frag == old(prog).frag,
        final(prog).uniforms == old(prog).uniforms,
{
    let ghost env = exec_env(*vars, *prog);
    let mut shapes: Vec<(usize, usize)> = Vec::new();
    let n = args.len();
    let mut i: usize = 0;
    while i < n
        invariant
            n == args@.len(),
            i <= n,
            args_valid(env, args@),
            env == exec_env(*vars, *old(prog)),
            (Some(shapes@), exec_env(*vars, *prog)) == spec_vec_shapes(env, args@.take(i as int)),
            exec_env(*vars, *prog).uniforms == env.uniforms,
            prog.functions == old(prog).functions,
            prog.vertex == old(prog).vertex,
            prog.frag == old(prog).frag,
            prog.uniforms == old(prog).uniforms,
        decreases n - i,
    {
        proof {
            assert(args@.take(i + 1).drop_last() =~= args@.take(i as int));
            assert(args@.take(i + 1).last() == args@[i as int]);
        }
        let t = var_type(vars, prog, args[i]);
        match get_shape(vars, prog, t, "make_vec") {
            Some(s) => {
                shapes.push(s);
            },
            None => {
                proof {
                    lemma_vec_shapes_stop(env, args@, i as int + 1, n as int);
                    assert(args@.take(n as int) =~= args@);
                }
                return None;
            },
        }
        i = i + 1;
    }
    proof {
        assert(args@.take(n as int) =~= args@);
    }
    let ghost env1 = exec_env(*vars, *prog);
    let mut size: usize = 0;
    let mut has_error = false;
    let m = shapes.len();
    let mut j: usize = 0;
    while j < m
        invariant
            m == shapes@.len(),
            j <= m,
            (size, has_error, exec_env(*vars, *prog)) == spec_vec_fold(env1, shapes@.take(j as int)),
            prog.functions == old(prog).functions,
            prog.vertex == old(prog).vertex,
            prog.frag == old(prog).frag,
            prog.uniforms == old(prog).uniforms,
        decreases m - j,
    {
        proof {
            assert(shapes@.take(j + 1).drop_last() =~= shapes@.take(j as int));
            assert(shapes@.take(j + 1).last() == shapes@[j as int]);
        }
        let a = shapes[j];
        if a.0 != 1 {
            has_error = true;
            let ty = Type::from_shape(a.0, a.1);
            let mut message = String::new();
            message.append("Cannot make vector from variable of type ");
            ty.push_name(&mut message);
            proof {
                assert(message@ =~= "Cannot make vector from variable of type "@ + ty.spec_name());
            }
            push_error(
                vars,
                prog,
                ShaderCreationError::ArgumentType { func: "make_vec".to_owned(), message },
            );
        }
        size = wrapping_add(size, a.1);
        j = j + 1;
    }
    proof {
        assert(shapes@.take(m as int) =~= shapes@);
    }
    if has_error {
        None
    } else {
        Some(Type::Vector(size))
    }
}

/// Once an argument of `make_vec` has no shape, no longer prefix has one.
proof fn lemma_vec_shapes_stop(env: TcEnv, args: Seq<VariableId>, i: int, k: int)
    requires
        0 < i <= k <= args.len(),
        spec_vec_shapes(env, args.take(i)).0 is None,
    ensures
        spec_vec_shapes(env, args.take(k)) == spec_vec_shapes(env, args.take(i)),
    decreases k - i,
{
    if k > i {
        lemma_vec_shapes_stop(env, args, i, k - 1);
        assert(args.take(k).drop_last() =~= args.take(k - 1));
    }
}

fn type_setter(vars: &FunctionVars, prog: &mut Program, func: &str, args: &Vec<VariableId>)
    requires
        args_valid(exec_env(*vars, *old(prog)), args@),
    ensures
        exec_env(*vars, *final(prog)) == spec_type_setter(exec_env(*vars, *old(prog)), func@, args@),
        final(prog).functions == old(prog).functions,
        final(prog).vertex == old(prog).vertex,
        final(prog).frag == old(prog).frag,
        final(prog).uniforms == old(prog).uniforms,
{
    let ghost env = exec_env(*vars, *prog);
    if !check_arg_count(vars, prog, func, args) {
        return ;
    }
    assert(env_valid(env, args@[0]) && env_valid(env, args@[1]));
    let t1 = var_type(vars, prog, args[0]);
    let t2 = var_type(vars, prog, args[1]);
    if t1 != t2 {
        let mut message = String::new();
        message.append("Trying to set variable of type ");
        t1.push_name(&mut message);
        message.append(" to value of type ");
        t2.push_name(&mut message);
        proof {
            assert(message@ =~= "Trying to set variable of type "@ + t1.spec_name()
                + " to value of type "@ + t2.spec_name());
        }
        push_error(vars, prog, ShaderCreationError::ArgumentType { func: func.to_owned(), message });
    }
}

impl BuiltinFunction {
    /// The result type of a call of this function; see `spec_type_builtin`.
    fn type_check(&self, vars: &FunctionVars, prog: &mut Program, args: &Vec<VariableId>) -> (r: Option<Type>)
        requires
            args_valid(exec_env(*vars, *old(prog)), args@),
        ensures
            (r, exec_env(*vars, *final(prog))) == spec_type_builtin(
                exec_env(*vars, *old(prog)),
                *self,
                args@,
            ),
            final(prog).functions == old(prog).functions,
            final(prog).vertex == old(prog).vertex,
            final(prog).frag == old(prog).frag,
        final(prog).uniforms == old(prog).uniforms,
    {
        let ghost env = exec_env(*vars, *prog);
        let n = args.len();
        let mut i: usize = 0;
        while i < n
            invariant
                n == args@.len(),
                i <= n,
                args_valid(env, args@),
                env == exec_env(*vars, *prog),
                forall|k: int| 0 <= k < i ==> env_type(env, #[trigger] args@[k]) != Type::Unknown,
            decreases n - i,
        {
            if var_type(vars, prog, args[i]) == Type::Unknown {
                return None;
            }
            i = i + 1;
        }
        match self {
            BuiltinFunction::Add => type_binary(vars, prog, "add", args),
            BuiltinFunction::Div => type_binary(vars, prog, "div", args),
            BuiltinFunction::Mul => type_mul(vars, prog, args),
            BuiltinFunction::Sub => type_binary(vars, prog, "sub", args),
            BuiltinFunction::Texture => type_texture(vars, prog, args),
            BuiltinFunction::MakeVec => type_make_vec(vars, prog, args),
            BuiltinFunction::SetGlobal => {
                type_setter(vars, prog, "set_global", args);
                None
            },
        }
    }
}

proof fn lemma_statement_valid_same(e1: TcEnv, e2: TcEnv, s: StatementView)
    requires
        statement_valid(e1, s),
        env_same_vars(e1, e2),
    ensures
        statement_valid(e2, s),
{
    match s {
        StatementView::CallBuiltin { arguments, .. } => {
            assert forall|i: int| 0 <= i < arguments.len() implies env_valid(
                e2,
                #[trigger] arguments[i],
            ) by {
                assert(env_valid(e1, arguments[i]));
            }
        },
        _ => {},
    }
}

fn type_statement(s: &Statement, vars: &mut FunctionVars, prog: &mut Program)
    requires
        statement_valid(exec_env(*old(vars), *old(prog)), s@),
    ensures
        exec_env(*final(vars), *final(prog)) == spec_type_statement(
            exec_env(*old(vars), *old(prog)),
            s@,
        ),
        final(vars).locals@.len() == old(vars).locals@.len(),
        final(vars).inputs@.len() == old(vars).inputs@.len(),
        final(vars).outputs@.len() == old(vars).outputs@.len(),
        final(prog).uniforms@.len() == old(prog).uniforms@.len(),
        final(prog).functions == old(prog).functions,
        final(prog).vertex == old(prog).vertex,
        final(prog).frag == old(prog).frag,
{
    match s {
        Statement::CallBuiltin { function, arguments, result } => {
            let ty = function.type_check(vars, prog, arguments);
            if let Some(ty) = ty {
                if let Some(res) = result {
                    set_var_type(vars, prog, *res, ty);
                }
            }
        },
        Statement::MakeFloat { variable, .. } => {
            if var_type(vars, prog, *variable) == Type::Unknown {
                set_var_type(vars, prog, *variable, Type::Floating);
            }
        },
        Statement::GetBuiltinVariable { variable, result } => {
            if var_type(vars, prog, *result) == Type::Unknown {
                let ty = variable.get_type();
                set_var_type(vars, prog, *result, ty);
            }
        },
        Statement::SetBuiltinVariable { .. } => {},
    }
}

fn type_block(stmts: &Vec<Statement>, vars: &mut FunctionVars, prog: &mut Program)
    requires
        forall|i: int|
            0 <= i < stmts@.len() ==> statement_valid(
                exec_env(*old(vars), *old(prog)),
                (#[trigger] stmts@[i])@,
            ),
    ensures
        exec_env(*final(vars), *final(prog)) == spec_type_block(
            exec_env(*old(vars), *old(prog)),
            stmts@.map_values(|s: Statement| s@),
        ),
        final(vars).locals@.len() == old(vars).locals@.len(),
        final(vars).inputs@.len() == old(vars).inputs@.len(),
        final(vars).outputs@.len() == old(vars).outputs@.len(),
        final(prog).uniforms@.len() == old(prog).uniforms@.len(),
        final(prog).functions == old(prog).functions,
        final(prog).vertex == old(prog).vertex,
        final(prog).frag == old(prog).frag,
{
    let ghost env0 = exec_env(*vars, *prog);
    let ghost sv = stmts@.map_values(|s: Statement| s@);
    let n = stmts.len();
    let mut i: usize = 0;
    while i < n
        invariant
            n == stmts@.len(),
            i <= n,
            sv == stmts@.map_values(|s: Statement| s@),
            forall|k: int| 0 <= k < stmts@.len() ==> statement_valid(env0, (#[trigger] stmts@[k])@),
            env0 == exec_env(*old(vars), *old(prog)),
            exec_env(*vars, *prog) == spec_type_block(env0, sv.take(i as int)),
            vars.locals@.len() == old(vars).locals@.len(),
            vars.inputs@.len() == old(vars).inputs@.len(),
            vars.outputs@.len() == old(vars).outputs@.len(),
            prog.uniforms@.len() == old(prog).uniforms@.len(),
            prog.functions == old(prog).functions,
            prog.vertex == old(prog).vertex,
            prog.frag == old(prog).frag,
        decreases n - i,
    {
        proof {
            assert(sv.take(i + 1).drop_last() =~= sv.take(i as int));
            assert(sv.take(i + 1).last() == stmts@[i as int]@);
            lemma_statement_valid_same(env0, exec_env(*vars, *prog), stmts@[i as int]@);
        }
        type_statement(&stmts[i], vars, prog);
        i = i + 1;
    }
    proof {
        assert(sv.take(n as int) =~= sv);
    }
}

impl Function {
    /// Type check the function against the program it belongs to: only a
    /// program without errors so far is checked.  See `spec_type_check`.
    fn type_check(&mut self, prog: &mut Program)
        requires
            function_valid(function_env(old(self)@, old(prog)@), old(self)@),
        ensures
            ({
                let env = spec_type_check(old(self)@, old(prog)@);
                &&& final(self)@ == FunctionView {
                    blocks: old(self)@.blocks,
                    locals: env.locals,
                    inputs: env.inputs,
                    outputs: env.outputs,
                }
                &&& final(prog)@ == ProgramView {
                    uniforms: env.uniforms,
                    errors: env.errors,
                    ..old(prog)@
                }
            }),
    {
        let ghost env0 = exec_env(self.vars, *prog);
        assert(env0 == function_env(self@, prog@));
        if prog.errors.len() == 0 {
            let mut blocks: Vec<Block> = Vec::new();
            std::mem::swap(&mut blocks, &mut self.blocks);
            let ghost bv = blocks@.map_values(|b: Block| block_view(b));
            let n = blocks.len();
            let mut b: usize = 0;
            while b < n
                invariant
                    n == blocks@.len(),
                    b <= n,
                    bv == blocks@.map_values(|b: Block| block_view(b)),
                    bv == old(self)@.blocks,
                    function_valid(env0, old(self)@),
                    env0 == exec_env(old(self).vars, *old(prog)),
                    exec_env(self.vars, *prog) == spec_type_blocks(env0, bv.take(b as int)),
                    self.vars.locals@.len() == old(self).vars.locals@.len(),
                    self.vars.inputs@.len() == old(self).vars.inputs@.len(),
                    self.vars.outputs@.len() == old(self).vars.outputs@.len(),
                    prog.uniforms@.len() == old(prog).uniforms@.len(),
                    prog.functions == old(prog).functions,
                    prog.vertex == old(prog).vertex,
                    prog.frag == old(prog).frag,
                decreases n - b,
            {
                proof {
                    assert(bv.take(b + 1).drop_last() =~= bv.take(b as int));
                    assert(bv.take(b + 1).last() == block_view(blocks@[b as int]));
                    assert forall|i: int|
                        0 <= i < blocks@[b as int].statements@.len() implies statement_valid(
                        exec_env(self.vars, *prog),
                        (#[trigger] blocks@[b as int].statements@[i])@,
                    ) by {
                        assert(bv[b as int][i] == blocks@[b as int].statements@[i]@);
                        lemma_statement_valid_same(
                            env0,
                            exec_env(self.vars, *prog),
                            blocks@[b as int].statements@[i]@,
                        );
                    }
                }
                type_block(&blocks[b].statements, &mut self.vars, prog);
                b = b + 1;
            }
            proof {
                assert(bv.take(n as int) =~= bv);
            }
            std::mem::swap(&mut blocks, &mut self.blocks);
        }
        proof {
            let env = spec_type_check(old(self)@, old(prog)@);
            assert(self@.locals == env.locals);
            assert(self@.blocks =~= old(self)@.blocks);
            assert(prog@.functions =~= old(prog)@.functions);
        }
    }
}

// ======== //
// programs //
// ======== //

/// A program with a new checked function added: the function after the
/// type check, and the program's uniforms and errors after it.
pub open spec fn spec_add_function(p: ProgramView, f: FunctionView) -> ProgramView {
    let env = spec_type_check(f, p);
    ProgramView {
        functions: p.functions.push(
            FunctionView {
                blocks: f.blocks,
                locals: env.locals,
                inputs: env.inputs,
                outputs: env.outputs,
            },
        ),
        uniforms: env.uniforms,
        errors: env.errors,
        ..p
    }
}

impl Program {
    /// A program with nothing in it.
    pub fn new() -> (p: Program)
        ensures
            p@ == (ProgramView {
                functions: Seq::empty(),
                vertex: None,
                frag: None,
                uniforms: Seq::empty(),
                errors: Seq::empty(),
            }),
    {
        let p = Program {
            vertex: None,
            frag: None,
            uniforms: Vec::new(),
            functions: Vec::new(),
            errors: Vec::new(),
        };
        proof {
            assert(p@.functions =~= Seq::<FunctionView>::empty());
            assert(p@.uniforms =~= Seq::<VariableView>::empty());
            assert(p@.errors =~= Seq::<ErrorView>::empty());
        }
        p
    }

    /// Add a uniform variable; gives an expression that reads it.
    pub fn uniform(&mut self, name: &str, ty: Type) -> (e: Expression)
        ensures
            final(self)@ == (ProgramView {
                uniforms: old(self)@.uniforms.push(VariableView { name: name@, ty }),
                ..old(self)@
            }),
            e@ == (ExprView::Get {
                variable: VariableId::spec_new(
                    old(self)@.uniforms.len() as usize,
                    VariableAllocationContext::Uniform,
                ),
            }),
    {
        let id = self.uniforms.len();
        self.uniforms.push(Variable { name: name.to_owned(), ty });
        proof {
            assert(self@.uniforms =~= old(self)@.uniforms.push(VariableView { name: name@, ty }));
        }
        Expression::GetVariable {
            variable: VariableId { id, kind: VariableAllocationContext::Uniform },
        }
    }

    /// Record an error found while building the program.
    pub fn error(&mut self, err: &str)
        ensures
            final(self)@ == (ProgramView {
                errors: old(self)@.errors.push(ErrorView::Other { error: err@ }),
                ..old(self)@
            }),
    {
        let e = ShaderCreationError::Other { error: err.to_owned() };
        self.errors.push(e);
        proof {
            lemma_error_views_push(old(self).errors@, e);
        }
    }

    /// Add a utility function, after type checking it.
    pub fn function(&mut self, f: Function)
        requires
            function_valid(function_env(f@, old(self)@), f@),
        ensures
            final(self)@ == spec_add_function(old(self)@, f@),
    {
        let mut f = f;
        f.type_check(self);
        let ghost checked = f@;
        self.functions.push(f);
        proof {
            assert(self@.functions =~= old(self)@.functions.push(checked));
        }
    }

    /// Add the vertex shader's main function, after type checking it.
    pub fn vertex(&mut self, f: Function)
        requires
            function_valid(function_env(f@, old(self)@), f@),
        ensures
            final(self)@ == (ProgramView {
                vertex: Some(old(self)@.functions.len() as usize),
                ..spec_add_function(old(self)@, f@)
            }),
    {
        let main = self.functions.len();
        self.function(f);
        self.vertex = Some(main);
    }

    /// Add the fragment shader's main function, after type checking it.
    pub fn frag(&mut self, f: Function)
        requires
            function_valid(function_env(f@, old(self)@), f@),
        ensures
            final(self)@ == (ProgramView {
                frag: Some(old(self)@.functions.len() as usize),
                ..spec_add_function(old(self)@, f@)
            }),
    {
        let main = self.functions.len();
        self.function(f);
        self.frag = Some(main);
    }

    /// Hand over the errors found so far, if there are any.
    pub fn ok(&mut self) -> (r: Result<(), ShaderCreationError>)
        ensures
            old(self)@.errors.len() == 0 ==> r is Ok && final(self)@ == old(self)@,
            old(self)@.errors.len() > 0 ==> (r matches Err(e) && e@ == (ErrorView::ErrorList {
                errors: old(self)@.errors,
            })) && final(self)@ == (ProgramView { errors: Seq::empty(), ..old(self)@ }),
    {
        if self.errors.len() != 0 {
            let mut errors: Vec<ShaderCreationError> = Vec::new();
            std::mem::swap(&mut errors, &mut self.errors);
            proof {
                assert(self@.errors =~= Seq::<ErrorView>::empty());
            }
            Err(ShaderCreationError::ErrorList { errors: ErrorList(errors) })
        } else {
            Ok(())
        }
    }

    /// All the functions of the program.
    pub fn functions(&self) -> (r: &Vec<Function>)
        ensures
            r@.map_values(|f: Function| f@) == self@.functions,
    {
        &self.functions
    }

    /// The vertex shader's main function.
    pub fn vertex_main(&self) -> (r: Option<&Function>)
        ensures
            match self@.vertex {
                Some(i) if i < self@.functions.len() => r matches Some(f) && f@ == self@.functions[i as int],
                _ => r is None,
            },
    {
        match self.vertex {
            Some(i) => if i < self.functions.len() {
                Some(&self.functions[i])
            } else {
                None
            },
            None => None,
        }
    }

    /// The fragment shader's main function.
    pub fn frag_main(&self) -> (r: Option<&Function>)
        ensures
            match self@.frag {
                Some(i) if i < self@.functions.len() => r matches Some(f) && f@ == self@.functions[i as int],
                _ => r is None,
            },
    {
        match self.frag {
            Some(i) => if i < self.functions.len() {
                Some(&self.functions[i])
            } else {
                None
            },
            None => None,
        }
    }

    /// All the uniform variables of the program.
    pub fn uniforms(&self) -> (r: &Vec<Variable>)
        ensures
            vars_view(r@) == self@.uniforms,
    {
        &self.uniforms
    }

    /// A variable of a function of the program.
    pub fn get_variable<'a>(&'a self, func: &'a Function, variable: VariableId) -> (r: &'a Variable)
        requires
            env_valid(function_env(func@, self@), variable),
        ensures
            r@ == env_vars(function_env(func@, self@), variable.spec_kind())[variable.spec_id() as int],
    {
        match variable.kind {
            VariableAllocationContext::Local => &func.vars.locals[variable.id],
            VariableAllocationContext::Uniform => &self.uniforms[variable.id],
            VariableAllocationContext::Input => &func.vars.inputs[variable.id],
            VariableAllocationContext::Output => &func.vars.outputs[variable.id],
        }
    }
}

// ======== //
// messages //
// ======== //

/// The text of an error.
pub open spec fn spec_message(e: ErrorView) -> Seq<char>
    decreases e,
{
    match e {
        ErrorView::ErrorList { errors } => "Found multiple errors while compiling shader:\n"@
            + spec_list_message(errors),
        ErrorView::Other { error } => error,
        ErrorView::ArgumentCount { func, got, expected } => "Wrong number of arguments passed to "@
            + func + ": got "@ + decimal(got as nat) + ", expected: "@ + decimal(expected as nat),
        ErrorView::ArgumentType { func, message } => "Wrong types passed to function "@ + func
            + ": "@ + message,
        ErrorView::VariableLocation { name } => "Variable cannot have location applied: "@ + name,
    }
}

/// The text of a list of errors: each numbered from 0 and followed by an
/// empty line.
pub open spec fn spec_list_message(errors: Seq<ErrorView>) -> Seq<char>
    decreases errors,
{
    if errors.len() == 0 {
        Seq::empty()
    } else {
        proof {
            assert(decreases_to!(errors => errors.subrange(0, errors.len() - 1)));
            assert(decreases_to!(errors => errors[errors.len() - 1]));
        }
        spec_list_message(errors.subrange(0, errors.len() - 1)) + "Error "@ + decimal(
            (errors.len() - 1) as nat,
        ) + ":\n"@ + spec_message(errors[errors.len() - 1]) + "\n\n"@
    }
}

impl ShaderCreationError {
    /// The text of the error.
    pub fn message(&self) -> (r: String)
        ensures
            r@ == spec_message(self@),
        decreases self,
    {
        let mut s = String::new();
        match self {
            ShaderCreationError::ErrorList { errors } => {
                s.append("Found multiple errors while compiling shader:\n");
                let list = errors.message();
                s.append(list.as_str());
            },
            ShaderCreationError::Other { error } => {
                s.append(error.as_str());
            },
            ShaderCreationError::ArgumentCount { func, got, expected } => {
                s.append("Wrong number of arguments passed to ");
                s.append(func.as_str());
                s.append(": got ");
                push_decimal(&mut s, *got);
                s.append(", expected: ");
                push_decimal(&mut s, *expected);
            },
            ShaderCreationError::ArgumentType { func, message } => {
                s.append("Wrong types passed to function ");
                s.append(func.as_str());
                s.append(": ");
                s.append(message.as_str());
            },
            ShaderCreationError::VariableLocation { name } => {
                s.append("Variable cannot have location applied: ");
                s.append(name.as_str());
            },
        }
        proof {
            assert(s@ =~= spec_message(self@));
        }
        s
    }
}

impl ErrorList {
    /// The text of the errors: each numbered from 0 and followed by an
    /// empty line.
    pub fn message(&self) -> (r: String)
        ensures
            r@ == spec_list_message(error_views(self.0@)),
        decreases self,
    {
        let mut s = String::new();
        let n = self.0.len();
        let mut i: usize = 0;
        while i < n
            invariant
                n == self.0@.len(),
                i <= n,
                s@ == spec_list_message(error_views(self.0@.take(i as int))),
            decreases n - i,
        {
            proof {
                assert(self.0@.take(i + 1).subrange(0, i as int) =~= self.0@.take(i as int));
                assert(decreases_to!(*self => self.0));
                assert(decreases_to!(self.0 => self.0@));
                assert(decreases_to!(self.0@ => self.0@[i as int]));
            }
            s.append("Error ");
            push_decimal(&mut s, i);
            s.append(":\n");
            let m = self.0[i].message();
            s.append(m.as_str());
            s.append("\n\n");
            proof {
                let prev = error_views(self.0@.take(i as int));
                assert(self.0@.take(i + 1) =~= self.0@.take(i as int).push(self.0@[i as int]));
                lemma_error_views_push(self.0@.take(i as int), self.0@[i as int]);
                lemma_error_views_len(self.0@.take(i as int));
                let next = prev.push(self.0@[i as int]@);
                assert(next.subrange(0, next.len() - 1) =~= prev);
                assert(s@ =~= spec_list_message(next));
            }
            i = i + 1;
        }
        proof {
            assert(self.0@.take(n as int) =~= self.0@);
        }
        s
    }
}

// ========================= //
// well-formedness of builds //
// ========================= //

/// Every variable an expression reads exists.
pub open spec fn expr_valid(env: TcEnv, e: ExprView) -> bool
    decreases e,
{
    match e {
        ExprView::Get { variable } => env_valid(env, variable),
        ExprView::Float { .. } => true,
        ExprView::Call { arguments, .. } => exprs_valid(env, arguments),
    }
}

/// Every variable some expressions read exists.
pub open spec fn exprs_valid(env: TcEnv, args: Seq<ExprView>) -> bool
    decreases args,
{
    if args.len() == 0 {
        true
    } else {
        exprs_valid(env, args.subrange(0, args.len() - 1)) && expr_valid(env, args[args.len() - 1])
    }
}

/// `b` has every variable `a` has (and maybe more).
pub open spec fn env_grows(a: TcEnv, b: TcEnv) -> bool {
    &&& a.locals.len() <= b.locals.len()
    &&& a.inputs.len() <= b.inputs.len()
    &&& a.outputs.len() <= b.outputs.len()
    &&& a.uniforms.len() <= b.uniforms.len()
}

/// The statements all name variables that exist.
pub open spec fn statements_valid(env: TcEnv, stmts: Seq<StatementView>) -> bool {
    forall|i: int| 0 <= i < stmts.len() ==> statement_valid(env, #[trigger] stmts[i])
}

proof fn lemma_statement_valid_grows(a: TcEnv, b: TcEnv, s: StatementView)
    requires
        statement_valid(a, s),
        env_grows(a, b),
    ensures
        statement_valid(b, s),
{
    match s {
        StatementView::CallBuiltin { arguments, .. } => {
            assert forall|i: int| 0 <= i < arguments.len() implies env_valid(
                b,
                #[trigger] arguments[i],
            ) by {
                assert(env_valid(a, arguments[i]));
            }
        },
        _ => {},
    }
}

/// What an expression reads still exists once variables are added.
pub proof fn lemma_expr_valid_grows(a: TcEnv, b: TcEnv, e: ExprView)
    requires
        expr_valid(a, e),
        env_grows(a, b),
    ensures
        expr_valid(b, e),
    decreases e,
{
    match e {
        ExprView::Call { arguments, .. } => {
            lemma_exprs_valid_grows(a, b, arguments);
        },
        _ => {},
    }
}

proof fn lemma_exprs_valid_grows(a: TcEnv, b: TcEnv, args: Seq<ExprView>)
    requires
        exprs_valid(a, args),
        env_grows(a, b),
    ensures
        exprs_valid(b, args),
    decreases args,
{
    if args.len() > 0 {
        lemma_exprs_valid_grows(a, b, args.subrange(0, args.len() - 1));
        lemma_expr_valid_grows(a, b, args[args.len() - 1]);
    }
}

/// Lowering an expression whose variables exist gives statements whose
/// variables exist, only adds locals, and keeps the statements before it.
pub proof fn lemma_lower_valid(env: TcEnv, stmts: Seq<StatementView>, e: ExprView)
    requires
        expr_valid(env, e),
        statements_valid(env, stmts),
    ensures
        ({
            let r = spec_lower(env.locals, stmts, e);
            let env1 = TcEnv { locals: r.0, ..env };
            &&& env_grows(env, env1)
            &&& env_valid(env1, r.2)
            &&& statements_valid(env1, r.1)
        }),
    decreases e,
{
    let r = spec_lower(env.locals, stmts, e);
    let env1 = TcEnv { locals: r.0, ..env };
    match e {
        ExprView::Get { variable } => {},
        ExprView::Float { value } => {
            assert forall|i: int| 0 <= i < r.1.len() implies statement_valid(env1, #[trigger] r.1[i]) by {
                if i < stmts.len() {
                    lemma_statement_valid_grows(env, env1, stmts[i]);
                }
            }
        },
        ExprView::Call { function, arguments } => {
            lemma_lower_args_valid(env, stmts, arguments);
            let a = spec_lower_args(env.locals, stmts, arguments);
            let env_a = TcEnv { locals: a.0, ..env };
            assert forall|i: int| 0 <= i < r.1.len() implies statement_valid(env1, #[trigger] r.1[i]) by {
                if i < a.1.len() {
                    lemma_statement_valid_grows(env_a, env1, a.1[i]);
                } else {
                    assert forall|k: int| 0 <= k < a.2.len() implies env_valid(env1, #[trigger] a.2[k]) by {
                        assert(env_valid(env_a, a.2[k]));
                    }
                }
            }
        },
    }
}

/// Lowering expressions whose variables exist, in order.
pub proof fn lemma_lower_args_valid(env: TcEnv, stmts: Seq<StatementView>, args: Seq<ExprView>)
    requires
        exprs_valid(env, args),
        statements_valid(env, stmts),
    ensures
        ({
            let r = spec_lower_args(env.locals, stmts, args);
            let env1 = TcEnv { locals: r.0, ..env };
            &&& env_grows(env, env1)
            &&& r.2.len() == args.len()
            &&& forall|k: int| 0 <= k < r.2.len() ==> env_valid(env1, #[trigger] r.2[k])
            &&& statements_valid(env1, r.1)
        }),
    decreases args,
{
    if args.len() > 0 {
        let init = args.subrange(0, args.len() - 1);
        lemma_lower_args_valid(env, stmts, init);
        let p = spec_lower_args(env.locals, stmts, init);
        let env_p = TcEnv { locals: p.0, ..env };
        lemma_expr_valid_grows(env, env_p, args[args.len() - 1]);
        lemma_lower_valid(env_p, p.1, args[args.len() - 1]);
        let r = spec_lower(p.0, p.1, args[args.len() - 1]);
        let env1 = TcEnv { locals: r.0, ..env };
        assert(TcEnv { locals: r.0, ..env_p } == env1);
        assert forall|k: int| 0 <= k < p.2.push(r.2).len() implies env_valid(env1, #[trigger] p.2.push(r.2)[k]) by {
            if k < p.2.len() {
                assert(env_valid(env_p, p.2[k]));
            }
        }
    }
}

/// A function whose statements name existing variables keeps that property
/// when variables are added to it or to its program.
pub proof fn lemma_function_valid_grows(f1: FunctionView, p1: ProgramView, f2: FunctionView, p2: ProgramView)
    requires
        function_valid(function_env(f1, p1), f1),
        f2.blocks == f1.blocks,
        env_grows(function_env(f1, p1), function_env(f2, p2)),
    ensures
        function_valid(function_env(f2, p2), f2),
{
    assert forall|b: int, i: int|
        0 <= b < f2.blocks.len() && 0 <= i < f2.blocks[b].len() implies statement_valid(
        function_env(f2, p2),
        #[trigger] f2.blocks[b][i],
    ) by {
        lemma_statement_valid_grows(function_env(f1, p1), function_env(f2, p2), f1.blocks[b][i]);
    }
}

/// The function after lowering into its first block: new locals and new
/// first-block statements.
pub open spec fn with_lowered(f: FunctionView, locals: Seq<VariableView>, first: Seq<StatementView>) -> FunctionView {
    FunctionView { locals, blocks: f.blocks.update(0, first), ..f }
}

proof fn lemma_with_lowered_valid(
    f: FunctionView,
    p: ProgramView,
    locals: Seq<VariableView>,
    first: Seq<StatementView>,
)
    requires
        function_valid(function_env(f, p), f),
        f.blocks.len() >= 1,
        locals.len() >= f.locals.len(),
        statements_valid(function_env(with_lowered(f, locals, first), p), first),
    ensures
        function_valid(function_env(with_lowered(f, locals, first), p), with_lowered(f, locals, first)),
{
    let f2 = with_lowered(f, locals, first);
    assert forall|b: int, i: int|
        0 <= b < f2.blocks.len() && 0 <= i < f2.blocks[b].len() implies statement_valid(
        function_env(f2, p),
        #[trigger] f2.blocks[b][i],
    ) by {
        if b != 0 {
            assert(f2.blocks[b] == f.blocks[b]);
            lemma_statement_valid_grows(function_env(f, p), function_env(f2, p), f.blocks[b][i]);
        } else {
            assert(f2.blocks[0] == first);
        }
    }
}

/// Setting a builtin from an expression whose variables exist keeps a
/// function's statements naming existing variables.
pub proof fn lemma_set_builtin_valid(f: FunctionView, p: ProgramView, builtin: BuiltinVariable, value: ExprView)
    requires
        function_valid(function_env(f, p), f),
        f.blocks.len() >= 1,
        expr_valid(function_env(f, p), value),
    ensures
        ({
            let r = spec_lower(f.locals, f.blocks[0], value);
            let f2 = with_lowered(
                f,
                r.0,
                r.1.push(StatementView::SetBuiltinVariable { variable: builtin, value: r.2 }),
            );
            function_valid(function_env(f2, p), f2)
        }),
{
    let env = function_env(f, p);
    assert(statements_valid(env, f.blocks[0]));
    lemma_lower_valid(env, f.blocks[0], value);
    let r = spec_lower(f.locals, f.blocks[0], value);
    let first = r.1.push(StatementView::SetBuiltinVariable { variable: builtin, value: r.2 });
    let f2 = with_lowered(f, r.0, first);
    assert(function_env(f2, p) == TcEnv { locals: r.0, ..env });
    lemma_with_lowered_valid(f, p, r.0, first);
}

/// Setting an output from expressions whose variables exist keeps a
/// function's statements naming existing variables.
pub proof fn lemma_set_output_valid(f: FunctionView, p: ProgramView, target: ExprView, value: ExprView)
    requires
        function_valid(function_env(f, p), f),
        f.blocks.len() >= 1,
        expr_valid(function_env(f, p), target),
        expr_valid(function_env(f, p), value),
    ensures
        ({
            let t = spec_lower(f.locals, f.blocks[0], target);
            let v = spec_lower(t.0, t.1, value);
            let f2 = with_lowered(
                f,
                v.0,
                v.1.push(
                    StatementView::CallBuiltin {
                        function: BuiltinFunction::SetGlobal,
                        arguments: seq![t.2, v.2],
                        result: None,
                    },
                ),
            );
            function_valid(function_env(f2, p), f2)
        }),
{
    let env = function_env(f, p);
    assert(statements_valid(env, f.blocks[0]));
    lemma_lower_valid(env, f.blocks[0], target);
    let t = spec_lower(f.locals, f.blocks[0], target);
    let env_t = TcEnv { locals: t.0, ..env };
    lemma_expr_valid_grows(env, env_t, value);
    lemma_lower_valid(env_t, t.1, value);
    let v = spec_lower(t.0, t.1, value);
    let env_v = TcEnv { locals: v.0, ..env };
    let first = v.1.push(
        StatementView::CallBuiltin {
            function: BuiltinFunction::SetGlobal,
            arguments: seq![t.2, v.2],
            result: None,
        },
    );
    let f2 = with_lowered(f, v.0, first);
    assert(function_env(f2, p) == env_v);
    assert(env_valid(env_v, t.2));
    lemma_with_lowered_valid(f, p, v.0, first);
}

/// A variable made from an index and a context has that index and context.
pub broadcast proof fn lemma_variable_id(id: usize, kind: VariableAllocationContext)
    ensures
        #[trigger] VariableId::spec_new(id, kind).spec_id() == id,
        VariableId::spec_new(id, kind).spec_kind() == kind,
{
}

// ============== //
// building steps //
// ============== //

/// A program with a new uniform, and the expression that reads it.
pub open spec fn sb_uniform(p: ProgramView, name: Seq<char>, ty: Type) -> (ProgramView, ExprView) {
    (
        ProgramView { uniforms: p.uniforms.push(VariableView { name, ty }), ..p },
        ExprView::Get {
            variable: VariableId::spec_new(p.uniforms.len() as usize, VariableAllocationContext::Uniform),
        },
    )
}

/// A function with a new input, and the expression that reads it.
pub open spec fn sb_input(f: FunctionView, name: Seq<char>, ty: Type) -> (FunctionView, ExprView) {
    (
        FunctionView { inputs: f.inputs.push(VariableView { name, ty }), ..f },
        ExprView::Get {
            variable: VariableId::spec_new(f.inputs.len() as usize, VariableAllocationContext::Input),
        },
    )
}

/// A function with a new output, and the expression that names it.
pub open spec fn sb_output(f: FunctionView, name: Seq<char>, ty: Type) -> (FunctionView, ExprView) {
    (
        FunctionView { outputs: f.outputs.push(VariableView { name, ty }), ..f },
        ExprView::Get {
            variable: VariableId::spec_new(f.outputs.len() as usize, VariableAllocationContext::Output),
        },
    )
}

/// A function with a builtin variable set to the value of an expression.
pub open spec fn sb_set_builtin(f: FunctionView, builtin: BuiltinVariable, value: ExprView) -> FunctionView {
    let r = spec_lower(f.locals, f.blocks[0], value);
    with_lowered(f, r.0, r.1.push(StatementView::SetBuiltinVariable { variable: builtin, value: r.2 }))
}

/// A function with an output set to the value of an expression.
pub open spec fn sb_set_output(f: FunctionView, target: ExprView, value: ExprView) -> FunctionView {
    let t = spec_lower(f.locals, f.blocks[0], target);
    let v = spec_lower(t.0, t.1, value);
    with_lowered(
        f,
        v.0,
        v.1.push(
            StatementView::CallBuiltin {
                function: BuiltinFunction::SetGlobal,
                arguments: seq![t.2, v.2],
                result: None,
            },
        ),
    )
}

/// Two expressions whose variables exist.
pub proof fn lemma_exprs_valid_pair(env: TcEnv, a: ExprView, b: ExprView)
    requires
        expr_valid(env, a),
        expr_valid(env, b),
    ensures
        exprs_valid(env, seq![a, b]),
{
    assert(seq![a, b].subrange(0, 1) =~= seq![a]);
    assert(seq![a].subrange(0, 0) =~= Seq::<ExprView>::empty());
    assert(exprs_valid(env, Seq::<ExprView>::empty()));
    assert(exprs_valid(env, seq![a]));
}

/// Expressions each of whose variables exist.
pub proof fn lemma_exprs_valid_all(env: TcEnv, s: Seq<ExprView>)
    requires
        forall|i: int| 0 <= i < s.len() ==> expr_valid(env, #[trigger] s[i]),
    ensures
        exprs_valid(env, s),
    decreases s.len(),
{
    if s.len() > 0 {
        let init = s.subrange(0, s.len() - 1);
        assert forall|i: int| 0 <= i < init.len() implies expr_valid(env, #[trigger] init[i]) by {
            assert(init[i] == s[i]);
        }
        lemma_exprs_valid_all(env, init);
    }
}

} // verus!
