//! The parts of the Fe syntax tree that the namespace and the lowering read.

use vstd::prelude::*;

verus! {

/// A byte range in a source file.
#[derive(Debug, PartialEq, Eq, Structural, Hash, Clone, Copy)]
pub struct Span {
    pub start: usize,
    pub end: usize,
}

impl Span {
    pub fn new(start: usize, end: usize) -> (s: Span)
        ensures
            s.start == start,
            s.end == end,
    {
        Span { start, end }
    }
}

/// A syntax tree node: its content and where it stands in the source.
#[derive(Debug, PartialEq, Eq, Hash, Clone)]
pub struct Node<T> {
    pub kind: T,
    pub span: Span,
}

impl<T> Node<T> {
    pub fn new(kind: T, span: Span) -> (n: Node<T>)
        ensures
            n.kind == kind,
            n.span == span,
    {
        Node { kind, span }
    }
}

#[derive(Debug, PartialEq, Eq, Structural, Hash, Clone, Copy)]
pub enum BoolOperator {
    And,
    Or,
}

#[derive(Debug, PartialEq, Eq, Structural, Hash, Clone, Copy)]
pub enum BinOperator {
    Add,
    Sub,
    Mult,
    Div,
    Mod,
    Pow,
    LShift,
    RShift,
    BitOr,
    BitXor,
    BitAnd,
}

#[derive(Debug, PartialEq, Eq, Structural, Hash, Clone, Copy)]
pub enum UnaryOperator {
    Invert,
    Not,
    USub,
}

#[derive(Debug, PartialEq, Eq, Structural, Hash, Clone, Copy)]
pub enum CompOperator {
    Eq,
    NotEq,
    In,
    NotIn,
    Lt,
    LtE,
    Gt,
    GtE,
    Is,
    IsNot,
}

/// An expression.
#[derive(Debug, PartialEq, Eq, Hash)]
pub enum Expr {
    Ternary { if_expr: Box<Node<Expr>>, test: Box<Node<Expr>>, else_expr: Box<Node<Expr>> },
    BoolOperation { left: Box<Node<Expr>>, op: Node<BoolOperator>, right: Box<Node<Expr>> },
    BinOperation { left: Box<Node<Expr>>, op: Node<BinOperator>, right: Box<Node<Expr>> },
    UnaryOperation { op: Node<UnaryOperator>, operand: Box<Node<Expr>> },
    CompOperation { left: Box<Node<Expr>>, op: Node<CompOperator>, right: Box<Node<Expr>> },
    Attribute { value: Box<Node<Expr>>, attr: Node<String> },
    Subscript { value: Box<Node<Expr>>, slices: Node<Vec<Node<Slice>>> },
    Call { func: Box<Node<Expr>>, args: Node<Vec<Node<CallArg>>> },
    List { elts: Vec<Node<Expr>> },
    ListComp { elt: Box<Node<Expr>>, comps: Vec<Node<Comprehension>> },
    Tuple { elts: Vec<Node<Expr>> },
    Bool(bool),
    Name(String),
    Num(String),
    Str(String),
    /// The unit value `()`.
    Unit,
    Ellipsis,
}

/// One `for target in iter if ...` clause of a list comprehension.
#[derive(Debug, PartialEq, Eq, Hash)]
pub struct Comprehension {
    pub target: Box<Node<Expr>>,
    pub iter: Box<Node<Expr>>,
    pub ifs: Vec<Node<Expr>>,
}

/// One subscript of a subscript expression.
#[derive(Debug, PartialEq, Eq, Hash)]
pub enum Slice {
    Slice {
        lower: Option<Box<Node<Expr>>>,
        upper: Option<Box<Node<Expr>>>,
        step: Option<Box<Node<Expr>>>,
    },
    Index(Box<Node<Expr>>),
}

/// A call argument, positional or named.
#[derive(Debug, PartialEq, Eq, Hash)]
pub enum CallArg {
    Arg(Node<Expr>),
    Kwarg(Kwarg),
}

#[derive(Debug, PartialEq, Eq, Hash)]
pub struct Kwarg {
    pub name: Node<String>,
    pub value: Box<Node<Expr>>,
}

/// A path such as `foo::bar::Baz`.
#[derive(Debug, PartialEq, Eq, Hash, Clone)]
pub struct Path {
    pub segments: Vec<Node<String>>,
}

/// `pragma <version requirement>`.
#[derive(Debug, PartialEq, Eq, Hash, Clone)]
pub struct Pragma {
    pub version_requirement: Node<String>,
}

/// `use <path>`.
#[derive(Debug, PartialEq, Eq, Hash, Clone)]
pub struct Use {
    pub path: Node<Path>,
}

/// `type <name> = ...`.
#[derive(Debug, PartialEq, Eq, Hash, Clone)]
pub struct TypeAlias {
    pub name: Node<String>,
}

/// `contract <name>: ...`.
#[derive(Debug, PartialEq, Eq, Hash, Clone)]
pub struct Contract {
    pub name: Node<String>,
}

/// `struct <name>: ...`.
#[derive(Debug, PartialEq, Eq, Hash, Clone)]
pub struct Struct {
    pub name: Node<String>,
}

/// `event <name>: ...`.
#[derive(Debug, PartialEq, Eq, Hash, Clone)]
pub struct Event {
    pub name: Node<String>,
}

/// A field of a contract or a struct.
#[derive(Debug, PartialEq, Eq, Hash, Clone)]
pub struct Field {
    pub is_pub: bool,
    pub is_const: bool,
    pub name: Node<String>,
}

/// A parameter of a function: `self`, or a named one.
#[derive(Debug, PartialEq, Eq, Hash, Clone)]
pub enum FunctionArg {
    Zelf,
    Regular { name: Node<String> },
}

/// `[pub] [unsafe] fn <name>(<args>) ...`.
#[derive(Debug, PartialEq, Eq, Hash, Clone)]
pub struct Function {
    pub pub_: Option<Span>,
    pub unsafe_: Option<Span>,
    pub name: Node<String>,
    pub args: Vec<Node<FunctionArg>>,
}

/// `const <name> = <value>`.
#[derive(Debug, PartialEq, Eq, Hash)]
pub struct ConstantDecl {
    pub name: Node<String>,
    pub value: Node<Expr>,
}

/// A top-level statement of a module.
#[derive(Debug, PartialEq, Eq, Hash)]
pub enum ModuleStmt {
    Pragma(Node<Pragma>),
    Use(Node<Use>),
    TypeAlias(Node<TypeAlias>),
    Contract(Node<Contract>),
    Struct(Node<Struct>),
    Function(Node<Function>),
    Event(Node<Event>),
    Constant(Node<ConstantDecl>),
}

/// A parsed module: its statements in source order.
#[derive(Debug, PartialEq, Eq, Hash)]
pub struct Module {
    pub body: Vec<ModuleStmt>,
}

/// Two optional sub-expressions agree: both absent, or both present and the
/// same expression.
pub open spec fn same_opt_expr(a: Option<Box<Node<Expr>>>, b: Option<Box<Node<Expr>>>) -> bool
    decreases a,
{
    match (a, b) {
        (None, None) => true,
        (Some(x), Some(y)) => same_expr(*x, *y),
        _ => false,
    }
}

/// Two expressions are the same tree: the same spans, operators, names and
/// literals at every node, and sequences of sub-expressions of the same
/// length that agree element by element.
pub open spec fn same_expr(a: Node<Expr>, b: Node<Expr>) -> bool
    decreases a,
{
    &&& a.span == b.span
    &&& match (a.kind, b.kind) {
        (Expr::Ternary { if_expr, test, else_expr }, Expr::Ternary { if_expr: i2, test: t2, else_expr: e2 }) => {
            same_expr(*if_expr, *i2) && same_expr(*test, *t2) && same_expr(*else_expr, *e2)
        },
        (Expr::BoolOperation { left, op, right }, Expr::BoolOperation { left: l2, op: o2, right: r2 }) => {
            same_expr(*left, *l2) && op == o2 && same_expr(*right, *r2)
        },
        (Expr::BinOperation { left, op, right }, Expr::BinOperation { left: l2, op: o2, right: r2 }) => {
            same_expr(*left, *l2) && op == o2 && same_expr(*right, *r2)
        },
        (Expr::UnaryOperation { op, operand }, Expr::UnaryOperation { op: o2, operand: x2 }) => {
            op == o2 && same_expr(*operand, *x2)
        },
        (Expr::CompOperation { left, op, right }, Expr::CompOperation { left: l2, op: o2, right: r2 }) => {
            same_expr(*left, *l2) && op == o2 && same_expr(*right, *r2)
        },
        (Expr::Attribute { value, attr }, Expr::Attribute { value: v2, attr: a2 }) => {
            same_expr(*value, *v2) && attr == a2
        },
        (Expr::Subscript { value, slices }, Expr::Subscript { value: v2, slices: s2 }) => {
            &&& same_expr(*value, *v2)
            &&& slices.span == s2.span
            &&& slices.kind@.len() == s2.kind@.len()
            &&& forall|i: int|
                0 <= i < slices.kind@.len() ==> {
                    &&& (#[trigger] slices.kind@[i]).span == s2.kind@[i].span
                    &&& match (slices.kind@[i].kind, s2.kind@[i].kind) {
                        (Slice::Index(x), Slice::Index(y)) => same_expr(*x, *y),
                        (
                            Slice::Slice { lower, upper, step },
                            Slice::Slice { lower: lo2, upper: up2, step: st2 },
                        ) => same_opt_expr(lower, lo2) && same_opt_expr(upper, up2) && same_opt_expr(
                            step,
                            st2,
                        ),
                        _ => false,
                    }
                }
        },
        (Expr::Call { func, args }, Expr::Call { func: f2, args: a2 }) => {
            &&& same_expr(*func, *f2)
            &&& args.span == a2.span
            &&& args.kind@.len() == a2.kind@.len()
            &&& forall|i: int|
                0 <= i < args.kind@.len() ==> {
                    &&& (#[trigger] args.kind@[i]).span == a2.kind@[i].span
                    &&& match (args.kind@[i].kind, a2.kind@[i].kind) {
                        (CallArg::Arg(x), CallArg::Arg(y)) => same_expr(x, y),
                        (CallArg::Kwarg(x), CallArg::Kwarg(y)) => x.name == y.name && same_expr(
                            *x.value,
                            *y.value,
                        ),
                        _ => false,
                    }
                }
        },
        (Expr::List { elts }, Expr::List { elts: e2 }) => {
            &&& elts@.len() == e2@.len()
            &&& forall|i: int| 0 <= i < elts@.len() ==> same_expr(#[trigger] elts@[i], e2@[i])
        },
        (Expr::ListComp { elt, comps }, Expr::ListComp { elt: el2, comps: c2 }) => {
            &&& same_expr(*elt, *el2)
            &&& comps@.len() == c2@.len()
            &&& forall|i: int|
                0 <= i < comps@.len() ==> {
                    &&& (#[trigger] comps@[i]).span == c2@[i].span
                    &&& same_expr(*comps@[i].kind.target, *c2@[i].kind.target)
                    &&& same_expr(*comps@[i].kind.iter, *c2@[i].kind.iter)
                    &&& comps@[i].kind.ifs@.len() == c2@[i].kind.ifs@.len()
                    &&& forall|j: int|
                        0 <= j < comps@[i].kind.ifs@.len() ==> same_expr(
                            #[trigger] comps@[i].kind.ifs@[j],
                            c2@[i].kind.ifs@[j],
                        )
                }
        },
        (Expr::Tuple { elts }, Expr::Tuple { elts: e2 }) => {
            &&& elts@.len() == e2@.len()
            &&& forall|i: int| 0 <= i < elts@.len() ==> same_expr(#[trigger] elts@[i], e2@[i])
        },
        (Expr::Bool(x), Expr::Bool(y)) => x == y,
        (Expr::Name(x), Expr::Name(y)) => x == y,
        (Expr::Num(x), Expr::Num(y)) => x == y,
        (Expr::Str(x), Expr::Str(y)) => x == y,
        (Expr::Unit, Expr::Unit) => true,
        (Expr::Ellipsis, Expr::Ellipsis) => true,
        _ => false,
    }
}

fn copy_opt_expr(o: &Option<Box<Node<Expr>>>) -> (c: Option<Box<Node<Expr>>>)
    ensures
        same_opt_expr(*o, c),
    decreases o, 2int,
{
    match o {
        Some(x) => Some(Box::new(copy_expr(&**x))),
        None => None,
    }
}

fn copy_exprs(v: &Vec<Node<Expr>>) -> (c: Vec<Node<Expr>>)
    ensures
        c@.len() == v@.len(),
        forall|i: int| 0 <= i < v@.len() ==> same_expr(#[trigger] v@[i], c@[i]),
    decreases v, 2int,
{
    let mut c: Vec<Node<Expr>> = Vec::new();
    let mut i: usize = 0;
    while i < v.len()
        invariant
            i <= v@.len(),
            c@.len() == i,
            forall|j: int| 0 <= j < i ==> same_expr(#[trigger] v@[j], c@[j]),
        decreases v@.len() - i,
    {
        assert(decreases_to!(v => v@[i as int]));
        c.push(copy_expr(&v[i]));
        i = i + 1;
    }
    c
}

fn copy_box(b: &Box<Node<Expr>>) -> (c: Box<Node<Expr>>)
    ensures
        same_expr(**b, *c),
    decreases b, 2int,
{
    Box::new(copy_expr(&**b))
}

/// A copy of an expression tree.
#[verifier::loop_isolation(false)]
pub fn copy_expr(e: &Node<Expr>) -> (c: Node<Expr>)
    ensures
        same_expr(*e, c),
    decreases e, 1int,
{
    let kind = match &e.kind {
        Expr::Ternary { if_expr, test, else_expr } => Expr::Ternary {
            if_expr: copy_box(if_expr),
            test: copy_box(test),
            else_expr: copy_box(else_expr),
        },
        Expr::BoolOperation { left, op, right } => Expr::BoolOperation {
            left: copy_box(left),
            op: Node { kind: op.kind, span: op.span },
            right: copy_box(right),
        },
        Expr::BinOperation { left, op, right } => Expr::BinOperation {
            left: copy_box(left),
            op: Node { kind: op.kind, span: op.span },
            right: copy_box(right),
        },
        Expr::UnaryOperation { op, operand } => Expr::UnaryOperation {
            op: Node { kind: op.kind, span: op.span },
            operand: copy_box(operand),
        },
        Expr::CompOperation { left, op, right } => Expr::CompOperation {
            left: copy_box(left),
            op: Node { kind: op.kind, span: op.span },
            right: copy_box(right),
        },
        Expr::Attribute { value, attr } => Expr::Attribute {
            value: copy_box(value),
            attr: Node { kind: attr.kind.clone(), span: attr.span },
        },
        Expr::Subscript { value, slices } => {
            let mut out: Vec<Node<Slice>> = Vec::new();
            let mut i: usize = 0;
            while i < slices.kind.len()
                invariant
                    i <= slices.kind@.len(),
                    out@.len() == i,
                    forall|j: int|
                        0 <= j < i ==> {
                            &&& (#[trigger] slices.kind@[j]).span == out@[j].span
                            &&& match (slices.kind@[j].kind, out@[j].kind) {
                                (Slice::Index(x), Slice::Index(y)) => same_expr(*x, *y),
                                (
                                    Slice::Slice { lower, upper, step },
                                    Slice::Slice { lower: lo2, upper: up2, step: st2 },
                                ) => same_opt_expr(lower, lo2) && same_opt_expr(upper, up2)
                                    && same_opt_expr(step, st2),
                                _ => false,
                            }
                        },
                decreases slices.kind@.len() - i,
            {
                let slice = &slices.kind[i];
                assert(decreases_to!(e => slices.kind@[i as int].kind));
                let k = match &slice.kind {
                    Slice::Index(x) => Slice::Index(copy_box(x)),
                    Slice::Slice { lower, upper, step } => Slice::Slice {
                        lower: copy_opt_expr(lower),
                        upper: copy_opt_expr(upper),
                        step: copy_opt_expr(step),
                    },
                };
                out.push(Node { kind: k, span: slice.span });
                i = i + 1;
            }
            Expr::Subscript { value: copy_box(value), slices: Node { kind: out, span: slices.span } }
        },
        Expr::Call { func, args } => {
            let mut out: Vec<Node<CallArg>> = Vec::new();
            let mut i: usize = 0;
            while i < args.kind.len()
                invariant
                    i <= args.kind@.len(),
                    out@.len() == i,
                    forall|j: int|
                        0 <= j < i ==> {
                            &&& (#[trigger] args.kind@[j]).span == out@[j].span
                            &&& match (args.kind@[j].kind, out@[j].kind) {
                                (CallArg::Arg(x), CallArg::Arg(y)) => same_expr(x, y),
                                (CallArg::Kwarg(x), CallArg::Kwarg(y)) => x.name == y.name
                                    && same_expr(*x.value, *y.value),
                                _ => false,
                            }
                        },
                decreases args.kind@.len() - i,
            {
                let arg = &args.kind[i];
                assert(decreases_to!(e => args.kind@[i as int].kind));
                let k = match &arg.kind {
                    CallArg::Arg(x) => CallArg::Arg(copy_expr(x)),
                    CallArg::Kwarg(x) => CallArg::Kwarg(
                        Kwarg {
                            name: Node { kind: x.name.kind.clone(), span: x.name.span },
                            value: copy_box(&x.value),
                        },
                    ),
                };
                out.push(Node { kind: k, span: arg.span });
                i = i + 1;
            }
            Expr::Call { func: copy_box(func), args: Node { kind: out, span: args.span } }
        },
        Expr::List { elts } => Expr::List { elts: copy_exprs(elts) },
        Expr::ListComp { elt, comps } => {
            let mut out: Vec<Node<Comprehension>> = Vec::new();
            let mut i: usize = 0;
            while i < comps.len()
                invariant
                    i <= comps@.len(),
                    out@.len() == i,
                    forall|j: int|
                        0 <= j < i ==> {
                            &&& (#[trigger] comps@[j]).span == out@[j].span
                            &&& same_expr(*comps@[j].kind.target, *out@[j].kind.target)
                            &&& same_expr(*comps@[j].kind.iter, *out@[j].kind.iter)
                            &&& comps@[j].kind.ifs@.len() == out@[j].kind.ifs@.len()
                            &&& forall|k: int|
                                0 <= k < comps@[j].kind.ifs@.len() ==> same_expr(
                                    #[trigger] comps@[j].kind.ifs@[k],
                                    out@[j].kind.ifs@[k],
                                )
                        },
                decreases comps@.len() - i,
            {
                let comp = &comps[i];
                assert(decreases_to!(e => comps@[i as int].kind));
                out.push(
                    Node {
                        kind: Comprehension {
                            target: copy_box(&comp.kind.target),
                            iter: copy_box(&comp.kind.iter),
                            ifs: copy_exprs(&comp.kind.ifs),
                        },
                        span: comp.span,
                    },
                );
                i = i + 1;
            }
            Expr::ListComp { elt: copy_box(elt), comps: out }
        },
        Expr::Tuple { elts } => Expr::Tuple { elts: copy_exprs(elts) },
        Expr::Bool(b) => Expr::Bool(*b),
        Expr::Name(n) => Expr::Name(n.clone()),
        Expr::Num(n) => Expr::Num(n.clone()),
        Expr::Str(n) => Expr::Str(n.clone()),
        Expr::Unit => Expr::Unit,
        Expr::Ellipsis => Expr::Ellipsis,
    };
    Node { kind, span: e.span }
}

/// Two module statements are the same.
pub open spec fn same_stmt(a: ModuleStmt, b: ModuleStmt) -> bool {
    match (a, b) {
        (ModuleStmt::Pragma(x), ModuleStmt::Pragma(y)) => x == y,
        (ModuleStmt::Use(x), ModuleStmt::Use(y)) => {
            &&& x.span == y.span
            &&& x.kind.path.span == y.kind.path.span
            &&& x.kind.path.kind.segments@ == y.kind.path.kind.segments@
        },
        (ModuleStmt::TypeAlias(x), ModuleStmt::TypeAlias(y)) => x == y,
        (ModuleStmt::Contract(x), ModuleStmt::Contract(y)) => x == y,
        (ModuleStmt::Struct(x), ModuleStmt::Struct(y)) => x == y,
        (ModuleStmt::Event(x), ModuleStmt::Event(y)) => x == y,
        (ModuleStmt::Function(x), ModuleStmt::Function(y)) => {
            &&& x.span == y.span
            &&& x.kind.pub_ == y.kind.pub_
            &&& x.kind.unsafe_ == y.kind.unsafe_
            &&& x.kind.name == y.kind.name
            &&& x.kind.args@ == y.kind.args@
        },
        (ModuleStmt::Constant(x), ModuleStmt::Constant(y)) => {
            &&& x.span == y.span
            &&& x.kind.name == y.kind.name
            &&& same_expr(x.kind.value, y.kind.value)
        },
        _ => false,
    }
}

/// Two modules have the same statements, in the same order.
pub open spec fn same_module(a: Module, b: Module) -> bool {
    &&& a.body@.len() == b.body@.len()
    &&& forall|i: int| 0 <= i < a.body@.len() ==> same_stmt(#[trigger] a.body@[i], b.body@[i])
}

fn copy_name(n: &Node<String>) -> (c: Node<String>)
    ensures
        c == *n,
{
    Node { kind: n.kind.clone(), span: n.span }
}

fn copy_names(v: &Vec<Node<String>>) -> (c: Vec<Node<String>>)
    ensures
        c@ == v@,
{
    let mut c: Vec<Node<String>> = Vec::new();
    let mut i: usize = 0;
    while i < v.len()
        invariant
            i <= v@.len(),
            c@ == v@.subrange(0, i as int),
        decreases v@.len() - i,
    {
        c.push(copy_name(&v[i]));
        i = i + 1;
        assert(c@ =~= v@.subrange(0, i as int));
    }
    assert(c@ =~= v@);
    c
}

fn copy_args(v: &Vec<Node<FunctionArg>>) -> (c: Vec<Node<FunctionArg>>)
    ensures
        c@ == v@,
{
    let mut c: Vec<Node<FunctionArg>> = Vec::new();
    let mut i: usize = 0;
    while i < v.len()
        invariant
            i <= v@.len(),
            c@ == v@.subrange(0, i as int),
        decreases v@.len() - i,
    {
        let arg = &v[i];
        let kind = match &arg.kind {
            FunctionArg::Zelf => FunctionArg::Zelf,
            FunctionArg::Regular { name } => FunctionArg::Regular { name: copy_name(name) },
        };
        c.push(Node { kind, span: arg.span });
        i = i + 1;
        assert(c@ =~= v@.subrange(0, i as int));
    }
    assert(c@ =~= v@);
    c
}

fn copy_stmt(s: &ModuleStmt) -> (c: ModuleStmt)
    ensures
        same_stmt(*s, c),
{
    match s {
        ModuleStmt::Pragma(x) => ModuleStmt::Pragma(
            Node {
                kind: Pragma { version_requirement: copy_name(&x.kind.version_requirement) },
                span: x.span,
            },
        ),
        ModuleStmt::Use(x) => ModuleStmt::Use(
            Node {
                kind: Use {
                    path: Node {
                        kind: Path { segments: copy_names(&x.kind.path.kind.segments) },
                        span: x.kind.path.span,
                    },
                },
                span: x.span,
            },
        ),
        ModuleStmt::TypeAlias(x) => ModuleStmt::TypeAlias(
            Node { kind: TypeAlias { name: copy_name(&x.kind.name) }, span: x.span },
        ),
        ModuleStmt::Contract(x) => ModuleStmt::Contract(
            Node { kind: Contract { name: copy_name(&x.kind.name) }, span: x.span },
        ),
        ModuleStmt::Struct(x) => ModuleStmt::Struct(
            Node { kind: Struct { name: copy_name(&x.kind.name) }, span: x.span },
        ),
        ModuleStmt::Event(x) => ModuleStmt::Event(
            Node { kind: Event { name: copy_name(&x.kind.name) }, span: x.span },
        ),
        ModuleStmt::Function(x) => ModuleStmt::Function(
            Node {
                kind: Function {
                    pub_: x.kind.pub_,
                    unsafe_: x.kind.unsafe_,
                    name: copy_name(&x.kind.name),
                    args: copy_args(&x.kind.args),
                },
                span: x.span,
            },
        ),
        ModuleStmt::Constant(x) => ModuleStmt::Constant(
            Node {
                kind: ConstantDecl { name: copy_name(&x.kind.name), value: copy_expr(&x.kind.value) },
                span: x.span,
            },
        ),
    }
}

/// A copy of a module's syntax tree.
pub fn copy_module(m: &Module) -> (c: Module)
    ensures
        same_module(*m, c),
{
    let mut body: Vec<ModuleStmt> = Vec::new();
    let mut i: usize = 0;
    while i < m.body.len()
        invariant
            i <= m.body@.len(),
            body@.len() == i,
            forall|j: int| 0 <= j < i ==> same_stmt(#[trigger] m.body@[j], body@[j]),
        decreases m.body@.len() - i,
    {
        body.push(copy_stmt(&m.body[i]));
        i = i + 1;
    }
    Module { body }
}

/// Every expression is the same tree as itself.
pub proof fn lemma_same_expr_reflexive(e: Node<Expr>)
    ensures
        same_expr(e, e),
    decreases e,
{
    match e.kind {
        Expr::Ternary { if_expr, test, else_expr } => {
            lemma_same_expr_reflexive(*if_expr);
            lemma_same_expr_reflexive(*test);
            lemma_same_expr_reflexive(*else_expr);
        },
        Expr::BoolOperation { left, right, .. } => {
            lemma_same_expr_reflexive(*left);
            lemma_same_expr_reflexive(*right);
        },
        Expr::BinOperation { left, right, .. } => {
            lemma_same_expr_reflexive(*left);
            lemma_same_expr_reflexive(*right);
        },
        Expr::UnaryOperation { operand, .. } => {
            lemma_same_expr_reflexive(*operand);
        },
        Expr::CompOperation { left, right, .. } => {
            lemma_same_expr_reflexive(*left);
            lemma_same_expr_reflexive(*right);
        },
        Expr::Attribute { value, .. } => {
            lemma_same_expr_reflexive(*value);
        },
        Expr::Subscript { value, slices } => {
            lemma_same_expr_reflexive(*value);
            assert forall|i: int| 0 <= i < slices.kind@.len() implies match (
                #[trigger] slices.kind@[i].kind,
                slices.kind@[i].kind,
            ) {
                (Slice::Index(x), Slice::Index(y)) => same_expr(*x, *y),
                (
                    Slice::Slice { lower, upper, step },
                    Slice::Slice { lower: lo2, upper: up2, step: st2 },
                ) => same_opt_expr(lower, lo2) && same_opt_expr(upper, up2) && same_opt_expr(
                    step,
                    st2,
                ),
                _ => false,
            } by {
                assert(decreases_to!(e => slices.kind@[i]));
                match slices.kind@[i].kind {
                    Slice::Index(x) => {
                        lemma_same_expr_reflexive(*x);
                    },
                    Slice::Slice { lower, upper, step } => {
                        if let Some(x) = lower {
                            lemma_same_expr_reflexive(*x);
                        }
                        if let Some(x) = upper {
                            lemma_same_expr_reflexive(*x);
                        }
                        if let Some(x) = step {
                            lemma_same_expr_reflexive(*x);
                        }
                    },
                }
            }
        },
        Expr::Call { func, args } => {
            lemma_same_expr_reflexive(*func);
            assert forall|i: int| 0 <= i < args.kind@.len() implies match (
                #[trigger] args.kind@[i].kind,
                args.kind@[i].kind,
            ) {
                (CallArg::Arg(x), CallArg::Arg(y)) => same_expr(x, y),
                (CallArg::Kwarg(x), CallArg::Kwarg(y)) => x.name == y.name && same_expr(
                    *x.value,
                    *y.value,
                ),
                _ => false,
            } by {
                assert(decreases_to!(e => args.kind@[i]));
                match args.kind@[i].kind {
                    CallArg::Arg(x) => {
                        lemma_same_expr_reflexive(x);
                    },
                    CallArg::Kwarg(x) => {
                        lemma_same_expr_reflexive(*x.value);
                    },
                }
            }
        },
        Expr::List { elts } => {
            assert forall|i: int| 0 <= i < elts@.len() implies same_expr(
                #[trigger] elts@[i],
                elts@[i],
            ) by {
                assert(decreases_to!(e => elts@[i]));
                lemma_same_expr_reflexive(elts@[i]);
            }
        },
        Expr::Tuple { elts } => {
            assert forall|i: int| 0 <= i < elts@.len() implies same_expr(
                #[trigger] elts@[i],
                elts@[i],
            ) by {
                assert(decreases_to!(e => elts@[i]));
                lemma_same_expr_reflexive(elts@[i]);
            }
        },
        Expr::ListComp { elt, comps } => {
            lemma_same_expr_reflexive(*elt);
            assert forall|i: int| 0 <= i < comps@.len() implies {
                &&& same_expr(*(#[trigger] comps@[i]).kind.target, *comps@[i].kind.target)
                &&& same_expr(*comps@[i].kind.iter, *comps@[i].kind.iter)
                &&& forall|j: int|
                    0 <= j < comps@[i].kind.ifs@.len() ==> same_expr(
                        #[trigger] comps@[i].kind.ifs@[j],
                        comps@[i].kind.ifs@[j],
                    )
            } by {
                assert(decreases_to!(e => comps@[i].kind));
                lemma_same_expr_reflexive(*comps@[i].kind.target);
                lemma_same_expr_reflexive(*comps@[i].kind.iter);
                assert forall|j: int| 0 <= j < comps@[i].kind.ifs@.len() implies same_expr(
                    #[trigger] comps@[i].kind.ifs@[j],
                    comps@[i].kind.ifs@[j],
                ) by {
                    assert(decreases_to!(e => comps@[i].kind.ifs@[j]));
                    lemma_same_expr_reflexive(comps@[i].kind.ifs@[j]);
                }
            }
        },
        _ => {},
    }
}

} // verus!
