use fe_items::ast::{
    BinOperator, BoolOperator, CallArg, CompOperator, Expr, Kwarg, Node, Slice, Span, UnaryOperator,
};
use fe_items::context::Context;
use fe_items::lowering::{boxed_expr, expr, multiple_exprs, optional_expr};

fn sp(start: usize, end: usize) -> Span {
    Span::new(start, end)
}

fn name(s: &str, at: usize) -> Node<Expr> {
    Node::new(Expr::Name(s.to_string()), sp(at, at + s.len()))
}

fn num(s: &str, at: usize) -> Node<Expr> {
    Node::new(Expr::Num(s.to_string()), sp(at, at + s.len()))
}

/// `f(a + 1, key=x[2, 3])`
fn sample_call() -> Node<Expr> {
    let sum = Node::new(
        Expr::BinOperation {
            left: Box::new(name("a", 2)),
            op: Node::new(BinOperator::Add, sp(4, 5)),
            right: Box::new(num("1", 6)),
        },
        sp(2, 7),
    );
    let subscript = Node::new(
        Expr::Subscript {
            value: Box::new(name("x", 13)),
            slices: Node::new(
                vec![
                    Node::new(Slice::Index(Box::new(num("2", 15))), sp(15, 16)),
                    Node::new(Slice::Index(Box::new(num("3", 18))), sp(18, 19)),
                ],
                sp(14, 20),
            ),
        },
        sp(13, 20),
    );
    Node::new(
        Expr::Call {
            func: Box::new(name("f", 0)),
            args: Node::new(
                vec![
                    Node::new(CallArg::Arg(sum), sp(2, 7)),
                    Node::new(
                        CallArg::Kwarg(Kwarg {
                            name: Node::new("key".to_string(), sp(9, 12)),
                            value: Box::new(subscript),
                        }),
                        sp(9, 20),
                    ),
                ],
                sp(1, 21),
            ),
        },
        sp(0, 21),
    )
}

#[test]
fn leaves_are_kept() {
    let ctx = Context::new();
    assert_eq!(expr(&ctx, name("a", 0)), name("a", 0));
    assert_eq!(expr(&ctx, num("42", 3)), num("42", 3));
    let s = Node::new(Expr::Str("hi".to_string()), sp(0, 4));
    assert_eq!(expr(&ctx, Node::new(Expr::Str("hi".to_string()), sp(0, 4))), s);
    let tuple = Node::new(Expr::Tuple { elts: vec![] }, sp(0, 2));
    assert_eq!(expr(&ctx, Node::new(Expr::Tuple { elts: vec![] }, sp(0, 2))), tuple);
    assert_eq!(expr(&ctx, Node::new(Expr::Unit, sp(5, 7))), Node::new(Expr::Unit, sp(5, 7)));
}

#[test]
fn subscript_keeps_first_slice_only() {
    let ctx = Context::new();
    let lowered = expr(&ctx, sample_call());
    match &lowered.kind {
        Expr::Call { args, .. } => match &args.kind[1].kind {
            CallArg::Kwarg(kw) => match &kw.value.kind {
                Expr::Subscript { slices, .. } => {
                    assert_eq!(slices.kind.len(), 1);
                    assert_eq!(slices.kind[0], Node::new(Slice::Index(Box::new(num("2", 15))), sp(15, 16)));
                    assert_eq!(slices.span, sp(14, 20));
                }
                _ => panic!("expected a subscript"),
            },
            _ => panic!("expected a keyword argument"),
        },
        _ => panic!("expected a call"),
    }
    assert_eq!(lowered.span, sp(0, 21));
}

#[test]
fn lowering_is_idempotent() {
    let ctx = Context::new();
    let once = expr(&ctx, sample_call());
    let twice = expr(&ctx, expr(&ctx, sample_call()));
    assert_eq!(once, twice);
}

#[test]
fn call_arguments_are_lowered_in_order() {
    let ctx = Context::new();
    let lowered = expr(&ctx, sample_call());
    match lowered.kind {
        Expr::Call { func, args } => {
            assert_eq!(*func, name("f", 0));
            assert_eq!(args.kind.len(), 2);
            assert_eq!(args.span, sp(1, 21));
            match &args.kind[0].kind {
                CallArg::Arg(a) => assert_eq!(a.span, sp(2, 7)),
                _ => panic!("expected a positional argument"),
            }
        }
        _ => panic!("expected a call"),
    }
}

#[test]
fn helpers() {
    let ctx = Context::new();
    assert_eq!(optional_expr(&ctx, None), None);
    assert_eq!(optional_expr(&ctx, Some(name("a", 0))), Some(name("a", 0)));
    assert_eq!(*boxed_expr(&ctx, Box::new(num("7", 1))), num("7", 1));
    assert_eq!(multiple_exprs(&ctx, vec![name("a", 0), num("1", 2)]), vec![name("a", 0), num("1", 2)]);
    assert_eq!(multiple_exprs(&ctx, vec![]), vec![]);
}

#[test]
fn operators_and_attributes_are_rebuilt() {
    let ctx = Context::new();
    // `a.b if not c else d == e or f`
    let e = Node::new(
        Expr::Ternary {
            if_expr: Box::new(Node::new(
                Expr::Attribute { value: Box::new(name("a", 0)), attr: Node::new("b".to_string(), sp(2, 3)) },
                sp(0, 3),
            )),
            test: Box::new(Node::new(
                Expr::UnaryOperation { op: Node::new(UnaryOperator::Not, sp(7, 10)), operand: Box::new(name("c", 11)) },
                sp(7, 12),
            )),
            else_expr: Box::new(Node::new(
                Expr::BoolOperation {
                    left: Box::new(Node::new(
                        Expr::CompOperation {
                            left: Box::new(name("d", 18)),
                            op: Node::new(CompOperator::Eq, sp(20, 22)),
                            right: Box::new(name("e", 23)),
                        },
                        sp(18, 24),
                    )),
                    op: Node::new(BoolOperator::Or, sp(25, 27)),
                    right: Box::new(name("f", 28)),
                },
                sp(18, 29),
            )),
        },
        sp(0, 29),
    );
    let copy = Node::new(
        Expr::Ternary {
            if_expr: Box::new(Node::new(
                Expr::Attribute { value: Box::new(name("a", 0)), attr: Node::new("b".to_string(), sp(2, 3)) },
                sp(0, 3),
            )),
            test: Box::new(Node::new(
                Expr::UnaryOperation { op: Node::new(UnaryOperator::Not, sp(7, 10)), operand: Box::new(name("c", 11)) },
                sp(7, 12),
            )),
            else_expr: Box::new(Node::new(
                Expr::BoolOperation {
                    left: Box::new(Node::new(
                        Expr::CompOperation {
                            left: Box::new(name("d", 18)),
                            op: Node::new(CompOperator::Eq, sp(20, 22)),
                            right: Box::new(name("e", 23)),
                        },
                        sp(18, 24),
                    )),
                    op: Node::new(BoolOperator::Or, sp(25, 27)),
                    right: Box::new(name("f", 28)),
                },
                sp(18, 29),
            )),
        },
        sp(0, 29),
    );
    // Nothing in this expression is changed by the lowering.
    assert_eq!(expr(&ctx, e), copy);
}
