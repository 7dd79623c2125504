//! Lowering of expressions: every sub-expression is lowered in turn and the
//! tree is rebuilt around the results, keeping each node's span.

use vstd::prelude::*;
use crate::ast::{lemma_same_expr_reflexive, same_expr, CallArg, Expr, Kwarg, Node, Slice};
use crate::context::Context;

verus! {

/// Whether the lowering accepts an expression: list displays, list
/// comprehensions and `...` are not supported, and a subscript must start
/// with an index.
pub open spec fn lowerable(e: Node<Expr>) -> bool
    decreases e,
{
    match e.kind {
        Expr::Name(_) | Expr::Num(_) | Expr::Bool(_) | Expr::Tuple { .. } | Expr::Str(_)
        | Expr::Unit => true,
        Expr::Subscript { value, slices } => {
            &&& lowerable(*value)
            &&& slices.kind@.len() > 0
            &&& match slices.kind@[0].kind {
                Slice::Index(index) => lowerable(*index),
                Slice::Slice { .. } => false,
            }
        },
        Expr::Attribute { value, .. } => lowerable(*value),
        Expr::Ternary { if_expr, test, else_expr } => lowerable(*if_expr) && lowerable(*test)
            && lowerable(*else_expr),
        Expr::BoolOperation { left, right, .. } => lowerable(*left) && lowerable(*right),
        Expr::BinOperation { left, right, .. } => lowerable(*left) && lowerable(*right),
        Expr::UnaryOperation { operand, .. } => lowerable(*operand),
        Expr::CompOperation { left, right, .. } => lowerable(*left) && lowerable(*right),
        Expr::Call { func, args } => {
            &&& lowerable(*func)
            &&& forall|i: int|
                0 <= i < args.kind@.len() ==> match #[trigger] args.kind@[i].kind {
                    CallArg::Arg(a) => lowerable(a),
                    CallArg::Kwarg(k) => lowerable(*k.value),
                }
        },
        Expr::List { .. } | Expr::ListComp { .. } | Expr::Ellipsis => false,
    }
}

/// `r` is what the lowering makes of `e`: every node keeps its span, the
/// leaves (names, numbers, booleans, tuples, strings, unit) stay as they are, a
/// subscript keeps only its first slice, and every other sub-expression is
/// lowered in turn.
pub open spec fn lowers_to(e: Node<Expr>, r: Node<Expr>) -> bool
    decreases e,
{
    &&& r.span == e.span
    &&& match e.kind {
        Expr::Name(_) | Expr::Num(_) | Expr::Bool(_) | Expr::Tuple { .. } | Expr::Str(_)
        | Expr::Unit => r.kind
            == e.kind,
        Expr::Subscript { value, slices } => match r.kind {
            Expr::Subscript { value: r_value, slices: r_slices } => {
                &&& lowers_to(*value, *r_value)
                &&& r_slices.span == slices.span
                &&& slices.kind@.len() > 0
                &&& r_slices.kind@.len() == 1
                &&& r_slices.kind@[0].span == slices.kind@[0].span
                &&& match (slices.kind@[0].kind, r_slices.kind@[0].kind) {
                    (Slice::Index(index), Slice::Index(r_index)) => lowers_to(*index, *r_index),
                    _ => false,
                }
            },
            _ => false,
        },
        Expr::Attribute { value, attr } => match r.kind {
            Expr::Attribute { value: r_value, attr: r_attr } => lowers_to(*value, *r_value)
                && r_attr == attr,
            _ => false,
        },
        Expr::Ternary { if_expr, test, else_expr } => match r.kind {
            Expr::Ternary { if_expr: r_if, test: r_test, else_expr: r_else } => {
                &&& lowers_to(*if_expr, *r_if)
                &&& lowers_to(*test, *r_test)
                &&& lowers_to(*else_expr, *r_else)
            },
            _ => false,
        },
        Expr::BoolOperation { left, op, right } => match r.kind {
            Expr::BoolOperation { left: r_left, op: r_op, right: r_right } => lowers_to(
                *left,
                *r_left,
            ) && r_op == op && lowers_to(*right, *r_right),
            _ => false,
        },
        Expr::BinOperation { left, op, right } => match r.kind {
            Expr::BinOperation { left: r_left, op: r_op, right: r_right } => lowers_to(
                *left,
                *r_left,
            ) && r_op == op && lowers_to(*right, *r_right),
            _ => false,
        },
        Expr::UnaryOperation { op, operand } => match r.kind {
            Expr::UnaryOperation { op: r_op, operand: r_operand } => r_op == op && lowers_to(
                *operand,
                *r_operand,
            ),
            _ => false,
        },
        Expr::CompOperation { left, op, right } => match r.kind {
            Expr::CompOperation { left: r_left, op: r_op, right: r_right } => lowers_to(
                *left,
                *r_left,
            ) && r_op == op && lowers_to(*right, *r_right),
            _ => false,
        },
        Expr::Call { func, args } => match r.kind {
            Expr::Call { func: r_func, args: r_args } => {
                &&& lowers_to(*func, *r_func)
                &&& r_args.span == args.span
                &&& r_args.kind@.len() == args.kind@.len()
                &&& forall|i: int|
                    0 <= i < args.kind@.len() ==> {
                        &&& (#[trigger] r_args.kind@[i]).span == args.kind@[i].span
                        &&& match (args.kind@[i].kind, r_args.kind@[i].kind) {
                            (CallArg::Arg(a), CallArg::Arg(r_a)) => lowers_to(a, r_a),
                            (CallArg::Kwarg(k), CallArg::Kwarg(r_k)) => r_k.name == k.name
                                && lowers_to(*k.value, *r_k.value),
                            _ => false,
                        }
                    }
            },
            _ => false,
        },
        Expr::List { .. } | Expr::ListComp { .. } | Expr::Ellipsis => false,
    }
}

/// What the lowering makes of one call argument.
pub open spec fn arg_lowers_to(a: Node<CallArg>, r: Node<CallArg>) -> bool {
    &&& r.span == a.span
    &&& match (a.kind, r.kind) {
        (CallArg::Arg(x), CallArg::Arg(r_x)) => lowers_to(x, r_x),
        (CallArg::Kwarg(k), CallArg::Kwarg(r_k)) => r_k.name == k.name && lowers_to(
            *k.value,
            *r_k.value,
        ),
        _ => false,
    }
}

pub open spec fn arg_lowerable(a: Node<CallArg>) -> bool {
    match a.kind {
        CallArg::Arg(x) => lowerable(x),
        CallArg::Kwarg(k) => lowerable(*k.value),
    }
}

/// Lowers an expression and all sub expressions.
pub fn expr(context: &Context, exp: Node<Expr>) -> (r: Node<Expr>)
    requires
        lowerable(exp),
    ensures
        lowers_to(exp, r),
    decreases exp, 1int,
{
    let span = exp.span;
    let lowered_kind = match exp.kind {
        Expr::Name(n) => Expr::Name(n),
        Expr::Num(n) => Expr::Num(n),
        Expr::Bool(b) => Expr::Bool(b),
        Expr::Subscript { value, slices } => Expr::Subscript {
            value: boxed_expr(context, value),
            slices: slices_index_expr(context, slices),
        },
        Expr::Attribute { value, attr } => Expr::Attribute {
            value: boxed_expr(context, value),
            attr,
        },
        Expr::Ternary { if_expr, test, else_expr } => Expr::Ternary {
            if_expr: boxed_expr(context, if_expr),
            test: boxed_expr(context, test),
            else_expr: boxed_expr(context, else_expr),
        },
        Expr::BoolOperation { left, op, right } => Expr::BoolOperation {
            left: boxed_expr(context, left),
            op,
            right: boxed_expr(context, right),
        },
        Expr::BinOperation { left, op, right } => Expr::BinOperation {
            left: boxed_expr(context, left),
            op,
            right: boxed_expr(context, right),
        },
        Expr::UnaryOperation { op, operand } => Expr::UnaryOperation {
            op,
            operand: boxed_expr(context, operand),
        },
        Expr::CompOperation { left, op, right } => Expr::CompOperation {
            left: boxed_expr(context, left),
            op,
            right: boxed_expr(context, right),
        },
        Expr::Call { func, args } => Expr::Call {
            func: boxed_expr(context, func),
            args: call_args(context, args),
        },
        // Tuples are only accepted empty for now, so they are kept whole.
        Expr::Tuple { elts } => Expr::Tuple { elts },
        Expr::Str(s) => Expr::Str(s),
        Expr::Unit => Expr::Unit,
        // Not supported by the lowering; ruled out by `lowerable`.
        Expr::List { .. } | Expr::ListComp { .. } | Expr::Ellipsis => {
            proof {
                assert(false);
            }
            Expr::Ellipsis
        },
    };
    Node::new(lowered_kind, span)
}

/// Lowers the index of a subscript: the first slice, which must be an index,
/// is lowered and kept alone.
fn slices_index_expr(context: &Context, slices: Node<Vec<Node<Slice>>>) -> (r: Node<
    Vec<Node<Slice>>,
>)
    requires
        slices.kind@.len() > 0,
        match slices.kind@[0].kind {
            Slice::Index(index) => lowerable(*index),
            Slice::Slice { .. } => false,
        },
    ensures
        r.span == slices.span,
        r.kind@.len() == 1,
        r.kind@[0].span == slices.kind@[0].span,
        match (slices.kind@[0].kind, r.kind@[0].kind) {
            (Slice::Index(index), Slice::Index(r_index)) => lowers_to(*index, *r_index),
            _ => false,
        },
    decreases slices, 2int,
{
    let ghost original = slices;
    let span = slices.span;
    let mut kinds = slices.kind;
    let first_slice = kinds.remove(0);
    let first_span = first_slice.span;
    match first_slice.kind {
        Slice::Index(exp) => {
            assert(decreases_to!(original => *exp));
            let lowered = expr(context, *exp);
            let mut out: Vec<Node<Slice>> = Vec::new();
            out.push(Node::new(Slice::Index(Box::new(lowered)), first_span));
            Node::new(out, span)
        },
        Slice::Slice { .. } => {
            proof {
                assert(false);
            }
            Node::new(Vec::new(), span)
        },
    }
}

/// Lowers and optional expression.
pub fn optional_expr(context: &Context, exp: Option<Node<Expr>>) -> (r: Option<Node<Expr>>)
    requires
        exp matches Some(e) ==> lowerable(e),
    ensures
        match (exp, r) {
            (Some(e), Some(l)) => lowers_to(e, l),
            (None, None) => true,
            _ => false,
        },
{
    match exp {
        Some(e) => Some(expr(context, e)),
        None => None,
    }
}

/// Lowers a boxed expression.
pub fn boxed_expr(context: &Context, exp: Box<Node<Expr>>) -> (r: Box<Node<Expr>>)
    requires
        lowerable(*exp),
    ensures
        lowers_to(*exp, *r),
    decreases exp, 2int,
{
    Box::new(expr(context, *exp))
}

/// Lowers a list of expression.
pub fn multiple_exprs(context: &Context, exp: Vec<Node<Expr>>) -> (r: Vec<Node<Expr>>)
    requires
        forall|i: int| 0 <= i < exp@.len() ==> lowerable(#[trigger] exp@[i]),
    ensures
        r@.len() == exp@.len(),
        forall|i: int| 0 <= i < exp@.len() ==> lowers_to(#[trigger] exp@[i], r@[i]),
{
    let ghost original = exp@;
    let mut remaining = exp;
    let mut lowered: Vec<Node<Expr>> = Vec::new();
    while remaining.len() > 0
        invariant
            lowered@.len() + remaining@.len() == original.len(),
            remaining@ == original.subrange(lowered@.len() as int, original.len() as int),
            forall|i: int| 0 <= i < original.len() ==> lowerable(#[trigger] original[i]),
            forall|i: int| 0 <= i < lowered@.len() ==> lowers_to(#[trigger] original[i], lowered@[i]),
        decreases remaining@.len(),
    {
        let e = remaining.remove(0);
        assert(e == original[lowered@.len() as int]);
        let l = expr(context, e);
        lowered.push(l);
    }
    lowered
}

fn call_args(context: &Context, args: Node<Vec<Node<CallArg>>>) -> (r: Node<Vec<Node<CallArg>>>)
    requires
        forall|i: int| 0 <= i < args.kind@.len() ==> arg_lowerable(#[trigger] args.kind@[i]),
    ensures
        r.span == args.span,
        r.kind@.len() == args.kind@.len(),
        forall|i: int|
            0 <= i < args.kind@.len() ==> arg_lowers_to(#[trigger] args.kind@[i], r.kind@[i]),
    decreases args, 2int,
{
    let ghost original = args;
    let span = args.span;
    let mut remaining = args.kind;
    let mut lowered: Vec<Node<CallArg>> = Vec::new();
    while remaining.len() > 0
        invariant
            original == args,
            lowered@.len() + remaining@.len() == original.kind@.len(),
            remaining@ == original.kind@.subrange(lowered@.len() as int, original.kind@.len() as int),
            forall|i: int|
                0 <= i < original.kind@.len() ==> arg_lowerable(#[trigger] original.kind@[i]),
            forall|i: int|
                0 <= i < lowered@.len() ==> arg_lowers_to(#[trigger] original.kind@[i], lowered@[i]),
        decreases remaining@.len(),
    {
        let arg = remaining.remove(0);
        let ghost k = lowered@.len() as int;
        assert(arg == original.kind@[k]);
        let arg_span = arg.span;
        let lowered_arg = match arg.kind {
            CallArg::Arg(inner_arg) => {
                assert(decreases_to!(original => inner_arg));
                Node::new(CallArg::Arg(expr(context, inner_arg)), arg_span)
            },
            CallArg::Kwarg(inner_arg) => {
                assert(decreases_to!(original => inner_arg));
                Node::new(CallArg::Kwarg(kwarg(context, inner_arg)), arg_span)
            },
        };
        lowered.push(lowered_arg);
    }
    Node::new(lowered, span)
}

fn kwarg(context: &Context, kw: Kwarg) -> (r: Kwarg)
    requires
        lowerable(*kw.value),
    ensures
        r.name == kw.name,
        lowers_to(*kw.value, *r.value),
    decreases kw, 2int,
{
    Kwarg { name: kw.name, value: boxed_expr(context, kw.value) }
}

/// Lowering only succeeds on what it accepts: whatever relates to a lowered
/// expression was lowerable.
pub proof fn lemma_lowers_to_only_lowerable(e: Node<Expr>, r: Node<Expr>)
    requires
        lowers_to(e, r),
    ensures
        lowerable(e),
    decreases e,
{
    match (e.kind, r.kind) {
        (Expr::Subscript { value, slices }, Expr::Subscript { value: rv, slices: rs }) => {
            lemma_lowers_to_only_lowerable(*value, *rv);
            match (slices.kind@[0].kind, rs.kind@[0].kind) {
                (Slice::Index(index), Slice::Index(r_index)) => {
                    lemma_lowers_to_only_lowerable(*index, *r_index);
                },
                _ => {},
            }
        },
        (Expr::Attribute { value, .. }, Expr::Attribute { value: rv, .. }) => {
            lemma_lowers_to_only_lowerable(*value, *rv);
        },
        (
            Expr::Ternary { if_expr, test, else_expr },
            Expr::Ternary { if_expr: ri, test: rt, else_expr: re },
        ) => {
            lemma_lowers_to_only_lowerable(*if_expr, *ri);
            lemma_lowers_to_only_lowerable(*test, *rt);
            lemma_lowers_to_only_lowerable(*else_expr, *re);
        },
        (Expr::BoolOperation { left, right, .. }, Expr::BoolOperation { left: rl, right: rr, .. }) => {
            lemma_lowers_to_only_lowerable(*left, *rl);
            lemma_lowers_to_only_lowerable(*right, *rr);
        },
        (Expr::BinOperation { left, right, .. }, Expr::BinOperation { left: rl, right: rr, .. }) => {
            lemma_lowers_to_only_lowerable(*left, *rl);
            lemma_lowers_to_only_lowerable(*right, *rr);
        },
        (Expr::CompOperation { left, right, .. }, Expr::CompOperation { left: rl, right: rr, .. }) => {
            lemma_lowers_to_only_lowerable(*left, *rl);
            lemma_lowers_to_only_lowerable(*right, *rr);
        },
        (Expr::UnaryOperation { operand, .. }, Expr::UnaryOperation { operand: ro, .. }) => {
            lemma_lowers_to_only_lowerable(*operand, *ro);
        },
        (Expr::Call { func, args }, Expr::Call { func: rf, args: ra }) => {
            lemma_lowers_to_only_lowerable(*func, *rf);
            assert forall|i: int| 0 <= i < args.kind@.len() implies arg_lowerable(
                #[trigger] args.kind@[i],
            ) by {
                match (args.kind@[i].kind, ra.kind@[i].kind) {
                    (CallArg::Arg(a), CallArg::Arg(r_a)) => {
                        lemma_lowers_to_only_lowerable(a, r_a);
                    },
                    (CallArg::Kwarg(k), CallArg::Kwarg(r_k)) => {
                        lemma_lowers_to_only_lowerable(*k.value, *r_k.value);
                    },
                    _ => {},
                }
            }
        },
        _ => {},
    }
}

/// Lowering is idempotent: what the lowering produces is accepted by it again,
/// and lowering it once more gives the same expression back.
pub proof fn lemma_lowering_idempotent(e: Node<Expr>, r: Node<Expr>)
    requires
        lowers_to(e, r),
    ensures
        lowerable(r),
        lowers_to(r, r),
    decreases e,
{
    match (e.kind, r.kind) {
        (Expr::Subscript { value, slices }, Expr::Subscript { value: rv, slices: rs }) => {
            lemma_lowering_idempotent(*value, *rv);
            match (slices.kind@[0].kind, rs.kind@[0].kind) {
                (Slice::Index(index), Slice::Index(r_index)) => {
                    lemma_lowering_idempotent(*index, *r_index);
                },
                _ => {},
            }
        },
        (Expr::Attribute { value, .. }, Expr::Attribute { value: rv, .. }) => {
            lemma_lowering_idempotent(*value, *rv);
        },
        (
            Expr::Ternary { if_expr, test, else_expr },
            Expr::Ternary { if_expr: ri, test: rt, else_expr: re },
        ) => {
            lemma_lowering_idempotent(*if_expr, *ri);
            lemma_lowering_idempotent(*test, *rt);
            lemma_lowering_idempotent(*else_expr, *re);
        },
        (Expr::BoolOperation { left, right, .. }, Expr::BoolOperation { left: rl, right: rr, .. }) => {
            lemma_lowering_idempotent(*left, *rl);
            lemma_lowering_idempotent(*right, *rr);
        },
        (Expr::BinOperation { left, right, .. }, Expr::BinOperation { left: rl, right: rr, .. }) => {
            lemma_lowering_idempotent(*left, *rl);
            lemma_lowering_idempotent(*right, *rr);
        },
        (Expr::CompOperation { left, right, .. }, Expr::CompOperation { left: rl, right: rr, .. }) => {
            lemma_lowering_idempotent(*left, *rl);
            lemma_lowering_idempotent(*right, *rr);
        },
        (Expr::UnaryOperation { operand, .. }, Expr::UnaryOperation { operand: ro, .. }) => {
            lemma_lowering_idempotent(*operand, *ro);
        },
        (Expr::Call { func, args }, Expr::Call { func: rf, args: ra }) => {
            lemma_lowering_idempotent(*func, *rf);
            assert forall|i: int| 0 <= i < ra.kind@.len() implies arg_lowerable(
                #[trigger] ra.kind@[i],
            ) && arg_lowers_to(ra.kind@[i], ra.kind@[i]) by {
                assert(arg_lowers_to(args.kind@[i], ra.kind@[i]));
                match (args.kind@[i].kind, ra.kind@[i].kind) {
                    (CallArg::Arg(a), CallArg::Arg(r_a)) => {
                        lemma_lowering_idempotent(a, r_a);
                    },
                    (CallArg::Kwarg(k), CallArg::Kwarg(r_k)) => {
                        lemma_lowering_idempotent(*k.value, *r_k.value);
                    },
                    _ => {},
                }
            }
        },
        _ => {},
    }
}

/// Every subscript in `e` has exactly one slice.
pub open spec fn single_slices(e: Node<Expr>) -> bool
    decreases e,
{
    match e.kind {
        Expr::Subscript { value, slices } => {
            &&& single_slices(*value)
            &&& slices.kind@.len() == 1
            &&& match slices.kind@[0].kind {
                Slice::Index(index) => single_slices(*index),
                Slice::Slice { .. } => true,
            }
        },
        Expr::Attribute { value, .. } => single_slices(*value),
        Expr::Ternary { if_expr, test, else_expr } => single_slices(*if_expr) && single_slices(*test)
            && single_slices(*else_expr),
        Expr::BoolOperation { left, right, .. } => single_slices(*left) && single_slices(*right),
        Expr::BinOperation { left, right, .. } => single_slices(*left) && single_slices(*right),
        Expr::UnaryOperation { operand, .. } => single_slices(*operand),
        Expr::CompOperation { left, right, .. } => single_slices(*left) && single_slices(*right),
        Expr::Call { func, args } => {
            &&& single_slices(*func)
            &&& forall|i: int|
                0 <= i < args.kind@.len() ==> match #[trigger] args.kind@[i].kind {
                    CallArg::Arg(a) => single_slices(a),
                    CallArg::Kwarg(k) => single_slices(*k.value),
                }
        },
        _ => true,
    }
}

/// Lowering drops extra slices and nothing else: where every subscript has
/// a single slice, the lowered expression is the same tree as the input,
/// with every span, operator, name and literal kept.
pub proof fn lemma_lowering_keeps_single_slice_expr(e: Node<Expr>, r: Node<Expr>)
    requires
        lowers_to(e, r),
        single_slices(e),
    ensures
        same_expr(e, r),
    decreases e,
{
    match (e.kind, r.kind) {
        (Expr::Subscript { value, slices }, Expr::Subscript { value: rv, slices: rs }) => {
            lemma_lowering_keeps_single_slice_expr(*value, *rv);
            match (slices.kind@[0].kind, rs.kind@[0].kind) {
                (Slice::Index(index), Slice::Index(r_index)) => {
                    lemma_lowering_keeps_single_slice_expr(*index, *r_index);
                },
                _ => {},
            }
        },
        (Expr::Attribute { value, .. }, Expr::Attribute { value: rv, .. }) => {
            lemma_lowering_keeps_single_slice_expr(*value, *rv);
        },
        (
            Expr::Ternary { if_expr, test, else_expr },
            Expr::Ternary { if_expr: ri, test: rt, else_expr: re },
        ) => {
            lemma_lowering_keeps_single_slice_expr(*if_expr, *ri);
            lemma_lowering_keeps_single_slice_expr(*test, *rt);
            lemma_lowering_keeps_single_slice_expr(*else_expr, *re);
        },
        (Expr::BoolOperation { left, right, .. }, Expr::BoolOperation { left: rl, right: rr, .. }) => {
            lemma_lowering_keeps_single_slice_expr(*left, *rl);
            lemma_lowering_keeps_single_slice_expr(*right, *rr);
        },
        (Expr::BinOperation { left, right, .. }, Expr::BinOperation { left: rl, right: rr, .. }) => {
            lemma_lowering_keeps_single_slice_expr(*left, *rl);
            lemma_lowering_keeps_single_slice_expr(*right, *rr);
        },
        (Expr::CompOperation { left, right, .. }, Expr::CompOperation { left: rl, right: rr, .. }) => {
            lemma_lowering_keeps_single_slice_expr(*left, *rl);
            lemma_lowering_keeps_single_slice_expr(*right, *rr);
        },
        (Expr::UnaryOperation { operand, .. }, Expr::UnaryOperation { operand: ro, .. }) => {
            lemma_lowering_keeps_single_slice_expr(*operand, *ro);
        },
        (Expr::Call { func, args }, Expr::Call { func: rf, args: ra }) => {
            lemma_lowering_keeps_single_slice_expr(*func, *rf);
            assert forall|i: int| 0 <= i < args.kind@.len() implies match (
                #[trigger] args.kind@[i].kind,
                ra.kind@[i].kind,
            ) {
                (CallArg::Arg(x), CallArg::Arg(y)) => same_expr(x, y),
                (CallArg::Kwarg(x), CallArg::Kwarg(y)) => x.name == y.name && same_expr(
                    *x.value,
                    *y.value,
                ),
                _ => false,
            } by {
                match (args.kind@[i].kind, ra.kind@[i].kind) {
                    (CallArg::Arg(a), CallArg::Arg(r_a)) => {
                        lemma_lowering_keeps_single_slice_expr(a, r_a);
                    },
                    (CallArg::Kwarg(k), CallArg::Kwarg(r_k)) => {
                        lemma_lowering_keeps_single_slice_expr(*k.value, *r_k.value);
                    },
                    _ => {},
                }
            }
        },
        _ => {
            assert(r == e);
            lemma_same_expr_reflexive(e);
        },
    }
}

} // verus!
