//! What holds of the detector on every input.

use crate::closure::{qualified_path, redundancy};
use crate::expr::{call_arguments, some_adjusted, text, Expr, ExprKind, Method, Param};
use crate::finding::{outcome, Finding, FindingKind, FindingView};
use crate::inputs::{forwards, forwards_in_order};
use crate::pass::{inspected, reports};
use crate::ty::{TypeDescriptor, TypeKind};
use vstd::prelude::*;

verus! {

/// Whether `closure` is `|params| callee(args)`, with `body` for the call.
pub open spec fn wraps_call(
    closure: Expr,
    params: Seq<Param>,
    body: Expr,
    callee: Expr,
    args: Seq<Expr>,
) -> bool {
    &&& closure.kind matches ExprKind::Closure { params: p, body: b } && p@ == params && *b == body
    &&& body.kind matches ExprKind::Call { callee: c, args: a } && *c == callee && a@ == args
}

/// Whether `closure` is `|params| receiver.method(args)`, with `body` for
/// the method call.
pub open spec fn wraps_method_call(
    closure: Expr,
    params: Seq<Param>,
    body: Expr,
    method: Method,
    receiver: Expr,
    args: Seq<Expr>,
) -> bool {
    &&& closure.kind matches ExprKind::Closure { params: p, body: b } && p@ == params && *b == body
    &&& body.kind matches ExprKind::MethodCall { method: m, receiver: r, args: a } && m == method
        && *r == receiver && a@ == args
}

/// Whether the parameter is a plain binding of `name`.
pub open spec fn binds(param: Param, name: Seq<char>) -> bool {
    param matches Param::Binding(n) && n@ == name
}

/// Whether the expression is the bare name `name`.
pub open spec fn names(arg: Expr, name: Seq<char>) -> bool {
    arg.kind matches ExprKind::Path { segments } && segments@.len() == 1 && segments@[0]@ == name
}

/// The one finding with this replacement.
pub open spec fn redundant(replacement_text: Option<Seq<char>>) -> Option<FindingView> {
    Some(FindingView { kind: FindingKind::Redundant, replacement_text })
}

/// A closure `|a1, .., an| f(a1, .., an)` around a safe function, with
/// nothing adjusted, is reported, and the replacement is the source text
/// of `f`.
pub proof fn lemma_forwarding_call_is_reported(
    closure: Expr,
    params: Seq<Param>,
    body: Expr,
    callee: Expr,
    args: Seq<Expr>,
    idents: Seq<Seq<char>>,
)
    requires
        wraps_call(closure, params, body, callee, args),
        params.len() == idents.len(),
        args.len() == idents.len(),
        forall|i: int| 0 <= i < idents.len() ==> binds(#[trigger] params[i], idents[i]),
        forall|i: int| 0 <= i < idents.len() ==> names(#[trigger] args[i], idents[i]),
        !callee.ty.is_unsafe_function(),
        !body.adjusted,
        forall|i: int| 0 <= i < args.len() ==> !(#[trigger] args[i]).adjusted,
    ensures
        redundancy(closure) == redundant(text(callee.source)),
{
}

/// A closure that hands two differently named parameters on in the other
/// order, `|a, b| f(b, a)`, is never reported.
pub proof fn lemma_swapped_arguments_are_not_reported(
    closure: Expr,
    params: Seq<Param>,
    body: Expr,
    callee: Expr,
    args: Seq<Expr>,
    a: Seq<char>,
    b: Seq<char>,
)
    requires
        wraps_call(closure, params, body, callee, args),
        a != b,
        params.len() == 2,
        args.len() == 2,
        binds(params[0], a),
        binds(params[1], b),
        names(args[0], b),
        names(args[1], a),
    ensures
        redundancy(closure) is None,
{
    assert(!forwards(params[0], args[0]));
}

/// A call with more or fewer arguments than the closure has parameters is
/// never reported.
pub proof fn lemma_arity_mismatch_is_not_reported(
    closure: Expr,
    params: Seq<Param>,
    body: Expr,
    callee: Expr,
    args: Seq<Expr>,
)
    requires
        wraps_call(closure, params, body, callee, args),
        args.len() != params.len(),
    ensures
        redundancy(closure) is None,
{
}

/// A method call is never reported unless the closure has one parameter
/// for the receiver and one for each argument.
pub proof fn lemma_method_arity_mismatch_is_not_reported(
    closure: Expr,
    params: Seq<Param>,
    body: Expr,
    method: Method,
    receiver: Expr,
    args: Seq<Expr>,
)
    requires
        wraps_method_call(closure, params, body, method, receiver, args),
        1 + args.len() != params.len(),
    ensures
        redundancy(closure) is None,
{
}

/// A closure around an unsafe function is never reported, even where the
/// names match exactly.
pub proof fn lemma_unsafe_function_is_not_reported(
    closure: Expr,
    params: Seq<Param>,
    body: Expr,
    callee: Expr,
    args: Seq<Expr>,
)
    requires
        wraps_call(closure, params, body, callee, args),
        callee.ty.is_unsafe_function(),
    ensures
        redundancy(closure) is None,
{
}

/// A closure around an unsafe method is never reported.
pub proof fn lemma_unsafe_method_is_not_reported(
    closure: Expr,
    params: Seq<Param>,
    body: Expr,
    method: Method,
    receiver: Expr,
    args: Seq<Expr>,
)
    requires
        wraps_method_call(closure, params, body, method, receiver, args),
        method.is_unsafe,
    ensures
        redundancy(closure) is None,
{
}

/// A closure whose call is adjusted, or one of whose arguments is, is never
/// reported, even where the names match.
pub proof fn lemma_adjusted_call_is_not_reported(
    closure: Expr,
    params: Seq<Param>,
    body: Expr,
    callee: Expr,
    args: Seq<Expr>,
)
    requires
        wraps_call(closure, params, body, callee, args),
        body.adjusted || some_adjusted(args),
    ensures
        redundancy(closure) is None,
{
}

/// A closure whose method call is adjusted, or one of whose arguments
/// after the receiver is, is never reported.
pub proof fn lemma_adjusted_method_call_is_not_reported(
    closure: Expr,
    params: Seq<Param>,
    body: Expr,
    method: Method,
    receiver: Expr,
    args: Seq<Expr>,
)
    requires
        wraps_method_call(closure, params, body, method, receiver, args),
        body.adjusted || some_adjusted(args),
    ensures
        redundancy(closure) is None,
{
}

/// A closure `|s, a1, .., an| s.m(a1, .., an)` around a safe method that a
/// trait declares, with nothing adjusted and a receiver with as many
/// reference layers as the declared `self`, is reported, and the
/// replacement is the path of the trait, `::`, and the name of the method.
pub proof fn lemma_trait_method_is_reported(
    closure: Expr,
    params: Seq<Param>,
    body: Expr,
    method: Method,
    receiver: Expr,
    args: Seq<Expr>,
    trait_path: String,
)
    requires
        wraps_method_call(closure, params, body, method, receiver, args),
        1 + args.len() == params.len(),
        forwards_in_order(params, call_arguments(Some(&receiver), args)),
        !method.is_unsafe,
        !body.adjusted,
        !some_adjusted(args),
        method.trait_path == Some(trait_path),
        method.self_ty.borrow_depth() == receiver.ty.borrow_depth(),
    ensures
        redundancy(closure) == redundant(Some(qualified_path(trait_path@, method.name@))),
{
}

/// A closure around a method that cannot be named through a trait, and
/// whose receiver has another type than the declared `self`, as after a
/// dereference, is never reported, even where the names match.
pub proof fn lemma_other_receiver_type_is_not_reported(
    closure: Expr,
    params: Seq<Param>,
    body: Expr,
    method: Method,
    receiver: Expr,
    args: Seq<Expr>,
)
    requires
        wraps_method_call(closure, params, body, method, receiver, args),
        method.trait_path is None || method.self_ty.borrow_depth() != receiver.ty.borrow_depth(),
        !method.self_ty.structurally_equal(receiver.ty),
    ensures
        redundancy(closure) is None,
{
}

/// Two runs of the detector on one expression report the same.
pub proof fn lemma_detection_is_repeatable(
    expr: Expr,
    first: Option<Finding>,
    second: Option<Finding>,
)
    requires
        outcome(first) == redundancy(expr),
        outcome(second) == redundancy(expr),
    ensures
        outcome(first) == outcome(second),
{
}

/// What the pass reports for one argument of a call does not depend on
/// the other arguments: two calls with the same expression at a position
/// are reported alike at that position.
pub proof fn lemma_siblings_do_not_interfere(
    left: Expr,
    right: Expr,
    left_found: Seq<Option<Finding>>,
    right_found: Seq<Option<Finding>>,
    i: int,
)
    requires
        reports(left, false, left_found),
        reports(right, false, right_found),
        0 <= i < inspected(left, false).len(),
        0 <= i < inspected(right, false).len(),
        inspected(left, false)[i] == inspected(right, false)[i],
    ensures
        outcome(left_found[i]) == outcome(right_found[i]),
{
}

/// Types that are structurally equal have the same number of reference
/// layers, so a receiver that passes the test for an inherent method passes
/// the one for a trait method too.
pub proof fn lemma_equal_types_have_equal_depth(lhs: TypeDescriptor, rhs: TypeDescriptor)
    requires
        lhs.structurally_equal(rhs),
    ensures
        lhs.borrow_depth() == rhs.borrow_depth(),
    decreases lhs,
{
    match (lhs.kind, rhs.kind) {
        (TypeKind::Ref(l), TypeKind::Ref(r)) => {
            lemma_equal_types_have_equal_depth(*l, *r);
        },
        (_, _) => {},
    }
}

} // verus!
