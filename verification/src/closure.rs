//! The detector: is a closure nothing but a call that hands its parameters
//! on, in order and unchanged?

use crate::expr::{any_adjusted, call_arguments, some_adjusted, text, Expr, ExprKind, Param};
use crate::finding::{outcome, Finding, FindingKind, FindingView};
use crate::inputs::{compare_inputs, forwards_in_order};
use crate::ty::type_is_unsafe_function;
use crate::ufcs::{get_ufcs_type_name, ufcs_qualifier};
use vstd::prelude::*;
use vstd::string::StringExecFns;

verus! {

/// The path `qualifier::method`.
pub open spec fn qualified_path(qualifier: Seq<char>, method: Seq<char>) -> Seq<char> {
    qualifier + seq![':', ':'] + method
}

/// The finding for a closure with these parameters whose body is `body`,
/// where `body` is a call `callee(args)`.
///
/// There is one exactly if the call has as many arguments as the closure
/// has parameters, neither the call nor an argument is adjusted, the callee
/// is not an unsafe function, and the arguments are the parameters in
/// order. The replacement is the source text of the callee.
pub open spec fn direct_call_finding(params: Seq<Param>, body: Expr) -> Option<FindingView> {
    match body.kind {
        ExprKind::Call { callee, args } => {
            let redundant = {
                &&& args@.len() == params.len()
                &&& !body.adjusted
                &&& !some_adjusted(args@)
                &&& !callee.ty.is_unsafe_function()
                &&& forwards_in_order(params, args@)
            };
            if redundant {
                Some(
                    FindingView {
                        kind: FindingKind::Redundant,
                        replacement_text: text(callee.source),
                    },
                )
            } else {
                None
            }
        },
        _ => None,
    }
}

/// The finding for a closure with these parameters whose body is `body`,
/// where `body` is a method call `receiver.method(args)`.
///
/// The receiver counts as the first argument where lengths and names are
/// compared, so the first parameter has to name it. The adjustment of the
/// receiver itself is not looked at: what matters of it is decided where
/// the qualifier is chosen. There is no finding where no qualifier exists.
pub open spec fn method_call_finding(params: Seq<Param>, body: Expr) -> Option<FindingView> {
    match body.kind {
        ExprKind::MethodCall { method, receiver, args } => {
            let qualifier = ufcs_qualifier(method, receiver.ty);
            let redundant = {
                &&& 1 + args@.len() == params.len()
                &&& !body.adjusted
                &&& !some_adjusted(args@)
                &&& !method.is_unsafe
                &&& forwards_in_order(params, call_arguments(Some(&*receiver), args@))
            };
            if redundant && qualifier is Some {
                Some(
                    FindingView {
                        kind: FindingKind::Redundant,
                        replacement_text: Some(qualified_path(qualifier->0, method.name@)),
                    },
                )
            } else {
                None
            }
        },
        _ => None,
    }
}

/// The finding for an expression: one for a closure whose body is a single
/// call or method call that only forwards, none for anything else.
pub open spec fn redundancy(expr: Expr) -> Option<FindingView> {
    match expr.kind {
        ExprKind::Closure { params, body } => match body.kind {
            ExprKind::Call { .. } => direct_call_finding(params@, *body),
            ExprKind::MethodCall { .. } => method_call_finding(params@, *body),
            _ => None,
        },
        _ => None,
    }
}

/// Looks at one expression and reports it if it is a redundant closure.
pub fn check_closure(expr: &Expr) -> (found: Option<Finding>)
    ensures
        outcome(found) == redundancy(*expr),
{
    if let ExprKind::Closure { params, body } = &expr.kind {
        match &body.kind {
            ExprKind::Call { callee, args } => {
                // Not the same number of arguments: the closure cannot be the function.
                if args.len() == params.len()
                    // An adjusted call or argument needs the closure.
                    && !(body.adjusted || any_adjusted(args))
                    && !type_is_unsafe_function(&callee.ty)
                    && compare_inputs(params, None, args) {
                    let replacement_text = match &callee.source {
                        Some(snippet) => Some(snippet.clone()),
                        None => None,
                    };
                    return Some(Finding { kind: FindingKind::Redundant, replacement_text });
                }
            },
            ExprKind::MethodCall { method, receiver, args } => {
                if params.len() >= 1 && args.len() == params.len() - 1
                    && !(body.adjusted || any_adjusted(args))
                    && !method.is_unsafe
                    && compare_inputs(params, Some(&**receiver), args) {
                    if let Some(name) = get_ufcs_type_name(method, receiver) {
                        let mut path = name;
                        path.append("::");
                        path.append(method.name.as_str());
                        proof {
                            reveal_strlit("::");
                            assert("::"@ =~= seq![':', ':']);
                        }
                        return Some(
                            Finding { kind: FindingKind::Redundant, replacement_text: Some(path) },
                        );
                    }
                }
            },
            _ => {},
        }
    }
    None
}

} // verus!
