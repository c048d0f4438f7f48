//! Matching the parameters of a closure against the arguments of the call
//! in its body.

use crate::expr::{call_arguments, Expr, ExprKind, Param};
use vstd::prelude::*;

verus! {

/// Whether the argument is nothing but the name that the parameter binds.
///
/// The match goes by spelling alone; the types of the two play no part.
pub open spec fn forwards(param: Param, arg: Expr) -> bool {
    match (param, arg.kind) {
        (Param::Binding(name), ExprKind::Path { segments }) => {
            segments@.len() == 1 && segments@[0]@ == name@
        },
        (_, _) => false,
    }
}

/// Whether every parameter that has an argument at its position is
/// forwarded by that argument.
pub open spec fn forwards_in_order(params: Seq<Param>, args: Seq<Expr>) -> bool {
    forall|i: int| 0 <= i < params.len() && i < args.len() ==> forwards(params[i], args[i])
}

/// Decides whether one argument forwards one parameter.
pub fn is_forwarded(param: &Param, arg: &Expr) -> (same: bool)
    ensures
        same == forwards(*param, *arg),
{
    match param {
        Param::Binding(name) => match &arg.kind {
            ExprKind::Path { segments } => segments.len() == 1 && segments[0] == *name,
            _ => false,
        },
        Param::Pattern => false,
    }
}

/// Walks the parameters and the arguments side by side, the receiver of a
/// method call counting as the first argument, and stops at the first pair
/// that does not match or where either side ends.
///
/// The caller compares the two lengths beforehand: a pair is only looked at
/// where both sides have one.
pub fn compare_inputs(
    closure_inputs: &Vec<Param>,
    receiver: Option<&Expr>,
    call_args: &Vec<Expr>,
) -> (all: bool)
    ensures
        all == forwards_in_order(closure_inputs@, call_arguments(receiver, call_args@)),
{
    let ghost full = call_arguments(receiver, call_args@);
    let mut i: usize = 0;
    while i < closure_inputs.len()
        invariant
            i <= closure_inputs.len(),
            full == call_arguments(receiver, call_args@),
            forall|j: int| 0 <= j < i && j < full.len() ==> forwards(closure_inputs@[j], full[j]),
        decreases closure_inputs.len() - i,
    {
        let function_arg: &Expr = match receiver {
            Some(r) => {
                if i == 0 {
                    r
                } else if i - 1 < call_args.len() {
                    &call_args[i - 1]
                } else {
                    return true;
                }
            },
            None => {
                if i < call_args.len() {
                    &call_args[i]
                } else {
                    return true;
                }
            },
        };
        assert(i < full.len() && *function_arg == full[i as int]);
        if !is_forwarded(&closure_inputs[i], function_arg) {
            return false;
        }
        i += 1;
    }
    true
}

} // verus!
