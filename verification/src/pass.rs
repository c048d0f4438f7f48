//! The pass that a tree walk calls once for every expression.

use crate::closure::{check_closure, redundancy};
use crate::expr::{call_arguments, Expr, ExprKind};
use crate::finding::{outcome, Finding};
use vstd::prelude::*;

verus! {

/// How a lint is announced to the pipeline that runs it.
#[derive(Clone, Copy, Debug, PartialEq, Eq)]
pub struct Lint {
    pub name: &'static str,
    pub group: &'static str,
    pub description: &'static str,
}

/// Checks for closures which just call another function where the function
/// can be called directly. Unsafe functions, and calls where types get
/// adjusted, are left alone.
///
/// If creating the closure inside the closure has a side effect, moving the
/// closure creation out changes when that side effect runs.
pub struct EtaPass;

/// The expressions that the pass looks at when it visits `expr`: the
/// arguments of a call, the receiver and the arguments of a method call,
/// and nothing for any other expression or for code that a macro of
/// another crate wrote.
pub open spec fn inspected(expr: Expr, in_external_macro: bool) -> Seq<Expr> {
    if in_external_macro {
        Seq::empty()
    } else {
        match expr.kind {
            ExprKind::Call { callee, args } => args@,
            ExprKind::MethodCall { method, receiver, args } => call_arguments(
                Some(&*receiver),
                args@,
            ),
            _ => Seq::empty(),
        }
    }
}

/// Whether `found` is what the pass reports for `expr`: one entry for each
/// inspected expression, in order, each decided by that expression alone.
pub open spec fn reports(expr: Expr, in_external_macro: bool, found: Seq<Option<Finding>>) -> bool {
    let seen = inspected(expr, in_external_macro);
    &&& found.len() == seen.len()
    &&& forall|i: int| 0 <= i < seen.len() ==> outcome(#[trigger] found[i]) == redundancy(seen[i])
}

impl EtaPass {
    /// The lints that this pass can emit.
    pub fn get_lints(&self) -> (lints: Vec<Lint>)
        ensures
            lints@.len() == 1,
            lints@[0].name@ == "REDUNDANT_CLOSURE"@,
            lints@[0].group@ == "style"@,
            lints@[0].description@
                == "redundant closures, i.e. `|a| foo(a)` (which can be written as just `foo`)"@,
    {
        let mut lints: Vec<Lint> = Vec::new();
        lints.push(
            Lint {
                name: "REDUNDANT_CLOSURE",
                group: "style",
                description:
                    "redundant closures, i.e. `|a| foo(a)` (which can be written as just `foo`)",
            },
        );
        lints
    }

    pub fn name(&self) -> (name: &'static str)
        ensures
            name@ == "EtaReduction"@,
    {
        "EtaReduction"
    }

    /// Visits one expression. `in_external_macro` tells whether the
    /// expression comes out of a macro that another crate defines.
    ///
    /// The result has one entry for each argument of a call, the receiver of
    /// a method call first: the finding for the closure at that position, or
    /// nothing.
    pub fn check_expr(&self, expr: &Expr, in_external_macro: bool) -> (found: Vec<Option<Finding>>)
        ensures
            reports(*expr, in_external_macro, found@),
    {
        let mut found: Vec<Option<Finding>> = Vec::new();
        if in_external_macro {
            return found;
        }
        match &expr.kind {
            ExprKind::Call { callee: _, args } => {
                let mut i: usize = 0;
                while i < args.len()
                    invariant
                        i <= args.len(),
                        found@.len() == i,
                        forall|j: int|
                            0 <= j < i ==> outcome(#[trigger] found@[j]) == redundancy(args@[j]),
                    decreases args.len() - i,
                {
                    found.push(check_closure(&args[i]));
                    i += 1;
                }
            },
            ExprKind::MethodCall { method: _, receiver, args } => {
                let ghost seen = call_arguments(Some(&**receiver), args@);
                found.push(check_closure(receiver));
                let mut i: usize = 0;
                while i < args.len()
                    invariant
                        i <= args.len(),
                        found@.len() == i + 1,
                        seen == call_arguments(Some(&**receiver), args@),
                        forall|j: int|
                            0 <= j < i + 1 ==> outcome(#[trigger] found@[j]) == redundancy(seen[j]),
                    decreases args.len() - i,
                {
                    found.push(check_closure(&args[i]));
                    i += 1;
                }
            },
            _ => {},
        }
        found
    }
}

} // verus!
