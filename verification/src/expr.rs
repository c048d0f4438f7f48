//! The expressions that the detector looks at, annotated with what type
//! checking found out about them.

use crate::ty::TypeDescriptor;
use vstd::prelude::*;

verus! {

/// A parameter of a closure.
#[derive(Debug, PartialEq, Eq)]
pub enum Param {
    /// A plain binding to a name, such as `x`.
    Binding(String),
    /// Any pattern that takes the argument apart, such as `(a, b)` or `_`.
    Pattern,
}

/// The method that a method call resolves to.
#[derive(Debug, PartialEq, Eq)]
pub struct Method {
    /// The name written at the call site.
    pub name: String,
    /// Whether the method can only be called from unsafe code.
    pub is_unsafe: bool,
    /// The type that the method declares for its `self` parameter.
    pub self_ty: TypeDescriptor,
    /// The path of the trait that declares the method, if one does.
    pub trait_path: Option<String>,
    /// Whether the method is defined in an inherent `impl` block, one that
    /// implements no trait.
    pub inherent: bool,
}

/// The shapes of expression that the detector tells apart.
#[derive(Debug, PartialEq, Eq)]
pub enum ExprKind {
    /// A path without a self type: a name `x`, or several segments `a::b`.
    Path { segments: Vec<String> },
    /// A path that goes through a type, such as `<T as Tr>::f` or `T::f`.
    TypePath,
    /// `callee(args)`
    Call { callee: Box<Expr>, args: Vec<Expr> },
    /// `receiver.method(args)`
    MethodCall { method: Method, receiver: Box<Expr>, args: Vec<Expr> },
    /// `|params| body`
    Closure { params: Vec<Param>, body: Box<Expr> },
    /// Any other expression.
    Other,
}

/// An expression with its type and the facts that only the compiler knows.
#[derive(Debug, PartialEq, Eq)]
pub struct Expr {
    pub kind: ExprKind,
    /// The type of the expression before any adjustment.
    pub ty: TypeDescriptor,
    /// Whether the compiler coerces the value where it is used (a
    /// dereference, an unsizing, a reborrow).
    pub adjusted: bool,
    /// The source text of the expression, where it can be recovered.
    pub source: Option<String>,
}

/// The contents of an optional text.
pub open spec fn text(s: Option<String>) -> Option<Seq<char>> {
    match s {
        Some(s) => Some(s@),
        None => None,
    }
}

/// The arguments of a call in order, the receiver of a method call first.
pub open spec fn call_arguments(receiver: Option<&Expr>, args: Seq<Expr>) -> Seq<Expr> {
    match receiver {
        Some(r) => seq![*r] + args,
        None => args,
    }
}

/// Whether one of the expressions is adjusted by the compiler.
pub open spec fn some_adjusted(exprs: Seq<Expr>) -> bool {
    exists|i: int| 0 <= i < exprs.len() && (#[trigger] exprs[i]).adjusted
}

/// Tells whether the compiler adjusts one of the expressions.
pub fn any_adjusted(exprs: &Vec<Expr>) -> (found: bool)
    ensures
        found == some_adjusted(exprs@),
{
    let mut i: usize = 0;
    while i < exprs.len()
        invariant
            i <= exprs.len(),
            forall|j: int| 0 <= j < i ==> !(#[trigger] exprs@[j]).adjusted,
        decreases exprs.len() - i,
    {
        if exprs[i].adjusted {
            return true;
        }
        i += 1;
    }
    false
}

} // verus!
