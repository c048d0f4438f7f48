//! Detection of closures that only forward their parameters to a function or
//! a method, such as `|a, b| f(a, b)`, which can be written as `f`.
//!
//! The library works on a typed snapshot of the expression tree: every
//! [`Expr`] carries its type, whether the compiler adjusts it, and its source
//! text, so that each decision is a pure function of the snapshot.

pub mod closure;
pub mod expr;
pub mod finding;
pub mod inputs;
pub mod laws;
pub mod pass;
pub mod ty;
pub mod ufcs;

pub use closure::check_closure;
pub use expr::{any_adjusted, Expr, ExprKind, Method, Param};
pub use finding::{Finding, FindingKind, FindingView};
pub use inputs::{compare_inputs, is_forwarded};
pub use pass::{EtaPass, Lint};
pub use ty::{
    get_type_name, match_borrow_depth, match_types, type_is_unsafe_function, TypeDescriptor,
    TypeKind,
};
pub use ufcs::get_ufcs_type_name;
