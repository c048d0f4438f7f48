//! The name that qualifies a method when it is written as a path.

use crate::expr::{Expr, Method, text};
use crate::ty::{get_type_name, match_borrow_depth, match_types, TypeDescriptor};
use vstd::prelude::*;

verus! {

/// The qualifier under which `method` can be named in place of a call on a
/// receiver of type `actual`.
///
/// A method that a trait declares is named through the trait, provided the
/// receiver has as many reference layers as the declared `self`. Otherwise a
/// method from an inherent `impl` block is named through the receiver's type,
/// provided that type equals the declared `self` structurally: a receiver
/// that reaches the method through a dereference has another type, and
/// neither name would be right for it.
pub open spec fn ufcs_qualifier(method: Method, actual: TypeDescriptor) -> Option<Seq<char>> {
    if method.trait_path is Some && method.self_ty.borrow_depth() == actual.borrow_depth() {
        text(method.trait_path)
    } else if method.inherent && method.self_ty.structurally_equal(actual) {
        Some(actual.qualifier())
    } else {
        None
    }
}

/// Tries to determine the type or trait to name the method through.
pub fn get_ufcs_type_name(method: &Method, self_arg: &Expr) -> (name: Option<String>)
    ensures
        text(name) == ufcs_qualifier(*method, self_arg.ty),
{
    let expected_type_of_self = &method.self_ty;
    let actual_type_of_self = &self_arg.ty;

    if let Some(trait_path) = &method.trait_path {
        if match_borrow_depth(expected_type_of_self, actual_type_of_self) {
            return Some(trait_path.clone());
        }
    }
    if method.inherent && match_types(expected_type_of_self, actual_type_of_self) {
        return Some(get_type_name(actual_type_of_self));
    }
    None
}

} // verus!
