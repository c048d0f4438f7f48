//! Descriptions of types, and the two structural comparisons on them.

use vstd::prelude::*;

verus! {

/// The shape of a type, as far as the comparisons need it.
#[derive(Debug, PartialEq, Eq)]
pub enum TypeKind {
    Bool,
    Char,
    /// A signed integer of any width.
    Int,
    /// An unsigned integer of any width.
    Uint,
    Str,
    /// One layer of reference to the inner type.
    Ref(Box<TypeDescriptor>),
    /// An array of the inner type; the length plays no part.
    Array(Box<TypeDescriptor>),
    Slice(Box<TypeDescriptor>),
    /// A struct, enum or union, identified by its definition.
    Adt(u64),
    /// A function item or function pointer.
    Function { is_unsafe: bool },
    /// Any other type.
    Other,
}

/// A type together with the name under which it is printed.
///
/// For an `Adt` the name is the path of its definition; for every other kind
/// it is the type as the compiler displays it.
#[derive(Debug, PartialEq, Eq)]
pub struct TypeDescriptor {
    pub kind: TypeKind,
    pub name: String,
}

impl TypeDescriptor {
    /// The number of reference layers around the innermost type.
    pub open spec fn borrow_depth(self) -> nat
        decreases self,
    {
        match self.kind {
            TypeKind::Ref(inner) => 1 + inner.borrow_depth(),
            _ => 0,
        }
    }

    /// Structural equality: primitive kinds equal themselves, references,
    /// arrays and slices are equal where their inner types are, and two
    /// `Adt`s where they have the same definition. Nothing else is equal,
    /// not even to itself.
    pub open spec fn structurally_equal(self, other: TypeDescriptor) -> bool
        decreases self,
    {
        match (self.kind, other.kind) {
            (TypeKind::Bool, TypeKind::Bool) => true,
            (TypeKind::Char, TypeKind::Char) => true,
            (TypeKind::Int, TypeKind::Int) => true,
            (TypeKind::Uint, TypeKind::Uint) => true,
            (TypeKind::Str, TypeKind::Str) => true,
            (TypeKind::Ref(l), TypeKind::Ref(r)) => l.structurally_equal(*r),
            (TypeKind::Array(l), TypeKind::Array(r)) => l.structurally_equal(*r),
            (TypeKind::Slice(l), TypeKind::Slice(r)) => l.structurally_equal(*r),
            (TypeKind::Adt(l), TypeKind::Adt(r)) => l == r,
            (_, _) => false,
        }
    }

    /// The name by which the type is written in a qualified path: the name of
    /// the type that is left once every outer reference is taken away.
    pub open spec fn qualifier(self) -> Seq<char>
        decreases self,
    {
        match self.kind {
            TypeKind::Ref(inner) => inner.qualifier(),
            _ => self.name@,
        }
    }

    /// Whether the type is a function type that is unsafe to call.
    pub open spec fn is_unsafe_function(self) -> bool {
        self.kind matches TypeKind::Function { is_unsafe } && is_unsafe
    }
}

/// Strips matching layers of reference from both sides and tells whether
/// both run out of them at the same depth.
pub fn match_borrow_depth(lhs: &TypeDescriptor, rhs: &TypeDescriptor) -> (same: bool)
    ensures
        same == (lhs.borrow_depth() == rhs.borrow_depth()),
    decreases lhs,
{
    match (&lhs.kind, &rhs.kind) {
        (TypeKind::Ref(l), TypeKind::Ref(r)) => match_borrow_depth(l, r),
        (TypeKind::Ref(_), _) => false,
        (_, TypeKind::Ref(_)) => false,
        (_, _) => true,
    }
}

/// Decides structural equality of two types.
pub fn match_types(lhs: &TypeDescriptor, rhs: &TypeDescriptor) -> (equal: bool)
    ensures
        equal == lhs.structurally_equal(*rhs),
    decreases lhs,
{
    match (&lhs.kind, &rhs.kind) {
        (TypeKind::Bool, TypeKind::Bool)
        | (TypeKind::Char, TypeKind::Char)
        | (TypeKind::Int, TypeKind::Int)
        | (TypeKind::Uint, TypeKind::Uint)
        | (TypeKind::Str, TypeKind::Str) => true,
        (TypeKind::Ref(l), TypeKind::Ref(r))
        | (TypeKind::Array(l), TypeKind::Array(r))
        | (TypeKind::Slice(l), TypeKind::Slice(r)) => match_types(l, r),
        (TypeKind::Adt(l), TypeKind::Adt(r)) => *l == *r,
        (_, _) => false,
    }
}

/// The name to qualify a method of this type with.
pub fn get_type_name(ty: &TypeDescriptor) -> (name: String)
    ensures
        name@ == ty.qualifier(),
    decreases ty,
{
    match &ty.kind {
        TypeKind::Ref(inner) => get_type_name(inner),
        _ => ty.name.clone(),
    }
}

/// Tells whether a value of this type is a function that only unsafe code
/// may call.
pub fn type_is_unsafe_function(ty: &TypeDescriptor) -> (is_unsafe: bool)
    ensures
        is_unsafe == ty.is_unsafe_function(),
{
    match &ty.kind {
        TypeKind::Function { is_unsafe } => *is_unsafe,
        _ => false,
    }
}

} // verus!
