//! Type annotations: primitives, compound types, pointers and references.
use vstd::prelude::*;
use crate::common::Lifetime;

verus! {

/// Whether a pointer or reference permits writes through it.
#[derive(Debug, PartialEq, Clone)]
pub enum Mutability {
    Const,
    Mut,
}

/// The closed set of type forms. Mutability and lifetimes are part of the
/// structure, decided when the node is built.
#[derive(Debug, PartialEq)]
pub enum Type {
    I8,
    I16,
    I32,
    I64,
    I128,
    U8,
    U16,
    U32,
    U64,
    U128,
    F32,
    F64,
    Bool,
    Char,
    String,
    /// `fn(T, U) -> V`: parameter types and the return type
    Function(Vec<Type>, Box<Type>),
    Struct(String),
    Enum(String),
    /// `[T; n]`, or `[T]` of a length not known here
    Array(Box<Type>, Option<usize>),
    Slice(Box<Type>),
    /// `*const T` or `*mut T`
    RawPointer(Box<Type>, Mutability),
    /// `&T` or `&mut T`
    Reference(Box<Type>, Mutability),
    /// `&'a T` or `&'a mut T`
    ReferenceWithLifetime(Box<Type>, Mutability, Vec<Lifetime>),
    /// a type known by name only
    Named(String),
    Result(Box<Type>, Box<Type>),
    Option(Box<Type>),
    /// `()`
    Unit,
}

} // verus!
