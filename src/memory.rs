//! Expressions that work on memory directly: allocation and casts.
use vstd::prelude::*;
use crate::expressions::Expression;
use crate::types::Type;

verus! {

/// Allocation of a value of a type, with an optional element count.
#[derive(Debug, PartialEq)]
pub struct AllocateExpression {
    pub type_: Type,
    pub size: Option<Box<Expression>>,
}

impl AllocateExpression {
    pub fn new(type_: Type, size: Option<Box<Expression>>) -> (r: Self)
        ensures
            r.type_ == type_,
            r.size == size,
    {
        Self { type_, size }
    }
}

/// A conversion of an expression to a target type.
#[derive(Debug, PartialEq)]
pub struct CastExpression {
    pub expression: Box<Expression>,
    pub target_type: Type,
}

impl CastExpression {
    pub fn new(expression: Box<Expression>, target_type: Type) -> (r: Self)
        ensures
            r.expression == expression,
            r.target_type == target_type,
    {
        Self { expression, target_type }
    }
}

} // verus!
