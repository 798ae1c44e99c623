//! Patterns and match arms.
use vstd::prelude::*;
use crate::expressions::Expression;
use crate::statements::Statement;

verus! {

/// An arm of a `match`: a pattern, an optional guard and a body. When the
/// guard fails, selection falls through to the next arm.
#[derive(Debug, PartialEq)]
pub struct MatchArm {
    pub pattern: Pattern,
    pub guard: Option<Expression>,
    pub body: Box<Statement>,
}

impl MatchArm {
    pub fn new(pattern: Pattern, guard: Option<Expression>, body: Box<Statement>) -> (r: Self)
        ensures
            r.pattern == pattern,
            r.guard == guard,
            r.body == body,
    {
        Self { pattern, guard, body }
    }
}

/// The closed set of pattern forms.
#[derive(Debug, PartialEq)]
pub enum Pattern {
    Literal(Expression),
    /// binds the value to a name
    Identifier(String),
    /// `_`
    Wildcard,
    Destructure(DestructurePattern),
    /// an inclusive range between two expressions
    Range(Box<Expression>, Box<Expression>),
    /// alternatives in order; the first that matches wins
    Or(Vec<Pattern>),
}

/// A pattern that takes a value apart. Each field is a name and an optional
/// sub-pattern; without one, the field binds to its own name.
#[derive(Debug, PartialEq)]
pub struct DestructurePattern {
    pub kind: DestructureKind,
    pub fields: Vec<(String, Option<Pattern>)>,
}

/// What a destructuring pattern takes apart.
#[derive(Debug, PartialEq, Clone)]
pub enum DestructureKind {
    /// a struct, by name
    Struct(String),
    Tuple,
    /// a variant, by the names of its enum and of the variant
    Enum(String, String),
}

} // verus!
