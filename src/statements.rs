//! Statements: bindings, control flow, blocks, matches and declarations.
use vstd::prelude::*;
use crate::declarations::{
    EnumDeclaration, ModuleDeclaration, StructDeclaration, TraitDeclaration, TraitImplementation,
    UseStatement,
};
use crate::expressions::Expression;
use crate::patterns::MatchArm;

verus! {

/// The closed set of statement forms.
#[derive(Debug, PartialEq)]
pub enum Statement {
    Let(LetStatement),
    Const(ConstStatement),
    Return(Expression),
    Expression(Expression),
    If(IfStatement),
    Block(BlockStatement),
    For(ForStatement),
    While(WhileStatement),
    Continue,
    Break,
    /// a block in which raw memory operations are permitted
    Unsafe(BlockStatement),
    Match(MatchStatement),
    StructDecl(StructDeclaration),
    EnumDecl(EnumDeclaration),
    TraitDecl(TraitDeclaration),
    ImplTrait(TraitImplementation),
    ModuleDecl(ModuleDeclaration),
    Use(UseStatement),
}

/// The initialiser of a `for` loop: a statement or an expression.
#[derive(Debug, PartialEq)]
pub enum ForInit {
    Statement(Box<Statement>),
    Expression(Expression),
}

/// A `let` binding; its type is left to later stages.
#[derive(Debug, PartialEq)]
pub struct LetStatement {
    pub name: String,
    pub val: Expression,
}

impl LetStatement {
    pub fn new(name: String, val: Expression) -> (r: Self)
        ensures
            r.name == name,
            r.val == val,
    {
        Self { name, val }
    }
}

/// A `const` binding.
#[derive(Debug, PartialEq)]
pub struct ConstStatement {
    pub name: String,
    pub val: Expression,
}

impl ConstStatement {
    pub fn new(name: String, val: Expression) -> (r: Self)
        ensures
            r.name == name,
            r.val == val,
    {
        Self { name, val }
    }
}

/// A sequence of statements that opens a scope.
#[derive(Debug, PartialEq)]
pub struct BlockStatement {
    pub statement: Vec<Statement>,
}

impl BlockStatement {
    pub fn new(statement: Vec<Statement>) -> (r: Self)
        ensures
            r.statement == statement,
    {
        Self { statement }
    }
}

/// A conditional, with an optional alternate branch.
#[derive(Debug, PartialEq)]
pub struct IfStatement {
    pub test: Expression,
    pub consequence: Box<Statement>,
    pub alternate: Box<Option<Statement>>,
}

impl IfStatement {
    pub fn new(test: Expression, consequence: Box<Statement>, alternate: Box<Option<Statement>>) -> (r: Self)
        ensures
            r.test == test,
            r.consequence == consequence,
            r.alternate == alternate,
    {
        Self { test, consequence, alternate }
    }
}

/// A multi-way branch on a value.
#[derive(Debug, PartialEq)]
pub struct SwitchStatement {
    pub discriminant: Expression,
    pub cases: Vec<SwitchCase>,
}

impl SwitchStatement {
    pub fn new(discriminant: Expression, cases: Vec<SwitchCase>) -> (r: Self)
        ensures
            r.discriminant == discriminant,
            r.cases == cases,
    {
        Self { discriminant, cases }
    }
}

/// One case of a switch; a case without a test is the default.
#[derive(Debug, PartialEq)]
pub struct SwitchCase {
    pub test: Option<Expression>,
    pub consequent: Vec<Statement>,
}

impl SwitchCase {
    pub fn new(test: Option<Expression>, consequent: Vec<Statement>) -> (r: Self)
        ensures
            r.test == test,
            r.consequent == consequent,
    {
        Self { test, consequent }
    }
}

/// A `for` loop whose initialiser, test and update may each be absent.
#[derive(Debug, PartialEq)]
pub struct ForStatement {
    pub init: Option<ForInit>,
    pub test: Option<Expression>,
    pub update: Option<Expression>,
    pub body: Box<Statement>,
}

impl ForStatement {
    pub fn new(init: Option<ForInit>, test: Option<Expression>, update: Option<Expression>, body: Box<Statement>) -> (r: Self)
        ensures
            r.init == init,
            r.test == test,
            r.update == update,
            r.body == body,
    {
        Self { init, test, update, body }
    }
}

/// A `while` loop.
#[derive(Debug, PartialEq)]
pub struct WhileStatement {
    pub condition: Expression,
    pub body: Box<Statement>,
}

impl WhileStatement {
    pub fn new(condition: Expression, body: Box<Statement>) -> (r: Self)
        ensures
            r.condition == condition,
            r.body == body,
    {
        Self { condition, body }
    }
}

/// A `match` on a value, with its arms in order.
#[derive(Debug, PartialEq)]
pub struct MatchStatement {
    pub value: Expression,
    pub arms: Vec<MatchArm>,
}

impl MatchStatement {
    pub fn new(value: Expression, arms: Vec<MatchArm>) -> (r: Self)
        ensures
            r.value == value,
            r.arms == arms,
    {
        Self { value, arms }
    }
}

} // verus!
