//! Grammar model for the front end of a compiler of a Rust-like systems
//! language: token classification, the operator precedence table, and the
//! abstract syntax tree that a parser builds and later stages traverse.
use vstd::prelude::*;

pub mod ast;
pub mod common;
pub mod declarations;
pub mod expressions;
pub mod memory;
pub mod patterns;
pub mod precedence;
pub mod statements;
pub mod token;
pub mod types;

pub use ast::Ast;
pub use common::{Lifetime, Visibility};
pub use declarations::{
    EnumDeclaration, EnumVariant, EnumVariantFields, MethodDeclaration, MethodSignature,
    ModuleDeclaration, StructDeclaration, StructField, TraitDeclaration, TraitImplementation,
    UseStatement,
};
pub use expressions::{
    ArrayExpression, BinaryExpression, CallExpression, Expression, FunctionExpression,
    FunctionParameter, MemberExpression, ObjectExpression, ObjectProperty, UnaryExpression,
    UpdateExpression,
};
pub use memory::{AllocateExpression, CastExpression};
pub use patterns::{DestructureKind, DestructurePattern, MatchArm, Pattern};
pub use precedence::Precedence;
pub use statements::{
    BlockStatement, ConstStatement, ForInit, ForStatement, IfStatement, LetStatement,
    MatchStatement, Statement, SwitchCase, SwitchStatement, WhileStatement,
};
pub use token::{lookup_ident, Token, TokenType};
pub use types::{Mutability, Type};

verus! {

} // verus!
