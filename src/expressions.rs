//! Expressions: literals, operators, functions, calls, member access,
//! memory operations and the error and option forms.
use vstd::prelude::*;
use crate::common::Lifetime;
use crate::memory::{AllocateExpression, CastExpression};
use crate::statements::BlockStatement;
use crate::types::Type;

verus! {

/// The closed set of expression forms. Every child is owned by its parent.
#[derive(Debug, PartialEq)]
pub enum Expression {
    /// a number, held as the IEEE 754 binary64 encoding of its value
    Number(u64),
    Boolean(bool),
    String(String),
    Object(ObjectExpression),
    Array(ArrayExpression),
    Null,
    /// `self`
    Self_,
    Identifier(String),
    Unary(UnaryExpression),
    Update(UpdateExpression),
    Binary(BinaryExpression),
    Function(FunctionExpression),
    Call(CallExpression),
    Member(MemberExpression),
    RawPointer(Box<Expression>),
    AddressOf(Box<Expression>),
    Cast(CastExpression),
    Allocate(AllocateExpression),
    Deallocate(Box<Expression>),
    /// the null pointer, of a given pointee type or of none
    NullPointer(Option<Type>),
    Dereference(Box<Expression>),
    SizeOf(Box<Expression>),
    TypeOf(Box<Expression>),
    /// a runtime check that an expression has a type
    TypeCheck(Box<Expression>, Type),
    /// `e?`
    Try(Box<Expression>),
    /// `Ok(e)`
    ResultOk(Box<Expression>),
    /// `Err(e)`
    ResultErr(Box<Expression>),
    /// `Some(e)`
    OptionSome(Box<Expression>),
    /// `None`
    OptionNone,
}

/// A prefix operator applied to an operand.
#[derive(Debug, PartialEq)]
pub struct UnaryExpression {
    pub operator: String,
    pub right: Box<Expression>,
}

impl UnaryExpression {
    pub fn new(operator: String, right: Box<Expression>) -> (r: Self)
        ensures
            r.operator == operator,
            r.right == right,
    {
        Self { operator, right }
    }
}

/// An increment or decrement of a named variable.
#[derive(Debug, PartialEq, Clone)]
pub struct UpdateExpression {
    pub operator: String,
    pub target_var_name: String,
}

impl UpdateExpression {
    pub fn new(operator: String, target_var_name: String) -> (r: Self)
        ensures
            r.operator == operator,
            r.target_var_name == target_var_name,
    {
        Self { operator, target_var_name }
    }
}

/// An infix operator between two operands.
#[derive(Debug, PartialEq)]
pub struct BinaryExpression {
    pub left: Box<Expression>,
    pub operator: String,
    pub right: Box<Expression>,
}

impl BinaryExpression {
    pub fn new(left: Box<Expression>, operator: String, right: Box<Expression>) -> (r: Self)
        ensures
            r.left == left,
            r.operator == operator,
            r.right == right,
    {
        Self { left, operator, right }
    }
}

/// A function literal: parameters, body and lifetime parameters.
#[derive(Debug, PartialEq)]
pub struct FunctionExpression {
    pub parameters: Vec<FunctionParameter>,
    pub body: BlockStatement,
    pub lifetimes: Vec<Lifetime>,
}

impl FunctionExpression {
    pub fn new(parameters: Vec<FunctionParameter>, body: BlockStatement, lifetimes: Vec<Lifetime>) -> (r: Self)
        ensures
            r.parameters == parameters,
            r.body == body,
            r.lifetimes == lifetimes,
    {
        Self { parameters, body, lifetimes }
    }
}

/// A parameter, with an optional default value.
#[derive(Debug, PartialEq)]
pub struct FunctionParameter {
    pub name: String,
    pub default: Option<Expression>,
}

impl FunctionParameter {
    pub fn new(name: String, default: Option<Expression>) -> (r: Self)
        ensures
            r.name == name,
            r.default == default,
    {
        Self { name, default }
    }
}

/// A call: the callee and the arguments in order.
#[derive(Debug, PartialEq)]
pub struct CallExpression {
    pub callee: Box<Expression>,
    pub arguments: Vec<Expression>,
}

impl CallExpression {
    pub fn new(callee: Box<Expression>, arguments: Vec<Expression>) -> (r: Self)
        ensures
            r.callee == callee,
            r.arguments == arguments,
    {
        Self { callee, arguments }
    }
}

/// An object literal with named properties.
#[derive(Debug, PartialEq)]
pub struct ObjectExpression {
    pub properties: Vec<ObjectProperty>,
}

impl ObjectExpression {
    pub fn new(properties: Vec<ObjectProperty>) -> (r: Self)
        ensures
            r.properties == properties,
    {
        Self { properties }
    }
}

/// One named property of an object literal.
#[derive(Debug, PartialEq)]
pub struct ObjectProperty {
    pub key: String,
    pub val: Expression,
}

impl ObjectProperty {
    pub fn new(key: String, val: Expression) -> (r: Self)
        ensures
            r.key == key,
            r.val == val,
    {
        Self { key, val }
    }
}

/// Member access; both sides are expressions, so chains and computed
/// members can be written.
#[derive(Debug, PartialEq)]
pub struct MemberExpression {
    pub object: Box<Expression>,
    pub property: Box<Expression>,
}

impl MemberExpression {
    pub fn new(object: Box<Expression>, property: Box<Expression>) -> (r: Self)
        ensures
            r.object == object,
            r.property == property,
    {
        Self { object, property }
    }
}

/// An array literal.
#[derive(Debug, PartialEq)]
pub struct ArrayExpression {
    pub elements: Vec<Expression>,
}

impl ArrayExpression {
    pub fn new(elements: Vec<Expression>) -> (r: Self)
        ensures
            r.elements == elements,
    {
        Self { elements }
    }
}

/// Reading back the parts of a binary expression gives exactly the parts it
/// was built from.
pub proof fn lemma_binary_round_trip(left: Box<Expression>, operator: String, right: Box<Expression>)
    ensures
        ({
            let e = Expression::Binary(BinaryExpression { left, operator, right });
            &&& e is Binary
            &&& e->Binary_0.left == left
            &&& e->Binary_0.operator == operator
            &&& e->Binary_0.right == right
        }),
{
}

} // verus!
