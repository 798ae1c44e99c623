//! Declarations: structs, enums, traits and their implementations,
//! modules and imports.
use vstd::prelude::*;
use crate::common::Visibility;
use crate::expressions::FunctionParameter;
use crate::statements::{BlockStatement, Statement};
use crate::types::Type;

verus! {

/// An import: the path's segments in order, and an optional alias.
#[derive(Debug, PartialEq, Clone)]
pub struct UseStatement {
    pub path: Vec<String>,
    pub alias: Option<String>,
}

impl UseStatement {
    pub fn new(path: Vec<String>, alias: Option<String>) -> (r: Self)
        ensures
            r.path == path,
            r.alias == alias,
    {
        Self { path, alias }
    }
}

/// A module and the statements it holds.
#[derive(Debug, PartialEq)]
pub struct ModuleDeclaration {
    pub name: String,
    pub statements: Vec<Statement>,
}

impl ModuleDeclaration {
    pub fn new(name: String, statements: Vec<Statement>) -> (r: Self)
        ensures
            r.name == name,
            r.statements == statements,
    {
        Self { name, statements }
    }
}

/// A struct with its fields and methods.
#[derive(Debug, PartialEq)]
pub struct StructDeclaration {
    pub name: String,
    pub fields: Vec<StructField>,
    pub methods: Vec<MethodDeclaration>,
}

impl StructDeclaration {
    pub fn new(name: String, fields: Vec<StructField>, methods: Vec<MethodDeclaration>) -> (r: Self)
        ensures
            r.name == name,
            r.fields == fields,
            r.methods == methods,
    {
        Self { name, fields, methods }
    }
}

/// A named, typed field.
#[derive(Debug, PartialEq)]
pub struct StructField {
    pub name: String,
    pub type_: Type,
    pub visibility: Visibility,
}

impl StructField {
    pub fn new(name: String, type_: Type, visibility: Visibility) -> (r: Self)
        ensures
            r.name == name,
            r.type_ == type_,
            r.visibility == visibility,
    {
        Self { name, type_, visibility }
    }
}

/// A method, which always has a body.
#[derive(Debug, PartialEq)]
pub struct MethodDeclaration {
    pub name: String,
    pub parameters: Vec<FunctionParameter>,
    pub return_type: Type,
    pub body: BlockStatement,
    pub visibility: Visibility,
}

impl MethodDeclaration {
    pub fn new(name: String, parameters: Vec<FunctionParameter>, return_type: Type, body: BlockStatement, visibility: Visibility) -> (r: Self)
        ensures
            r.name == name,
            r.parameters == parameters,
            r.return_type == return_type,
            r.body == body,
            r.visibility == visibility,
    {
        Self { name, parameters, return_type, body, visibility }
    }
}

/// An enum with its variants and methods.
#[derive(Debug, PartialEq)]
pub struct EnumDeclaration {
    pub name: String,
    pub variants: Vec<EnumVariant>,
    pub methods: Vec<MethodDeclaration>,
}

impl EnumDeclaration {
    pub fn new(name: String, variants: Vec<EnumVariant>, methods: Vec<MethodDeclaration>) -> (r: Self)
        ensures
            r.name == name,
            r.variants == variants,
            r.methods == methods,
    {
        Self { name, variants, methods }
    }
}

/// A variant of an enum; with no fields it is a unit variant.
#[derive(Debug, PartialEq)]
pub struct EnumVariant {
    pub name: String,
    pub fields: Vec<StructField>,
}

impl EnumVariant {
    pub fn new(name: String, fields: Vec<StructField>) -> (r: Self)
        ensures
            r.name == name,
            r.fields == fields,
    {
        Self { name, fields }
    }

    /// Whether this is a unit variant, one that carries no fields.
    pub fn is_unit(&self) -> (r: bool)
        ensures
            r == (self.fields@.len() == 0),
    {
        self.fields.len() == 0
    }
}

/// A unit variant and a variant that carries fields are never the same
/// variant, whatever their names.
pub proof fn lemma_unit_variant_is_distinct(unit: EnumVariant, data: EnumVariant)
    requires
        unit.fields@.len() == 0,
        data.fields@.len() > 0,
    ensures
        unit != data,
{
}

/// The fields of a variant, by position or by name.
#[derive(Debug, PartialEq)]
pub enum EnumVariantFields {
    /// `Variant(T1, T2)`
    Unnamed(Vec<Type>),
    /// `Variant { a: T1, b: T2 }`
    Named(Vec<StructField>),
}

/// A trait and the signatures of its methods.
#[derive(Debug, PartialEq)]
pub struct TraitDeclaration {
    pub name: String,
    pub method_signatures: Vec<MethodSignature>,
}

impl TraitDeclaration {
    pub fn new(name: String, method_signatures: Vec<MethodSignature>) -> (r: Self)
        ensures
            r.name == name,
            r.method_signatures == method_signatures,
    {
        Self { name, method_signatures }
    }
}

/// A method of a trait. Without a return type it returns unit; without a
/// default body it is abstract, and each implementation must provide it.
#[derive(Debug, PartialEq)]
pub struct MethodSignature {
    pub name: String,
    pub parameters: Vec<FunctionParameter>,
    pub return_type: Option<Type>,
    pub default_impl: Option<BlockStatement>,
}

impl MethodSignature {
    pub fn new(name: String, parameters: Vec<FunctionParameter>, return_type: Option<Type>, default_impl: Option<BlockStatement>) -> (r: Self)
        ensures
            r.name == name,
            r.parameters == parameters,
            r.return_type == return_type,
            r.default_impl == default_impl,
    {
        Self { name, parameters, return_type, default_impl }
    }

    /// Whether the method is abstract: it has no default body, so each
    /// implementation of the trait must provide one.
    pub fn is_abstract(&self) -> (r: bool)
        ensures
            r == (self.default_impl is None),
    {
        self.default_impl.is_none()
    }
}

/// An abstract method signature and one with a default body are never the
/// same signature, even when their names, parameters and return types agree.
pub proof fn lemma_abstract_signature_is_distinct(abstract_sig: MethodSignature, provided: MethodSignature)
    requires
        abstract_sig.default_impl is None,
        provided.default_impl is Some,
    ensures
        abstract_sig != provided,
{
}

/// An implementation of a trait for a type.
#[derive(Debug, PartialEq)]
pub struct TraitImplementation {
    pub trait_name: String,
    pub for_type: Type,
    pub methods: Vec<MethodDeclaration>,
}

impl TraitImplementation {
    pub fn new(trait_name: String, for_type: Type, methods: Vec<MethodDeclaration>) -> (r: Self)
        ensures
            r.trait_name == trait_name,
            r.for_type == for_type,
            r.methods == methods,
    {
        Self { trait_name, for_type, methods }
    }
}

} // verus!
