//! The root of the tree.
use vstd::prelude::*;
use crate::statements::Statement;

verus! {

/// A parsed unit: its top-level statements, in source order.
#[derive(Default, Debug)]
pub struct Ast {
    pub statements: Vec<Statement>,
}

impl Ast {
    pub fn new() -> (r: Self)
        ensures
            r.statements@.len() == 0,
    {
        Self { statements: Vec::new() }
    }
}

} // verus!
