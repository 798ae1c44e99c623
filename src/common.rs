//! Leaf tags shared across the tree: visibility and lifetimes.
use vstd::prelude::*;

verus! {

/// Whether a declaration or field can be seen from outside its module.
#[derive(Debug, PartialEq, Clone)]
pub enum Visibility {
    Public,
    Private,
}

/// A named lifetime annotation, such as `'a`.
#[derive(Debug, PartialEq, Clone)]
pub struct Lifetime {
    pub name: String,
}

impl Lifetime {
    pub fn new(name: String) -> (r: Self)
        ensures
            r.name == name,
    {
        Self { name }
    }
}

} // verus!
