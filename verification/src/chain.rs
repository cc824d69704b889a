//! Chain identifiers.

use vstd::prelude::*;
use crate::text::{owned, str_eq};

verus! {

/// The identifier of a supported chain, such as `bitcoin` or `sui`.
#[derive(Clone, Debug, PartialEq, Eq, Hash)]
pub struct ChainId {
    name: String,
}

impl View for ChainId {
    type V = Seq<char>;

    closed spec fn view(&self) -> Seq<char> {
        self.name@
    }
}

impl ChainId {
    /// The chain with the given name.
    pub fn new(name: &str) -> (c: Self)
        ensures
            c@ == name@,
    {
        ChainId { name: owned(name) }
    }

    /// The name of the chain.
    pub fn as_str(&self) -> (s: &str)
        ensures
            s@ == self@,
    {
        self.name.as_str()
    }

    /// Whether this is the chain with the given name.
    pub fn is(&self, name: &str) -> (b: bool)
        ensures
            b == (self@ == name@),
    {
        str_eq(self.name.as_str(), name)
    }

    /// Whether two identifiers name the same chain.
    pub fn same(&self, other: &ChainId) -> (b: bool)
        ensures
            b == (self@ == other@),
    {
        str_eq(self.name.as_str(), other.name.as_str())
    }

    /// A copy of this identifier.
    pub fn copy(&self) -> (c: Self)
        ensures
            c == *self,
    {
        ChainId { name: self.name.clone() }
    }
}

} // verus!
