//! The symbol table: a mapping from label name to the address where the
//! label was defined.
//!
//! Built incrementally during pass 1, read-only during pass 2.  No entry
//! is ever removed, and a name is never silently redefined: the caller
//! checks for presence first and reports a duplicate as an error.

use vstd::prelude::*;
use vstd::hash_map::StringHashMap;
use crate::token::Label;

verus! {

/// A mapping from label name to resolved address.
pub struct SymbolTable {
    map: StringHashMap<usize>,
}

impl View for SymbolTable {
    type V = Map<Seq<char>, usize>;

    closed spec fn view(&self) -> Map<Seq<char>, usize> {
        self.map@
    }
}

impl SymbolTable {
    /// An empty table.
    pub fn new() -> (r: Self)
        ensures
            r@ == Map::<Seq<char>, usize>::empty(),
    {
        SymbolTable { map: StringHashMap::new() }
    }

    /// Whether a label of this name has been defined.
    pub fn contains(&self, name: &str) -> (r: bool)
        ensures
            r == self@.contains_key(name@),
    {
        self.map.contains_key(name)
    }

    /// The address a name was defined at, if it was.
    pub fn lookup(&self, name: &str) -> (r: Option<usize>)
        ensures
            match r {
                Some(a) => self@.contains_key(name@) && a == self@[name@],
                None => !self@.contains_key(name@),
            },
    {
        match self.map.get(name) {
            Some(a) => Some(*a),
            None => None,
        }
    }

    /// Enters a resolved label.  The caller has ruled out a duplicate, so
    /// no entry is ever overwritten.
    pub fn define(&mut self, label: Label)
        requires
            old(self)@.contains_key(label.name@) == false,
            label.resolved_address is Some,
        ensures
            final(self)@ == old(self)@.insert(label.name@, label.resolved_address->0),
    {
        let addr = match label.resolved_address {
            Some(a) => a,
            None => 0,
        };
        self.map.insert(label.name, addr);
    }
}

} // verus!
