//! Identifiers of the canonical node graph and their sequential generator.

use vstd::prelude::*;

verus! {

/// An identifier that wraps a plain `u32`.
pub trait Id: Copy + Clone + PartialOrd + PartialEq + Sized {
    /// The integer that the identifier wraps.
    spec fn raw(&self) -> u32;

    fn new(id: u32) -> (r: Self)
        ensures
            r.raw() == id,
    ;

    fn unwrap(&self) -> (r: u32)
        ensures
            r == self.raw(),
    ;
}

/// Identifies a node of the canonical graph.
#[derive(Debug, Clone, Copy, PartialEq, PartialOrd, Eq, Hash, Structural)]
pub struct NodeId(pub u32);

impl Id for NodeId {
    open spec fn raw(&self) -> u32 {
        self.0
    }

    fn new(id: u32) -> (r: Self) {
        NodeId(id)
    }

    fn unwrap(&self) -> (r: u32) {
        self.0
    }
}

/// Identifies an input slot of a node of the canonical graph.
#[derive(Debug, Clone, Copy, PartialEq, PartialOrd, Eq, Hash, Structural)]
pub struct InputId(pub u32);

impl Id for InputId {
    open spec fn raw(&self) -> u32 {
        self.0
    }

    fn new(id: u32) -> (r: Self) {
        InputId(id)
    }

    fn unwrap(&self) -> (r: u32) {
        self.0
    }
}

/// Identifies an output slot of a node of the canonical graph.
#[derive(Debug, Clone, Copy, PartialEq, PartialOrd, Eq, Hash, Structural)]
pub struct OutputId(pub u32);

impl Id for OutputId {
    open spec fn raw(&self) -> u32 {
        self.0
    }

    fn new(id: u32) -> (r: Self) {
        OutputId(id)
    }

    fn unwrap(&self) -> (r: u32) {
        self.0
    }
}

/// Hands out identifiers 0, 1, 2, ... in order.
#[derive(Debug, Clone, PartialEq)]
pub struct IdGenerator<T: Id> {
    last_id: T,
}

impl<T: Id> IdGenerator<T> {
    /// The integer of the identifier that the next `generate` returns.
    pub closed spec fn next(&self) -> u32 {
        self.last_id.raw()
    }

    pub fn new() -> (r: Self)
        ensures
            r.next() == 0,
    {
        IdGenerator { last_id: T::new(0) }
    }

    /// Returns the next identifier and moves past it.
    pub fn generate(&mut self) -> (r: T)
        requires
            old(self).next() < u32::MAX,
        ensures
            r.raw() == old(self).next(),
            final(self).next() == old(self).next() + 1,
    {
        let new_id = self.last_id;
        self.last_id = T::new(new_id.unwrap() + 1);
        new_id
    }
}

impl<T: Id> Default for IdGenerator<T> {
    fn default() -> (r: Self)
        ensures
            r.next() == 0,
    {
        Self::new()
    }
}

} // verus!
