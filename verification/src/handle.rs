//! Opaque handles to objects owned by the native engine.

use vstd::prelude::*;

verus! {

/// A pointer-sized value that identifies a native object. The library never
/// looks behind it; two handles are equal exactly when their addresses are.
#[derive(Clone, Copy, Debug, PartialEq, Eq, Structural)]
pub struct Handle {
    pub addr: usize,
}

impl Handle {
    /// The handle with the given address.
    pub fn new(addr: usize) -> (h: Handle)
        ensures
            h.addr == addr,
    {
        Handle { addr }
    }

    /// The handle that identifies no object.
    pub fn null() -> (h: Handle)
        ensures
            h.addr == 0,
    {
        Handle { addr: 0 }
    }

    /// Whether this handle identifies no object.
    pub fn is_null(&self) -> (b: bool)
        ensures
            b == (self.addr == 0),
    {
        self.addr == 0
    }

    /// The address this handle stands for.
    pub fn addr(&self) -> (a: usize)
        ensures
            a == self.addr,
    {
        self.addr
    }
}

} // verus!
