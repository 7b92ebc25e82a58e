//! Typed wrappers around the engine's small integer identifiers.

use vstd::prelude::*;

verus! {

/// An object layer, in the engine's 16-bit encoding.
#[derive(Debug, Clone, Copy, PartialEq, Eq, Structural)]
pub struct ObjectLayer(pub u16);

impl ObjectLayer {
    pub fn new(value: u16) -> (layer: Self)
        ensures
            layer == ObjectLayer(value),
    {
        Self(value)
    }

    pub fn raw(self) -> (value: u16)
        ensures
            value == self.0,
    {
        self.0
    }
}

/// A broad phase layer, in the engine's 8-bit encoding.
#[derive(Debug, Clone, Copy, PartialEq, Eq, Structural)]
pub struct BroadPhaseLayer(pub u8);

impl BroadPhaseLayer {
    pub fn new(value: u8) -> (layer: Self)
        ensures
            layer == BroadPhaseLayer(value),
    {
        Self(value)
    }

    pub fn raw(self) -> (value: u8)
        ensures
            value == self.0,
    {
        self.0
    }
}

/// An ID that names a body in calls made through a
/// [`BodyInterface`](crate::BodyInterface).
#[derive(Debug, Clone, Copy, PartialEq, Eq, Structural)]
pub struct BodyId(pub u32);

impl BodyId {
    pub fn new(value: u32) -> (id: Self)
        ensures
            id == BodyId(value),
    {
        Self(value)
    }

    pub fn raw(self) -> (value: u32)
        ensures
            value == self.0,
    {
        self.0
    }
}

/// How a body is to be woken by an operation that changes it.
#[derive(Debug, Clone, Copy, PartialEq, Eq, Structural)]
pub enum Activation {
    Activate,
    DontActivate,
}

} // verus!
