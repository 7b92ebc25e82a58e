//! Deferred destruction of a boxed value whose address the engine holds.

use vstd::prelude::*;

use crate::action::Action;
use crate::handle::Handle;

verus! {

/// The duty to destroy one boxed value: its address, and the procedure that
/// destroys a value of its type. The procedure was chosen when the value was
/// boxed, so nothing here names that type.
///
/// The duty is discharged by [`release`](RemoteDrop::release), which consumes
/// it. It cannot be copied.
#[derive(Debug, PartialEq, Eq)]
pub struct RemoteDrop {
    pub this: Handle,
    pub drop: Handle,
}

impl RemoteDrop {
    /// The action that discharges this duty.
    pub open spec fn action(self) -> Action {
        Action::DropValue { this: self.this, drop: self.drop }
    }

    /// Registers the boxed value at `this` for destruction by `drop`.
    pub fn new(this: Handle, drop: Handle) -> (registered: Self)
        ensures
            registered.this == this,
            registered.drop == drop,
    {
        Self { this, drop }
    }

    /// Gives up the registration and returns the one destruction to perform.
    pub fn release(self) -> (action: Action)
        ensures
            action == self.action(),
    {
        Action::DropValue { this: self.this, drop: self.drop }
    }
}

} // verus!
