//! What every capability wrapper has in common: the kind of capability, the
//! native registration, and who destroys the user's value.
//!
//! A registration is made when a capability is installed and torn down
//! exactly once. Tearing down consumes it, so a registration that was torn
//! down cannot be used or torn down again.

use vstd::prelude::*;

use crate::action::Action;
use crate::handle::Handle;
use crate::remote_drop::RemoteDrop;

verus! {

/// The extension points of the engine.
#[derive(Debug, Clone, Copy, PartialEq, Eq, Structural)]
pub enum Capability {
    GroupFilter,
    BroadPhaseLayerInterface,
    ObjectVsBroadPhaseLayerFilter,
    ObjectLayerPairFilter,
    BroadPhaseLayerFilter,
    ObjectLayerFilter,
    BodyFilter,
    ShapeFilter,
    SimShapeFilter,
    CastShapeCollector,
    CollideShapeCollector,
    ContactListener,
}

impl Capability {
    /// The number of operations of the capability, which is the number of
    /// entry points in its function table.
    pub open spec fn entry_count_spec(self) -> nat {
        match self {
            Capability::GroupFilter => 1,
            Capability::BroadPhaseLayerInterface => 2,
            Capability::ObjectVsBroadPhaseLayerFilter => 1,
            Capability::ObjectLayerPairFilter => 1,
            Capability::BroadPhaseLayerFilter => 1,
            Capability::ObjectLayerFilter => 1,
            Capability::BodyFilter => 2,
            Capability::ShapeFilter => 2,
            Capability::SimShapeFilter => 1,
            Capability::CastShapeCollector => 2,
            Capability::CollideShapeCollector => 2,
            Capability::ContactListener => 4,
        }
    }

    pub fn entry_count(self) -> (n: usize)
        ensures
            n == self.entry_count_spec(),
    {
        match self {
            Capability::GroupFilter => 1,
            Capability::BroadPhaseLayerInterface => 2,
            Capability::ObjectVsBroadPhaseLayerFilter => 1,
            Capability::ObjectLayerPairFilter => 1,
            Capability::BroadPhaseLayerFilter => 1,
            Capability::ObjectLayerFilter => 1,
            Capability::BodyFilter => 2,
            Capability::ShapeFilter => 2,
            Capability::SimShapeFilter => 1,
            Capability::CastShapeCollector => 2,
            Capability::CollideShapeCollector => 2,
            Capability::ContactListener => 4,
        }
    }
}

/// The entry points of one capability, in the order of its operations. A null
/// entry is a missing one.
#[derive(Debug, PartialEq, Eq)]
pub struct FunctionTable {
    pub kind: Capability,
    pub entries: Vec<Handle>,
}

impl FunctionTable {
    /// A table is complete when it has exactly one entry for each operation of
    /// its capability and none of them is missing.
    pub open spec fn complete(&self) -> bool {
        &&& self.entries@.len() == self.kind.entry_count_spec()
        &&& forall|i: int| 0 <= i < self.entries@.len() ==> (#[trigger] self.entries@[i]).addr != 0
    }

    pub fn new(kind: Capability, entries: Vec<Handle>) -> (table: Self)
        ensures
            table.kind == kind,
            table.entries == entries,
    {
        Self { kind, entries }
    }

    pub fn is_complete(&self) -> (b: bool)
        ensures
            b == self.complete(),
    {
        if self.entries.len() != self.kind.entry_count() {
            return false;
        }
        let mut i: usize = 0;
        while i < self.entries.len()
            invariant
                i <= self.entries@.len(),
                forall|j: int| 0 <= j < i ==> (#[trigger] self.entries@[j]).addr != 0,
            decreases self.entries@.len() - i,
        {
            if self.entries[i].is_null() {
                return false;
            }
            i += 1;
        }
        true
    }
}

/// One installed capability.
///
/// `remote_this` is `Some` when this registration owns the user's value: the
/// value was boxed for it and is destroyed at teardown. It is `None` when the
/// value belongs to the caller, who keeps it alive for as long as the engine
/// may call it.
#[derive(Debug, PartialEq, Eq)]
pub struct Registration {
    pub kind: Capability,
    pub raw: Handle,
    pub remote_this: Option<RemoteDrop>,
}

impl Registration {
    /// Whether teardown destroys the user's value.
    pub open spec fn is_owned(self) -> bool {
        self.remote_this is Some
    }

    /// The action that deletes the native registration.
    pub open spec fn delete_action(self) -> Action {
        Action::DeleteCapability { kind: self.kind, raw: self.raw }
    }

    /// What teardown asks of the caller, in order: delete the native
    /// registration, then, if the value is owned, destroy it. The engine may
    /// call into the value until the deletion returns.
    pub open spec fn teardown_actions(self) -> Seq<Action> {
        match self.remote_this {
            Some(remote) => seq![self.delete_action(), remote.action()],
            None => seq![self.delete_action()],
        }
    }

    /// The registration `raw` of a value boxed at `this`, to be destroyed by
    /// `drop` at teardown.
    pub fn owned(kind: Capability, raw: Handle, this: Handle, drop: Handle) -> (reg: Self)
        ensures
            reg == (Registration { kind, raw, remote_this: Some(RemoteDrop { this, drop }) }),
    {
        Self { kind, raw, remote_this: Some(RemoteDrop::new(this, drop)) }
    }

    /// The registration `raw` of a value that stays with the caller.
    pub fn borrowed(kind: Capability, raw: Handle) -> (reg: Self)
        ensures
            reg == (Registration { kind, raw, remote_this: None }),
    {
        Self { kind, raw, remote_this: None }
    }

    /// The native registration, for passing into engine calls.
    pub fn as_raw(&self) -> (raw: Handle)
        ensures
            raw == self.raw,
    {
        self.raw
    }

    pub fn owns_value(&self) -> (b: bool)
        ensures
            b == self.is_owned(),
    {
        self.remote_this.is_some()
    }

    /// Tears the registration down and appends what that takes to `actions`.
    pub fn teardown_into(self, actions: &mut Vec<Action>)
        ensures
            final(actions)@ == old(actions)@ + self.teardown_actions(),
    {
        actions.push(Action::DeleteCapability { kind: self.kind, raw: self.raw });
        match self.remote_this {
            Some(remote) => {
                actions.push(remote.release());
            },
            None => {},
        }
    }

    /// Tears the registration down and returns what that takes.
    pub fn teardown(self) -> (actions: Vec<Action>)
        ensures
            actions@ == self.teardown_actions(),
    {
        let mut actions = Vec::new();
        self.teardown_into(&mut actions);
        actions
    }
}

/// What the teardown of a slot that may hold a registration asks for: nothing
/// if the slot is empty.
pub open spec fn optional_teardown_actions(slot: Option<Registration>) -> Seq<Action> {
    match slot {
        Some(reg) => reg.teardown_actions(),
        None => Seq::empty(),
    }
}

/// Tearing down a registration that owns its value asks for the native
/// deletion exactly once and for the destruction of the value exactly once,
/// and the deletion comes first.
pub proof fn lemma_owned_teardown_order(reg: Registration)
    requires
        reg.is_owned(),
    ensures
        reg.teardown_actions().len() == 2,
        reg.teardown_actions()[0] == reg.delete_action(),
        reg.teardown_actions()[1] == reg.remote_this->0.action(),
        forall|i: int|
            0 <= i < reg.teardown_actions().len() ==> (#[trigger] reg.teardown_actions()[i]
                is DeleteCapability <==> i == 0),
        forall|i: int|
            0 <= i < reg.teardown_actions().len() ==> (#[trigger] reg.teardown_actions()[i]
                is DropValue <==> i == 1),
{
}

/// Tearing down a registration of a borrowed value asks for the native
/// deletion and for nothing else: the value stays with its owner.
pub proof fn lemma_borrowed_teardown_frees_nothing(reg: Registration)
    requires
        !reg.is_owned(),
    ensures
        reg.teardown_actions() == seq![reg.delete_action()],
        forall|i: int|
            0 <= i < reg.teardown_actions().len() ==> !(#[trigger] reg.teardown_actions()[i]
                is DropValue),
{
}

} // verus!
