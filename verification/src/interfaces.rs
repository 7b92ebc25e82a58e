//! One wrapper for each capability: the installed form of a user's
//! implementation.
//!
//! A wrapper couples the native registration of a capability with the
//! knowledge of who destroys the user's value. It is made in one of three
//! ways:
//!
//! - `new` takes over a value that was boxed for the engine. Teardown deletes
//!   the registration and then destroys the value.
//! - `new_borrowed` wraps a value that stays with the caller, who lends it for
//!   the wrapper's lifetime. Teardown deletes the registration and leaves the
//!   value alone.
//! - `from_raw` and `new_existing` wrap a registration that was made by hand,
//!   from a function table or by other code. Teardown deletes it.
//!
//! A contact listener is installed by other code. Its wrapper only holds and
//! tears down: it takes a registration that exists, with or without the boxed
//! value behind it.
//!
//! Teardown consumes the wrapper. The view of a wrapper is its
//! [`Registration`].

use std::marker::PhantomData;
use vstd::prelude::*;

use crate::action::Action;
use crate::capability::{optional_teardown_actions, Capability, FunctionTable, Registration};
use crate::conversions::IntoJolt;
use crate::handle::Handle;
use crate::remote_drop::RemoteDrop;
use crate::traits::{
    BodyFilter, BroadPhaseLayerFilter, BroadPhaseLayerInterface, CastShapeCollector,
    CollideShapeCollector, GroupFilter, ObjectLayerFilter, ObjectLayerPairFilter,
    ObjectVsBroadPhaseLayerFilter, ShapeFilter, SimShapeFilter,
};

verus! {

/// The installed form of a group filter.
#[derive(Debug)]
pub struct GroupFilterImpl<'a> {
    reg: Registration,
    _marker: PhantomData<&'a ()>,
}

impl<'a> View for GroupFilterImpl<'a> {
    type V = Registration;

    closed spec fn view(&self) -> Registration {
        self.reg
    }
}

impl GroupFilterImpl<'static> {
    /// Wraps the registration `raw` of a value that was boxed at `this` and
    /// is destroyed by `drop` when the wrapper is torn down.
    pub fn new(this: Handle, drop: Handle, raw: Handle) -> (wrapper: Self)
        ensures
            wrapper@ == (Registration {
                kind: Capability::GroupFilter,
                raw,
                remote_this: Some(RemoteDrop { this, drop }),
            }),
    {
        Self { reg: Registration::owned(Capability::GroupFilter, raw, this, drop), _marker: PhantomData }
    }

    /// Wraps the registration `raw` that the engine made from the hand-written
    /// table `fns`. A table with a missing entry is a configuration error.
    pub fn from_raw(fns: &FunctionTable, raw: Handle) -> (wrapper: Self)
        requires
            fns.kind == Capability::GroupFilter,
            fns.complete(),
        ensures
            wrapper@ == (Registration { kind: Capability::GroupFilter, raw, remote_this: None }),
    {
        Self { reg: Registration::borrowed(Capability::GroupFilter, raw), _marker: PhantomData }
    }

    /// Wraps a registration that already exists.
    pub fn new_existing(raw: Handle) -> (wrapper: Self)
        ensures
            wrapper@ == (Registration { kind: Capability::GroupFilter, raw, remote_this: None }),
    {
        Self { reg: Registration::borrowed(Capability::GroupFilter, raw), _marker: PhantomData }
    }
}

impl<'a> GroupFilterImpl<'a> {
    /// Wraps the registration `raw` of `value`, which stays with the caller
    /// and is lent for as long as the wrapper lives.
    pub fn new_borrowed<T: GroupFilter + 'a>(value: &'a mut T, raw: Handle) -> (wrapper: Self)
        ensures
            wrapper@ == (Registration { kind: Capability::GroupFilter, raw, remote_this: None }),
    {
        Self { reg: Registration::borrowed(Capability::GroupFilter, raw), _marker: PhantomData }
    }

    /// The native registration, for passing into engine calls.
    pub fn as_raw(&self) -> (raw: Handle)
        ensures
            raw == self@.raw,
    {
        self.reg.as_raw()
    }

    /// Tears the wrapper down and returns what that takes, in order.
    pub fn teardown(self) -> (actions: Vec<Action>)
        ensures
            actions@ == self@.teardown_actions(),
    {
        self.reg.teardown()
    }

    /// Tears the wrapper down and appends what that takes to `actions`.
    pub fn teardown_into(self, actions: &mut Vec<Action>)
        ensures
            final(actions)@ == old(actions)@ + self@.teardown_actions(),
    {
        self.reg.teardown_into(actions)
    }

    /// The registration that `slot` holds, if it holds a wrapper.
    pub open spec fn view_of(slot: Option<Self>) -> Option<Registration> {
        match slot {
            Some(wrapper) => Some(wrapper@),
            None => None,
        }
    }

    /// Tears down the wrapper in `slot`, if there is one, and appends what
    /// that takes to `actions`.
    pub fn teardown_slot_into(slot: Option<Self>, actions: &mut Vec<Action>)
        ensures
            final(actions)@ == old(actions)@ + optional_teardown_actions(Self::view_of(slot)),
    {
        match slot {
            Some(wrapper) => {
                wrapper.teardown_into(actions);
            },
            None => {
                assert(actions@ =~= old(actions)@ + Seq::<Action>::empty());
            },
        }
    }
}

impl<'a> IntoJolt for Option<&'a GroupFilterImpl<'a>> {
    type Jolt = Handle;

    open spec fn into_jolt_spec(self) -> Handle {
        match self {
            Some(wrapper) => wrapper@.raw,
            None => Handle { addr: 0 },
        }
    }

    fn into_jolt(self) -> (converted: Handle) {
        match self {
            Some(wrapper) => wrapper.as_raw(),
            None => Handle::null(),
        }
    }
}

/// The installed form of a broad phase layer interface.
#[derive(Debug)]
pub struct BroadPhaseLayerInterfaceImpl<'a> {
    reg: Registration,
    _marker: PhantomData<&'a ()>,
}

impl<'a> View for BroadPhaseLayerInterfaceImpl<'a> {
    type V = Registration;

    closed spec fn view(&self) -> Registration {
        self.reg
    }
}

impl BroadPhaseLayerInterfaceImpl<'static> {
    /// Wraps the registration `raw` of a value that was boxed at `this` and
    /// is destroyed by `drop` when the wrapper is torn down.
    pub fn new(this: Handle, drop: Handle, raw: Handle) -> (wrapper: Self)
        ensures
            wrapper@ == (Registration {
                kind: Capability::BroadPhaseLayerInterface,
                raw,
                remote_this: Some(RemoteDrop { this, drop }),
            }),
    {
        Self { reg: Registration::owned(Capability::BroadPhaseLayerInterface, raw, this, drop), _marker: PhantomData }
    }

    /// Wraps the registration `raw` that the engine made from the hand-written
    /// table `fns`. A table with a missing entry is a configuration error.
    pub fn from_raw(fns: &FunctionTable, raw: Handle) -> (wrapper: Self)
        requires
            fns.kind == Capability::BroadPhaseLayerInterface,
            fns.complete(),
        ensures
            wrapper@ == (Registration { kind: Capability::BroadPhaseLayerInterface, raw, remote_this: None }),
    {
        Self { reg: Registration::borrowed(Capability::BroadPhaseLayerInterface, raw), _marker: PhantomData }
    }

    /// Wraps a registration that already exists.
    pub fn new_existing(raw: Handle) -> (wrapper: Self)
        ensures
            wrapper@ == (Registration { kind: Capability::BroadPhaseLayerInterface, raw, remote_this: None }),
    {
        Self { reg: Registration::borrowed(Capability::BroadPhaseLayerInterface, raw), _marker: PhantomData }
    }
}

impl<'a> BroadPhaseLayerInterfaceImpl<'a> {
    /// Wraps the registration `raw` of `value`, which stays with the caller
    /// and is lent for as long as the wrapper lives.
    pub fn new_borrowed<T: BroadPhaseLayerInterface + 'a>(value: &'a mut T, raw: Handle) -> (wrapper: Self)
        ensures
            wrapper@ == (Registration { kind: Capability::BroadPhaseLayerInterface, raw, remote_this: None }),
    {
        Self { reg: Registration::borrowed(Capability::BroadPhaseLayerInterface, raw), _marker: PhantomData }
    }

    /// The native registration, for passing into engine calls.
    pub fn as_raw(&self) -> (raw: Handle)
        ensures
            raw == self@.raw,
    {
        self.reg.as_raw()
    }

    /// Tears the wrapper down and returns what that takes, in order.
    pub fn teardown(self) -> (actions: Vec<Action>)
        ensures
            actions@ == self@.teardown_actions(),
    {
        self.reg.teardown()
    }

    /// Tears the wrapper down and appends what that takes to `actions`.
    pub fn teardown_into(self, actions: &mut Vec<Action>)
        ensures
            final(actions)@ == old(actions)@ + self@.teardown_actions(),
    {
        self.reg.teardown_into(actions)
    }

    /// The registration that `slot` holds, if it holds a wrapper.
    pub open spec fn view_of(slot: Option<Self>) -> Option<Registration> {
        match slot {
            Some(wrapper) => Some(wrapper@),
            None => None,
        }
    }

    /// Tears down the wrapper in `slot`, if there is one, and appends what
    /// that takes to `actions`.
    pub fn teardown_slot_into(slot: Option<Self>, actions: &mut Vec<Action>)
        ensures
            final(actions)@ == old(actions)@ + optional_teardown_actions(Self::view_of(slot)),
    {
        match slot {
            Some(wrapper) => {
                wrapper.teardown_into(actions);
            },
            None => {
                assert(actions@ =~= old(actions)@ + Seq::<Action>::empty());
            },
        }
    }
}

impl<'a> IntoJolt for Option<&'a BroadPhaseLayerInterfaceImpl<'a>> {
    type Jolt = Handle;

    open spec fn into_jolt_spec(self) -> Handle {
        match self {
            Some(wrapper) => wrapper@.raw,
            None => Handle { addr: 0 },
        }
    }

    fn into_jolt(self) -> (converted: Handle) {
        match self {
            Some(wrapper) => wrapper.as_raw(),
            None => Handle::null(),
        }
    }
}

/// The installed form of an object against broad phase layer filter.
#[derive(Debug)]
pub struct ObjectVsBroadPhaseLayerFilterImpl<'a> {
    reg: Registration,
    _marker: PhantomData<&'a ()>,
}

impl<'a> View for ObjectVsBroadPhaseLayerFilterImpl<'a> {
    type V = Registration;

    closed spec fn view(&self) -> Registration {
        self.reg
    }
}

impl ObjectVsBroadPhaseLayerFilterImpl<'static> {
    /// Wraps the registration `raw` of a value that was boxed at `this` and
    /// is destroyed by `drop` when the wrapper is torn down.
    pub fn new(this: Handle, drop: Handle, raw: Handle) -> (wrapper: Self)
        ensures
            wrapper@ == (Registration {
                kind: Capability::ObjectVsBroadPhaseLayerFilter,
                raw,
                remote_this: Some(RemoteDrop { this, drop }),
            }),
    {
        Self { reg: Registration::owned(Capability::ObjectVsBroadPhaseLayerFilter, raw, this, drop), _marker: PhantomData }
    }

    /// Wraps the registration `raw` that the engine made from the hand-written
    /// table `fns`. A table with a missing entry is a configuration error.
    pub fn from_raw(fns: &FunctionTable, raw: Handle) -> (wrapper: Self)
        requires
            fns.kind == Capability::ObjectVsBroadPhaseLayerFilter,
            fns.complete(),
        ensures
            wrapper@ == (Registration { kind: Capability::ObjectVsBroadPhaseLayerFilter, raw, remote_this: None }),
    {
        Self { reg: Registration::borrowed(Capability::ObjectVsBroadPhaseLayerFilter, raw), _marker: PhantomData }
    }

    /// Wraps a registration that already exists.
    pub fn new_existing(raw: Handle) -> (wrapper: Self)
        ensures
            wrapper@ == (Registration { kind: Capability::ObjectVsBroadPhaseLayerFilter, raw, remote_this: None }),
    {
        Self { reg: Registration::borrowed(Capability::ObjectVsBroadPhaseLayerFilter, raw), _marker: PhantomData }
    }
}

impl<'a> ObjectVsBroadPhaseLayerFilterImpl<'a> {
    /// Wraps the registration `raw` of `value`, which stays with the caller
    /// and is lent for as long as the wrapper lives.
    pub fn new_borrowed<T: ObjectVsBroadPhaseLayerFilter + 'a>(value: &'a mut T, raw: Handle) -> (wrapper: Self)
        ensures
            wrapper@ == (Registration { kind: Capability::ObjectVsBroadPhaseLayerFilter, raw, remote_this: None }),
    {
        Self { reg: Registration::borrowed(Capability::ObjectVsBroadPhaseLayerFilter, raw), _marker: PhantomData }
    }

    /// The native registration, for passing into engine calls.
    pub fn as_raw(&self) -> (raw: Handle)
        ensures
            raw == self@.raw,
    {
        self.reg.as_raw()
    }

    /// Tears the wrapper down and returns what that takes, in order.
    pub fn teardown(self) -> (actions: Vec<Action>)
        ensures
            actions@ == self@.teardown_actions(),
    {
        self.reg.teardown()
    }

    /// Tears the wrapper down and appends what that takes to `actions`.
    pub fn teardown_into(self, actions: &mut Vec<Action>)
        ensures
            final(actions)@ == old(actions)@ + self@.teardown_actions(),
    {
        self.reg.teardown_into(actions)
    }

    /// The registration that `slot` holds, if it holds a wrapper.
    pub open spec fn view_of(slot: Option<Self>) -> Option<Registration> {
        match slot {
            Some(wrapper) => Some(wrapper@),
            None => None,
        }
    }

    /// Tears down the wrapper in `slot`, if there is one, and appends what
    /// that takes to `actions`.
    pub fn teardown_slot_into(slot: Option<Self>, actions: &mut Vec<Action>)
        ensures
            final(actions)@ == old(actions)@ + optional_teardown_actions(Self::view_of(slot)),
    {
        match slot {
            Some(wrapper) => {
                wrapper.teardown_into(actions);
            },
            None => {
                assert(actions@ =~= old(actions)@ + Seq::<Action>::empty());
            },
        }
    }
}

impl<'a> IntoJolt for Option<&'a ObjectVsBroadPhaseLayerFilterImpl<'a>> {
    type Jolt = Handle;

    open spec fn into_jolt_spec(self) -> Handle {
        match self {
            Some(wrapper) => wrapper@.raw,
            None => Handle { addr: 0 },
        }
    }

    fn into_jolt(self) -> (converted: Handle) {
        match self {
            Some(wrapper) => wrapper.as_raw(),
            None => Handle::null(),
        }
    }
}

/// The installed form of an object layer pair filter.
#[derive(Debug)]
pub struct ObjectLayerPairFilterImpl<'a> {
    reg: Registration,
    _marker: PhantomData<&'a ()>,
}

impl<'a> View for ObjectLayerPairFilterImpl<'a> {
    type V = Registration;

    closed spec fn view(&self) -> Registration {
        self.reg
    }
}

impl ObjectLayerPairFilterImpl<'static> {
    /// Wraps the registration `raw` of a value that was boxed at `this` and
    /// is destroyed by `drop` when the wrapper is torn down.
    pub fn new(this: Handle, drop: Handle, raw: Handle) -> (wrapper: Self)
        ensures
            wrapper@ == (Registration {
                kind: Capability::ObjectLayerPairFilter,
                raw,
                remote_this: Some(RemoteDrop { this, drop }),
            }),
    {
        Self { reg: Registration::owned(Capability::ObjectLayerPairFilter, raw, this, drop), _marker: PhantomData }
    }

    /// Wraps the registration `raw` that the engine made from the hand-written
    /// table `fns`. A table with a missing entry is a configuration error.
    pub fn from_raw(fns: &FunctionTable, raw: Handle) -> (wrapper: Self)
        requires
            fns.kind == Capability::ObjectLayerPairFilter,
            fns.complete(),
        ensures
            wrapper@ == (Registration { kind: Capability::ObjectLayerPairFilter, raw, remote_this: None }),
    {
        Self { reg: Registration::borrowed(Capability::ObjectLayerPairFilter, raw), _marker: PhantomData }
    }

    /// Wraps a registration that already exists.
    pub fn new_existing(raw: Handle) -> (wrapper: Self)
        ensures
            wrapper@ == (Registration { kind: Capability::ObjectLayerPairFilter, raw, remote_this: None }),
    {
        Self { reg: Registration::borrowed(Capability::ObjectLayerPairFilter, raw), _marker: PhantomData }
    }
}

impl<'a> ObjectLayerPairFilterImpl<'a> {
    /// Wraps the registration `raw` of `value`, which stays with the caller
    /// and is lent for as long as the wrapper lives.
    pub fn new_borrowed<T: ObjectLayerPairFilter + 'a>(value: &'a mut T, raw: Handle) -> (wrapper: Self)
        ensures
            wrapper@ == (Registration { kind: Capability::ObjectLayerPairFilter, raw, remote_this: None }),
    {
        Self { reg: Registration::borrowed(Capability::ObjectLayerPairFilter, raw), _marker: PhantomData }
    }

    /// The native registration, for passing into engine calls.
    pub fn as_raw(&self) -> (raw: Handle)
        ensures
            raw == self@.raw,
    {
        self.reg.as_raw()
    }

    /// Tears the wrapper down and returns what that takes, in order.
    pub fn teardown(self) -> (actions: Vec<Action>)
        ensures
            actions@ == self@.teardown_actions(),
    {
        self.reg.teardown()
    }

    /// Tears the wrapper down and appends what that takes to `actions`.
    pub fn teardown_into(self, actions: &mut Vec<Action>)
        ensures
            final(actions)@ == old(actions)@ + self@.teardown_actions(),
    {
        self.reg.teardown_into(actions)
    }

    /// The registration that `slot` holds, if it holds a wrapper.
    pub open spec fn view_of(slot: Option<Self>) -> Option<Registration> {
        match slot {
            Some(wrapper) => Some(wrapper@),
            None => None,
        }
    }

    /// Tears down the wrapper in `slot`, if there is one, and appends what
    /// that takes to `actions`.
    pub fn teardown_slot_into(slot: Option<Self>, actions: &mut Vec<Action>)
        ensures
            final(actions)@ == old(actions)@ + optional_teardown_actions(Self::view_of(slot)),
    {
        match slot {
            Some(wrapper) => {
                wrapper.teardown_into(actions);
            },
            None => {
                assert(actions@ =~= old(actions)@ + Seq::<Action>::empty());
            },
        }
    }
}

impl<'a> IntoJolt for Option<&'a ObjectLayerPairFilterImpl<'a>> {
    type Jolt = Handle;

    open spec fn into_jolt_spec(self) -> Handle {
        match self {
            Some(wrapper) => wrapper@.raw,
            None => Handle { addr: 0 },
        }
    }

    fn into_jolt(self) -> (converted: Handle) {
        match self {
            Some(wrapper) => wrapper.as_raw(),
            None => Handle::null(),
        }
    }
}

/// The installed form of a broad phase layer filter.
#[derive(Debug)]
pub struct BroadPhaseLayerFilterImpl<'a> {
    reg: Registration,
    _marker: PhantomData<&'a ()>,
}

impl<'a> View for BroadPhaseLayerFilterImpl<'a> {
    type V = Registration;

    closed spec fn view(&self) -> Registration {
        self.reg
    }
}

impl BroadPhaseLayerFilterImpl<'static> {
    /// Wraps the registration `raw` of a value that was boxed at `this` and
    /// is destroyed by `drop` when the wrapper is torn down.
    pub fn new(this: Handle, drop: Handle, raw: Handle) -> (wrapper: Self)
        ensures
            wrapper@ == (Registration {
                kind: Capability::BroadPhaseLayerFilter,
                raw,
                remote_this: Some(RemoteDrop { this, drop }),
            }),
    {
        Self { reg: Registration::owned(Capability::BroadPhaseLayerFilter, raw, this, drop), _marker: PhantomData }
    }

    /// Wraps the registration `raw` that the engine made from the hand-written
    /// table `fns`. A table with a missing entry is a configuration error.
    pub fn from_raw(fns: &FunctionTable, raw: Handle) -> (wrapper: Self)
        requires
            fns.kind == Capability::BroadPhaseLayerFilter,
            fns.complete(),
        ensures
            wrapper@ == (Registration { kind: Capability::BroadPhaseLayerFilter, raw, remote_this: None }),
    {
        Self { reg: Registration::borrowed(Capability::BroadPhaseLayerFilter, raw), _marker: PhantomData }
    }

    /// Wraps a registration that already exists.
    pub fn new_existing(raw: Handle) -> (wrapper: Self)
        ensures
            wrapper@ == (Registration { kind: Capability::BroadPhaseLayerFilter, raw, remote_this: None }),
    {
        Self { reg: Registration::borrowed(Capability::BroadPhaseLayerFilter, raw), _marker: PhantomData }
    }
}

impl<'a> BroadPhaseLayerFilterImpl<'a> {
    /// Wraps the registration `raw` of `value`, which stays with the caller
    /// and is lent for as long as the wrapper lives.
    pub fn new_borrowed<T: BroadPhaseLayerFilter + 'a>(value: &'a mut T, raw: Handle) -> (wrapper: Self)
        ensures
            wrapper@ == (Registration { kind: Capability::BroadPhaseLayerFilter, raw, remote_this: None }),
    {
        Self { reg: Registration::borrowed(Capability::BroadPhaseLayerFilter, raw), _marker: PhantomData }
    }

    /// The native registration, for passing into engine calls.
    pub fn as_raw(&self) -> (raw: Handle)
        ensures
            raw == self@.raw,
    {
        self.reg.as_raw()
    }

    /// Tears the wrapper down and returns what that takes, in order.
    pub fn teardown(self) -> (actions: Vec<Action>)
        ensures
            actions@ == self@.teardown_actions(),
    {
        self.reg.teardown()
    }

    /// Tears the wrapper down and appends what that takes to `actions`.
    pub fn teardown_into(self, actions: &mut Vec<Action>)
        ensures
            final(actions)@ == old(actions)@ + self@.teardown_actions(),
    {
        self.reg.teardown_into(actions)
    }

    /// The registration that `slot` holds, if it holds a wrapper.
    pub open spec fn view_of(slot: Option<Self>) -> Option<Registration> {
        match slot {
            Some(wrapper) => Some(wrapper@),
            None => None,
        }
    }

    /// Tears down the wrapper in `slot`, if there is one, and appends what
    /// that takes to `actions`.
    pub fn teardown_slot_into(slot: Option<Self>, actions: &mut Vec<Action>)
        ensures
            final(actions)@ == old(actions)@ + optional_teardown_actions(Self::view_of(slot)),
    {
        match slot {
            Some(wrapper) => {
                wrapper.teardown_into(actions);
            },
            None => {
                assert(actions@ =~= old(actions)@ + Seq::<Action>::empty());
            },
        }
    }
}

impl<'a> IntoJolt for Option<&'a BroadPhaseLayerFilterImpl<'a>> {
    type Jolt = Handle;

    open spec fn into_jolt_spec(self) -> Handle {
        match self {
            Some(wrapper) => wrapper@.raw,
            None => Handle { addr: 0 },
        }
    }

    fn into_jolt(self) -> (converted: Handle) {
        match self {
            Some(wrapper) => wrapper.as_raw(),
            None => Handle::null(),
        }
    }
}

/// The installed form of an object layer filter.
#[derive(Debug)]
pub struct ObjectLayerFilterImpl<'a> {
    reg: Registration,
    _marker: PhantomData<&'a ()>,
}

impl<'a> View for ObjectLayerFilterImpl<'a> {
    type V = Registration;

    closed spec fn view(&self) -> Registration {
        self.reg
    }
}

impl ObjectLayerFilterImpl<'static> {
    /// Wraps the registration `raw` of a value that was boxed at `this` and
    /// is destroyed by `drop` when the wrapper is torn down.
    pub fn new(this: Handle, drop: Handle, raw: Handle) -> (wrapper: Self)
        ensures
            wrapper@ == (Registration {
                kind: Capability::ObjectLayerFilter,
                raw,
                remote_this: Some(RemoteDrop { this, drop }),
            }),
    {
        Self { reg: Registration::owned(Capability::ObjectLayerFilter, raw, this, drop), _marker: PhantomData }
    }

    /// Wraps the registration `raw` that the engine made from the hand-written
    /// table `fns`. A table with a missing entry is a configuration error.
    pub fn from_raw(fns: &FunctionTable, raw: Handle) -> (wrapper: Self)
        requires
            fns.kind == Capability::ObjectLayerFilter,
            fns.complete(),
        ensures
            wrapper@ == (Registration { kind: Capability::ObjectLayerFilter, raw, remote_this: None }),
    {
        Self { reg: Registration::borrowed(Capability::ObjectLayerFilter, raw), _marker: PhantomData }
    }

    /// Wraps a registration that already exists.
    pub fn new_existing(raw: Handle) -> (wrapper: Self)
        ensures
            wrapper@ == (Registration { kind: Capability::ObjectLayerFilter, raw, remote_this: None }),
    {
        Self { reg: Registration::borrowed(Capability::ObjectLayerFilter, raw), _marker: PhantomData }
    }
}

impl<'a> ObjectLayerFilterImpl<'a> {
    /// Wraps the registration `raw` of `value`, which stays with the caller
    /// and is lent for as long as the wrapper lives.
    pub fn new_borrowed<T: ObjectLayerFilter + 'a>(value: &'a mut T, raw: Handle) -> (wrapper: Self)
        ensures
            wrapper@ == (Registration { kind: Capability::ObjectLayerFilter, raw, remote_this: None }),
    {
        Self { reg: Registration::borrowed(Capability::ObjectLayerFilter, raw), _marker: PhantomData }
    }

    /// The native registration, for passing into engine calls.
    pub fn as_raw(&self) -> (raw: Handle)
        ensures
            raw == self@.raw,
    {
        self.reg.as_raw()
    }

    /// Tears the wrapper down and returns what that takes, in order.
    pub fn teardown(self) -> (actions: Vec<Action>)
        ensures
            actions@ == self@.teardown_actions(),
    {
        self.reg.teardown()
    }

    /// Tears the wrapper down and appends what that takes to `actions`.
    pub fn teardown_into(self, actions: &mut Vec<Action>)
        ensures
            final(actions)@ == old(actions)@ + self@.teardown_actions(),
    {
        self.reg.teardown_into(actions)
    }

    /// The registration that `slot` holds, if it holds a wrapper.
    pub open spec fn view_of(slot: Option<Self>) -> Option<Registration> {
        match slot {
            Some(wrapper) => Some(wrapper@),
            None => None,
        }
    }

    /// Tears down the wrapper in `slot`, if there is one, and appends what
    /// that takes to `actions`.
    pub fn teardown_slot_into(slot: Option<Self>, actions: &mut Vec<Action>)
        ensures
            final(actions)@ == old(actions)@ + optional_teardown_actions(Self::view_of(slot)),
    {
        match slot {
            Some(wrapper) => {
                wrapper.teardown_into(actions);
            },
            None => {
                assert(actions@ =~= old(actions)@ + Seq::<Action>::empty());
            },
        }
    }
}

impl<'a> IntoJolt for Option<&'a ObjectLayerFilterImpl<'a>> {
    type Jolt = Handle;

    open spec fn into_jolt_spec(self) -> Handle {
        match self {
            Some(wrapper) => wrapper@.raw,
            None => Handle { addr: 0 },
        }
    }

    fn into_jolt(self) -> (converted: Handle) {
        match self {
            Some(wrapper) => wrapper.as_raw(),
            None => Handle::null(),
        }
    }
}

/// The installed form of a body filter.
#[derive(Debug)]
pub struct BodyFilterImpl<'a> {
    reg: Registration,
    _marker: PhantomData<&'a ()>,
}

impl<'a> View for BodyFilterImpl<'a> {
    type V = Registration;

    closed spec fn view(&self) -> Registration {
        self.reg
    }
}

impl BodyFilterImpl<'static> {
    /// Wraps the registration `raw` of a value that was boxed at `this` and
    /// is destroyed by `drop` when the wrapper is torn down.
    pub fn new(this: Handle, drop: Handle, raw: Handle) -> (wrapper: Self)
        ensures
            wrapper@ == (Registration {
                kind: Capability::BodyFilter,
                raw,
                remote_this: Some(RemoteDrop { this, drop }),
            }),
    {
        Self { reg: Registration::owned(Capability::BodyFilter, raw, this, drop), _marker: PhantomData }
    }

    /// Wraps the registration `raw` that the engine made from the hand-written
    /// table `fns`. A table with a missing entry is a configuration error.
    pub fn from_raw(fns: &FunctionTable, raw: Handle) -> (wrapper: Self)
        requires
            fns.kind == Capability::BodyFilter,
            fns.complete(),
        ensures
            wrapper@ == (Registration { kind: Capability::BodyFilter, raw, remote_this: None }),
    {
        Self { reg: Registration::borrowed(Capability::BodyFilter, raw), _marker: PhantomData }
    }

    /// Wraps a registration that already exists.
    pub fn new_existing(raw: Handle) -> (wrapper: Self)
        ensures
            wrapper@ == (Registration { kind: Capability::BodyFilter, raw, remote_this: None }),
    {
        Self { reg: Registration::borrowed(Capability::BodyFilter, raw), _marker: PhantomData }
    }
}

impl<'a> BodyFilterImpl<'a> {
    /// Wraps the registration `raw` of `value`, which stays with the caller
    /// and is lent for as long as the wrapper lives.
    pub fn new_borrowed<T: BodyFilter + 'a>(value: &'a mut T, raw: Handle) -> (wrapper: Self)
        ensures
            wrapper@ == (Registration { kind: Capability::BodyFilter, raw, remote_this: None }),
    {
        Self { reg: Registration::borrowed(Capability::BodyFilter, raw), _marker: PhantomData }
    }

    /// The native registration, for passing into engine calls.
    pub fn as_raw(&self) -> (raw: Handle)
        ensures
            raw == self@.raw,
    {
        self.reg.as_raw()
    }

    /// Tears the wrapper down and returns what that takes, in order.
    pub fn teardown(self) -> (actions: Vec<Action>)
        ensures
            actions@ == self@.teardown_actions(),
    {
        self.reg.teardown()
    }

    /// Tears the wrapper down and appends what that takes to `actions`.
    pub fn teardown_into(self, actions: &mut Vec<Action>)
        ensures
            final(actions)@ == old(actions)@ + self@.teardown_actions(),
    {
        self.reg.teardown_into(actions)
    }

    /// The registration that `slot` holds, if it holds a wrapper.
    pub open spec fn view_of(slot: Option<Self>) -> Option<Registration> {
        match slot {
            Some(wrapper) => Some(wrapper@),
            None => None,
        }
    }

    /// Tears down the wrapper in `slot`, if there is one, and appends what
    /// that takes to `actions`.
    pub fn teardown_slot_into(slot: Option<Self>, actions: &mut Vec<Action>)
        ensures
            final(actions)@ == old(actions)@ + optional_teardown_actions(Self::view_of(slot)),
    {
        match slot {
            Some(wrapper) => {
                wrapper.teardown_into(actions);
            },
            None => {
                assert(actions@ =~= old(actions)@ + Seq::<Action>::empty());
            },
        }
    }
}

impl<'a> IntoJolt for Option<&'a BodyFilterImpl<'a>> {
    type Jolt = Handle;

    open spec fn into_jolt_spec(self) -> Handle {
        match self {
            Some(wrapper) => wrapper@.raw,
            None => Handle { addr: 0 },
        }
    }

    fn into_jolt(self) -> (converted: Handle) {
        match self {
            Some(wrapper) => wrapper.as_raw(),
            None => Handle::null(),
        }
    }
}

/// The installed form of a shape filter.
#[derive(Debug)]
pub struct ShapeFilterImpl<'a> {
    reg: Registration,
    _marker: PhantomData<&'a ()>,
}

impl<'a> View for ShapeFilterImpl<'a> {
    type V = Registration;

    closed spec fn view(&self) -> Registration {
        self.reg
    }
}

impl ShapeFilterImpl<'static> {
    /// Wraps the registration `raw` of a value that was boxed at `this` and
    /// is destroyed by `drop` when the wrapper is torn down.
    pub fn new(this: Handle, drop: Handle, raw: Handle) -> (wrapper: Self)
        ensures
            wrapper@ == (Registration {
                kind: Capability::ShapeFilter,
                raw,
                remote_this: Some(RemoteDrop { this, drop }),
            }),
    {
        Self { reg: Registration::owned(Capability::ShapeFilter, raw, this, drop), _marker: PhantomData }
    }

    /// Wraps the registration `raw` that the engine made from the hand-written
    /// table `fns`. A table with a missing entry is a configuration error.
    pub fn from_raw(fns: &FunctionTable, raw: Handle) -> (wrapper: Self)
        requires
            fns.kind == Capability::ShapeFilter,
            fns.complete(),
        ensures
            wrapper@ == (Registration { kind: Capability::ShapeFilter, raw, remote_this: None }),
    {
        Self { reg: Registration::borrowed(Capability::ShapeFilter, raw), _marker: PhantomData }
    }

    /// Wraps a registration that already exists.
    pub fn new_existing(raw: Handle) -> (wrapper: Self)
        ensures
            wrapper@ == (Registration { kind: Capability::ShapeFilter, raw, remote_this: None }),
    {
        Self { reg: Registration::borrowed(Capability::ShapeFilter, raw), _marker: PhantomData }
    }
}

impl<'a> ShapeFilterImpl<'a> {
    /// Wraps the registration `raw` of `value`, which stays with the caller
    /// and is lent for as long as the wrapper lives.
    pub fn new_borrowed<T: ShapeFilter + 'a>(value: &'a mut T, raw: Handle) -> (wrapper: Self)
        ensures
            wrapper@ == (Registration { kind: Capability::ShapeFilter, raw, remote_this: None }),
    {
        Self { reg: Registration::borrowed(Capability::ShapeFilter, raw), _marker: PhantomData }
    }

    /// The native registration, for passing into engine calls.
    pub fn as_raw(&self) -> (raw: Handle)
        ensures
            raw == self@.raw,
    {
        self.reg.as_raw()
    }

    /// Tears the wrapper down and returns what that takes, in order.
    pub fn teardown(self) -> (actions: Vec<Action>)
        ensures
            actions@ == self@.teardown_actions(),
    {
        self.reg.teardown()
    }

    /// Tears the wrapper down and appends what that takes to `actions`.
    pub fn teardown_into(self, actions: &mut Vec<Action>)
        ensures
            final(actions)@ == old(actions)@ + self@.teardown_actions(),
    {
        self.reg.teardown_into(actions)
    }

    /// The registration that `slot` holds, if it holds a wrapper.
    pub open spec fn view_of(slot: Option<Self>) -> Option<Registration> {
        match slot {
            Some(wrapper) => Some(wrapper@),
            None => None,
        }
    }

    /// Tears down the wrapper in `slot`, if there is one, and appends what
    /// that takes to `actions`.
    pub fn teardown_slot_into(slot: Option<Self>, actions: &mut Vec<Action>)
        ensures
            final(actions)@ == old(actions)@ + optional_teardown_actions(Self::view_of(slot)),
    {
        match slot {
            Some(wrapper) => {
                wrapper.teardown_into(actions);
            },
            None => {
                assert(actions@ =~= old(actions)@ + Seq::<Action>::empty());
            },
        }
    }
}

impl<'a> IntoJolt for Option<&'a ShapeFilterImpl<'a>> {
    type Jolt = Handle;

    open spec fn into_jolt_spec(self) -> Handle {
        match self {
            Some(wrapper) => wrapper@.raw,
            None => Handle { addr: 0 },
        }
    }

    fn into_jolt(self) -> (converted: Handle) {
        match self {
            Some(wrapper) => wrapper.as_raw(),
            None => Handle::null(),
        }
    }
}

/// The installed form of a simulation shape filter.
#[derive(Debug)]
pub struct SimShapeFilterImpl<'a> {
    reg: Registration,
    _marker: PhantomData<&'a ()>,
}

impl<'a> View for SimShapeFilterImpl<'a> {
    type V = Registration;

    closed spec fn view(&self) -> Registration {
        self.reg
    }
}

impl SimShapeFilterImpl<'static> {
    /// Wraps the registration `raw` of a value that was boxed at `this` and
    /// is destroyed by `drop` when the wrapper is torn down.
    pub fn new(this: Handle, drop: Handle, raw: Handle) -> (wrapper: Self)
        ensures
            wrapper@ == (Registration {
                kind: Capability::SimShapeFilter,
                raw,
                remote_this: Some(RemoteDrop { this, drop }),
            }),
    {
        Self { reg: Registration::owned(Capability::SimShapeFilter, raw, this, drop), _marker: PhantomData }
    }

    /// Wraps the registration `raw` that the engine made from the hand-written
    /// table `fns`. A table with a missing entry is a configuration error.
    pub fn from_raw(fns: &FunctionTable, raw: Handle) -> (wrapper: Self)
        requires
            fns.kind == Capability::SimShapeFilter,
            fns.complete(),
        ensures
            wrapper@ == (Registration { kind: Capability::SimShapeFilter, raw, remote_this: None }),
    {
        Self { reg: Registration::borrowed(Capability::SimShapeFilter, raw), _marker: PhantomData }
    }

    /// Wraps a registration that already exists.
    pub fn new_existing(raw: Handle) -> (wrapper: Self)
        ensures
            wrapper@ == (Registration { kind: Capability::SimShapeFilter, raw, remote_this: None }),
    {
        Self { reg: Registration::borrowed(Capability::SimShapeFilter, raw), _marker: PhantomData }
    }
}

impl<'a> SimShapeFilterImpl<'a> {
    /// Wraps the registration `raw` of `value`, which stays with the caller
    /// and is lent for as long as the wrapper lives.
    pub fn new_borrowed<T: SimShapeFilter + 'a>(value: &'a mut T, raw: Handle) -> (wrapper: Self)
        ensures
            wrapper@ == (Registration { kind: Capability::SimShapeFilter, raw, remote_this: None }),
    {
        Self { reg: Registration::borrowed(Capability::SimShapeFilter, raw), _marker: PhantomData }
    }

    /// The native registration, for passing into engine calls.
    pub fn as_raw(&self) -> (raw: Handle)
        ensures
            raw == self@.raw,
    {
        self.reg.as_raw()
    }

    /// Tears the wrapper down and returns what that takes, in order.
    pub fn teardown(self) -> (actions: Vec<Action>)
        ensures
            actions@ == self@.teardown_actions(),
    {
        self.reg.teardown()
    }

    /// Tears the wrapper down and appends what that takes to `actions`.
    pub fn teardown_into(self, actions: &mut Vec<Action>)
        ensures
            final(actions)@ == old(actions)@ + self@.teardown_actions(),
    {
        self.reg.teardown_into(actions)
    }

    /// The registration that `slot` holds, if it holds a wrapper.
    pub open spec fn view_of(slot: Option<Self>) -> Option<Registration> {
        match slot {
            Some(wrapper) => Some(wrapper@),
            None => None,
        }
    }

    /// Tears down the wrapper in `slot`, if there is one, and appends what
    /// that takes to `actions`.
    pub fn teardown_slot_into(slot: Option<Self>, actions: &mut Vec<Action>)
        ensures
            final(actions)@ == old(actions)@ + optional_teardown_actions(Self::view_of(slot)),
    {
        match slot {
            Some(wrapper) => {
                wrapper.teardown_into(actions);
            },
            None => {
                assert(actions@ =~= old(actions)@ + Seq::<Action>::empty());
            },
        }
    }
}

impl<'a> IntoJolt for Option<&'a SimShapeFilterImpl<'a>> {
    type Jolt = Handle;

    open spec fn into_jolt_spec(self) -> Handle {
        match self {
            Some(wrapper) => wrapper@.raw,
            None => Handle { addr: 0 },
        }
    }

    fn into_jolt(self) -> (converted: Handle) {
        match self {
            Some(wrapper) => wrapper.as_raw(),
            None => Handle::null(),
        }
    }
}

/// The installed form of a shape cast collector.
#[derive(Debug)]
pub struct CastShapeCollectorImpl<'a> {
    reg: Registration,
    _marker: PhantomData<&'a ()>,
}

impl<'a> View for CastShapeCollectorImpl<'a> {
    type V = Registration;

    closed spec fn view(&self) -> Registration {
        self.reg
    }
}

impl CastShapeCollectorImpl<'static> {
    /// Wraps the registration `raw` of a value that was boxed at `this` and
    /// is destroyed by `drop` when the wrapper is torn down.
    pub fn new(this: Handle, drop: Handle, raw: Handle) -> (wrapper: Self)
        ensures
            wrapper@ == (Registration {
                kind: Capability::CastShapeCollector,
                raw,
                remote_this: Some(RemoteDrop { this, drop }),
            }),
    {
        Self { reg: Registration::owned(Capability::CastShapeCollector, raw, this, drop), _marker: PhantomData }
    }

    /// Wraps the registration `raw` that the engine made from the hand-written
    /// table `fns`. A table with a missing entry is a configuration error.
    pub fn from_raw(fns: &FunctionTable, raw: Handle) -> (wrapper: Self)
        requires
            fns.kind == Capability::CastShapeCollector,
            fns.complete(),
        ensures
            wrapper@ == (Registration { kind: Capability::CastShapeCollector, raw, remote_this: None }),
    {
        Self { reg: Registration::borrowed(Capability::CastShapeCollector, raw), _marker: PhantomData }
    }

    /// Wraps a registration that already exists.
    pub fn new_existing(raw: Handle) -> (wrapper: Self)
        ensures
            wrapper@ == (Registration { kind: Capability::CastShapeCollector, raw, remote_this: None }),
    {
        Self { reg: Registration::borrowed(Capability::CastShapeCollector, raw), _marker: PhantomData }
    }
}

impl<'a> CastShapeCollectorImpl<'a> {
    /// Wraps the registration `raw` of `value`, which stays with the caller
    /// and is lent for as long as the wrapper lives.
    pub fn new_borrowed<T: CastShapeCollector + 'a>(value: &'a mut T, raw: Handle) -> (wrapper: Self)
        ensures
            wrapper@ == (Registration { kind: Capability::CastShapeCollector, raw, remote_this: None }),
    {
        Self { reg: Registration::borrowed(Capability::CastShapeCollector, raw), _marker: PhantomData }
    }

    /// The native registration, for passing into engine calls.
    pub fn as_raw(&self) -> (raw: Handle)
        ensures
            raw == self@.raw,
    {
        self.reg.as_raw()
    }

    /// Tears the wrapper down and returns what that takes, in order.
    pub fn teardown(self) -> (actions: Vec<Action>)
        ensures
            actions@ == self@.teardown_actions(),
    {
        self.reg.teardown()
    }

    /// Tears the wrapper down and appends what that takes to `actions`.
    pub fn teardown_into(self, actions: &mut Vec<Action>)
        ensures
            final(actions)@ == old(actions)@ + self@.teardown_actions(),
    {
        self.reg.teardown_into(actions)
    }

    /// The registration that `slot` holds, if it holds a wrapper.
    pub open spec fn view_of(slot: Option<Self>) -> Option<Registration> {
        match slot {
            Some(wrapper) => Some(wrapper@),
            None => None,
        }
    }

    /// Tears down the wrapper in `slot`, if there is one, and appends what
    /// that takes to `actions`.
    pub fn teardown_slot_into(slot: Option<Self>, actions: &mut Vec<Action>)
        ensures
            final(actions)@ == old(actions)@ + optional_teardown_actions(Self::view_of(slot)),
    {
        match slot {
            Some(wrapper) => {
                wrapper.teardown_into(actions);
            },
            None => {
                assert(actions@ =~= old(actions)@ + Seq::<Action>::empty());
            },
        }
    }
}

impl<'a> IntoJolt for Option<&'a CastShapeCollectorImpl<'a>> {
    type Jolt = Handle;

    open spec fn into_jolt_spec(self) -> Handle {
        match self {
            Some(wrapper) => wrapper@.raw,
            None => Handle { addr: 0 },
        }
    }

    fn into_jolt(self) -> (converted: Handle) {
        match self {
            Some(wrapper) => wrapper.as_raw(),
            None => Handle::null(),
        }
    }
}

/// The installed form of a shape overlap collector.
#[derive(Debug)]
pub struct CollideShapeCollectorImpl<'a> {
    reg: Registration,
    _marker: PhantomData<&'a ()>,
}

impl<'a> View for CollideShapeCollectorImpl<'a> {
    type V = Registration;

    closed spec fn view(&self) -> Registration {
        self.reg
    }
}

impl CollideShapeCollectorImpl<'static> {
    /// Wraps the registration `raw` of a value that was boxed at `this` and
    /// is destroyed by `drop` when the wrapper is torn down.
    pub fn new(this: Handle, drop: Handle, raw: Handle) -> (wrapper: Self)
        ensures
            wrapper@ == (Registration {
                kind: Capability::CollideShapeCollector,
                raw,
                remote_this: Some(RemoteDrop { this, drop }),
            }),
    {
        Self { reg: Registration::owned(Capability::CollideShapeCollector, raw, this, drop), _marker: PhantomData }
    }

    /// Wraps the registration `raw` that the engine made from the hand-written
    /// table `fns`. A table with a missing entry is a configuration error.
    pub fn from_raw(fns: &FunctionTable, raw: Handle) -> (wrapper: Self)
        requires
            fns.kind == Capability::CollideShapeCollector,
            fns.complete(),
        ensures
            wrapper@ == (Registration { kind: Capability::CollideShapeCollector, raw, remote_this: None }),
    {
        Self { reg: Registration::borrowed(Capability::CollideShapeCollector, raw), _marker: PhantomData }
    }

    /// Wraps a registration that already exists.
    pub fn new_existing(raw: Handle) -> (wrapper: Self)
        ensures
            wrapper@ == (Registration { kind: Capability::CollideShapeCollector, raw, remote_this: None }),
    {
        Self { reg: Registration::borrowed(Capability::CollideShapeCollector, raw), _marker: PhantomData }
    }
}

impl<'a> CollideShapeCollectorImpl<'a> {
    /// Wraps the registration `raw` of `value`, which stays with the caller
    /// and is lent for as long as the wrapper lives.
    pub fn new_borrowed<T: CollideShapeCollector + 'a>(value: &'a mut T, raw: Handle) -> (wrapper: Self)
        ensures
            wrapper@ == (Registration { kind: Capability::CollideShapeCollector, raw, remote_this: None }),
    {
        Self { reg: Registration::borrowed(Capability::CollideShapeCollector, raw), _marker: PhantomData }
    }

    /// The native registration, for passing into engine calls.
    pub fn as_raw(&self) -> (raw: Handle)
        ensures
            raw == self@.raw,
    {
        self.reg.as_raw()
    }

    /// Tears the wrapper down and returns what that takes, in order.
    pub fn teardown(self) -> (actions: Vec<Action>)
        ensures
            actions@ == self@.teardown_actions(),
    {
        self.reg.teardown()
    }

    /// Tears the wrapper down and appends what that takes to `actions`.
    pub fn teardown_into(self, actions: &mut Vec<Action>)
        ensures
            final(actions)@ == old(actions)@ + self@.teardown_actions(),
    {
        self.reg.teardown_into(actions)
    }

    /// The registration that `slot` holds, if it holds a wrapper.
    pub open spec fn view_of(slot: Option<Self>) -> Option<Registration> {
        match slot {
            Some(wrapper) => Some(wrapper@),
            None => None,
        }
    }

    /// Tears down the wrapper in `slot`, if there is one, and appends what
    /// that takes to `actions`.
    pub fn teardown_slot_into(slot: Option<Self>, actions: &mut Vec<Action>)
        ensures
            final(actions)@ == old(actions)@ + optional_teardown_actions(Self::view_of(slot)),
    {
        match slot {
            Some(wrapper) => {
                wrapper.teardown_into(actions);
            },
            None => {
                assert(actions@ =~= old(actions)@ + Seq::<Action>::empty());
            },
        }
    }
}

impl<'a> IntoJolt for Option<&'a CollideShapeCollectorImpl<'a>> {
    type Jolt = Handle;

    open spec fn into_jolt_spec(self) -> Handle {
        match self {
            Some(wrapper) => wrapper@.raw,
            None => Handle { addr: 0 },
        }
    }

    fn into_jolt(self) -> (converted: Handle) {
        match self {
            Some(wrapper) => wrapper.as_raw(),
            None => Handle::null(),
        }
    }
}

/// The installed form of a contact listener.
#[derive(Debug)]
pub struct ContactListenerImpl<'a> {
    reg: Registration,
    _marker: PhantomData<&'a ()>,
}

impl<'a> View for ContactListenerImpl<'a> {
    type V = Registration;

    closed spec fn view(&self) -> Registration {
        self.reg
    }
}

impl ContactListenerImpl<'static> {
    /// Wraps the registration `raw` of a value that was boxed at `this` and
    /// is destroyed by `drop` when the wrapper is torn down.
    pub fn new(this: Handle, drop: Handle, raw: Handle) -> (wrapper: Self)
        ensures
            wrapper@ == (Registration {
                kind: Capability::ContactListener,
                raw,
                remote_this: Some(RemoteDrop { this, drop }),
            }),
    {
        Self { reg: Registration::owned(Capability::ContactListener, raw, this, drop), _marker: PhantomData }
    }

    /// Wraps a registration that already exists.
    pub fn new_existing(raw: Handle) -> (wrapper: Self)
        ensures
            wrapper@ == (Registration { kind: Capability::ContactListener, raw, remote_this: None }),
    {
        Self { reg: Registration::borrowed(Capability::ContactListener, raw), _marker: PhantomData }
    }
}

impl<'a> ContactListenerImpl<'a> {
    /// The native registration, for passing into engine calls.
    pub fn as_raw(&self) -> (raw: Handle)
        ensures
            raw == self@.raw,
    {
        self.reg.as_raw()
    }

    /// Tears the wrapper down and returns what that takes, in order.
    pub fn teardown(self) -> (actions: Vec<Action>)
        ensures
            actions@ == self@.teardown_actions(),
    {
        self.reg.teardown()
    }

    /// Tears the wrapper down and appends what that takes to `actions`.
    pub fn teardown_into(self, actions: &mut Vec<Action>)
        ensures
            final(actions)@ == old(actions)@ + self@.teardown_actions(),
    {
        self.reg.teardown_into(actions)
    }

    /// The registration that `slot` holds, if it holds a wrapper.
    pub open spec fn view_of(slot: Option<Self>) -> Option<Registration> {
        match slot {
            Some(wrapper) => Some(wrapper@),
            None => None,
        }
    }

    /// Tears down the wrapper in `slot`, if there is one, and appends what
    /// that takes to `actions`.
    pub fn teardown_slot_into(slot: Option<Self>, actions: &mut Vec<Action>)
        ensures
            final(actions)@ == old(actions)@ + optional_teardown_actions(Self::view_of(slot)),
    {
        match slot {
            Some(wrapper) => {
                wrapper.teardown_into(actions);
            },
            None => {
                assert(actions@ =~= old(actions)@ + Seq::<Action>::empty());
            },
        }
    }
}

impl<'a> IntoJolt for Option<&'a ContactListenerImpl<'a>> {
    type Jolt = Handle;

    open spec fn into_jolt_spec(self) -> Handle {
        match self {
            Some(wrapper) => wrapper@.raw,
            None => Handle { addr: 0 },
        }
    }

    fn into_jolt(self) -> (converted: Handle) {
        match self {
            Some(wrapper) => wrapper.as_raw(),
            None => Handle::null(),
        }
    }
}

} // verus!
