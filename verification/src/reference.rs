//! Handles to objects that the engine counts references to.
//!
//! The engine keeps the count inside the object and offers two operations on
//! it: take a reference and give one up. A handle of this module stands for
//! one reference. Making or sharing a handle asks for a reference to be
//! taken; releasing it, which consumes the handle, asks for one to be given
//! up. The count itself is never read.

use std::marker::PhantomData;
use vstd::prelude::*;

use crate::action::{ref_delta_of, Action};
use crate::handle::Handle;

verus! {

/// A kind of native object that carries a reference count.
///
/// The two operations say which engine call changes the count of `value`.
/// Implement this only for object types that the engine counts: the call
/// that `add_ref` names has to raise the count of `value` by one and no
/// other, and the call that `release` names has to lower it by one.
pub trait RefTarget {
    fn add_ref(value: Handle) -> (action: Action)
        ensures
            forall|object: Handle|
                #[trigger] action.ref_delta(object) == if object == value {
                    1int
                } else {
                    0int
                },
    ;

    fn release(value: Handle) -> (action: Action)
        ensures
            forall|object: Handle|
                #[trigger] action.ref_delta(object) == if object == value {
                    -1int
                } else {
                    0int
                },
    ;
}

/// The engine's shapes.
#[derive(Debug)]
pub struct Shape;

impl RefTarget for Shape {
    fn add_ref(value: Handle) -> (action: Action)
        ensures
            action == (Action::ShapeAddRef { shape: value }),
    {
        Action::ShapeAddRef { shape: value }
    }

    fn release(value: Handle) -> (action: Action)
        ensures
            action == (Action::ShapeRelease { shape: value }),
    {
        Action::ShapeRelease { shape: value }
    }
}

/// The engine's mutable compound shapes, which are counted as the shapes
/// they are.
#[derive(Debug)]
pub struct MutableCompoundShape;

impl RefTarget for MutableCompoundShape {
    fn add_ref(value: Handle) -> (action: Action)
        ensures
            action == (Action::ShapeAddRef { shape: value }),
    {
        Action::ShapeAddRef { shape: value }
    }

    fn release(value: Handle) -> (action: Action)
        ensures
            action == (Action::ShapeRelease { shape: value }),
    {
        Action::ShapeRelease { shape: value }
    }
}

/// One reference to an object that is not changed through it.
#[derive(Debug)]
pub struct RefConst<T: RefTarget> {
    ptr: Handle,
    _target: PhantomData<T>,
}

impl<T: RefTarget> RefConst<T> {
    /// The object that this handle refers to.
    pub closed spec fn ptr_spec(&self) -> Handle {
        self.ptr
    }

    /// Starts counting a reference to the live object `ptr`. The action
    /// takes the reference.
    pub fn from_active(ptr: Handle) -> (made: (Self, Action))
        requires
            ptr.addr != 0,
        ensures
            made.0.ptr_spec() == ptr,
            call_ensures(T::add_ref, (ptr,), made.1),
    {
        let action = T::add_ref(ptr);
        (Self { ptr, _target: PhantomData }, action)
    }

    /// The object that this handle refers to.
    pub fn as_raw(&self) -> (ptr: Handle)
        ensures
            ptr == self.ptr_spec(),
    {
        self.ptr
    }

    /// Another handle to the same object. The action takes the reference
    /// that the new handle stands for.
    pub fn clone_ref(&self) -> (made: (Self, Action))
        ensures
            made.0.ptr_spec() == self.ptr_spec(),
            call_ensures(T::add_ref, (self.ptr_spec(),), made.1),
    {
        let action = T::add_ref(self.ptr);
        (Self { ptr: self.ptr, _target: PhantomData }, action)
    }

    /// Gives the handle up. The action gives up the reference that it stood
    /// for.
    pub fn release(self) -> (action: Action)
        ensures
            call_ensures(T::release, (self.ptr_spec(),), action),
    {
        T::release(self.ptr)
    }
}

/// One reference to an object that may be changed through it.
#[derive(Debug)]
pub struct Ref<T: RefTarget> {
    ptr: Handle,
    _target: PhantomData<T>,
}

impl<T: RefTarget> Ref<T> {
    /// The object that this handle refers to.
    pub closed spec fn ptr_spec(&self) -> Handle {
        self.ptr
    }

    /// Starts counting a reference to the live object `ptr`. The action
    /// takes the reference.
    pub fn from_active(ptr: Handle) -> (made: (Self, Action))
        requires
            ptr.addr != 0,
        ensures
            made.0.ptr_spec() == ptr,
            call_ensures(T::add_ref, (ptr,), made.1),
    {
        let action = T::add_ref(ptr);
        (Self { ptr, _target: PhantomData }, action)
    }

    /// The object that this handle refers to.
    pub fn as_raw(&self) -> (ptr: Handle)
        ensures
            ptr == self.ptr_spec(),
    {
        self.ptr
    }

    /// Another handle to the same object. The action takes the reference
    /// that the new handle stands for.
    pub fn clone_ref(&self) -> (made: (Self, Action))
        ensures
            made.0.ptr_spec() == self.ptr_spec(),
            call_ensures(T::add_ref, (self.ptr_spec(),), made.1),
    {
        let action = T::add_ref(self.ptr);
        (Self { ptr: self.ptr, _target: PhantomData }, action)
    }

    /// Gives the handle up. The action gives up the reference that it stood
    /// for.
    pub fn release(self) -> (action: Action)
        ensures
            call_ensures(T::release, (self.ptr_spec(),), action),
    {
        T::release(self.ptr)
    }
}

/// Sharing a handle and then releasing the new handle leaves the engine's
/// count of every object where it was: whatever was done before, performing
/// the two actions after it changes no count.
pub proof fn lemma_clone_then_release_is_neutral<T: RefTarget>(
    ptr: Handle,
    cloned: Action,
    released: Action,
    before: Seq<Action>,
    object: Handle,
)
    requires
        call_ensures(T::add_ref, (ptr,), cloned),
        call_ensures(T::release, (ptr,), released),
    ensures
        ref_delta_of(before.push(cloned).push(released), object) == ref_delta_of(before, object),
{
    let after_clone = before.push(cloned);
    let after_release = after_clone.push(released);
    assert(after_release.drop_last() =~= after_clone);
    assert(after_clone.drop_last() =~= before);
    assert(ref_delta_of(after_clone, object) == ref_delta_of(before, object) + cloned.ref_delta(
        object,
    ));
    assert(ref_delta_of(after_release, object) == ref_delta_of(after_clone, object)
        + released.ref_delta(object));
    assert(cloned.ref_delta(object) + released.ref_delta(object) == 0);
}

/// Every handle stands for exactly one reference: making or sharing one
/// raises the count of its object by one and releasing one lowers it by one,
/// and no other object's count changes.
pub proof fn lemma_handle_counts_one<T: RefTarget>(
    ptr: Handle,
    taken: Action,
    released: Action,
    object: Handle,
)
    requires
        call_ensures(T::add_ref, (ptr,), taken),
        call_ensures(T::release, (ptr,), released),
    ensures
        taken.ref_delta(ptr) == 1,
        released.ref_delta(ptr) == -1,
        object != ptr ==> taken.ref_delta(object) == 0 && released.ref_delta(object) == 0,
{
}

} // verus!
