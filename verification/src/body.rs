//! A body of the simulation, as the engine hands it out.

use vstd::prelude::*;

use crate::action::Action;
use crate::handle::Handle;

verus! {

/// A body that lives in the engine. It is valid until it is destroyed through
/// the body interface that created it.
#[derive(Debug, PartialEq, Eq, Structural)]
pub struct Body {
    pub inner: Handle,
}

impl Body {
    pub fn new(inner: Handle) -> (body: Self)
        ensures
            body.inner == inner,
    {
        Self { inner }
    }

    /// The body that a creation call returned, or `None` if it returned null:
    /// the engine had no room for another body.
    pub fn from_created(raw: Handle) -> (body: Option<Self>)
        ensures
            raw.addr == 0 ==> body is None,
            raw.addr != 0 ==> body == Some(Body { inner: raw }),
    {
        if raw.is_null() {
            None
        } else {
            Some(Self::new(raw))
        }
    }

    /// The call that reads this body's ID. Its result is made into an ID by
    /// [`BodyId::new`](crate::BodyId::new).
    pub fn id(&self) -> (action: Action)
        ensures
            action == (Action::BodyGetId { body: self.inner }),
    {
        Action::BodyGetId { body: self.inner }
    }

    /// The call that reads this body's user data.
    pub fn user_data(&self) -> (action: Action)
        ensures
            action == (Action::BodyGetUserData { body: self.inner }),
    {
        Action::BodyGetUserData { body: self.inner }
    }

    pub fn as_raw(&self) -> (raw: Handle)
        ensures
            raw == self.inner,
    {
        self.inner
    }
}

} // verus!
