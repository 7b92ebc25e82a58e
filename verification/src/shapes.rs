//! Building collision shapes.
//!
//! Building a shape can fail: the settings may describe no shape at all. The
//! engine then says so and gives a message, and no shape exists.

use vstd::prelude::*;

use crate::action::Action;
use crate::handle::Handle;

verus! {

/// The call that builds a box from the settings at `settings`. What it
/// answers is read by [`shape_result`].
pub fn create_box(settings: Handle) -> (action: Action)
    requires
        settings.addr != 0,
    ensures
        action == (Action::CreateBoxShape { settings }),
{
    Action::CreateBoxShape { settings }
}

/// The call that builds a sphere from the settings at `settings`. What it
/// answers is read by [`shape_result`].
pub fn create_sphere(settings: Handle) -> (action: Action)
    requires
        settings.addr != 0,
    ensures
        action == (Action::CreateSphereShape { settings }),
{
    Action::CreateSphereShape { settings }
}

/// The call that builds a convex hull from the settings at `settings`. What
/// it answers is read by [`shape_result`].
pub fn create_convex_hull(settings: Handle) -> (action: Action)
    requires
        settings.addr != 0,
    ensures
        action == (Action::CreateConvexHullShape { settings }),
{
    Action::CreateConvexHullShape { settings }
}

/// Reads the engine's answer to a request to build a shape: `created` is
/// what the call returned, `shape` the shape it made if it made one, and
/// `message` what it had to say if it made none. The shape is handed out
/// only if the engine made it.
pub fn shape_result(created: bool, shape: Handle, message: String) -> (result: Result<Handle, String>)
    ensures
        created ==> result == Ok::<Handle, String>(shape),
        !created ==> result == Err::<Handle, String>(message),
{
    if created {
        Ok(shape)
    } else {
        Err(message)
    }
}

} // verus!
