//! The operations that this layer asks of the native engine.
//!
//! Nothing in this crate reaches the engine itself. A function that needs the
//! engine returns the operation as an [`Action`], with every argument already
//! in its native encoding, and the caller performs it; what the engine hands
//! back comes in as an argument of the function that interprets it. The
//! contracts of the library say which actions are issued, with which
//! arguments, and in which order.

use vstd::prelude::*;

use crate::capability::Capability;
use crate::handle::Handle;
use crate::math::{NativeQuat, NativeRVec3, NativeVec3};
use crate::narrow_phase::{NativeCastRayArgs, NativeCastShapeArgs, NativeCollideShapeArgs};
use crate::scalar::Float;
use crate::simple_types::Activation;

verus! {

/// One operation for the caller to perform, in the engine's own terms.
#[derive(Debug, Clone, Copy, PartialEq, Eq)]
pub enum Action {
    /// Register the engine's default allocator.
    RegisterDefaultAllocator,
    /// Create the global factory.
    FactoryInit,
    /// Delete the global factory.
    FactoryDelete,
    /// Register the engine's types with the factory.
    RegisterTypes,
    /// Unregister the engine's types.
    UnregisterTypes,
    /// Delete the native registration `raw` of a capability of kind `kind`.
    DeleteCapability { kind: Capability, raw: Handle },
    /// Run the destruction procedure `drop` on the boxed value at `this`.
    DropValue { this: Handle, drop: Handle },
    /// Build a box shape from the settings at `settings`.
    CreateBoxShape { settings: Handle },
    /// Build a sphere shape from the settings at `settings`.
    CreateSphereShape { settings: Handle },
    /// Build a convex hull shape from the settings at `settings`.
    CreateConvexHullShape { settings: Handle },
    /// Take one more reference to `shape`.
    ShapeAddRef { shape: Handle },
    /// Give up one reference to `shape`.
    ShapeRelease { shape: Handle },
    /// Read the ID of `body`.
    BodyGetId { body: Handle },
    /// Read the user data of `body`.
    BodyGetUserData { body: Handle },
    /// Initialize `system` with its limits and its three layer capabilities.
    PhysicsSystemInit {
        system: Handle,
        max_bodies: u32,
        num_body_mutexes: u32,
        max_body_pairs: u32,
        max_contact_constraints: u32,
        broad_phase_layer_interface: Handle,
        object_vs_broad_phase_layer_filter: Handle,
        object_layer_pair_filter: Handle,
    },
    /// Install `filter` as the simulation shape filter of `system`.
    PhysicsSystemSetSimShapeFilter { system: Handle, filter: Handle },
    /// Install `listener`, or none if it is null, as the contact listener.
    PhysicsSystemSetContactListener { system: Handle, listener: Handle },
    /// Rebuild the broad phase of `system`.
    PhysicsSystemOptimizeBroadPhase { system: Handle },
    /// Advance `system` by `delta_time`; returns when the step is complete.
    PhysicsSystemUpdate {
        system: Handle,
        delta_time: Float,
        collision_steps: i32,
        temp_allocator: Handle,
        job_system: Handle,
    },
    /// Add `constraint` to `system`.
    PhysicsSystemAddConstraint { system: Handle, constraint: Handle },
    /// Remove `constraint` from `system`.
    PhysicsSystemRemoveConstraint { system: Handle, constraint: Handle },
    /// Draw the bodies of `system` with `renderer`, without a body filter.
    PhysicsSystemDrawBodies { system: Handle, settings: Handle, renderer: Handle },
    /// Get the body interface of `system`.
    PhysicsSystemGetBodyInterface { system: Handle },
    /// Get the narrow phase query of `system`.
    PhysicsSystemGetNarrowPhaseQuery { system: Handle },
    /// Delete `system`.
    PhysicsSystemDelete { system: Handle },
    /// Create a body from the settings at `settings`.
    CreateBody { interface: Handle, settings: Handle },
    /// Add a body to the simulation.
    AddBody { interface: Handle, body_id: u32, activation: Activation },
    /// Take a body out of the simulation.
    RemoveBody { interface: Handle, body_id: u32 },
    /// Destroy a body that is not in the simulation.
    DestroyBody { interface: Handle, body_id: u32 },
    /// Give a body another shape.
    SetShape {
        interface: Handle,
        body_id: u32,
        shape: Handle,
        update_mass_properties: bool,
        activation: Activation,
    },
    /// Ask whether a body is active.
    IsActive { interface: Handle, body_id: u32 },
    /// Read the user data of a body.
    GetUserData { interface: Handle, body_id: u32 },
    /// Write the user data of a body.
    SetUserData { interface: Handle, body_id: u32, user_data: u64 },
    /// Read the position of the center of mass of a body.
    GetCenterOfMassPosition { interface: Handle, body_id: u32 },
    /// Read the linear velocity of a body.
    GetLinearVelocity { interface: Handle, body_id: u32 },
    /// Write the linear velocity of a body.
    SetLinearVelocity { interface: Handle, body_id: u32, velocity: NativeVec3 },
    /// Move a body to another object layer.
    SetObjectLayer { interface: Handle, body_id: u32, object_layer: u16 },
    /// Tell the engine that the shape of a body changed in place.
    NotifyShapeChanged {
        interface: Handle,
        body_id: u32,
        old_com: NativeVec3,
        update_mass_properties: bool,
        activation: Activation,
    },
    /// Move and turn a body, unless it is already there.
    SetPositionAndRotationWhenChanged {
        interface: Handle,
        body_id: u32,
        position: NativeRVec3,
        rotation: NativeQuat,
        activation: Activation,
    },
    /// Cast a ray; the engine answers whether it hit and fills the result.
    CastRay { query: Handle, ray_args: NativeCastRayArgs },
    /// Cast a shape; hits go to the collector named in the descriptor.
    CastShape { query: Handle, cast_args: NativeCastShapeArgs },
    /// Overlap a shape; hits go to the collector named in the descriptor.
    CollideShape { query: Handle, collide_args: NativeCollideShapeArgs },
    /// Lower the fraction beyond which a shape cast reports no more hits.
    CastShapeUpdateEarlyOutFraction { collector: Handle, fraction: Float },
    /// Lower the fraction beyond which a shape overlap reports no more hits.
    CollideShapeUpdateEarlyOutFraction { collector: Handle, fraction: Float },
}

impl Action {
    /// By how much performing this action changes the engine's reference
    /// count of `object`.
    pub open spec fn ref_delta(self, object: Handle) -> int {
        match self {
            Action::ShapeAddRef { shape } => if shape == object { 1 } else { 0 },
            Action::ShapeRelease { shape } => if shape == object { -1 } else { 0 },
            _ => 0,
        }
    }
}

/// By how much performing `actions` in order changes the engine's reference
/// count of `object`.
pub open spec fn ref_delta_of(actions: Seq<Action>, object: Handle) -> int
    decreases actions.len(),
{
    if actions.len() == 0 {
        0
    } else {
        ref_delta_of(actions.drop_last(), object) + actions.last().ref_delta(object)
    }
}

} // verus!
