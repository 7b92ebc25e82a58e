//! Bindings to a native rigid-body physics engine, with the decisions of the
//! binding layer verified.
//!
//! The engine is driven through a C interface and calls back into user code
//! through tables of function pointers. This crate holds everything that the
//! binding layer decides: how values are laid out for the engine, what a
//! callback hands to the user's code and what it hands back, which engine
//! calls an operation makes and in which order, and what is destroyed when.
//! It holds none of the calls themselves. An operation returns the calls to
//! make as [`Action`]s, and what the engine answers comes back in as plain
//! values. A thin program around this crate performs the actions.
//!
//! The parts, from the leaves to the root:
//!
//! - [`handle`], [`scalar`], [`simple_types`]: addresses, numbers and
//!   identifiers as they cross the boundary.
//! - [`math`], [`conversions`]: vectors, matrices and colors, and their
//!   native layouts.
//! - [`action`]: the vocabulary of engine calls.
//! - [`traits`]: the capabilities that user code can supply, and the bridges
//!   through which the engine reaches them.
//! - [`remote_drop`], [`capability`], [`interfaces`]: installed capabilities
//!   and their teardown.
//! - [`reference`]: handles to reference-counted engine objects.
//! - [`setup`], [`physics_system`], [`body`], [`body_interface`],
//!   [`narrow_phase`], [`shapes`]: the simulation and what is done with it.
//! - [`layers`]: the layer rules of a simulation with two object layers.

pub mod action;
pub mod body;
pub mod body_interface;
pub mod capability;
pub mod conversions;
pub mod handle;
pub mod interfaces;
pub mod layers;
pub mod math;
pub mod narrow_phase;
pub mod physics_system;
pub mod reference;
pub mod remote_drop;
pub mod scalar;
pub mod setup;
pub mod shapes;
pub mod simple_types;
pub mod traits;

pub use crate::action::Action;
pub use crate::body::Body;
pub use crate::body_interface::{BodyInterface, BodyInterfaceView, TrackedBody};
pub use crate::capability::{Capability, FunctionTable, Registration};
pub use crate::conversions::{FromJolt, IntoJolt, IntoRolt};
pub use crate::handle::Handle;
pub use crate::interfaces::{
    BodyFilterImpl, BroadPhaseLayerFilterImpl, BroadPhaseLayerInterfaceImpl,
    CastShapeCollectorImpl, CollideShapeCollectorImpl, ContactListenerImpl, GroupFilterImpl,
    ObjectLayerFilterImpl, ObjectLayerPairFilterImpl, ObjectVsBroadPhaseLayerFilterImpl,
    ShapeFilterImpl, SimShapeFilterImpl,
};
pub use crate::math::{
    rmat44_identity, rmat44_translation, rvec3, vec3, vec4, Color, DVec3, Mat4, NativeColor,
    NativeDVec3, NativeMat44, NativeQuat, NativeRMat44, NativeRVec3, NativeVec3, NativeVec4, Quat,
    RVec3, Vec3, Vec4,
};
pub use crate::narrow_phase::{
    early_out_fraction, AllHitCollideShapeCollector, CastShapeArgs, ClosestHitCastShapeCollector,
    CollideShapeArgs, NarrowPhaseQuery, NativeCastRayArgs, NativeCastShapeArgs,
    NativeCollideShapeArgs, NativeRRayCast, NativeRShapeCast, NativeRayCastResult, RRayCast,
    RShapeCast, RayCastArgs, RayCastResult,
};
pub use crate::physics_system::{Phase, PhysicsSystem, PhysicsSystemView};
pub use crate::reference::{MutableCompoundShape, Ref, RefConst, RefTarget, Shape};
pub use crate::remote_drop::RemoteDrop;
pub use crate::scalar::{Double, Float, Real};
pub use crate::setup::{
    factory_delete, factory_init, register_default_allocator, register_types, unregister_types,
    GlobalContext, SetupStage,
};
pub use crate::shapes::{create_box, create_convex_hull, create_sphere, shape_result};
pub use crate::simple_types::{Activation, BodyId, BroadPhaseLayer, ObjectLayer};

pub use crate::traits::{
    BodyFilter, BodyFilterBridge, BroadPhaseLayerFilter, BroadPhaseLayerFilterBridge,
    BroadPhaseLayerInterface, BroadPhaseLayerInterfaceBridge, CastShapeBase, CastShapeCollector,
    CastShapeCollectorBridge, CollideShapeBase, CollideShapeCollector, CollideShapeCollectorBridge,
    CollideShapeResult, CollisionGroup, GroupFilter, GroupFilterBridge, ObjectLayerFilter,
    ObjectLayerFilterBridge, ObjectLayerPairFilter, ObjectLayerPairFilterBridge,
    ObjectVsBroadPhaseLayerFilter, ObjectVsBroadPhaseLayerFilterBridge, ShapeCastResult,
    ShapeFilter, ShapeFilterBridge, SimShapeFilter, SimShapeFilterBridge,
};
