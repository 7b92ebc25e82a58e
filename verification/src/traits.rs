//! The capabilities that user code can supply to the engine, and the bridges
//! through which the engine reaches them.
//!
//! A capability is a trait. The engine knows nothing of traits: it calls entry
//! points with arguments in its own encoding. For each capability there is a
//! bridge with one function per operation. The function turns the native
//! arguments into their typed form, calls the user's method, and turns the
//! result back. A bridge is generic in the user's type and holds no data, so
//! one set of entry points serves every value of that type.
//!
//! The contract of a bridge function says that its result is a result of the
//! user's method on exactly the converted arguments: nothing is coerced and
//! nothing is dropped.

use std::marker::PhantomData;
use vstd::prelude::*;

use crate::action::Action;
use crate::body::Body;
use crate::handle::Handle;
use crate::math::NativeVec3;
use crate::scalar::Float;
use crate::simple_types::{BodyId, BroadPhaseLayer, ObjectLayer};

verus! {

/// The collision group of a body, in the engine's layout.
#[derive(Debug, Clone, Copy, PartialEq, Eq, Structural)]
pub struct CollisionGroup {
    pub group_filter: Handle,
    pub group_id: u32,
    pub sub_group_id: u32,
}

/// One hit of a shape overlap, in the engine's layout.
#[derive(Debug, Clone, Copy, PartialEq, Eq, Structural)]
pub struct CollideShapeResult {
    pub contact_point_on_1: NativeVec3,
    pub contact_point_on_2: NativeVec3,
    pub penetration_axis: NativeVec3,
    pub penetration_depth: Float,
    pub sub_shape_id_1: u32,
    pub sub_shape_id_2: u32,
    pub body_id_2: u32,
}

/// One hit of a shape cast, in the engine's layout.
#[derive(Debug, Clone, Copy, PartialEq, Eq, Structural)]
pub struct ShapeCastResult {
    pub contact_point_on_1: NativeVec3,
    pub contact_point_on_2: NativeVec3,
    pub penetration_axis: NativeVec3,
    pub penetration_depth: Float,
    pub sub_shape_id_1: u32,
    pub sub_shape_id_2: u32,
    pub body_id_2: u32,
    pub fraction: Float,
    pub is_back_face_hit: bool,
}

/// Decides whether two collision groups collide.
pub trait GroupFilter {
    fn can_collide(&self, group_1: &CollisionGroup, group_2: &CollisionGroup) -> bool;
}

pub struct GroupFilterBridge<T> {
    _phantom: PhantomData<T>,
}

impl<T: GroupFilter> GroupFilterBridge<T> {
    pub fn can_collide(this: &T, group_1: &CollisionGroup, group_2: &CollisionGroup) -> (r: bool)
        ensures
            call_ensures(T::can_collide, (this, group_1, group_2), r),
    {
        this.can_collide(group_1, group_2)
    }
}

/// Says how many broad phase layers there are and which one an object layer
/// belongs to.
pub trait BroadPhaseLayerInterface {
    fn get_num_broad_phase_layers(&self) -> u32;

    fn get_broad_phase_layer(&self, layer: ObjectLayer) -> BroadPhaseLayer;
}

pub struct BroadPhaseLayerInterfaceBridge<T> {
    _phantom: PhantomData<T>,
}

impl<T: BroadPhaseLayerInterface> BroadPhaseLayerInterfaceBridge<T> {
    pub fn get_num_broad_phase_layers(this: &T) -> (n: u32)
        ensures
            call_ensures(T::get_num_broad_phase_layers, (this,), n),
    {
        this.get_num_broad_phase_layers()
    }

    pub fn get_broad_phase_layer(this: &T, layer: u16) -> (r: u8)
        ensures
            call_ensures(T::get_broad_phase_layer, (this, ObjectLayer(layer)), BroadPhaseLayer(r)),
    {
        let layer = ObjectLayer::new(layer);
        this.get_broad_phase_layer(layer).raw()
    }
}

/// Decides whether an object layer collides with a broad phase layer.
pub trait ObjectVsBroadPhaseLayerFilter {
    fn should_collide(&self, layer1: ObjectLayer, layer2: BroadPhaseLayer) -> bool;
}

pub struct ObjectVsBroadPhaseLayerFilterBridge<T> {
    _phantom: PhantomData<T>,
}

impl<T: ObjectVsBroadPhaseLayerFilter> ObjectVsBroadPhaseLayerFilterBridge<T> {
    pub fn should_collide(this: &T, layer1: u16, layer2: u8) -> (r: bool)
        ensures
            call_ensures(T::should_collide, (this, ObjectLayer(layer1), BroadPhaseLayer(layer2)), r),
    {
        let layer1 = ObjectLayer::new(layer1);
        let layer2 = BroadPhaseLayer::new(layer2);
        this.should_collide(layer1, layer2)
    }
}

/// Decides whether two object layers collide.
pub trait ObjectLayerPairFilter {
    fn should_collide(&self, layer1: ObjectLayer, layer2: ObjectLayer) -> bool;
}

pub struct ObjectLayerPairFilterBridge<T> {
    _phantom: PhantomData<T>,
}

impl<T: ObjectLayerPairFilter> ObjectLayerPairFilterBridge<T> {
    pub fn should_collide(this: &T, layer1: u16, layer2: u16) -> (r: bool)
        ensures
            call_ensures(T::should_collide, (this, ObjectLayer(layer1), ObjectLayer(layer2)), r),
    {
        let layer1 = ObjectLayer::new(layer1);
        let layer2 = ObjectLayer::new(layer2);
        this.should_collide(layer1, layer2)
    }
}

/// Decides whether a query looks into a broad phase layer.
pub trait BroadPhaseLayerFilter {
    fn should_collide(&self, layer: BroadPhaseLayer) -> bool;
}

pub struct BroadPhaseLayerFilterBridge<T> {
    _phantom: PhantomData<T>,
}

impl<T: BroadPhaseLayerFilter> BroadPhaseLayerFilterBridge<T> {
    pub fn should_collide(this: &T, layer: u8) -> (r: bool)
        ensures
            call_ensures(T::should_collide, (this, BroadPhaseLayer(layer)), r),
    {
        let layer = BroadPhaseLayer::new(layer);
        this.should_collide(layer)
    }
}

/// Decides whether a query looks at an object layer.
pub trait ObjectLayerFilter {
    fn should_collide(&self, layer: ObjectLayer) -> bool;
}

pub struct ObjectLayerFilterBridge<T> {
    _phantom: PhantomData<T>,
}

impl<T: ObjectLayerFilter> ObjectLayerFilterBridge<T> {
    pub fn should_collide(this: &T, layer: u16) -> (r: bool)
        ensures
            call_ensures(T::should_collide, (this, ObjectLayer(layer)), r),
    {
        let layer = ObjectLayer::new(layer);
        this.should_collide(layer)
    }
}

/// Decides whether a query looks at a body: first by its ID alone, then, for
/// the bodies that passed, with the body locked.
pub trait BodyFilter {
    fn should_collide(&self, body_id: BodyId) -> bool;

    fn should_collide_locked(&self, body: &mut Body) -> bool;
}

pub struct BodyFilterBridge<T> {
    _phantom: PhantomData<T>,
}

impl<T: BodyFilter> BodyFilterBridge<T> {
    pub fn should_collide(this: &T, body_id: u32) -> (r: bool)
        ensures
            call_ensures(T::should_collide, (this, BodyId(body_id)), r),
    {
        let body_id = BodyId::new(body_id);
        this.should_collide(body_id)
    }

    pub fn should_collide_locked(this: &T, body: Handle) -> (r: bool)
        ensures
            exists|locked: &mut Body|
                locked.inner == body && #[trigger] call_ensures(
                    T::should_collide_locked,
                    (this, locked),
                    r,
                ),
    {
        let mut body = Body::new(body);
        this.should_collide_locked(&mut body)
    }
}

/// Decides whether a query looks at a shape. Both operations accept every
/// shape unless the implementation says otherwise.
pub trait ShapeFilter {
    fn should_collide(&self, shape2: Handle, subshape_id2: u32) -> (r: bool)
        default_ensures
            r,
    {
        true
    }

    fn should_collide_two_shapes(
        &self,
        shape1: Handle,
        subshape_id1: u32,
        shape2: Handle,
        subshape_id2: u32,
    ) -> (r: bool)
        default_ensures
            r,
    {
        true
    }
}

pub struct ShapeFilterBridge<T> {
    _phantom: PhantomData<T>,
}

impl<T: ShapeFilter> ShapeFilterBridge<T> {
    pub fn should_collide(this: &T, shape2: Handle, subshape_id2: u32) -> (r: bool)
        ensures
            call_ensures(T::should_collide, (this, shape2, subshape_id2), r),
    {
        this.should_collide(shape2, subshape_id2)
    }

    pub fn should_collide_two_shapes(
        this: &T,
        shape1: Handle,
        subshape_id1: u32,
        shape2: Handle,
        subshape_id2: u32,
    ) -> (r: bool)
        ensures
            call_ensures(
                T::should_collide_two_shapes,
                (this, shape1, subshape_id1, shape2, subshape_id2),
                r,
            ),
    {
        this.should_collide_two_shapes(shape1, subshape_id1, shape2, subshape_id2)
    }
}

/// Decides, during the simulation, whether two shapes of two bodies collide.
pub trait SimShapeFilter {
    fn should_collide(
        &self,
        body1: Body,
        shape1: Handle,
        subshape1: u32,
        body2: Body,
        shape2: Handle,
        subshape2: u32,
    ) -> bool;
}

pub struct SimShapeFilterBridge<T> {
    _phantom: PhantomData<T>,
}

impl<T: SimShapeFilter> SimShapeFilterBridge<T> {
    pub fn should_collide(
        this: &T,
        body1: Handle,
        shape1: Handle,
        subshape1: u32,
        body2: Handle,
        shape2: Handle,
        subshape2: u32,
    ) -> (r: bool)
        ensures
            call_ensures(
                T::should_collide,
                (this, Body { inner: body1 }, shape1, subshape1, Body { inner: body2 }, shape2, subshape2),
                r,
            ),
    {
        let body1 = Body::new(body1);
        let body2 = Body::new(body2);
        this.should_collide(body1, shape1, subshape1, body2, shape2, subshape2)
    }
}

/// The engine's side of a shape cast collector, as a hit handler sees it. What
/// the handler asks of it is recorded in `actions`, in order, and passed on to
/// the engine when the handler returns.
#[derive(Debug, PartialEq, Eq)]
pub struct CastShapeBase {
    pub base: Handle,
    pub actions: Vec<Action>,
}

impl CastShapeBase {
    pub fn new(base: Handle) -> (fresh: Self)
        ensures
            fresh.base == base,
            fresh.actions@ == Seq::<Action>::empty(),
    {
        Self { base, actions: Vec::new() }
    }

    /// The action by which this collector is told of a new early-out fraction.
    pub open spec fn update_action(self, fraction: Float) -> Action {
        Action::CastShapeUpdateEarlyOutFraction { collector: self.base, fraction }
    }

    /// Tells the engine to report no hit beyond `fraction` from now on.
    pub fn update_early_out_fraction(&mut self, fraction: Float)
        ensures
            final(self).base == old(self).base,
            final(self).actions@ == old(self).actions@.push(old(self).update_action(fraction)),
    {
        self.actions.push(Action::CastShapeUpdateEarlyOutFraction { collector: self.base, fraction });
    }
}

/// Receives the hits of a shape cast.
pub trait CastShapeCollector {
    fn reset(&mut self);

    fn add_hit(&mut self, base: &mut CastShapeBase, result: &ShapeCastResult);
}

pub struct CastShapeCollectorBridge<T> {
    _phantom: PhantomData<T>,
}

impl<T: CastShapeCollector> CastShapeCollectorBridge<T> {
    /// Hands one hit to the collector and returns what the collector asked of
    /// the engine's side `base` while it handled the hit.
    pub fn add_hit(this: &mut T, base: Handle, result: &ShapeCastResult) -> (actions: Vec<Action>)
        ensures
            exists|t: &mut T, b: &mut CastShapeBase|
                {
                    &&& *t == *old(this)
                    &&& *final(t) == *final(this)
                    &&& b.base == base
                    &&& b.actions@ == Seq::<Action>::empty()
                    &&& final(b).actions@ == actions@
                    &&& #[trigger] call_ensures(T::add_hit, (t, b, result), ())
                },
    {
        let mut base = CastShapeBase::new(base);
        this.add_hit(&mut base, result);
        base.actions
    }

    pub fn reset(this: &mut T)
        ensures
            exists|t: &mut T|
                *t == *old(this) && *final(t) == *final(this) && #[trigger] call_ensures(
                    T::reset,
                    (t,),
                    (),
                ),
    {
        this.reset();
    }
}

/// The engine's side of a shape overlap collector, as a hit handler sees it.
#[derive(Debug, PartialEq, Eq)]
pub struct CollideShapeBase {
    pub base: Handle,
    pub actions: Vec<Action>,
}

impl CollideShapeBase {
    pub fn new(base: Handle) -> (fresh: Self)
        ensures
            fresh.base == base,
            fresh.actions@ == Seq::<Action>::empty(),
    {
        Self { base, actions: Vec::new() }
    }

    /// The action by which this collector is told of a new early-out fraction.
    pub open spec fn update_action(self, fraction: Float) -> Action {
        Action::CollideShapeUpdateEarlyOutFraction { collector: self.base, fraction }
    }

    /// Tells the engine to report no hit beyond `fraction` from now on.
    pub fn update_early_out_fraction(&mut self, fraction: Float)
        ensures
            final(self).base == old(self).base,
            final(self).actions@ == old(self).actions@.push(old(self).update_action(fraction)),
    {
        self.actions.push(
            Action::CollideShapeUpdateEarlyOutFraction { collector: self.base, fraction },
        );
    }
}

/// Receives the hits of a shape overlap.
pub trait CollideShapeCollector {
    fn reset(&mut self);

    fn add_hit(&mut self, base: &mut CollideShapeBase, result: &CollideShapeResult);
}

pub struct CollideShapeCollectorBridge<T> {
    _phantom: PhantomData<T>,
}

impl<T: CollideShapeCollector> CollideShapeCollectorBridge<T> {
    /// Hands one hit to the collector and returns what the collector asked of
    /// the engine's side `base` while it handled the hit.
    pub fn add_hit(this: &mut T, base: Handle, result: &CollideShapeResult) -> (actions: Vec<Action>)
        ensures
            exists|t: &mut T, b: &mut CollideShapeBase|
                {
                    &&& *t == *old(this)
                    &&& *final(t) == *final(this)
                    &&& b.base == base
                    &&& b.actions@ == Seq::<Action>::empty()
                    &&& final(b).actions@ == actions@
                    &&& #[trigger] call_ensures(T::add_hit, (t, b, result), ())
                },
    {
        let mut base = CollideShapeBase::new(base);
        this.add_hit(&mut base, result);
        base.actions
    }

    pub fn reset(this: &mut T)
        ensures
            exists|t: &mut T|
                *t == *old(this) && *final(t) == *final(this) && #[trigger] call_ensures(
                    T::reset,
                    (t,),
                    (),
                ),
    {
        this.reset();
    }
}

} // verus!
