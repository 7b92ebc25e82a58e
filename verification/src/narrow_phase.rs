//! Ray casts, shape casts and shape overlaps against the current state of the
//! simulation.

use vstd::prelude::*;
use vstd::seq_lib::lemma_concat_associative;

use crate::action::Action;
use crate::capability::{optional_teardown_actions, Registration};
use crate::conversions::{FromJolt, IntoJolt};
use crate::handle::Handle;
use crate::interfaces::{
    BodyFilterImpl, BroadPhaseLayerFilterImpl, CastShapeCollectorImpl, CollideShapeCollectorImpl,
    ObjectLayerFilterImpl, ShapeFilterImpl,
};
use crate::math::{NativeRMat44, NativeRVec3, NativeVec3, RVec3, Vec3};
use crate::scalar::Float;
use crate::simple_types::BodyId;
use crate::traits::{
    CastShapeBase, CastShapeCollector, CollideShapeBase, CollideShapeCollector, CollideShapeResult,
    ShapeCastResult,
};

verus! {

/// The engine's layout of a ray.
#[derive(Debug, Clone, Copy, PartialEq, Eq, Structural)]
pub struct NativeRRayCast {
    pub origin: NativeRVec3,
    pub direction: NativeVec3,
}

/// The engine's layout of what a ray cast found.
#[derive(Debug, Clone, Copy, PartialEq, Eq, Structural)]
pub struct NativeRayCastResult {
    pub body_id: u32,
    pub fraction: Float,
    pub sub_shape_id_2: u32,
}

/// The descriptor that a ray cast takes by reference. The engine writes
/// `result`; a filter that is null is not applied.
#[derive(Debug, Clone, Copy, PartialEq, Eq, Structural)]
pub struct NativeCastRayArgs {
    pub ray: NativeRRayCast,
    pub result: NativeRayCastResult,
    pub broad_phase_layer_filter: Handle,
    pub object_layer_filter: Handle,
    pub body_filter: Handle,
    pub shape_filter: Handle,
}

/// The engine's layout of a shape to cast. The world bounds of the shape,
/// which the engine works out itself, are left zeroed and are not held here.
#[derive(Debug, Clone, Copy, PartialEq, Eq)]
pub struct NativeRShapeCast {
    pub shape: Handle,
    pub scale: NativeVec3,
    pub center_of_mass_start: NativeRMat44,
    pub direction: NativeVec3,
}

/// The descriptor that a shape cast takes by reference.
#[derive(Debug, Clone, Copy, PartialEq, Eq)]
pub struct NativeCastShapeArgs {
    pub shape_cast: NativeRShapeCast,
    pub settings: Handle,
    pub base_offset: NativeRVec3,
    pub collector: Handle,
    pub broad_phase_layer_filter: Handle,
    pub object_layer_filter: Handle,
    pub body_filter: Handle,
    pub shape_filter: Handle,
}

/// The descriptor that a shape overlap takes by reference.
#[derive(Debug, Clone, Copy, PartialEq, Eq)]
pub struct NativeCollideShapeArgs {
    pub shape: Handle,
    pub shape_scale: NativeVec3,
    pub center_of_mass_transform: NativeRMat44,
    pub settings: Handle,
    pub base_offset: NativeRVec3,
    pub collector: Handle,
    pub broad_phase_layer_filter: Handle,
    pub object_layer_filter: Handle,
    pub body_filter: Handle,
    pub shape_filter: Handle,
}

/// The entry to the engine's precise collision queries.
#[derive(Debug)]
pub struct NarrowPhaseQuery {
    raw: Handle,
}

/// A ray in world space.
#[derive(Debug, Clone, Copy, PartialEq, Eq, Structural)]
pub struct RRayCast {
    /// Origin of the ray.
    pub origin: RVec3,
    /// Direction and length of the ray. Anything beyond this length will not
    /// be reported as a hit.
    pub direction: Vec3,
}

impl RRayCast {
    pub open spec fn raw_spec(self) -> NativeRRayCast {
        NativeRRayCast {
            origin: self.origin.into_jolt_spec(),
            direction: self.direction.into_jolt_spec(),
        }
    }

    /// The ray in the engine's layout.
    pub fn raw(&self) -> (native: NativeRRayCast)
        ensures
            native == self.raw_spec(),
    {
        NativeRRayCast { origin: self.origin.into_jolt(), direction: self.direction.into_jolt() }
    }
}

impl Default for RRayCast {
    /// The ray of length zero at the origin.
    fn default() -> (ray: Self)
        ensures
            ray.origin == zero_vector(),
            ray.direction == zero_vector(),
    {
        let zero = Float::zero();
        RRayCast { origin: Vec3::new(zero, zero, zero), direction: Vec3::new(zero, zero, zero) }
    }
}

/// The vector whose lanes are all positive zero.
pub open spec fn zero_vector() -> Vec3 {
    Vec3 { x: Float { bits: 0 }, y: Float { bits: 0 }, z: Float { bits: 0 } }
}

/// Arguments for [`NarrowPhaseQuery::cast_ray`].
#[derive(Debug)]
pub struct RayCastArgs<'a> {
    pub ray: RRayCast,
    pub broad_phase_layer_filter: Option<BroadPhaseLayerFilterImpl<'a>>,
    pub object_layer_filter: Option<ObjectLayerFilterImpl<'a>>,
    pub body_filter: Option<BodyFilterImpl<'a>>,
    pub shape_filter: Option<ShapeFilterImpl<'a>>,
}

impl<'a> Default for RayCastArgs<'a> {
    /// The zero ray, with no filter.
    fn default() -> (args: Self)
        ensures
            args.ray.origin == zero_vector(),
            args.ray.direction == zero_vector(),
            args.broad_phase_layer_filter is None,
            args.object_layer_filter is None,
            args.body_filter is None,
            args.shape_filter is None,
    {
        RayCastArgs {
            ray: RRayCast::default(),
            broad_phase_layer_filter: None,
            object_layer_filter: None,
            body_filter: None,
            shape_filter: None,
        }
    }
}

/// The native handle of the wrapper in a slot, or null for an empty slot.
pub open spec fn slot_handle(slot: Option<Registration>) -> Handle {
    match slot {
        Some(reg) => reg.raw,
        None => Handle { addr: 0 },
    }
}

/// What releasing the four filters of a query asks for, in the order in
/// which the arguments of a query hold them.
pub open spec fn filter_release_actions(
    broad_phase_layer_filter: Option<Registration>,
    object_layer_filter: Option<Registration>,
    body_filter: Option<Registration>,
    shape_filter: Option<Registration>,
) -> Seq<Action> {
    optional_teardown_actions(broad_phase_layer_filter) + optional_teardown_actions(
        object_layer_filter,
    ) + optional_teardown_actions(body_filter) + optional_teardown_actions(shape_filter)
}

/// Tears down the filters that a query held and appends what that takes to
/// `actions`.
fn release_filters(
    broad_phase_layer_filter: Option<BroadPhaseLayerFilterImpl>,
    object_layer_filter: Option<ObjectLayerFilterImpl>,
    body_filter: Option<BodyFilterImpl>,
    shape_filter: Option<ShapeFilterImpl>,
    actions: &mut Vec<Action>,
)
    ensures
        final(actions)@ == old(actions)@ + filter_release_actions(
            BroadPhaseLayerFilterImpl::view_of(broad_phase_layer_filter),
            ObjectLayerFilterImpl::view_of(object_layer_filter),
            BodyFilterImpl::view_of(body_filter),
            ShapeFilterImpl::view_of(shape_filter),
        ),
{
    let ghost before = actions@;
    let ghost a = optional_teardown_actions(
        BroadPhaseLayerFilterImpl::view_of(broad_phase_layer_filter),
    );
    let ghost b = optional_teardown_actions(ObjectLayerFilterImpl::view_of(object_layer_filter));
    let ghost c = optional_teardown_actions(BodyFilterImpl::view_of(body_filter));
    let ghost d = optional_teardown_actions(ShapeFilterImpl::view_of(shape_filter));
    BroadPhaseLayerFilterImpl::teardown_slot_into(broad_phase_layer_filter, actions);
    ObjectLayerFilterImpl::teardown_slot_into(object_layer_filter, actions);
    BodyFilterImpl::teardown_slot_into(body_filter, actions);
    ShapeFilterImpl::teardown_slot_into(shape_filter, actions);
    proof {
        lemma_concat_associative(before, a, b);
        lemma_concat_associative(before, a + b, c);
        lemma_concat_associative(before, a + b + c, d);
    }
}

impl<'a> RayCastArgs<'a> {
    /// The descriptor that the engine is handed: the ray in its native
    /// layout, a zeroed result, and the handle of each filter that is set.
    pub open spec fn native(self) -> NativeCastRayArgs {
        NativeCastRayArgs {
            ray: self.ray.raw_spec(),
            result: NativeRayCastResult { body_id: 0, fraction: Float { bits: 0 }, sub_shape_id_2: 0 },
            broad_phase_layer_filter: slot_handle(
                BroadPhaseLayerFilterImpl::view_of(self.broad_phase_layer_filter),
            ),
            object_layer_filter: slot_handle(ObjectLayerFilterImpl::view_of(self.object_layer_filter)),
            body_filter: slot_handle(BodyFilterImpl::view_of(self.body_filter)),
            shape_filter: slot_handle(ShapeFilterImpl::view_of(self.shape_filter)),
        }
    }

    /// What releasing the filters asks for, once the query is done.
    pub open spec fn release_actions(self) -> Seq<Action> {
        filter_release_actions(
            BroadPhaseLayerFilterImpl::view_of(self.broad_phase_layer_filter),
            ObjectLayerFilterImpl::view_of(self.object_layer_filter),
            BodyFilterImpl::view_of(self.body_filter),
            ShapeFilterImpl::view_of(self.shape_filter),
        )
    }
}

/// The result of a ray cast that hit.
#[derive(Debug, Clone, Copy, PartialEq, Eq, Structural)]
pub struct RayCastResult {
    pub body_id: BodyId,
    /// How far along the ray the hit is, as a fraction of its length.
    pub fraction: Float,
    pub sub_shape_id: u32,
}

impl FromJolt for RayCastResult {
    type Jolt = NativeRayCastResult;

    open spec fn from_jolt_spec(value: NativeRayCastResult) -> RayCastResult {
        RayCastResult {
            body_id: BodyId(value.body_id),
            fraction: value.fraction,
            sub_shape_id: value.sub_shape_id_2,
        }
    }

    fn from_jolt(value: NativeRayCastResult) -> (converted: RayCastResult) {
        RayCastResult {
            body_id: BodyId::new(value.body_id),
            fraction: value.fraction,
            sub_shape_id: value.sub_shape_id_2,
        }
    }
}

/// A shape to cast along a direction.
#[derive(Debug, Clone, Copy, PartialEq, Eq)]
pub struct RShapeCast {
    pub shape: Handle,
    pub scale: Vec3,
    pub center_of_mass_start: NativeRMat44,
    pub direction: Vec3,
}

impl RShapeCast {
    pub open spec fn raw_spec(self) -> NativeRShapeCast {
        NativeRShapeCast {
            shape: self.shape,
            scale: self.scale.into_jolt_spec(),
            center_of_mass_start: self.center_of_mass_start,
            direction: self.direction.into_jolt_spec(),
        }
    }
}

/// Arguments for [`NarrowPhaseQuery::cast_shape`]. `settings` refers to the
/// engine's shape cast settings, which stay with the caller.
#[derive(Debug)]
pub struct CastShapeArgs<'a> {
    pub shapecast: RShapeCast,
    pub base_offset: RVec3,
    pub settings: Handle,
    pub collector: Option<CastShapeCollectorImpl<'a>>,
    pub broad_phase_layer_filter: Option<BroadPhaseLayerFilterImpl<'a>>,
    pub object_layer_filter: Option<ObjectLayerFilterImpl<'a>>,
    pub body_filter: Option<BodyFilterImpl<'a>>,
    pub shape_filter: Option<ShapeFilterImpl<'a>>,
}

impl<'a> CastShapeArgs<'a> {
    /// The descriptor that the engine is handed.
    pub open spec fn native(self) -> NativeCastShapeArgs {
        NativeCastShapeArgs {
            shape_cast: self.shapecast.raw_spec(),
            settings: self.settings,
            base_offset: self.base_offset.into_jolt_spec(),
            collector: slot_handle(CastShapeCollectorImpl::view_of(self.collector)),
            broad_phase_layer_filter: slot_handle(
                BroadPhaseLayerFilterImpl::view_of(self.broad_phase_layer_filter),
            ),
            object_layer_filter: slot_handle(ObjectLayerFilterImpl::view_of(self.object_layer_filter)),
            body_filter: slot_handle(BodyFilterImpl::view_of(self.body_filter)),
            shape_filter: slot_handle(ShapeFilterImpl::view_of(self.shape_filter)),
        }
    }

    /// What releasing the collector and the filters asks for, once the query
    /// is done.
    pub open spec fn release_actions(self) -> Seq<Action> {
        optional_teardown_actions(CastShapeCollectorImpl::view_of(self.collector)) + filter_release_actions(
            BroadPhaseLayerFilterImpl::view_of(self.broad_phase_layer_filter),
            ObjectLayerFilterImpl::view_of(self.object_layer_filter),
            BodyFilterImpl::view_of(self.body_filter),
            ShapeFilterImpl::view_of(self.shape_filter),
        )
    }
}

/// The number by which a shape cast hit is ranked: its fraction along the
/// cast if that is above zero, else the negated penetration depth, so that
/// among hits at the start the deepest ranks first.
pub open spec fn early_out_fraction_spec(result: ShapeCastResult) -> Float {
    if result.fraction.positive() {
        result.fraction
    } else {
        result.penetration_depth.negated()
    }
}

pub fn early_out_fraction(result: &ShapeCastResult) -> (rank: Float)
    ensures
        rank == early_out_fraction_spec(*result),
{
    if result.fraction.is_positive() {
        result.fraction
    } else {
        result.penetration_depth.neg()
    }
}

/// Whether a collector that holds `kept` takes `hit` in its place: it holds
/// nothing yet, or `hit` ranks strictly before what it holds.
pub open spec fn replaces(kept: Option<ShapeCastResult>, hit: ShapeCastResult) -> bool {
    match kept {
        Some(old) => early_out_fraction_spec(hit).less_than(early_out_fraction_spec(old)),
        None => true,
    }
}

/// What a collector that holds `kept` holds after it was handed `hit`.
pub open spec fn kept_after(kept: Option<ShapeCastResult>, hit: ShapeCastResult) -> Option<
    ShapeCastResult,
> {
    if replaces(kept, hit) {
        Some(hit)
    } else {
        kept
    }
}

/// What a collector that holds `kept` holds after it was handed `hits`, one
/// after the other.
pub open spec fn kept_after_all(kept: Option<ShapeCastResult>, hits: Seq<ShapeCastResult>) -> Option<
    ShapeCastResult,
>
    decreases hits.len(),
{
    if hits.len() == 0 {
        kept
    } else {
        kept_after(kept_after_all(kept, hits.drop_last()), hits.last())
    }
}

/// The closest hit wins: after a run of hits, a collector that was empty
/// before holds one of the hits of the run, and no hit of the run ranks
/// strictly before it.
pub proof fn lemma_closest_hit_wins(hits: Seq<ShapeCastResult>)
    requires
        hits.len() > 0,
    ensures
        kept_after_all(None, hits) is Some,
        exists|i: int| 0 <= i < hits.len() && hits[i] == kept_after_all(None, hits)->0,
        forall|i: int|
            0 <= i < hits.len() ==> !early_out_fraction_spec(#[trigger] hits[i]).less_than(
                early_out_fraction_spec(kept_after_all(None, hits)->0),
            ),
    decreases hits.len(),
{
    let earlier = hits.drop_last();
    let last = hits.last();
    let before = kept_after_all(None, earlier);
    let kept = kept_after_all(None, hits);
    assert(kept == kept_after(before, last));
    if earlier.len() == 0 {
        assert(before is None);
        assert(kept == Some(last));
        assert(hits[hits.len() - 1] == last);
    } else {
        lemma_closest_hit_wins(earlier);
        let held = before->0;
        let i = choose|i: int| 0 <= i < earlier.len() && earlier[i] == held;
        if replaces(before, last) {
            assert(hits[hits.len() - 1] == kept->0);
            assert forall|j: int| 0 <= j < hits.len() implies !early_out_fraction_spec(
                #[trigger] hits[j],
            ).less_than(early_out_fraction_spec(last)) by {
                if j < earlier.len() {
                    assert(hits[j] == earlier[j]);
                    crate::scalar::lemma_less_than_strict_order(
                        early_out_fraction_spec(hits[j]),
                        early_out_fraction_spec(last),
                        early_out_fraction_spec(held),
                    );
                }
            }
        } else {
            assert(hits[i] == earlier[i]);
            assert forall|j: int| 0 <= j < hits.len() implies !early_out_fraction_spec(
                #[trigger] hits[j],
            ).less_than(early_out_fraction_spec(held)) by {
                if j < earlier.len() {
                    assert(hits[j] == earlier[j]);
                }
            }
        }
    }
}

/// A collector that keeps the closest hit of a shape cast.
#[non_exhaustive]
#[derive(Debug)]
pub struct ClosestHitCastShapeCollector {
    pub result: Option<ShapeCastResult>,
}

impl Default for ClosestHitCastShapeCollector {
    fn default() -> (collector: Self)
        ensures
            collector.result is None,
    {
        ClosestHitCastShapeCollector { result: None }
    }
}

impl ClosestHitCastShapeCollector {
    pub fn new() -> (collector: Self)
        ensures
            collector.result is None,
    {
        ClosestHitCastShapeCollector { result: None }
    }
}

impl CastShapeCollector for ClosestHitCastShapeCollector {
    fn reset(&mut self)
        ensures
            final(self).result is None,
    {
        self.result = None;
    }

    /// Keeps `result` if it ranks strictly before the hit held so far, and
    /// then tells the engine to look no further than it.
    fn add_hit(&mut self, base: &mut CastShapeBase, result: &ShapeCastResult)
        ensures
            final(self).result == kept_after(old(self).result, *result),
            final(base).base == old(base).base,
            final(base).actions@ == if replaces(old(self).result, *result) {
                old(base).actions@.push(
                    old(base).update_action(early_out_fraction_spec(*result)),
                )
            } else {
                old(base).actions@
            },
            final(self).result is Some,
            !early_out_fraction_spec(*result).less_than(
                early_out_fraction_spec(final(self).result->0),
            ),
    {
        let early_out = early_out_fraction(result);

        let set = match self.result {
            Some(old) => early_out.lt(early_out_fraction(&old)),
            None => true,
        };

        if set {
            base.update_early_out_fraction(early_out);
            self.result = Some(*result);
        }
    }
}

/// Arguments for [`NarrowPhaseQuery::collide_shape`]. `settings` refers to
/// the engine's shape overlap settings, which stay with the caller.
#[derive(Debug)]
pub struct CollideShapeArgs<'a> {
    pub shape: Handle,
    pub shape_scale: Vec3,
    pub center_of_mass_transform: NativeRMat44,
    pub settings: Handle,
    pub base_offset: RVec3,
    pub collector: Option<CollideShapeCollectorImpl<'a>>,
    pub broad_phase_layer_filter: Option<BroadPhaseLayerFilterImpl<'a>>,
    pub object_layer_filter: Option<ObjectLayerFilterImpl<'a>>,
    pub body_filter: Option<BodyFilterImpl<'a>>,
    pub shape_filter: Option<ShapeFilterImpl<'a>>,
}

impl<'a> CollideShapeArgs<'a> {
    /// The descriptor that the engine is handed.
    pub open spec fn native(self) -> NativeCollideShapeArgs {
        NativeCollideShapeArgs {
            shape: self.shape,
            shape_scale: self.shape_scale.into_jolt_spec(),
            center_of_mass_transform: self.center_of_mass_transform,
            settings: self.settings,
            base_offset: self.base_offset.into_jolt_spec(),
            collector: slot_handle(CollideShapeCollectorImpl::view_of(self.collector)),
            broad_phase_layer_filter: slot_handle(
                BroadPhaseLayerFilterImpl::view_of(self.broad_phase_layer_filter),
            ),
            object_layer_filter: slot_handle(ObjectLayerFilterImpl::view_of(self.object_layer_filter)),
            body_filter: slot_handle(BodyFilterImpl::view_of(self.body_filter)),
            shape_filter: slot_handle(ShapeFilterImpl::view_of(self.shape_filter)),
        }
    }

    /// What releasing the collector and the filters asks for, once the query
    /// is done.
    pub open spec fn release_actions(self) -> Seq<Action> {
        optional_teardown_actions(CollideShapeCollectorImpl::view_of(self.collector)) + filter_release_actions(
            BroadPhaseLayerFilterImpl::view_of(self.broad_phase_layer_filter),
            ObjectLayerFilterImpl::view_of(self.object_layer_filter),
            BodyFilterImpl::view_of(self.body_filter),
            ShapeFilterImpl::view_of(self.shape_filter),
        )
    }
}

/// A collector that keeps every hit of a shape overlap, in the order in which
/// the engine reports them.
#[non_exhaustive]
#[derive(Debug)]
pub struct AllHitCollideShapeCollector {
    pub result: Vec<CollideShapeResult>,
}

impl Default for AllHitCollideShapeCollector {
    fn default() -> (collector: Self)
        ensures
            collector.result@ == Seq::<CollideShapeResult>::empty(),
    {
        AllHitCollideShapeCollector { result: Vec::new() }
    }
}

impl AllHitCollideShapeCollector {
    pub fn new() -> (collector: Self)
        ensures
            collector.result@ == Seq::<CollideShapeResult>::empty(),
    {
        AllHitCollideShapeCollector { result: Vec::new() }
    }
}

impl CollideShapeCollector for AllHitCollideShapeCollector {
    fn reset(&mut self)
        ensures
            final(self).result@ == Seq::<CollideShapeResult>::empty(),
    {
        self.result.clear();
    }

    fn add_hit(&mut self, base: &mut CollideShapeBase, result: &CollideShapeResult)
        ensures
            final(self).result@ == old(self).result@.push(*result),
            *final(base) == *old(base),
    {
        self.result.push(*result);
    }
}

impl NarrowPhaseQuery {
    pub closed spec fn raw_spec(&self) -> Handle {
        self.raw
    }

    /// Wraps the narrow phase query `raw` of a simulation.
    pub fn new(raw: Handle) -> (query: Self)
        ensures
            query.raw_spec() == raw,
    {
        Self { raw }
    }

    /// Casts a ray. The result is the query, on the descriptor assembled from
    /// `args`, followed by the release of the filters that `args` held. What
    /// the engine answers to the query is read by
    /// [`cast_ray_result`](Self::cast_ray_result).
    pub fn cast_ray(&self, args: RayCastArgs) -> (actions: Vec<Action>)
        ensures
            actions@ == seq![Action::CastRay { query: self.raw_spec(), ray_args: args.native() }]
                + args.release_actions(),
    {
        let raw_args = NativeCastRayArgs {
            ray: args.ray.raw(),
            result: NativeRayCastResult { body_id: 0, fraction: Float::zero(), sub_shape_id_2: 0 },
            broad_phase_layer_filter: args.broad_phase_layer_filter.as_ref().into_jolt(),
            object_layer_filter: args.object_layer_filter.as_ref().into_jolt(),
            body_filter: args.body_filter.as_ref().into_jolt(),
            shape_filter: args.shape_filter.as_ref().into_jolt(),
        };

        let mut actions = Vec::new();
        actions.push(Action::CastRay { query: self.raw, ray_args: raw_args });

        let RayCastArgs { ray: _, broad_phase_layer_filter, object_layer_filter, body_filter, shape_filter } =
            args;
        release_filters(
            broad_phase_layer_filter,
            object_layer_filter,
            body_filter,
            shape_filter,
            &mut actions,
        );
        actions
    }

    /// Reads the engine's answer to a ray cast: `hit` is what the call
    /// returned, `raw_args` the descriptor as the call left it.
    pub fn cast_ray_result(hit: bool, raw_args: &NativeCastRayArgs) -> (result: Option<RayCastResult>)
        ensures
            result == if hit {
                Some(RayCastResult::from_jolt_spec(raw_args.result))
            } else {
                None
            },
    {
        if hit {
            Some(RayCastResult::from_jolt(raw_args.result))
        } else {
            None
        }
    }

    /// Casts a shape. The result is the query, on the descriptor assembled
    /// from `args`, followed by the release of the collector and the filters
    /// that `args` held. The hits go to the collector while the query runs.
    pub fn cast_shape(&self, args: CastShapeArgs<'_>) -> (actions: Vec<Action>)
        requires
            args.shapecast.shape.addr != 0,
        ensures
            actions@ == seq![Action::CastShape { query: self.raw_spec(), cast_args: args.native() }]
                + args.release_actions(),
    {
        let raw_args = NativeCastShapeArgs {
            shape_cast: NativeRShapeCast {
                shape: args.shapecast.shape,
                scale: args.shapecast.scale.into_jolt(),
                center_of_mass_start: args.shapecast.center_of_mass_start,
                direction: args.shapecast.direction.into_jolt(),
            },
            settings: args.settings,
            base_offset: args.base_offset.into_jolt(),
            collector: args.collector.as_ref().into_jolt(),
            broad_phase_layer_filter: args.broad_phase_layer_filter.as_ref().into_jolt(),
            object_layer_filter: args.object_layer_filter.as_ref().into_jolt(),
            body_filter: args.body_filter.as_ref().into_jolt(),
            shape_filter: args.shape_filter.as_ref().into_jolt(),
        };

        let mut actions = Vec::new();
        actions.push(Action::CastShape { query: self.raw, cast_args: raw_args });

        let CastShapeArgs {
            shapecast: _,
            base_offset: _,
            settings: _,
            collector,
            broad_phase_layer_filter,
            object_layer_filter,
            body_filter,
            shape_filter,
        } = args;
        let ghost query = seq![Action::CastShape { query: self.raw, cast_args: raw_args }];
        let ghost collector_release = optional_teardown_actions(
            CastShapeCollectorImpl::view_of(collector),
        );
        let ghost filter_release = filter_release_actions(
            BroadPhaseLayerFilterImpl::view_of(broad_phase_layer_filter),
            ObjectLayerFilterImpl::view_of(object_layer_filter),
            BodyFilterImpl::view_of(body_filter),
            ShapeFilterImpl::view_of(shape_filter),
        );
        assert(actions@ =~= query);
        CastShapeCollectorImpl::teardown_slot_into(collector, &mut actions);
        release_filters(
            broad_phase_layer_filter,
            object_layer_filter,
            body_filter,
            shape_filter,
            &mut actions,
        );
        proof {
            lemma_concat_associative(query, collector_release, filter_release);
        }
        actions
    }

    /// Overlaps a shape with the simulation. The result is the query, on the
    /// descriptor assembled from `args`, followed by the release of the
    /// collector and the filters that `args` held.
    pub fn collide_shape(&self, args: CollideShapeArgs<'_>) -> (actions: Vec<Action>)
        requires
            args.shape.addr != 0,
        ensures
            actions@ == seq![
                Action::CollideShape { query: self.raw_spec(), collide_args: args.native() },
            ] + args.release_actions(),
    {
        let raw_args = NativeCollideShapeArgs {
            shape: args.shape,
            shape_scale: args.shape_scale.into_jolt(),
            center_of_mass_transform: args.center_of_mass_transform,
            settings: args.settings,
            base_offset: args.base_offset.into_jolt(),
            collector: args.collector.as_ref().into_jolt(),
            broad_phase_layer_filter: args.broad_phase_layer_filter.as_ref().into_jolt(),
            object_layer_filter: args.object_layer_filter.as_ref().into_jolt(),
            body_filter: args.body_filter.as_ref().into_jolt(),
            shape_filter: args.shape_filter.as_ref().into_jolt(),
        };

        let mut actions = Vec::new();
        actions.push(Action::CollideShape { query: self.raw, collide_args: raw_args });

        let CollideShapeArgs {
            shape: _,
            shape_scale: _,
            center_of_mass_transform: _,
            settings: _,
            base_offset: _,
            collector,
            broad_phase_layer_filter,
            object_layer_filter,
            body_filter,
            shape_filter,
        } = args;
        let ghost query = seq![Action::CollideShape { query: self.raw, collide_args: raw_args }];
        let ghost collector_release = optional_teardown_actions(
            CollideShapeCollectorImpl::view_of(collector),
        );
        let ghost filter_release = filter_release_actions(
            BroadPhaseLayerFilterImpl::view_of(broad_phase_layer_filter),
            ObjectLayerFilterImpl::view_of(object_layer_filter),
            BodyFilterImpl::view_of(body_filter),
            ShapeFilterImpl::view_of(shape_filter),
        );
        assert(actions@ =~= query);
        CollideShapeCollectorImpl::teardown_slot_into(collector, &mut actions);
        release_filters(
            broad_phase_layer_filter,
            object_layer_filter,
            body_filter,
            shape_filter,
            &mut actions,
        );
        proof {
            lemma_concat_associative(query, collector_release, filter_release);
        }
        actions
    }

    pub fn raw(&self) -> (raw: Handle)
        ensures
            raw == self.raw_spec(),
    {
        self.raw
    }
}

/// Whether a slot is empty or holds a capability whose value stays with the
/// caller.
pub open spec fn lent(slot: Option<Registration>) -> bool {
    match slot {
        Some(reg) => !reg.is_owned(),
        None => true,
    }
}

/// A query that was given only lent capabilities destroys no value when it
/// releases them: what the caller lent for the one query is still the
/// caller's afterwards. All it asks for is one deletion for each capability
/// it was given.
pub proof fn lemma_lent_capabilities_are_not_destroyed(
    collector: Option<Registration>,
    broad_phase_layer_filter: Option<Registration>,
    object_layer_filter: Option<Registration>,
    body_filter: Option<Registration>,
    shape_filter: Option<Registration>,
)
    requires
        lent(collector),
        lent(broad_phase_layer_filter),
        lent(object_layer_filter),
        lent(body_filter),
        lent(shape_filter),
    ensures
        ({
            let release = optional_teardown_actions(collector) + filter_release_actions(
                broad_phase_layer_filter,
                object_layer_filter,
                body_filter,
                shape_filter,
            );
            forall|k: int| 0 <= k < release.len() ==> (#[trigger] release[k]) is DeleteCapability
        }),
{
    let c = optional_teardown_actions(collector);
    let a = optional_teardown_actions(broad_phase_layer_filter);
    let b = optional_teardown_actions(object_layer_filter);
    let d = optional_teardown_actions(body_filter);
    let e = optional_teardown_actions(shape_filter);
    let release = c + (a + b + d + e);
    assert forall|k: int| 0 <= k < release.len() implies (#[trigger] release[k])
        is DeleteCapability by {
        if k < c.len() {
            assert(release[k] == c[k]);
        } else if k < c.len() + a.len() {
            assert(release[k] == a[k - c.len()]);
        } else if k < c.len() + a.len() + b.len() {
            assert(release[k] == b[k - c.len() - a.len()]);
        } else if k < c.len() + a.len() + b.len() + d.len() {
            assert(release[k] == d[k - c.len() - a.len() - b.len()]);
        } else {
            assert(release[k] == e[k - c.len() - a.len() - b.len() - d.len()]);
        }
    }
}

} // verus!
