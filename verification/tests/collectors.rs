use rolt::{
    early_out_fraction, Action, AllHitCollideShapeCollector, Body, BodyFilter, BodyFilterBridge,
    BodyId, BroadPhaseLayer, BroadPhaseLayerFilter, BroadPhaseLayerFilterBridge, CastShapeBase,
    CastShapeCollector, CastShapeCollectorBridge, ClosestHitCastShapeCollector, CollideShapeBase,
    CollideShapeCollector, CollideShapeCollectorBridge, CollideShapeResult, CollisionGroup, Float,
    GroupFilter, GroupFilterBridge, Handle, NativeVec3, ObjectLayer, ObjectLayerFilter,
    ObjectLayerFilterBridge, ShapeCastResult, ShapeFilter, ShapeFilterBridge, SimShapeFilter,
    SimShapeFilterBridge,
};

fn float(x: f32) -> Float {
    Float::from_bits(x.to_bits())
}

fn zero() -> NativeVec3 {
    NativeVec3 { x: float(0.0), y: float(0.0), z: float(0.0), w: float(0.0) }
}

fn cast_hit(body: u32, fraction: f32, depth: f32) -> ShapeCastResult {
    ShapeCastResult {
        contact_point_on_1: zero(),
        contact_point_on_2: zero(),
        penetration_axis: zero(),
        penetration_depth: float(depth),
        sub_shape_id_1: 0,
        sub_shape_id_2: 0,
        body_id_2: body,
        fraction: float(fraction),
        is_back_face_hit: false,
    }
}

fn overlap(body: u32, depth: f32) -> CollideShapeResult {
    CollideShapeResult {
        contact_point_on_1: zero(),
        contact_point_on_2: zero(),
        penetration_axis: zero(),
        penetration_depth: float(depth),
        sub_shape_id_1: 1,
        sub_shape_id_2: 2,
        body_id_2: body,
    }
}

const BASE: Handle = Handle { addr: 0x900 };

fn update(fraction: f32) -> Action {
    Action::CastShapeUpdateEarlyOutFraction { collector: BASE, fraction: float(fraction) }
}

#[test]
fn a_hit_is_ranked_by_its_fraction_or_by_its_depth() {
    assert_eq!(early_out_fraction(&cast_hit(1, 0.25, 3.0)), float(0.25));
    assert_eq!(early_out_fraction(&cast_hit(1, 0.0, 3.0)), float(-3.0));
    assert_eq!(early_out_fraction(&cast_hit(1, -1.0, 0.5)), float(-0.5));
    // a fraction that is no number is not above zero
    let odd = ShapeCastResult { fraction: Float::from_bits(0x7FC0_0000), ..cast_hit(1, 0.0, 2.0) };
    assert_eq!(early_out_fraction(&odd), float(-2.0));
    // negating zero gives the other zero
    assert_eq!(early_out_fraction(&cast_hit(1, 0.0, 0.0)).to_bits(), 0x8000_0000);
}

#[test]
fn the_closest_hit_collector_keeps_the_closest_hit() {
    let mut collector = ClosestHitCastShapeCollector::new();
    assert!(collector.result.is_none());
    let mut base = CastShapeBase::new(BASE);

    collector.add_hit(&mut base, &cast_hit(1, 0.8, 0.0));
    assert_eq!(collector.result, Some(cast_hit(1, 0.8, 0.0)));
    assert_eq!(base.actions, vec![update(0.8)]);

    // farther away: not taken, and the engine hears nothing
    collector.add_hit(&mut base, &cast_hit(2, 0.9, 0.0));
    assert_eq!(collector.result, Some(cast_hit(1, 0.8, 0.0)));
    assert_eq!(base.actions, vec![update(0.8)]);

    // just as far: the first one stays
    collector.add_hit(&mut base, &cast_hit(3, 0.8, 0.0));
    assert_eq!(collector.result, Some(cast_hit(1, 0.8, 0.0)));

    // closer: taken
    collector.add_hit(&mut base, &cast_hit(4, 0.25, 0.0));
    assert_eq!(collector.result, Some(cast_hit(4, 0.25, 0.0)));
    assert_eq!(base.actions, vec![update(0.8), update(0.25)]);

    // touching at the start ranks before any hit along the cast
    collector.add_hit(&mut base, &cast_hit(5, 0.0, 0.1));
    assert_eq!(collector.result, Some(cast_hit(5, 0.0, 0.1)));
    // and among those the deeper one ranks first
    collector.add_hit(&mut base, &cast_hit(6, 0.0, 0.05));
    assert_eq!(collector.result, Some(cast_hit(5, 0.0, 0.1)));
    collector.add_hit(&mut base, &cast_hit(7, 0.0, 0.7));
    assert_eq!(collector.result, Some(cast_hit(7, 0.0, 0.7)));
    assert_eq!(base.actions, vec![update(0.8), update(0.25), update(-0.1), update(-0.7)]);
    assert_eq!(base.base, BASE);

    collector.reset();
    assert!(collector.result.is_none());
    assert!(ClosestHitCastShapeCollector::default().result.is_none());
}

#[test]
fn the_bridge_hands_the_hit_over_and_returns_what_was_asked() {
    let mut collector = ClosestHitCastShapeCollector::new();
    type Bridge = CastShapeCollectorBridge<ClosestHitCastShapeCollector>;

    assert_eq!(Bridge::add_hit(&mut collector, BASE, &cast_hit(1, 0.5, 0.0)), vec![update(0.5)]);
    assert_eq!(Bridge::add_hit(&mut collector, BASE, &cast_hit(2, 0.75, 0.0)), Vec::new());
    assert_eq!(Bridge::add_hit(&mut collector, BASE, &cast_hit(3, 0.125, 0.0)), vec![update(0.125)]);
    assert_eq!(collector.result.unwrap().body_id_2, 3);
    Bridge::reset(&mut collector);
    assert!(collector.result.is_none());
}

#[test]
fn the_all_hit_collector_keeps_every_hit_in_order() {
    let mut collector = AllHitCollideShapeCollector::new();
    assert!(collector.result.is_empty());
    let mut base = CollideShapeBase::new(BASE);
    collector.add_hit(&mut base, &overlap(1, 0.1));
    collector.add_hit(&mut base, &overlap(2, 0.3));
    collector.add_hit(&mut base, &overlap(1, 0.1));
    assert_eq!(collector.result, vec![overlap(1, 0.1), overlap(2, 0.3), overlap(1, 0.1)]);
    assert!(base.actions.is_empty());
    assert_eq!(base.base, BASE);

    type Bridge = CollideShapeCollectorBridge<AllHitCollideShapeCollector>;
    assert!(Bridge::add_hit(&mut collector, BASE, &overlap(9, 0.0)).is_empty());
    assert_eq!(collector.result.len(), 4);
    assert_eq!(collector.result[3], overlap(9, 0.0));
    Bridge::reset(&mut collector);
    assert!(collector.result.is_empty());
    assert!(AllHitCollideShapeCollector::default().result.is_empty());
}

#[test]
fn a_collector_base_records_what_it_is_asked_in_order() {
    let mut cast = CastShapeBase::new(BASE);
    cast.update_early_out_fraction(float(0.5));
    cast.update_early_out_fraction(float(0.25));
    assert_eq!(cast.actions, vec![update(0.5), update(0.25)]);

    let mut collide = CollideShapeBase::new(BASE);
    collide.update_early_out_fraction(float(-1.0));
    assert_eq!(
        collide.actions,
        vec![Action::CollideShapeUpdateEarlyOutFraction { collector: BASE, fraction: float(-1.0) }]
    );
}

/// Stops at the first overlap that is deeper than its limit.
struct UntilDeep {
    limit: f32,
    seen: u32,
}

impl CollideShapeCollector for UntilDeep {
    fn reset(&mut self) {
        self.seen = 0;
    }

    fn add_hit(&mut self, base: &mut CollideShapeBase, result: &CollideShapeResult) {
        self.seen += 1;
        if f32::from_bits(result.penetration_depth.to_bits()) > self.limit {
            base.update_early_out_fraction(float(f32::MIN));
        }
    }
}

#[test]
fn the_bridge_passes_on_what_a_users_collector_asks() {
    let mut collector = UntilDeep { limit: 0.5, seen: 7 };
    type Bridge = CollideShapeCollectorBridge<UntilDeep>;
    Bridge::reset(&mut collector);
    assert_eq!(collector.seen, 0);
    assert!(Bridge::add_hit(&mut collector, BASE, &overlap(1, 0.25)).is_empty());
    assert_eq!(
        Bridge::add_hit(&mut collector, BASE, &overlap(2, 0.75)),
        vec![Action::CollideShapeUpdateEarlyOutFraction { collector: BASE, fraction: float(f32::MIN) }]
    );
    assert_eq!(collector.seen, 2);
}

struct Picky;

impl GroupFilter for Picky {
    fn can_collide(&self, group_1: &CollisionGroup, group_2: &CollisionGroup) -> bool {
        group_1.group_id != group_2.group_id
    }
}

impl BroadPhaseLayerFilter for Picky {
    fn should_collide(&self, layer: BroadPhaseLayer) -> bool {
        layer.raw() == 1
    }
}

impl ObjectLayerFilter for Picky {
    fn should_collide(&self, layer: ObjectLayer) -> bool {
        layer == ObjectLayer::new(0x1234)
    }
}

impl BodyFilter for Picky {
    fn should_collide(&self, body_id: BodyId) -> bool {
        body_id.raw() % 2 == 0
    }

    fn should_collide_locked(&self, body: &mut Body) -> bool {
        body.as_raw() == Handle::new(0x77)
    }
}

impl ShapeFilter for Picky {
    fn should_collide(&self, shape2: Handle, subshape_id2: u32) -> bool {
        shape2 == Handle::new(0x10) && subshape_id2 == 3
    }
}

impl SimShapeFilter for Picky {
    fn should_collide(
        &self,
        body1: Body,
        shape1: Handle,
        subshape1: u32,
        body2: Body,
        shape2: Handle,
        subshape2: u32,
    ) -> bool {
        body1.as_raw() == Handle::new(1)
            && shape1 == Handle::new(2)
            && subshape1 == 3
            && body2.as_raw() == Handle::new(4)
            && shape2 == Handle::new(5)
            && subshape2 == 6
    }
}

struct Lenient;

impl ShapeFilter for Lenient {}

#[test]
fn each_bridge_hands_its_arguments_over_unchanged() {
    let a = CollisionGroup { group_filter: Handle::null(), group_id: 1, sub_group_id: 0 };
    let b = CollisionGroup { group_filter: Handle::null(), group_id: 2, sub_group_id: 0 };
    assert!(GroupFilterBridge::<Picky>::can_collide(&Picky, &a, &b));
    assert!(!GroupFilterBridge::<Picky>::can_collide(&Picky, &a, &a));

    assert!(BroadPhaseLayerFilterBridge::<Picky>::should_collide(&Picky, 1));
    assert!(!BroadPhaseLayerFilterBridge::<Picky>::should_collide(&Picky, 0));
    assert!(!BroadPhaseLayerFilterBridge::<Picky>::should_collide(&Picky, 255));

    assert!(ObjectLayerFilterBridge::<Picky>::should_collide(&Picky, 0x1234));
    assert!(!ObjectLayerFilterBridge::<Picky>::should_collide(&Picky, 0x1235));
    assert!(!ObjectLayerFilterBridge::<Picky>::should_collide(&Picky, 0x34));

    assert!(BodyFilterBridge::<Picky>::should_collide(&Picky, 4));
    assert!(!BodyFilterBridge::<Picky>::should_collide(&Picky, u32::MAX));
    assert!(BodyFilterBridge::<Picky>::should_collide_locked(&Picky, Handle::new(0x77)));
    assert!(!BodyFilterBridge::<Picky>::should_collide_locked(&Picky, Handle::new(0x78)));

    assert!(ShapeFilterBridge::<Picky>::should_collide(&Picky, Handle::new(0x10), 3));
    assert!(!ShapeFilterBridge::<Picky>::should_collide(&Picky, Handle::new(0x10), 4));
    // the operation that Picky leaves alone accepts everything
    assert!(ShapeFilterBridge::<Picky>::should_collide_two_shapes(
        &Picky,
        Handle::new(1),
        2,
        Handle::new(3),
        4
    ));
    assert!(ShapeFilterBridge::<Lenient>::should_collide(&Lenient, Handle::null(), 0));
    assert!(ShapeFilterBridge::<Lenient>::should_collide_two_shapes(
        &Lenient,
        Handle::null(),
        0,
        Handle::null(),
        0
    ));

    assert!(SimShapeFilterBridge::<Picky>::should_collide(
        &Picky,
        Handle::new(1),
        Handle::new(2),
        3,
        Handle::new(4),
        Handle::new(5),
        6
    ));
    assert!(!SimShapeFilterBridge::<Picky>::should_collide(
        &Picky,
        Handle::new(4),
        Handle::new(5),
        6,
        Handle::new(1),
        Handle::new(2),
        3
    ));
}

#[test]
fn after_any_run_of_hits_no_hit_beats_the_one_that_is_kept() {
    let rank = |hit: &ShapeCastResult| f32::from_bits(early_out_fraction(hit).to_bits());
    let runs = [
        vec![cast_hit(1, 0.5, 0.0), cast_hit(2, 0.25, 0.0), cast_hit(3, 0.75, 0.0)],
        vec![cast_hit(1, 0.0, 0.2), cast_hit(2, 0.0, 0.9), cast_hit(3, 0.1, 0.0)],
        vec![cast_hit(1, 1.0, 0.0), cast_hit(2, 1.0, 0.0), cast_hit(3, 1.0, 0.0)],
        vec![cast_hit(1, 0.9, 0.0), cast_hit(2, f32::NAN, f32::NAN), cast_hit(3, 0.8, 0.0)],
        vec![cast_hit(9, 0.3, 0.0)],
    ];
    for run in runs {
        let mut collector = ClosestHitCastShapeCollector::new();
        let mut base = CastShapeBase::new(BASE);
        for hit in &run {
            collector.add_hit(&mut base, hit);
        }
        let kept = collector.result.expect("a run of hits leaves a hit");
        assert!(run.contains(&kept));
        for hit in &run {
            assert!(!(rank(hit) < rank(&kept)), "{hit:?} beats {kept:?}");
        }
        // the engine was told of every improvement, and the last one is the
        // rank of the hit that is kept
        assert_eq!(base.actions.last(), Some(&Action::CastShapeUpdateEarlyOutFraction {
            collector: BASE,
            fraction: early_out_fraction(&kept),
        }));
    }
}
