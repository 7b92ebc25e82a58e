// The hello world program, driven through the library against a stand-in for
// the engine that records every action and answers the way the engine would.

use rolt::layers::{
    is_known_object_layer, BroadPhaseLayers, ObjectLayerPair, ObjectVsBroadPhase, OL_MOVING,
    OL_NON_MOVING,
};
use rolt::{
    create_box, create_sphere, factory_delete, factory_init, register_default_allocator,
    register_types, rmat44_translation, shape_result, unregister_types, Action, Activation, Body,
    BodyId, BodyInterface, BroadPhaseLayer, BroadPhaseLayerInterface,
    BroadPhaseLayerInterfaceBridge, BroadPhaseLayerInterfaceImpl, Capability, CastShapeArgs,
    CastShapeCollectorBridge, CastShapeCollectorImpl, ClosestHitCastShapeCollector, Float,
    FromJolt, GlobalContext, Handle, IntoJolt, NarrowPhaseQuery, NativeVec3, ObjectLayer,
    ObjectLayerPairFilter, ObjectLayerPairFilterBridge, ObjectLayerPairFilterImpl,
    ObjectVsBroadPhaseLayerFilter, ObjectVsBroadPhaseLayerFilterBridge,
    ObjectVsBroadPhaseLayerFilterImpl, Phase, PhysicsSystem, RShapeCast, RVec3, SetupStage,
    ShapeCastResult, Vec3,
};

fn float(x: f32) -> Float {
    Float::from_bits(x.to_bits())
}

fn vector(x: f32, y: f32, z: f32) -> Vec3 {
    Vec3::new(float(x), float(y), float(z))
}

struct Classifier;

impl BroadPhaseLayerInterface for Classifier {
    fn get_num_broad_phase_layers(&self) -> u32 {
        BroadPhaseLayers.get_num_broad_phase_layers()
    }

    fn get_broad_phase_layer(&self, layer: ObjectLayer) -> BroadPhaseLayer {
        if !is_known_object_layer(layer.raw()) {
            unreachable!();
        }
        BroadPhaseLayers.get_broad_phase_layer(layer)
    }
}

struct AgainstBroadPhase;

impl ObjectVsBroadPhaseLayerFilter for AgainstBroadPhase {
    fn should_collide(&self, layer1: ObjectLayer, layer2: BroadPhaseLayer) -> bool {
        if !is_known_object_layer(layer1.raw()) {
            unreachable!();
        }
        ObjectVsBroadPhase.should_collide(layer1, layer2)
    }
}

struct Pairs;

impl ObjectLayerPairFilter for Pairs {
    fn should_collide(&self, layer1: ObjectLayer, layer2: ObjectLayer) -> bool {
        if !is_known_object_layer(layer1.raw()) {
            unreachable!();
        }
        ObjectLayerPair.should_collide(layer1, layer2)
    }
}

/// Stands in for the engine: hands out addresses and IDs, keeps the log, and
/// lets a body settle after a given number of steps.
struct Engine {
    log: Vec<Action>,
    next_address: usize,
    next_body: u32,
    steps_until_rest: u32,
}

impl Engine {
    fn new(steps_until_rest: u32) -> Self {
        Engine { log: Vec::new(), next_address: 0x1000, next_body: 7, steps_until_rest }
    }

    fn fresh(&mut self) -> Handle {
        self.next_address += 0x10;
        Handle::new(self.next_address)
    }

    fn perform(&mut self, action: Action) {
        if let Action::PhysicsSystemUpdate { .. } = action {
            self.steps_until_rest = self.steps_until_rest.saturating_sub(1);
        }
        self.log.push(action);
    }

    fn perform_all(&mut self, actions: Vec<Action>) {
        for action in actions {
            self.perform(action);
        }
    }

    fn create_body(&mut self, action: Action) -> (Handle, u32) {
        self.perform(action);
        let body = self.fresh();
        self.next_body += 1;
        (body, self.next_body)
    }

    fn is_active(&mut self, action: Action) -> bool {
        self.perform(action);
        self.steps_until_rest > 0
    }
}

#[test]
fn run_main() {
    let mut engine = Engine::new(3);

    let mut context = GlobalContext::new();
    engine.perform(register_default_allocator(&mut context));
    engine.perform(factory_init(&mut context));
    engine.perform(register_types(&mut context));
    assert_eq!(context.stage(), SetupStage::TypesRegistered);

    let temp_allocator = engine.fresh();
    let job_system = engine.fresh();

    let drop_classifier = Handle::new(0xd0);
    let drop_against = Handle::new(0xd1);
    let drop_pairs = Handle::new(0xd2);
    let classifier_at = engine.fresh();
    let classifier_raw = engine.fresh();
    let against_at = engine.fresh();
    let against_raw = engine.fresh();
    let pairs_at = engine.fresh();
    let pairs_raw = engine.fresh();

    let broad_phase_layer_interface =
        BroadPhaseLayerInterfaceImpl::new(classifier_at, drop_classifier, classifier_raw);
    let object_vs_broad_phase_layer_filter =
        ObjectVsBroadPhaseLayerFilterImpl::new(against_at, drop_against, against_raw);
    let object_layer_pair_filter = ObjectLayerPairFilterImpl::new(pairs_at, drop_pairs, pairs_raw);

    let system_raw = engine.fresh();
    let mut physics_system = PhysicsSystem::new(&context, system_raw);
    assert_eq!(physics_system.phase(), Phase::Created);

    let init = physics_system.init(
        1024,
        0,
        1024,
        1024,
        broad_phase_layer_interface,
        object_vs_broad_phase_layer_filter,
        object_layer_pair_filter,
    );
    assert_eq!(
        init,
        Action::PhysicsSystemInit {
            system: system_raw,
            max_bodies: 1024,
            num_body_mutexes: 0,
            max_body_pairs: 1024,
            max_contact_constraints: 1024,
            broad_phase_layer_interface: classifier_raw,
            object_vs_broad_phase_layer_filter: against_raw,
            object_layer_pair_filter: pairs_raw,
        }
    );
    engine.perform(init);
    assert_eq!(physics_system.phase(), Phase::Initialized);

    // While the simulation lives, the engine reaches the rules through the
    // bridges, in its own encoding.
    assert_eq!(BroadPhaseLayerInterfaceBridge::<Classifier>::get_num_broad_phase_layers(&Classifier), 2);
    assert_eq!(BroadPhaseLayerInterfaceBridge::<Classifier>::get_broad_phase_layer(&Classifier, 0), 0);
    assert_eq!(BroadPhaseLayerInterfaceBridge::<Classifier>::get_broad_phase_layer(&Classifier, 1), 1);
    assert!(!ObjectVsBroadPhaseLayerFilterBridge::<AgainstBroadPhase>::should_collide(
        &AgainstBroadPhase,
        OL_NON_MOVING,
        0
    ));
    assert!(ObjectVsBroadPhaseLayerFilterBridge::<AgainstBroadPhase>::should_collide(
        &AgainstBroadPhase,
        OL_NON_MOVING,
        1
    ));
    assert!(ObjectVsBroadPhaseLayerFilterBridge::<AgainstBroadPhase>::should_collide(
        &AgainstBroadPhase,
        OL_MOVING,
        0
    ));
    assert!(!ObjectLayerPairFilterBridge::<Pairs>::should_collide(&Pairs, 0, 0));
    assert!(ObjectLayerPairFilterBridge::<Pairs>::should_collide(&Pairs, 0, 1));
    assert!(ObjectLayerPairFilterBridge::<Pairs>::should_collide(&Pairs, 1, 0));
    assert!(ObjectLayerPairFilterBridge::<Pairs>::should_collide(&Pairs, 1, 1));

    engine.perform(physics_system.body_interface());
    let interface_raw = engine.fresh();
    let mut body_interface = BodyInterface::new(interface_raw);

    let floor_settings = engine.fresh();
    engine.perform(create_box(floor_settings));
    let floor_shape = shape_result(true, engine.fresh(), String::new()).unwrap();

    let floor_body_settings = engine.fresh();
    let (floor_raw, floor_raw_id) = engine.create_body(body_interface.create_body(floor_body_settings));
    let floor = Body::from_created(floor_raw).unwrap();
    engine.perform(floor.id());
    let floor_id = BodyId::new(floor_raw_id);
    body_interface.track(floor_id);
    engine.perform(body_interface.add_body(floor_id, Activation::DontActivate));

    let sphere_settings = engine.fresh();
    engine.perform(create_sphere(sphere_settings));
    let sphere_shape = shape_result(true, engine.fresh(), String::new()).unwrap();
    assert_ne!(floor_shape, sphere_shape);

    let sphere_body_settings = engine.fresh();
    let (sphere_raw, sphere_raw_id) =
        engine.create_body(body_interface.create_body(sphere_body_settings));
    let sphere = Body::from_created(sphere_raw).unwrap();
    engine.perform(sphere.id());
    let sphere_id = BodyId::new(sphere_raw_id);
    body_interface.track(sphere_id);
    engine.perform(body_interface.add_body(sphere_id, Activation::Activate));

    let velocity = body_interface.set_linear_velocity(sphere_id, vector(0.0, -5.0, 0.0));
    assert_eq!(
        velocity,
        Action::SetLinearVelocity {
            interface: interface_raw,
            body_id: sphere_raw_id,
            velocity: NativeVec3 {
                x: float(0.0),
                y: float(-5.0),
                z: float(0.0),
                w: float(0.0),
            },
        }
    );
    engine.perform(velocity);

    engine.perform(physics_system.optimize_broad_phase());
    assert!(physics_system.is_optimized());

    let delta_time = float(1.0 / 60.0);
    let collision_steps = 1;

    let mut step = 0;
    while engine.is_active(body_interface.is_active(sphere_id)) {
        step += 1;

        engine.perform(body_interface.center_of_mass_position(sphere_id));
        let position = RVec3::from_jolt(NativeVec3 {
            x: float(0.0),
            y: float(2.0 - step as f32),
            z: float(0.0),
            w: float(0.0),
        });
        assert_eq!(f32::from_bits(position.y.to_bits()), 2.0 - step as f32);
        engine.perform(body_interface.linear_velocity(sphere_id));

        let update = physics_system.update(delta_time, collision_steps, temp_allocator, job_system);
        assert_eq!(
            update,
            Action::PhysicsSystemUpdate {
                system: system_raw,
                delta_time: Float::from_bits(0x3c88_8889),
                collision_steps: 1,
                temp_allocator,
                job_system,
            }
        );
        engine.perform(update);
    }
    assert_eq!(step, 3);
    assert_eq!(physics_system.phase(), Phase::Stepped);

    engine.perform(physics_system.narrow_phase_query());
    let query_raw = engine.fresh();
    let narrow_phase = NarrowPhaseQuery::new(query_raw);

    let mut collector = ClosestHitCastShapeCollector::new();
    let collector_raw = engine.fresh();
    let cast_settings = engine.fresh();
    let start = rmat44_translation(vector(-5.0, 0.0, 0.0).into_jolt());
    let cast = narrow_phase.cast_shape(CastShapeArgs {
        shapecast: RShapeCast {
            shape: sphere_shape,
            scale: vector(1.0, 1.0, 1.0),
            center_of_mass_start: start,
            direction: vector(10.0, 0.0, 0.0),
        },
        base_offset: vector(0.0, 0.0, 0.0),
        settings: cast_settings,
        collector: Some(CastShapeCollectorImpl::new_borrowed(&mut collector, collector_raw)),
        broad_phase_layer_filter: None,
        object_layer_filter: None,
        body_filter: None,
        shape_filter: None,
    });
    assert_eq!(cast.len(), 2);
    match cast[0] {
        Action::CastShape { query, cast_args } => {
            assert_eq!(query, query_raw);
            assert_eq!(cast_args.collector, collector_raw);
            assert_eq!(cast_args.shape_cast.shape, sphere_shape);
            assert_eq!(cast_args.shape_cast.center_of_mass_start, start);
            assert_eq!(cast_args.shape_cast.direction.w, float(0.0));
            assert_eq!(cast_args.settings, cast_settings);
            assert!(cast_args.broad_phase_layer_filter.is_null());
            assert!(cast_args.object_layer_filter.is_null());
            assert!(cast_args.body_filter.is_null());
            assert!(cast_args.shape_filter.is_null());
        }
        _ => panic!("the cast comes first"),
    }
    assert_eq!(
        cast[1],
        Action::DeleteCapability { kind: Capability::CastShapeCollector, raw: collector_raw }
    );

    // While the cast runs, the engine reports the sphere through the bridge.
    let zero = NativeVec3 { x: float(0.0), y: float(0.0), z: float(0.0), w: float(0.0) };
    let hit = ShapeCastResult {
        contact_point_on_1: zero,
        contact_point_on_2: zero,
        penetration_axis: zero,
        penetration_depth: float(0.0),
        sub_shape_id_1: 0,
        sub_shape_id_2: 0,
        body_id_2: sphere_raw_id,
        fraction: float(0.45),
        is_back_face_hit: false,
    };
    let asked = CastShapeCollectorBridge::<ClosestHitCastShapeCollector>::add_hit(
        &mut collector,
        collector_raw,
        &hit,
    );
    assert_eq!(
        asked,
        vec![Action::CastShapeUpdateEarlyOutFraction { collector: collector_raw, fraction: float(0.45) }]
    );
    engine.perform_all(cast);
    assert!(collector.result.is_some());

    engine.perform(body_interface.remove_body(floor_id));
    engine.perform(body_interface.destroy_body(floor_id));

    engine.perform(body_interface.remove_body(sphere_id));
    engine.perform(body_interface.destroy_body(sphere_id));
    assert!(!body_interface.tracks(floor_id));
    assert!(!body_interface.tracks(sphere_id));

    let teardown = physics_system.shutdown(body_interface);
    assert_eq!(
        teardown,
        vec![
            Action::PhysicsSystemDelete { system: system_raw },
            Action::DeleteCapability { kind: Capability::BroadPhaseLayerInterface, raw: classifier_raw },
            Action::DropValue { this: classifier_at, drop: drop_classifier },
            Action::DeleteCapability {
                kind: Capability::ObjectVsBroadPhaseLayerFilter,
                raw: against_raw
            },
            Action::DropValue { this: against_at, drop: drop_against },
            Action::DeleteCapability { kind: Capability::ObjectLayerPairFilter, raw: pairs_raw },
            Action::DropValue { this: pairs_at, drop: drop_pairs },
        ]
    );
    engine.perform_all(teardown);

    engine.perform(unregister_types(&mut context));
    engine.perform(factory_delete(&mut context));
    assert_eq!(context.stage(), SetupStage::Finished);

    // The order in which the engine was driven.
    let log = &engine.log;
    assert_eq!(&log[0..3], &[Action::RegisterDefaultAllocator, Action::FactoryInit, Action::RegisterTypes]);
    assert!(matches!(log[3], Action::PhysicsSystemInit { .. }));
    let position_of = |wanted: &Action| log.iter().position(|action| action == wanted).unwrap();
    let optimized = position_of(&Action::PhysicsSystemOptimizeBroadPhase { system: system_raw });
    let first_step = log.iter().position(|a| matches!(a, Action::PhysicsSystemUpdate { .. })).unwrap();
    let sphere_added = position_of(&Action::AddBody {
        interface: interface_raw,
        body_id: sphere_raw_id,
        activation: Activation::Activate,
    });
    let sphere_removed = position_of(&Action::RemoveBody { interface: interface_raw, body_id: sphere_raw_id });
    let sphere_destroyed =
        position_of(&Action::DestroyBody { interface: interface_raw, body_id: sphere_raw_id });
    let deleted = position_of(&Action::PhysicsSystemDelete { system: system_raw });
    assert!(sphere_added < optimized);
    assert!(optimized < first_step);
    assert!(first_step < sphere_removed);
    assert!(sphere_removed < sphere_destroyed);
    assert!(sphere_destroyed < deleted);
    assert_eq!(log.iter().filter(|a| matches!(a, Action::PhysicsSystemUpdate { .. })).count(), 3);
    assert_eq!(&log[log.len() - 2..], &[Action::UnregisterTypes, Action::FactoryDelete]);
}
