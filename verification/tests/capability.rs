use rolt::{
    Action, BodyFilter, BodyFilterImpl, BodyId, BroadPhaseLayer, BroadPhaseLayerFilter,
    BroadPhaseLayerFilterImpl, BroadPhaseLayerInterface, BroadPhaseLayerInterfaceImpl, Body,
    Capability, CastShapeCollectorImpl, ClosestHitCastShapeCollector, AllHitCollideShapeCollector,
    CollideShapeCollectorImpl, CollisionGroup, ContactListenerImpl, FunctionTable, GroupFilter,
    GroupFilterImpl, Handle, IntoJolt, ObjectLayer, ObjectLayerFilter, ObjectLayerFilterImpl,
    ObjectLayerPairFilter, ObjectLayerPairFilterImpl, ObjectVsBroadPhaseLayerFilter,
    ObjectVsBroadPhaseLayerFilterImpl, Registration, RemoteDrop, ShapeFilter, ShapeFilterImpl,
    SimShapeFilter, SimShapeFilterImpl,
};

struct Anything;

impl GroupFilter for Anything {
    fn can_collide(&self, _group_1: &CollisionGroup, _group_2: &CollisionGroup) -> bool {
        true
    }
}

impl BroadPhaseLayerInterface for Anything {
    fn get_num_broad_phase_layers(&self) -> u32 {
        1
    }

    fn get_broad_phase_layer(&self, _layer: ObjectLayer) -> BroadPhaseLayer {
        BroadPhaseLayer::new(0)
    }
}

impl ObjectVsBroadPhaseLayerFilter for Anything {
    fn should_collide(&self, _layer1: ObjectLayer, _layer2: BroadPhaseLayer) -> bool {
        true
    }
}

impl ObjectLayerPairFilter for Anything {
    fn should_collide(&self, _layer1: ObjectLayer, _layer2: ObjectLayer) -> bool {
        true
    }
}

impl BroadPhaseLayerFilter for Anything {
    fn should_collide(&self, _layer: BroadPhaseLayer) -> bool {
        true
    }
}

impl ObjectLayerFilter for Anything {
    fn should_collide(&self, _layer: ObjectLayer) -> bool {
        true
    }
}

impl BodyFilter for Anything {
    fn should_collide(&self, _body_id: BodyId) -> bool {
        true
    }

    fn should_collide_locked(&self, _body: &mut Body) -> bool {
        true
    }
}

impl ShapeFilter for Anything {}

impl SimShapeFilter for Anything {
    fn should_collide(
        &self,
        _body1: Body,
        _shape1: Handle,
        _subshape1: u32,
        _body2: Body,
        _shape2: Handle,
        _subshape2: u32,
    ) -> bool {
        true
    }
}

const THIS: Handle = Handle { addr: 0x10 };
const DROP: Handle = Handle { addr: 0x20 };
const RAW: Handle = Handle { addr: 0x30 };

fn owned(kind: Capability) -> Vec<Action> {
    vec![Action::DeleteCapability { kind, raw: RAW }, Action::DropValue { this: THIS, drop: DROP }]
}

fn borrowed(kind: Capability) -> Vec<Action> {
    vec![Action::DeleteCapability { kind, raw: RAW }]
}

#[test]
fn an_owned_wrapper_deletes_the_registration_and_then_destroys_the_value() {
    let wrapper = BroadPhaseLayerInterfaceImpl::new(THIS, DROP, RAW);
    assert_eq!(wrapper.as_raw(), RAW);
    let actions = wrapper.teardown();
    assert_eq!(
        actions,
        vec![
            Action::DeleteCapability { kind: Capability::BroadPhaseLayerInterface, raw: RAW },
            Action::DropValue { this: THIS, drop: DROP },
        ]
    );
    let deletions = actions.iter().filter(|a| matches!(a, Action::DeleteCapability { .. })).count();
    let destructions = actions.iter().filter(|a| matches!(a, Action::DropValue { .. })).count();
    assert_eq!(deletions, 1);
    assert_eq!(destructions, 1);
    let deleted = actions.iter().position(|a| matches!(a, Action::DeleteCapability { .. })).unwrap();
    let destroyed = actions.iter().position(|a| matches!(a, Action::DropValue { .. })).unwrap();
    assert!(deleted < destroyed);
}

#[test]
fn every_kind_of_owned_wrapper_tears_down_in_that_order() {
    assert_eq!(GroupFilterImpl::new(THIS, DROP, RAW).teardown(), owned(Capability::GroupFilter));
    assert_eq!(
        BroadPhaseLayerInterfaceImpl::new(THIS, DROP, RAW).teardown(),
        owned(Capability::BroadPhaseLayerInterface)
    );
    assert_eq!(
        ObjectVsBroadPhaseLayerFilterImpl::new(THIS, DROP, RAW).teardown(),
        owned(Capability::ObjectVsBroadPhaseLayerFilter)
    );
    assert_eq!(
        ObjectLayerPairFilterImpl::new(THIS, DROP, RAW).teardown(),
        owned(Capability::ObjectLayerPairFilter)
    );
    assert_eq!(
        BroadPhaseLayerFilterImpl::new(THIS, DROP, RAW).teardown(),
        owned(Capability::BroadPhaseLayerFilter)
    );
    assert_eq!(ObjectLayerFilterImpl::new(THIS, DROP, RAW).teardown(), owned(Capability::ObjectLayerFilter));
    assert_eq!(BodyFilterImpl::new(THIS, DROP, RAW).teardown(), owned(Capability::BodyFilter));
    assert_eq!(ShapeFilterImpl::new(THIS, DROP, RAW).teardown(), owned(Capability::ShapeFilter));
    assert_eq!(SimShapeFilterImpl::new(THIS, DROP, RAW).teardown(), owned(Capability::SimShapeFilter));
    assert_eq!(
        CastShapeCollectorImpl::new(THIS, DROP, RAW).teardown(),
        owned(Capability::CastShapeCollector)
    );
    assert_eq!(
        CollideShapeCollectorImpl::new(THIS, DROP, RAW).teardown(),
        owned(Capability::CollideShapeCollector)
    );
    assert_eq!(ContactListenerImpl::new(THIS, DROP, RAW).teardown(), owned(Capability::ContactListener));
}

#[test]
fn every_kind_of_borrowed_wrapper_only_deletes_the_registration() {
    let mut value = Anything;
    assert_eq!(GroupFilterImpl::new_borrowed(&mut value, RAW).teardown(), borrowed(Capability::GroupFilter));
    assert_eq!(
        BroadPhaseLayerInterfaceImpl::new_borrowed(&mut value, RAW).teardown(),
        borrowed(Capability::BroadPhaseLayerInterface)
    );
    assert_eq!(
        ObjectVsBroadPhaseLayerFilterImpl::new_borrowed(&mut value, RAW).teardown(),
        borrowed(Capability::ObjectVsBroadPhaseLayerFilter)
    );
    assert_eq!(
        ObjectLayerPairFilterImpl::new_borrowed(&mut value, RAW).teardown(),
        borrowed(Capability::ObjectLayerPairFilter)
    );
    assert_eq!(
        BroadPhaseLayerFilterImpl::new_borrowed(&mut value, RAW).teardown(),
        borrowed(Capability::BroadPhaseLayerFilter)
    );
    assert_eq!(
        ObjectLayerFilterImpl::new_borrowed(&mut value, RAW).teardown(),
        borrowed(Capability::ObjectLayerFilter)
    );
    assert_eq!(BodyFilterImpl::new_borrowed(&mut value, RAW).teardown(), borrowed(Capability::BodyFilter));
    assert_eq!(ShapeFilterImpl::new_borrowed(&mut value, RAW).teardown(), borrowed(Capability::ShapeFilter));
    assert_eq!(
        SimShapeFilterImpl::new_borrowed(&mut value, RAW).teardown(),
        borrowed(Capability::SimShapeFilter)
    );
    let mut closest = ClosestHitCastShapeCollector::new();
    assert_eq!(
        CastShapeCollectorImpl::new_borrowed(&mut closest, RAW).teardown(),
        borrowed(Capability::CastShapeCollector)
    );
    let mut all = AllHitCollideShapeCollector::new();
    assert_eq!(
        CollideShapeCollectorImpl::new_borrowed(&mut all, RAW).teardown(),
        borrowed(Capability::CollideShapeCollector)
    );
}

#[test]
fn a_wrapper_of_an_existing_registration_only_deletes_it() {
    assert_eq!(GroupFilterImpl::new_existing(RAW).teardown(), borrowed(Capability::GroupFilter));
    assert_eq!(ContactListenerImpl::new_existing(RAW).teardown(), borrowed(Capability::ContactListener));
    assert_eq!(BodyFilterImpl::new_existing(RAW).as_raw(), RAW);

    let table = FunctionTable::new(Capability::ShapeFilter, vec![Handle::new(1), Handle::new(2)]);
    assert!(table.is_complete());
    let wrapper = ShapeFilterImpl::from_raw(&table, RAW);
    assert_eq!(wrapper.as_raw(), RAW);
    assert_eq!(wrapper.teardown(), borrowed(Capability::ShapeFilter));
}

#[test]
fn a_borrowed_value_is_still_there_after_the_wrapper_is_gone() {
    let mut collector = ClosestHitCastShapeCollector::new();
    {
        let wrapper = CastShapeCollectorImpl::new_borrowed(&mut collector, RAW);
        let actions = wrapper.teardown();
        assert!(actions.iter().all(|action| !matches!(action, Action::DropValue { .. })));
    }
    // the owner goes on using its value
    assert!(collector.result.is_none());
    collector.result = None;
}

#[test]
fn teardown_appends_to_what_is_there() {
    let mut actions = vec![Action::FactoryInit];
    ShapeFilterImpl::new(THIS, DROP, RAW).teardown_into(&mut actions);
    BodyFilterImpl::teardown_slot_into(None, &mut actions);
    BodyFilterImpl::teardown_slot_into(Some(BodyFilterImpl::new_existing(RAW)), &mut actions);
    assert_eq!(
        actions,
        vec![
            Action::FactoryInit,
            Action::DeleteCapability { kind: Capability::ShapeFilter, raw: RAW },
            Action::DropValue { this: THIS, drop: DROP },
            Action::DeleteCapability { kind: Capability::BodyFilter, raw: RAW },
        ]
    );
}

#[test]
fn an_empty_slot_goes_native_as_null() {
    let wrapper = ObjectLayerFilterImpl::new_existing(RAW);
    assert_eq!(Some(&wrapper).into_jolt(), RAW);
    let empty: Option<&ObjectLayerFilterImpl> = None;
    assert_eq!(empty.into_jolt(), Handle::null());
    assert!(empty.into_jolt().is_null());
}

#[test]
fn a_registration_says_who_owns_the_value() {
    let owned = Registration::owned(Capability::BodyFilter, RAW, THIS, DROP);
    assert!(owned.owns_value());
    assert_eq!(owned.as_raw(), RAW);
    assert_eq!(owned.remote_this, Some(RemoteDrop::new(THIS, DROP)));
    let lent = Registration::borrowed(Capability::BodyFilter, RAW);
    assert!(!lent.owns_value());
    assert_eq!(lent.teardown(), vec![Action::DeleteCapability { kind: Capability::BodyFilter, raw: RAW }]);
}

#[test]
fn releasing_a_remote_drop_asks_for_one_destruction() {
    let remote = RemoteDrop::new(THIS, DROP);
    assert_eq!(remote.release(), Action::DropValue { this: THIS, drop: DROP });
}

#[test]
fn handles_compare_by_address() {
    assert_eq!(Handle::new(5), Handle::new(5));
    assert_ne!(Handle::new(5), Handle::new(6));
    assert!(Handle::null().is_null());
    assert!(!Handle::new(1).is_null());
    assert_eq!(Handle::new(0), Handle::null());
    assert_eq!(Handle::new(0xdead).addr(), 0xdead);
}
