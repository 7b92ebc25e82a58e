//! The root of a physics simulation.
//!
//! A [`PhysicsSystem`] sequences the calls that the engine wants in order
//! (initialize, configure, step, query, tear down) and holds the capability
//! wrappers that have to live as long as the simulation does.

use vstd::prelude::*;

use crate::action::Action;
use crate::body_interface::{
    lemma_release_removes_before_destroying, release_actions_of, BodyInterface, BodyInterfaceView,
};
use crate::capability::{optional_teardown_actions, Registration};
use crate::handle::Handle;
use crate::interfaces::{
    BroadPhaseLayerInterfaceImpl, ContactListenerImpl, ObjectLayerPairFilterImpl,
    ObjectVsBroadPhaseLayerFilterImpl, SimShapeFilterImpl,
};
use crate::scalar::Float;
use crate::setup::GlobalContext;

verus! {

/// Where a simulation stands in its life.
#[derive(Debug, Clone, Copy, PartialEq, Eq, Structural)]
pub enum Phase {
    /// The native object exists and nothing else.
    Created,
    /// The limits and the three layer capabilities are installed.
    Initialized,
    /// At least one step was taken.
    Stepped,
}

/// What a [`PhysicsSystem`] is, for the contracts: its native object, its
/// phase, and the registrations it holds.
pub struct PhysicsSystemView {
    pub raw: Handle,
    pub phase: Phase,
    pub optimized: bool,
    pub broad_phase_layer_interface: Option<Registration>,
    pub object_vs_broad_phase_layer_filter: Option<Registration>,
    pub object_layer_pair_filter: Option<Registration>,
    pub sim_shape_filter: Option<Registration>,
    pub contact_listener: Option<Registration>,
}

impl PhysicsSystemView {
    /// What releasing the held capabilities asks for, slot by slot.
    pub open spec fn capability_teardown_actions(self) -> Seq<Action> {
        optional_teardown_actions(self.broad_phase_layer_interface) + optional_teardown_actions(
            self.object_vs_broad_phase_layer_filter,
        ) + optional_teardown_actions(self.object_layer_pair_filter) + optional_teardown_actions(
            self.sim_shape_filter,
        ) + optional_teardown_actions(self.contact_listener)
    }

    /// What tearing the simulation down asks for: delete the native object,
    /// then release the capabilities it was calling into.
    pub open spec fn teardown_actions(self) -> Seq<Action> {
        seq![Action::PhysicsSystemDelete { system: self.raw }] + self.capability_teardown_actions()
    }
}

/// The root of everything for a physics simulation.
#[derive(Debug)]
pub struct PhysicsSystem {
    raw: Handle,
    phase: Phase,
    optimized: bool,
    broad_phase_layer_interface: Option<BroadPhaseLayerInterfaceImpl<'static>>,
    object_vs_broad_phase_layer_filter: Option<ObjectVsBroadPhaseLayerFilterImpl<'static>>,
    object_layer_pair_filter: Option<ObjectLayerPairFilterImpl<'static>>,
    sim_shape_filter: Option<SimShapeFilterImpl<'static>>,
    contact_listener: Option<ContactListenerImpl<'static>>,
}

impl View for PhysicsSystem {
    type V = PhysicsSystemView;

    closed spec fn view(&self) -> PhysicsSystemView {
        PhysicsSystemView {
            raw: self.raw,
            phase: self.phase,
            optimized: self.optimized,
            broad_phase_layer_interface: BroadPhaseLayerInterfaceImpl::view_of(
                self.broad_phase_layer_interface,
            ),
            object_vs_broad_phase_layer_filter: ObjectVsBroadPhaseLayerFilterImpl::view_of(
                self.object_vs_broad_phase_layer_filter,
            ),
            object_layer_pair_filter: ObjectLayerPairFilterImpl::view_of(
                self.object_layer_pair_filter,
            ),
            sim_shape_filter: SimShapeFilterImpl::view_of(self.sim_shape_filter),
            contact_listener: ContactListenerImpl::view_of(self.contact_listener),
        }
    }
}

impl PhysicsSystem {
    /// Wraps the native simulation object `raw`, fresh from its constructor.
    /// Process-wide setup has to be complete.
    pub fn new(context: &GlobalContext, raw: Handle) -> (system: Self)
        requires
            context.ready(),
        ensures
            system@ == (PhysicsSystemView {
                raw,
                phase: Phase::Created,
                optimized: false,
                broad_phase_layer_interface: None,
                object_vs_broad_phase_layer_filter: None,
                object_layer_pair_filter: None,
                sim_shape_filter: None,
                contact_listener: None,
            }),
    {
        Self {
            raw,
            phase: Phase::Created,
            optimized: false,
            broad_phase_layer_interface: None,
            object_vs_broad_phase_layer_filter: None,
            object_layer_pair_filter: None,
            sim_shape_filter: None,
            contact_listener: None,
        }
    }

    /// Installs the limits of the simulation and its three layer
    /// capabilities, which it keeps until it is torn down.
    pub fn init(
        &mut self,
        max_bodies: u32,
        num_body_mutexes: u32,
        max_body_pairs: u32,
        max_contact_constraints: u32,
        broad_phase_layer_interface: BroadPhaseLayerInterfaceImpl<'static>,
        object_vs_broad_phase_layer_filter: ObjectVsBroadPhaseLayerFilterImpl<'static>,
        object_layer_pair_filter: ObjectLayerPairFilterImpl<'static>,
    ) -> (action: Action)
        requires
            old(self)@.phase == Phase::Created,
        ensures
            final(self)@ == (PhysicsSystemView {
                phase: Phase::Initialized,
                broad_phase_layer_interface: Some(broad_phase_layer_interface@),
                object_vs_broad_phase_layer_filter: Some(object_vs_broad_phase_layer_filter@),
                object_layer_pair_filter: Some(object_layer_pair_filter@),
                ..old(self)@
            }),
            action == (Action::PhysicsSystemInit {
                system: old(self)@.raw,
                max_bodies,
                num_body_mutexes,
                max_body_pairs,
                max_contact_constraints,
                broad_phase_layer_interface: broad_phase_layer_interface@.raw,
                object_vs_broad_phase_layer_filter: object_vs_broad_phase_layer_filter@.raw,
                object_layer_pair_filter: object_layer_pair_filter@.raw,
            }),
    {
        let bpli_raw = broad_phase_layer_interface.as_raw();
        self.broad_phase_layer_interface = Some(broad_phase_layer_interface);

        let ovbplf_raw = object_vs_broad_phase_layer_filter.as_raw();
        self.object_vs_broad_phase_layer_filter = Some(object_vs_broad_phase_layer_filter);

        let olpf_raw = object_layer_pair_filter.as_raw();
        self.object_layer_pair_filter = Some(object_layer_pair_filter);

        self.phase = Phase::Initialized;

        Action::PhysicsSystemInit {
            system: self.raw,
            max_bodies,
            num_body_mutexes,
            max_body_pairs,
            max_contact_constraints,
            broad_phase_layer_interface: bpli_raw,
            object_vs_broad_phase_layer_filter: ovbplf_raw,
            object_layer_pair_filter: olpf_raw,
        }
    }

    /// Installs `sim_shape_filter` and keeps it. A filter that was installed
    /// before is torn down first.
    pub fn set_sim_shape_filter(&mut self, sim_shape_filter: SimShapeFilterImpl<'static>) -> (actions:
        Vec<Action>)
        requires
            old(self)@.phase != Phase::Created,
        ensures
            final(self)@ == (PhysicsSystemView {
                sim_shape_filter: Some(sim_shape_filter@),
                ..old(self)@
            }),
            actions@ == optional_teardown_actions(old(self)@.sim_shape_filter).push(
                Action::PhysicsSystemSetSimShapeFilter {
                    system: old(self)@.raw,
                    filter: sim_shape_filter@.raw,
                },
            ),
    {
        let raw = sim_shape_filter.as_raw();
        let mut actions = Vec::new();
        SimShapeFilterImpl::teardown_slot_into(self.sim_shape_filter.take(), &mut actions);
        self.sim_shape_filter = Some(sim_shape_filter);
        actions.push(Action::PhysicsSystemSetSimShapeFilter { system: self.raw, filter: raw });
        actions
    }

    /// Installs `contact_listener` and keeps it, after tearing down one that
    /// was installed before; or, given `None`, tells the engine to call no
    /// listener. In that case a listener that was installed stays held, and
    /// is torn down with the simulation.
    pub fn set_contact_listener(
        &mut self,
        contact_listener: Option<ContactListenerImpl<'static>>,
    ) -> (actions: Vec<Action>)
        requires
            old(self)@.phase != Phase::Created,
        ensures
            match contact_listener {
                Some(listener) => {
                    &&& final(self)@ == (PhysicsSystemView {
                        contact_listener: Some(listener@),
                        ..old(self)@
                    })
                    &&& actions@ == optional_teardown_actions(old(self)@.contact_listener).push(
                        Action::PhysicsSystemSetContactListener {
                            system: old(self)@.raw,
                            listener: listener@.raw,
                        },
                    )
                },
                None => {
                    &&& final(self)@ == old(self)@
                    &&& actions@ == seq![
                        Action::PhysicsSystemSetContactListener {
                            system: old(self)@.raw,
                            listener: Handle { addr: 0 },
                        },
                    ]
                },
            },
    {
        let mut actions = Vec::new();
        match contact_listener {
            Some(listener) => {
                let raw = listener.as_raw();
                ContactListenerImpl::teardown_slot_into(self.contact_listener.take(), &mut actions);
                self.contact_listener = Some(listener);
                actions.push(
                    Action::PhysicsSystemSetContactListener { system: self.raw, listener: raw },
                );
            },
            None => {
                actions.push(
                    Action::PhysicsSystemSetContactListener {
                        system: self.raw,
                        listener: Handle::null(),
                    },
                );
            },
        }
        actions
    }

    /// Rebuilds the broad phase: once, after the bodies were created and
    /// before the first step.
    pub fn optimize_broad_phase(&mut self) -> (action: Action)
        requires
            old(self)@.phase == Phase::Initialized,
            !old(self)@.optimized,
        ensures
            final(self)@ == (PhysicsSystemView { optimized: true, ..old(self)@ }),
            action == (Action::PhysicsSystemOptimizeBroadPhase { system: old(self)@.raw }),
    {
        self.optimized = true;
        Action::PhysicsSystemOptimizeBroadPhase { system: self.raw }
    }

    /// Takes one step of `delta_time`. The scratch allocator and the job
    /// system belong to the caller and have to live through the call, which
    /// returns when the step is complete.
    pub fn update(
        &mut self,
        delta_time: Float,
        collision_steps: i32,
        temp_allocator: Handle,
        job_system: Handle,
    ) -> (action: Action)
        requires
            old(self)@.phase != Phase::Created,
            temp_allocator.addr != 0,
            job_system.addr != 0,
        ensures
            final(self)@ == (PhysicsSystemView { phase: Phase::Stepped, ..old(self)@ }),
            action == (Action::PhysicsSystemUpdate {
                system: old(self)@.raw,
                delta_time,
                collision_steps,
                temp_allocator,
                job_system,
            }),
    {
        self.phase = Phase::Stepped;
        Action::PhysicsSystemUpdate {
            system: self.raw,
            delta_time,
            collision_steps,
            temp_allocator,
            job_system,
        }
    }

    /// Adds `constraint`, which the engine then keeps alive with a reference
    /// of its own.
    pub fn add_constraint(&self, constraint: Handle) -> (action: Action)
        requires
            self@.phase != Phase::Created,
            constraint.addr != 0,
        ensures
            action == (Action::PhysicsSystemAddConstraint { system: self@.raw, constraint }),
    {
        Action::PhysicsSystemAddConstraint { system: self.raw, constraint }
    }

    pub fn remove_constraint(&self, constraint: Handle) -> (action: Action)
        requires
            self@.phase != Phase::Created,
            constraint.addr != 0,
        ensures
            action == (Action::PhysicsSystemRemoveConstraint { system: self@.raw, constraint }),
    {
        Action::PhysicsSystemRemoveConstraint { system: self.raw, constraint }
    }

    /// Draws the bodies with `renderer`, as the draw settings at `settings`
    /// say.
    pub fn draw_bodies(&self, settings: Handle, renderer: Handle) -> (action: Action)
        requires
            self@.phase != Phase::Created,
            settings.addr != 0,
            renderer.addr != 0,
        ensures
            action == (Action::PhysicsSystemDrawBodies { system: self@.raw, settings, renderer }),
    {
        Action::PhysicsSystemDrawBodies { system: self.raw, settings, renderer }
    }

    /// The call that gets the body interface. Its result is wrapped by
    /// [`BodyInterface::new`](crate::BodyInterface::new).
    pub fn body_interface(&self) -> (action: Action)
        requires
            self@.phase != Phase::Created,
        ensures
            action == (Action::PhysicsSystemGetBodyInterface { system: self@.raw }),
    {
        Action::PhysicsSystemGetBodyInterface { system: self.raw }
    }

    /// The call that gets the narrow phase query. Its result is wrapped by
    /// [`NarrowPhaseQuery::new`](crate::NarrowPhaseQuery::new).
    pub fn narrow_phase_query(&self) -> (action: Action)
        requires
            self@.phase != Phase::Created,
        ensures
            action == (Action::PhysicsSystemGetNarrowPhaseQuery { system: self@.raw }),
    {
        Action::PhysicsSystemGetNarrowPhaseQuery { system: self.raw }
    }

    pub fn raw(&self) -> (raw: Handle)
        ensures
            raw == self@.raw,
    {
        self.raw
    }

    pub fn phase(&self) -> (phase: Phase)
        ensures
            phase == self@.phase,
    {
        self.phase
    }

    pub fn is_optimized(&self) -> (b: bool)
        ensures
            b == self@.optimized,
    {
        self.optimized
    }

    /// Tears the simulation down: the native object first, then the
    /// capabilities in the order in which they are held.
    pub fn teardown(self) -> (actions: Vec<Action>)
        ensures
            actions@ == self@.teardown_actions(),
    {
        let mut actions = Vec::new();
        self.teardown_into(&mut actions);
        actions
    }

    /// Shuts the simulation down: releases the bodies that `bodies` still
    /// tracks, then tears the simulation down. No body outlives the
    /// simulation, and no capability is released while the simulation can
    /// still call it.
    pub fn shutdown(self, bodies: BodyInterface) -> (actions: Vec<Action>)
        ensures
            actions@ == bodies@.release_actions() + self@.teardown_actions(),
    {
        let mut actions = bodies.release_all();
        self.teardown_into(&mut actions);
        actions
    }

    /// Tears the simulation down and appends what that takes to `actions`.
    pub fn teardown_into(self, actions: &mut Vec<Action>)
        ensures
            final(actions)@ == old(actions)@ + self@.teardown_actions(),
    {
        let ghost view = self@;
        let ghost before = actions@;
        let PhysicsSystem {
            raw,
            phase: _,
            optimized: _,
            broad_phase_layer_interface,
            object_vs_broad_phase_layer_filter,
            object_layer_pair_filter,
            sim_shape_filter,
            contact_listener,
        } = self;
        actions.push(Action::PhysicsSystemDelete { system: raw });
        BroadPhaseLayerInterfaceImpl::teardown_slot_into(broad_phase_layer_interface, actions);
        ObjectVsBroadPhaseLayerFilterImpl::teardown_slot_into(
            object_vs_broad_phase_layer_filter,
            actions,
        );
        ObjectLayerPairFilterImpl::teardown_slot_into(object_layer_pair_filter, actions);
        SimShapeFilterImpl::teardown_slot_into(sim_shape_filter, actions);
        ContactListenerImpl::teardown_slot_into(contact_listener, actions);
        assert(actions@ =~= before + view.teardown_actions());
    }
}

/// Whether `action` releases a capability: deletes a registration or
/// destroys a user's value.
pub open spec fn releases_capability(action: Action) -> bool {
    action is DeleteCapability || action is DropValue
}

/// Shutting a simulation down releases its bodies first, then deletes the
/// native simulation object, and only then releases the capabilities that
/// the simulation was calling into.
pub proof fn lemma_shutdown_order(system: PhysicsSystemView, bodies: BodyInterfaceView)
    ensures
        ({
            let actions = bodies.release_actions() + system.teardown_actions();
            let deleted = bodies.release_actions().len() as int;
            &&& deleted < actions.len()
            &&& actions[deleted] == (Action::PhysicsSystemDelete { system: system.raw })
            &&& forall|k: int|
                0 <= k < deleted ==> (#[trigger] actions[k]) is RemoveBody || actions[k]
                    is DestroyBody
            &&& forall|k: int|
                deleted < k < actions.len() ==> releases_capability(#[trigger] actions[k])
        }),
{
    let release = bodies.release_actions();
    let teardown = system.teardown_actions();
    let actions = release + teardown;
    let deleted = release.len() as int;
    lemma_release_removes_before_destroying(bodies.raw, bodies.bodies);
    assert forall|k: int| 0 <= k < deleted implies (#[trigger] actions[k]) is RemoveBody
        || actions[k] is DestroyBody by {
        assert(actions[k] == release_actions_of(bodies.raw, bodies.bodies)[k]);
    }
    let a = optional_teardown_actions(system.broad_phase_layer_interface);
    let b = optional_teardown_actions(system.object_vs_broad_phase_layer_filter);
    let c = optional_teardown_actions(system.object_layer_pair_filter);
    let d = optional_teardown_actions(system.sim_shape_filter);
    let e = optional_teardown_actions(system.contact_listener);
    lemma_slot_teardown_releases(system.broad_phase_layer_interface);
    lemma_slot_teardown_releases(system.object_vs_broad_phase_layer_filter);
    lemma_slot_teardown_releases(system.object_layer_pair_filter);
    lemma_slot_teardown_releases(system.sim_shape_filter);
    lemma_slot_teardown_releases(system.contact_listener);
    let held = system.capability_teardown_actions();
    assert(held == a + b + c + d + e);
    assert forall|k: int| 0 <= k < held.len() implies releases_capability(#[trigger] held[k]) by {
        if k < a.len() {
            assert(held[k] == a[k]);
        } else if k < a.len() + b.len() {
            assert(held[k] == b[k - a.len()]);
        } else if k < a.len() + b.len() + c.len() {
            assert(held[k] == c[k - a.len() - b.len()]);
        } else if k < a.len() + b.len() + c.len() + d.len() {
            assert(held[k] == d[k - a.len() - b.len() - c.len()]);
        } else {
            assert(held[k] == e[k - a.len() - b.len() - c.len() - d.len()]);
        }
    }
    assert forall|k: int| deleted < k < actions.len() implies releases_capability(
        #[trigger] actions[k],
    ) by {
        assert(actions[k] == teardown[k - deleted]);
        assert(teardown[k - deleted] == held[k - deleted - 1]);
    }
}

/// Releasing what a slot holds asks for nothing but the release of a
/// capability.
pub proof fn lemma_slot_teardown_releases(slot: Option<Registration>)
    ensures
        forall|k: int|
            0 <= k < optional_teardown_actions(slot).len() ==> releases_capability(
                #[trigger] optional_teardown_actions(slot)[k],
            ),
{
}

} // verus!
