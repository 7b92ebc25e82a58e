//! Creating, changing and destroying the bodies of a simulation.
//!
//! The engine names bodies by ID and trusts its caller never to name one that
//! was destroyed. A [`BodyInterface`] keeps the list of the bodies that were
//! created through it and still exist, with the fact whether each is in the
//! simulation. Every operation on a body requires the body to be on that
//! list, and the list is what shutdown walks to release the bodies.

use vstd::prelude::*;
use vstd::seq_lib::lemma_concat_associative;

use crate::action::Action;
use crate::conversions::IntoJolt;
use crate::handle::Handle;
use crate::math::{Quat, RVec3, Vec3};
use crate::simple_types::{Activation, BodyId, ObjectLayer};

verus! {

/// A body that exists, and whether it is in the simulation.
#[derive(Debug, Clone, Copy, PartialEq, Eq, Structural)]
pub struct TrackedBody {
    pub id: BodyId,
    pub added: bool,
}

/// What a [`BodyInterface`] is, for the contracts: the native interface and
/// the bodies it tracks, in the order in which they were created.
pub struct BodyInterfaceView {
    pub raw: Handle,
    pub bodies: Seq<TrackedBody>,
}

/// What releasing one body asks for: take it out of the simulation if it is
/// in, then destroy it.
pub open spec fn release_one(raw: Handle, body: TrackedBody) -> Seq<Action> {
    if body.added {
        seq![
            Action::RemoveBody { interface: raw, body_id: body.id.0 },
            Action::DestroyBody { interface: raw, body_id: body.id.0 },
        ]
    } else {
        seq![Action::DestroyBody { interface: raw, body_id: body.id.0 }]
    }
}

/// What releasing `bodies` one after the other asks for.
pub open spec fn release_actions_of(raw: Handle, bodies: Seq<TrackedBody>) -> Seq<Action>
    decreases bodies.len(),
{
    if bodies.len() == 0 {
        Seq::empty()
    } else {
        release_actions_of(raw, bodies.drop_last()) + release_one(raw, bodies.last())
    }
}

impl BodyInterfaceView {
    /// No body is tracked twice.
    pub open spec fn wf(self) -> bool {
        forall|i: int, j: int|
            0 <= i < j < self.bodies.len() ==> (#[trigger] self.bodies[i]).id != (
            #[trigger] self.bodies[j]).id
    }

    /// Whether the body `id` was created here and not destroyed since.
    pub open spec fn tracks(self, id: BodyId) -> bool {
        exists|i: int| 0 <= i < self.bodies.len() && (#[trigger] self.bodies[i]).id == id
    }

    /// Whether the body `id` is tracked and in the simulation.
    pub open spec fn in_simulation(self, id: BodyId) -> bool {
        exists|i: int|
            0 <= i < self.bodies.len() && (#[trigger] self.bodies[i]) == (TrackedBody {
                id,
                added: true,
            })
    }

    /// Where the body `id` stands in the list, if it is tracked.
    pub open spec fn position(self, id: BodyId) -> int {
        choose|i: int| 0 <= i < self.bodies.len() && (#[trigger] self.bodies[i]).id == id
    }

    /// The same list, with the body `id` put in or out of the simulation.
    pub open spec fn with_state(self, id: BodyId, added: bool) -> BodyInterfaceView {
        BodyInterfaceView {
            raw: self.raw,
            bodies: Seq::new(
                self.bodies.len(),
                |i: int|
                    if self.bodies[i].id == id {
                        TrackedBody { id, added }
                    } else {
                        self.bodies[i]
                    },
            ),
        }
    }

    /// The list once the new body `id` is known: it comes last and is not in
    /// the simulation. If the ID was on the list, it keeps its place.
    pub open spec fn tracking(self, id: BodyId) -> BodyInterfaceView {
        if self.tracks(id) {
            self.with_state(id, false)
        } else {
            BodyInterfaceView {
                raw: self.raw,
                bodies: self.bodies.push(TrackedBody { id, added: false }),
            }
        }
    }

    /// The list without the body `id`.
    pub open spec fn without(self, id: BodyId) -> BodyInterfaceView {
        BodyInterfaceView { raw: self.raw, bodies: self.bodies.remove(self.position(id)) }
    }

    /// What releasing every tracked body asks for, in the order of their
    /// creation.
    pub open spec fn release_actions(self) -> Seq<Action> {
        release_actions_of(self.raw, self.bodies)
    }
}

/// The entry to the bodies of a simulation.
#[derive(Debug)]
pub struct BodyInterface {
    raw: Handle,
    bodies: Vec<TrackedBody>,
}

impl View for BodyInterface {
    type V = BodyInterfaceView;

    closed spec fn view(&self) -> BodyInterfaceView {
        BodyInterfaceView { raw: self.raw, bodies: self.bodies@ }
    }
}

impl BodyInterface {
    #[verifier::type_invariant]
    spec fn unique_ids(self) -> bool {
        self@.wf()
    }

    /// Wraps the body interface `raw` of a simulation. It tracks no body yet.
    pub fn new(raw: Handle) -> (interface: Self)
        ensures
            interface@ == (BodyInterfaceView { raw, bodies: Seq::empty() }),
            interface@.wf(),
    {
        Self { raw, bodies: Vec::new() }
    }

    /// Where the body `id` stands in the list.
    fn find(&self, id: BodyId) -> (found: Option<usize>)
        ensures
            match found {
                Some(i) => i < self@.bodies.len() && self@.bodies[i as int].id == id,
                None => !self@.tracks(id),
            },
    {
        let mut i: usize = 0;
        while i < self.bodies.len()
            invariant
                i <= self.bodies@.len(),
                forall|j: int| 0 <= j < i ==> (#[trigger] self.bodies@[j]).id != id,
            decreases self.bodies@.len() - i,
        {
            if self.bodies[i].id == id {
                return Some(i);
            }
            i += 1;
        }
        None
    }

    /// Whether the body `id` was created here and not destroyed since.
    pub fn tracks(&self, id: BodyId) -> (b: bool)
        ensures
            b == self@.tracks(id),
            self@.wf(),
    {
        proof {
            use_type_invariant(self);
        }
        self.find(id).is_some()
    }

    /// Whether the body `id` is tracked and in the simulation.
    pub fn is_added(&self, id: BodyId) -> (b: bool)
        ensures
            b == self@.in_simulation(id),
    {
        proof {
            use_type_invariant(self);
        }
        match self.find(id) {
            Some(i) => {
                let added = self.bodies[i].added;
                assert(self.bodies@[i as int] == (TrackedBody { id, added }));
                added
            },
            None => false,
        }
    }

    /// The call that creates a body from the settings at `settings`, which
    /// have to be initialized and name a valid shape. What it returns is
    /// read by [`Body::from_created`](crate::Body::from_created); the ID of
    /// the new body is then made known here with [`track`](Self::track).
    pub fn create_body(&self, settings: Handle) -> (action: Action)
        requires
            settings.addr != 0,
        ensures
            action == (Action::CreateBody { interface: self@.raw, settings }),
    {
        Action::CreateBody { interface: self.raw, settings }
    }

    /// Makes the new body `id` known. It is not in the simulation yet.
    pub fn track(&mut self, id: BodyId)
        ensures
            final(self)@ == old(self)@.tracking(id),
            final(self)@.wf(),
            final(self)@.tracks(id),
            !final(self)@.in_simulation(id),
    {
        proof {
            use_type_invariant(&*self);
        }
        match self.find(id) {
            Some(i) => {
                self.set_state(i, id, false);
            },
            None => {
                let mut bodies = Vec::new();
                std::mem::swap(&mut bodies, &mut self.bodies);
                bodies.push(TrackedBody { id, added: false });
                assert(bodies@[bodies@.len() - 1].id == id);
                self.bodies = bodies;
            },
        }
    }

    /// Puts the body at position `i`, which is the body `id`, in or out of
    /// the simulation.
    fn set_state(&mut self, i: usize, id: BodyId, added: bool)
        requires
            i < old(self)@.bodies.len(),
            old(self)@.bodies[i as int].id == id,
        ensures
            final(self)@ == old(self)@.with_state(id, added),
            final(self)@.wf(),
            final(self)@.tracks(id),
            final(self)@.in_simulation(id) == added,
    {
        proof {
            use_type_invariant(&*self);
        }
        let mut bodies = Vec::new();
        std::mem::swap(&mut bodies, &mut self.bodies);
        bodies.set(i, TrackedBody { id, added });
        self.bodies = bodies;
        proof {
            assert(self@.bodies =~= old(self)@.with_state(id, added).bodies);
            assert(self@.bodies[i as int] == (TrackedBody { id, added }));
        }
    }

    /// Puts the body `id` into the simulation.
    pub fn add_body(&mut self, body_id: BodyId, activation_mode: Activation) -> (action: Action)
        requires
            old(self)@.tracks(body_id),
        ensures
            final(self)@ == old(self)@.with_state(body_id, true),
            final(self)@.wf(),
            final(self)@.in_simulation(body_id),
            action == (Action::AddBody {
                interface: old(self)@.raw,
                body_id: body_id.0,
                activation: activation_mode,
            }),
    {
        let found = self.find(body_id);
        match found {
            Some(i) => {
                self.set_state(i, body_id, true);
            },
            None => {
                assert(false);
            },
        }
        Action::AddBody { interface: self.raw, body_id: body_id.raw(), activation: activation_mode }
    }

    /// Takes the body `id` out of the simulation. It stays tracked until it
    /// is destroyed.
    pub fn remove_body(&mut self, body_id: BodyId) -> (action: Action)
        requires
            old(self)@.tracks(body_id),
        ensures
            final(self)@ == old(self)@.with_state(body_id, false),
            final(self)@.wf(),
            final(self)@.tracks(body_id),
            !final(self)@.in_simulation(body_id),
            action == (Action::RemoveBody { interface: old(self)@.raw, body_id: body_id.0 }),
    {
        let found = self.find(body_id);
        match found {
            Some(i) => {
                self.set_state(i, body_id, false);
            },
            None => {
                assert(false);
            },
        }
        Action::RemoveBody { interface: self.raw, body_id: body_id.raw() }
    }

    /// Destroys the body `id`, which has to be out of the simulation. After
    /// this the ID names nothing: no operation accepts it.
    pub fn destroy_body(&mut self, body_id: BodyId) -> (action: Action)
        requires
            old(self)@.tracks(body_id),
            !old(self)@.in_simulation(body_id),
        ensures
            final(self)@ == old(self)@.without(body_id),
            final(self)@.wf(),
            !final(self)@.tracks(body_id),
            action == (Action::DestroyBody { interface: old(self)@.raw, body_id: body_id.0 }),
    {
        proof {
            use_type_invariant(&*self);
        }
        let found = self.find(body_id);
        match found {
            Some(i) => {
                assert(old(self)@.position(body_id) == i);
                let mut bodies = Vec::new();
                std::mem::swap(&mut bodies, &mut self.bodies);
                bodies.remove(i);
                self.bodies = bodies;
            },
            None => {
                assert(false);
            },
        }
        Action::DestroyBody { interface: self.raw, body_id: body_id.raw() }
    }

    /// Gives the body `id` the shape `shape`, which has to be valid.
    pub fn set_shape(
        &self,
        body_id: BodyId,
        shape: Handle,
        update_mass_properties: bool,
        activation: Activation,
    ) -> (action: Action)
        requires
            self@.tracks(body_id),
            shape.addr != 0,
        ensures
            action == (Action::SetShape {
                interface: self@.raw,
                body_id: body_id.0,
                shape,
                update_mass_properties,
                activation,
            }),
    {
        Action::SetShape {
            interface: self.raw,
            body_id: body_id.raw(),
            shape,
            update_mass_properties,
            activation,
        }
    }

    /// The call that asks whether the body `id` is active.
    pub fn is_active(&self, body_id: BodyId) -> (action: Action)
        requires
            self@.tracks(body_id),
        ensures
            action == (Action::IsActive { interface: self@.raw, body_id: body_id.0 }),
    {
        Action::IsActive { interface: self.raw, body_id: body_id.raw() }
    }

    /// The call that reads the user data of the body `id`.
    pub fn user_data(&self, body_id: BodyId) -> (action: Action)
        requires
            self@.tracks(body_id),
        ensures
            action == (Action::GetUserData { interface: self@.raw, body_id: body_id.0 }),
    {
        Action::GetUserData { interface: self.raw, body_id: body_id.raw() }
    }

    pub fn set_user_data(&self, body_id: BodyId, user_data: u64) -> (action: Action)
        requires
            self@.tracks(body_id),
        ensures
            action == (Action::SetUserData { interface: self@.raw, body_id: body_id.0, user_data }),
    {
        Action::SetUserData { interface: self.raw, body_id: body_id.raw(), user_data }
    }

    /// The call that reads where the center of mass of the body `id` is. Its
    /// result is a native vector; [`FromJolt`](crate::FromJolt) makes it a
    /// world-space vector.
    pub fn center_of_mass_position(&self, body_id: BodyId) -> (action: Action)
        requires
            self@.tracks(body_id),
        ensures
            action == (Action::GetCenterOfMassPosition { interface: self@.raw, body_id: body_id.0 }),
    {
        Action::GetCenterOfMassPosition { interface: self.raw, body_id: body_id.raw() }
    }

    /// The call that reads the linear velocity of the body `id`. Its result
    /// is a native vector; [`FromJolt`](crate::FromJolt) makes it a vector.
    pub fn linear_velocity(&self, body_id: BodyId) -> (action: Action)
        requires
            self@.tracks(body_id),
        ensures
            action == (Action::GetLinearVelocity { interface: self@.raw, body_id: body_id.0 }),
    {
        Action::GetLinearVelocity { interface: self.raw, body_id: body_id.raw() }
    }

    pub fn set_linear_velocity(&self, body_id: BodyId, velocity: Vec3) -> (action: Action)
        requires
            self@.tracks(body_id),
        ensures
            action == (Action::SetLinearVelocity {
                interface: self@.raw,
                body_id: body_id.0,
                velocity: velocity.into_jolt_spec(),
            }),
    {
        Action::SetLinearVelocity {
            interface: self.raw,
            body_id: body_id.raw(),
            velocity: velocity.into_jolt(),
        }
    }

    pub fn set_object_layer(&self, body_id: BodyId, object_layer: ObjectLayer) -> (action: Action)
        requires
            self@.tracks(body_id),
        ensures
            action == (Action::SetObjectLayer {
                interface: self@.raw,
                body_id: body_id.0,
                object_layer: object_layer.0,
            }),
    {
        Action::SetObjectLayer {
            interface: self.raw,
            body_id: body_id.raw(),
            object_layer: object_layer.raw(),
        }
    }

    /// Tells the engine that the shape of the body `id` changed in place;
    /// `old_com` is where its center of mass was before.
    pub fn notify_shape_changed(
        &self,
        body_id: BodyId,
        old_com: Vec3,
        update_mass_properties: bool,
        activation: Activation,
    ) -> (action: Action)
        requires
            self@.tracks(body_id),
        ensures
            action == (Action::NotifyShapeChanged {
                interface: self@.raw,
                body_id: body_id.0,
                old_com: old_com.into_jolt_spec(),
                update_mass_properties,
                activation,
            }),
    {
        Action::NotifyShapeChanged {
            interface: self.raw,
            body_id: body_id.raw(),
            old_com: old_com.into_jolt(),
            update_mass_properties,
            activation,
        }
    }

    pub fn set_position_and_rotation_when_changed(
        &self,
        body_id: BodyId,
        pos: RVec3,
        rot: Quat,
        activation: Activation,
    ) -> (action: Action)
        requires
            self@.tracks(body_id),
        ensures
            action == (Action::SetPositionAndRotationWhenChanged {
                interface: self@.raw,
                body_id: body_id.0,
                position: pos.into_jolt_spec(),
                rotation: rot.into_jolt_spec(),
                activation,
            }),
    {
        Action::SetPositionAndRotationWhenChanged {
            interface: self.raw,
            body_id: body_id.raw(),
            position: pos.into_jolt(),
            rotation: rot.into_jolt(),
            activation,
        }
    }

    pub fn as_raw(&self) -> (raw: Handle)
        ensures
            raw == self@.raw,
    {
        self.raw
    }

    /// Releases every tracked body, in the order of their creation, and
    /// appends what that takes to `actions`.
    pub fn release_all_into(self, actions: &mut Vec<Action>)
        ensures
            final(actions)@ == old(actions)@ + self@.release_actions(),
    {
        let ghost before = actions@;
        let mut i: usize = 0;
        assert(self.bodies@.take(0) =~= Seq::<TrackedBody>::empty());
        assert(actions@ =~= before + release_actions_of(self.raw, self.bodies@.take(0)));
        while i < self.bodies.len()
            invariant
                i <= self.bodies@.len(),
                actions@ == before + release_actions_of(self.raw, self.bodies@.take(i as int)),
            decreases self.bodies@.len() - i,
        {
            let body = self.bodies[i];
            let ghost done = release_actions_of(self.raw, self.bodies@.take(i as int));
            let ghost sofar = actions@;
            if body.added {
                actions.push(Action::RemoveBody { interface: self.raw, body_id: body.id.raw() });
            }
            actions.push(Action::DestroyBody { interface: self.raw, body_id: body.id.raw() });
            proof {
                let next = self.bodies@.take(i + 1);
                assert(next.drop_last() =~= self.bodies@.take(i as int));
                assert(next.last() == body);
                assert(actions@ =~= sofar + release_one(self.raw, body));
                lemma_concat_associative(before, done, release_one(self.raw, body));
            }
            i += 1;
        }
        assert(self.bodies@.take(i as int) =~= self.bodies@);
    }

    /// Releases every tracked body and returns what that takes.
    pub fn release_all(self) -> (actions: Vec<Action>)
        ensures
            actions@ == self@.release_actions(),
    {
        let mut actions = Vec::new();
        let ghost view = self@;
        self.release_all_into(&mut actions);
        assert(actions@ =~= view.release_actions());
        actions
    }
}

/// The IDs of the bodies that `actions` destroy, in order.
pub open spec fn destroyed_ids(actions: Seq<Action>) -> Seq<u32>
    decreases actions.len(),
{
    if actions.len() == 0 {
        Seq::empty()
    } else {
        let before = destroyed_ids(actions.drop_last());
        match actions.last() {
            Action::DestroyBody { interface, body_id } => before.push(body_id),
            _ => before,
        }
    }
}

/// What two runs of actions destroy is what the first destroys, followed by
/// what the second destroys.
pub proof fn lemma_destroyed_ids_of_concat(first: Seq<Action>, second: Seq<Action>)
    ensures
        destroyed_ids(first + second) == destroyed_ids(first) + destroyed_ids(second),
    decreases second.len(),
{
    if second.len() == 0 {
        assert(first + second =~= first);
        assert(destroyed_ids(first) + destroyed_ids(second) =~= destroyed_ids(first));
    } else {
        assert((first + second).drop_last() =~= first + second.drop_last());
        assert((first + second).last() == second.last());
        lemma_destroyed_ids_of_concat(first, second.drop_last());
        let head = destroyed_ids(first);
        let tail = destroyed_ids(second.drop_last());
        match second.last() {
            Action::DestroyBody { interface, body_id } => {
                assert((head + tail).push(body_id) =~= head + tail.push(body_id));
            },
            _ => {},
        }
    }
}

/// Releasing the tracked bodies destroys each of them exactly once, in the
/// order of their creation, and destroys nothing else.
pub proof fn lemma_release_destroys_each_once(raw: Handle, bodies: Seq<TrackedBody>)
    ensures
        destroyed_ids(release_actions_of(raw, bodies)) == Seq::new(
            bodies.len(),
            |i: int| bodies[i].id.0,
        ),
    decreases bodies.len(),
{
    let ids = Seq::new(bodies.len(), |i: int| bodies[i].id.0);
    if bodies.len() == 0 {
        assert(destroyed_ids(release_actions_of(raw, bodies)) =~= ids);
    } else {
        let rest = bodies.drop_last();
        let last = bodies.last();
        lemma_release_destroys_each_once(raw, rest);
        lemma_destroyed_ids_of_concat(release_actions_of(raw, rest), release_one(raw, last));
        let one = release_one(raw, last);
        assert(destroyed_ids(one) =~= seq![last.id.0]) by {
            reveal_with_fuel(destroyed_ids, 3);
            if last.added {
                assert(one.drop_last() =~= seq![
                    Action::RemoveBody { interface: raw, body_id: last.id.0 },
                ]);
                assert(one.drop_last().drop_last() =~= Seq::<Action>::empty());
            } else {
                assert(one.drop_last() =~= Seq::<Action>::empty());
            }
        }
        assert(Seq::new(rest.len(), |i: int| rest[i].id.0) + seq![last.id.0] =~= ids);
    }
}

/// Releasing the tracked bodies asks for nothing but removals and
/// destructions through this interface, and every removal is followed at
/// once by the destruction of the same body.
pub proof fn lemma_release_removes_before_destroying(raw: Handle, bodies: Seq<TrackedBody>)
    ensures
        forall|k: int|
            0 <= k < release_actions_of(raw, bodies).len() ==> {
                let action = #[trigger] release_actions_of(raw, bodies)[k];
                match action {
                    Action::RemoveBody { interface, body_id } => {
                        &&& interface == raw
                        &&& k + 1 < release_actions_of(raw, bodies).len()
                        &&& release_actions_of(raw, bodies)[k + 1] == (Action::DestroyBody {
                            interface: raw,
                            body_id,
                        })
                    },
                    Action::DestroyBody { interface, body_id } => interface == raw,
                    _ => false,
                }
            },
    decreases bodies.len(),
{
    if bodies.len() > 0 {
        lemma_release_removes_before_destroying(raw, bodies.drop_last());
    }
}

/// Taking a body out of the simulation and then destroying it leaves no
/// trace of it, and leaves every other body as it was.
pub proof fn lemma_remove_then_destroy_forgets(view: BodyInterfaceView, id: BodyId)
    requires
        view.wf(),
        view.tracks(id),
    ensures
        !view.with_state(id, false).in_simulation(id),
        !view.with_state(id, false).without(id).tracks(id),
        view.with_state(id, false).without(id).wf(),
        forall|other: BodyId|
            other != id ==> {
                &&& view.with_state(id, false).without(id).tracks(other) == view.tracks(other)
                &&& view.with_state(id, false).without(id).in_simulation(other)
                    == view.in_simulation(other)
            },
{
    let removed = view.with_state(id, false);
    let at = removed.position(id);
    let witness = view.position(id);
    assert(removed.bodies[witness].id == id);
    let gone = removed.without(id);
    assert(gone.bodies =~= removed.bodies.remove(at));
    assert forall|other: BodyId| other != id implies {
        &&& gone.tracks(other) == view.tracks(other)
        &&& gone.in_simulation(other) == view.in_simulation(other)
    } by {
        if view.tracks(other) {
            let i = view.position(other);
            let j = if i < at { i } else { i - 1 };
            assert(gone.bodies[j].id == other);
        }
        if gone.tracks(other) {
            let j = gone.position(other);
            let i = if j < at { j } else { j + 1 };
            assert(view.bodies[i].id == other);
        }
        if view.in_simulation(other) {
            let i = choose|i: int|
                0 <= i < view.bodies.len() && (#[trigger] view.bodies[i]) == (TrackedBody {
                    id: other,
                    added: true,
                });
            let j = if i < at { i } else { i - 1 };
            assert(gone.bodies[j] == (TrackedBody { id: other, added: true }));
        }
        if gone.in_simulation(other) {
            let j = choose|j: int|
                0 <= j < gone.bodies.len() && (#[trigger] gone.bodies[j]) == (TrackedBody {
                    id: other,
                    added: true,
                });
            let i = if j < at { j } else { j + 1 };
            assert(view.bodies[i] == (TrackedBody { id: other, added: true }));
        }
    }
    assert(!gone.tracks(id)) by {
        if gone.tracks(id) {
            let j = gone.position(id);
            let i = if j < at { j } else { j + 1 };
            assert(removed.bodies[i].id == id);
            assert(removed.bodies[at].id == id);
        }
    }
    assert(gone.wf()) by {
        assert forall|i: int, j: int| 0 <= i < j < gone.bodies.len() implies (
        #[trigger] gone.bodies[i]).id != (#[trigger] gone.bodies[j]).id by {
            let pi = if i < at { i } else { i + 1 };
            let pj = if j < at { j } else { j + 1 };
            assert(view.bodies[pi].id != view.bodies[pj].id);
        }
    }
}

} // verus!
