//! The layer rules of a simulation with two object layers.
//!
//! Bodies that never move are in one object layer and bodies that move in
//! the other, and each object layer has a broad phase layer of its own. A
//! body that does not move collides only with bodies that move; a body that
//! moves collides with everything.
//!
//! The rules are defined on these two object layers and on nothing else: no
//! other layer is mapped to one of them.

use vstd::prelude::*;

use crate::simple_types::{BroadPhaseLayer, ObjectLayer};

verus! {

/// The object layer of the bodies that never move.
pub const OL_NON_MOVING: u16 = 0;

/// The object layer of the bodies that move.
pub const OL_MOVING: u16 = 1;

/// The broad phase layer of the bodies that never move.
pub const BPL_NON_MOVING: u8 = 0;

/// The broad phase layer of the bodies that move.
pub const BPL_MOVING: u8 = 1;

/// The number of broad phase layers.
pub const BPL_COUNT: u8 = 2;

/// Whether `layer` is one of the two object layers.
pub open spec fn known_object_layer(layer: u16) -> bool {
    layer == OL_NON_MOVING || layer == OL_MOVING
}

/// The broad phase layer of an object layer.
pub open spec fn broad_phase_layer_of(layer: u16) -> u8 {
    if layer == OL_MOVING {
        BPL_MOVING
    } else {
        BPL_NON_MOVING
    }
}

/// Whether bodies of object layer `layer1` collide with what is in broad
/// phase layer `layer2`.
pub open spec fn collides_with_broad_phase(layer1: u16, layer2: u8) -> bool {
    layer1 == OL_MOVING || layer2 == BPL_MOVING
}

/// Whether bodies of object layer `layer1` collide with bodies of object
/// layer `layer2`.
pub open spec fn collides_with_object(layer1: u16, layer2: u16) -> bool {
    layer1 == OL_MOVING || layer2 == OL_MOVING
}

pub fn is_known_object_layer(layer: u16) -> (b: bool)
    ensures
        b == known_object_layer(layer),
{
    layer == OL_NON_MOVING || layer == OL_MOVING
}

/// The number of broad phase layers, as the engine asks for it.
pub fn bpl_get_num_broad_phase_layers() -> (n: u32)
    ensures
        n == BPL_COUNT,
{
    2
}

/// The broad phase layer of `layer`, in the engine's encoding.
pub fn bpl_get_broad_phase_layer(layer: u16) -> (r: u8)
    requires
        known_object_layer(layer),
    ensures
        r == broad_phase_layer_of(layer),
{
    if layer == OL_NON_MOVING {
        BPL_NON_MOVING
    } else {
        BPL_MOVING
    }
}

/// Whether object layer `layer1` collides with broad phase layer `layer2`,
/// in the engine's encoding.
pub fn ovb_should_collide(layer1: u16, layer2: u8) -> (r: bool)
    requires
        known_object_layer(layer1),
    ensures
        r == collides_with_broad_phase(layer1, layer2),
{
    if layer1 == OL_NON_MOVING {
        layer2 == BPL_MOVING
    } else {
        true
    }
}

/// Whether object layers `layer1` and `layer2` collide, in the engine's
/// encoding.
pub fn ovo_should_collide(layer1: u16, layer2: u16) -> (r: bool)
    requires
        known_object_layer(layer1),
    ensures
        r == collides_with_object(layer1, layer2),
{
    if layer1 == OL_NON_MOVING {
        layer2 == OL_MOVING
    } else {
        true
    }
}

/// The classifier of the two object layers.
#[derive(Debug, Clone, Copy)]
pub struct BroadPhaseLayers;

impl BroadPhaseLayers {
    pub fn get_num_broad_phase_layers(&self) -> (n: u32)
        ensures
            n == BPL_COUNT,
    {
        bpl_get_num_broad_phase_layers()
    }

    pub fn get_broad_phase_layer(&self, layer: ObjectLayer) -> (r: BroadPhaseLayer)
        requires
            known_object_layer(layer.0),
        ensures
            r == BroadPhaseLayer(broad_phase_layer_of(layer.0)),
    {
        BroadPhaseLayer::new(bpl_get_broad_phase_layer(layer.raw()))
    }
}

/// The filter between the two object layers and their broad phase layers.
#[derive(Debug, Clone, Copy)]
pub struct ObjectVsBroadPhase;

impl ObjectVsBroadPhase {
    pub fn should_collide(&self, layer1: ObjectLayer, layer2: BroadPhaseLayer) -> (r: bool)
        requires
            known_object_layer(layer1.0),
        ensures
            r == collides_with_broad_phase(layer1.0, layer2.0),
    {
        ovb_should_collide(layer1.raw(), layer2.raw())
    }
}

/// The filter between the two object layers.
#[derive(Debug, Clone, Copy)]
pub struct ObjectLayerPair;

impl ObjectLayerPair {
    pub fn should_collide(&self, layer1: ObjectLayer, layer2: ObjectLayer) -> (r: bool)
        requires
            known_object_layer(layer1.0),
        ensures
            r == collides_with_object(layer1.0, layer2.0),
    {
        ovo_should_collide(layer1.raw(), layer2.raw())
    }
}

/// The two filters agree: two object layers collide exactly when the first
/// collides with the broad phase layer of the second. So the broad phase
/// never hides a pair that the pair filter would let through, nor shows one
/// that it would not.
pub proof fn lemma_filters_agree(layer1: u16, layer2: u16)
    requires
        known_object_layer(layer2),
    ensures
        collides_with_object(layer1, layer2) == collides_with_broad_phase(
            layer1,
            broad_phase_layer_of(layer2),
        ),
{
}

/// Colliding is mutual, and only two bodies that never move pass through
/// each other.
pub proof fn lemma_collision_is_mutual(layer1: u16, layer2: u16)
    requires
        known_object_layer(layer1),
        known_object_layer(layer2),
    ensures
        collides_with_object(layer1, layer2) == collides_with_object(layer2, layer1),
        !collides_with_object(layer1, layer2) <==> layer1 == OL_NON_MOVING && layer2
            == OL_NON_MOVING,
        broad_phase_layer_of(layer1) < BPL_COUNT,
{
}

} // verus!
