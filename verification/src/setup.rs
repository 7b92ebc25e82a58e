//! Process-wide setup and teardown of the engine.
//!
//! The engine wants three things done once, in order, before anything else:
//! register an allocator, create the factory, register the types. At the end
//! of the process the types are unregistered and the factory is deleted. The
//! order is a matter of state here, not of discipline: a [`GlobalContext`]
//! records how far setup has come, and each step requires the one before it.

use vstd::prelude::*;

use crate::action::Action;

verus! {

/// How far process-wide setup has come.
#[derive(Debug, Clone, Copy, PartialEq, Eq, Structural)]
pub enum SetupStage {
    /// Nothing was done yet.
    Fresh,
    /// The allocator is registered.
    AllocatorRegistered,
    /// The factory exists.
    FactoryCreated,
    /// The types are registered: the engine can be used.
    TypesRegistered,
    /// The types are unregistered again.
    TypesUnregistered,
    /// The factory is deleted: the engine was shut down for good.
    Finished,
}

/// The record of process-wide setup. Make one at the start of the process and
/// hand it to every step.
#[derive(Debug)]
pub struct GlobalContext {
    stage: SetupStage,
}

impl GlobalContext {
    pub closed spec fn stage_spec(&self) -> SetupStage {
        self.stage
    }

    /// Whether simulations can be made.
    pub open spec fn ready(&self) -> bool {
        self.stage_spec() == SetupStage::TypesRegistered
    }

    pub fn new() -> (context: Self)
        ensures
            context.stage_spec() == SetupStage::Fresh,
    {
        Self { stage: SetupStage::Fresh }
    }

    pub fn stage(&self) -> (stage: SetupStage)
        ensures
            stage == self.stage_spec(),
    {
        self.stage
    }

    pub fn is_ready(&self) -> (b: bool)
        ensures
            b == self.ready(),
    {
        self.stage == SetupStage::TypesRegistered
    }
}

/// First step of setup: registers the engine's default allocator.
pub fn register_default_allocator(context: &mut GlobalContext) -> (action: Action)
    requires
        old(context).stage_spec() == SetupStage::Fresh,
    ensures
        final(context).stage_spec() == SetupStage::AllocatorRegistered,
        action == Action::RegisterDefaultAllocator,
{
    context.stage = SetupStage::AllocatorRegistered;
    Action::RegisterDefaultAllocator
}

/// Second step of setup: creates the global factory, which the engine needs
/// for initialization and for serialization.
pub fn factory_init(context: &mut GlobalContext) -> (action: Action)
    requires
        old(context).stage_spec() == SetupStage::AllocatorRegistered,
    ensures
        final(context).stage_spec() == SetupStage::FactoryCreated,
        action == Action::FactoryInit,
{
    context.stage = SetupStage::FactoryCreated;
    Action::FactoryInit
}

/// Third step of setup: registers the engine's types.
pub fn register_types(context: &mut GlobalContext) -> (action: Action)
    requires
        old(context).stage_spec() == SetupStage::FactoryCreated,
    ensures
        final(context).stage_spec() == SetupStage::TypesRegistered,
        action == Action::RegisterTypes,
{
    context.stage = SetupStage::TypesRegistered;
    Action::RegisterTypes
}

/// First step of teardown: unregisters the engine's types.
pub fn unregister_types(context: &mut GlobalContext) -> (action: Action)
    requires
        old(context).stage_spec() == SetupStage::TypesRegistered,
    ensures
        final(context).stage_spec() == SetupStage::TypesUnregistered,
        action == Action::UnregisterTypes,
{
    context.stage = SetupStage::TypesUnregistered;
    Action::UnregisterTypes
}

/// Last step of teardown: deletes the global factory.
pub fn factory_delete(context: &mut GlobalContext) -> (action: Action)
    requires
        old(context).stage_spec() == SetupStage::TypesUnregistered,
    ensures
        final(context).stage_spec() == SetupStage::Finished,
        action == Action::FactoryDelete,
{
    context.stage = SetupStage::Finished;
    Action::FactoryDelete
}

} // verus!
