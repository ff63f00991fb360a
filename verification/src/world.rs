//! The host store: a `bevy_ecs` [`World`], seen through the few operations the
//! library needs from it.
//!
//! A `World` keeps at most one resource per Rust type and carries an identity
//! that never changes. Of what a world holds, only the slots are modelled, and
//! those without their types: [`slots_of`] is the bag of their views. So the
//! contracts below can say that a slot is there, but not for which type.
//!
//! Everything stated here about `World` and [`WorldId`] is taken on trust from
//! `bevy_ecs`, and what is stated about `Arc` from the standard library;
//! nothing in this module is proved.

use vstd::prelude::*;
use vstd::multiset::Multiset;
use bevy_ecs::world::World;
use bevy_ecs::world::WorldId;
use std::sync::Arc;
use std::sync::atomic::AtomicBool;
use crate::static_ref::SlotView;
use crate::static_ref::StaticRef;

verus! {

/// `bevy_ecs::world::World`, opaque to the verifier.
#[verifier::external_type_specification]
#[verifier::external_body]
pub struct ExWorld(World);

/// `bevy_ecs::world::WorldId`, opaque to the verifier: a value that is only
/// ever carried around and compared.
#[verifier::external_type_specification]
#[verifier::external_body]
pub struct ExWorldId(WorldId);

/// The identity that `World::id` reports for `world`.
pub uninterp spec fn identity_of(world: World) -> WorldId;

/// The views of the slots that `world` holds as resources, one for each
/// erased type that has a slot there.
pub uninterp spec fn slots_of(world: World) -> Multiset<SlotView>;

/// `World::id`: reads the identity the world was created with.
#[verifier::external_body]
pub(crate) fn world_id(world: &World) -> (id: WorldId)
    ensures
        id == identity_of(*world),
{
    world.id()
}

/// `WorldId`'s `==`: the derived comparison of the wrapped number, so two
/// identities compare equal exactly when they are the same identity.
#[verifier::external_body]
pub(crate) fn same_world(a: WorldId, b: WorldId) -> (same: bool)
    ensures
        same == (a == b),
{
    a == b
}

/// `Arc::clone` on a fail-flag: a second handle on the same flag, not a copy
/// of it.
#[verifier::external_body]
pub(crate) fn share_flag(flag: &Arc<AtomicBool>) -> (shared: Arc<AtomicBool>)
    ensures
        shared == *flag,
{
    Arc::clone(flag)
}

/// `World::contains_resource`, asked for the slot of `T`: whether the world
/// holds one. A world that holds no slot at all holds none for `T`.
#[verifier::external_body]
pub(crate) fn has_slot<T: Send + Sync + 'static>(world: &World) -> (occupied: bool)
    ensures
        occupied ==> slots_of(*world).len() > 0,
{
    world.contains_resource::<StaticRef<T>>()
}

/// `World::insert_resource`, given the slot of `T`: afterwards the world holds
/// that slot, in place of the one it may have held for `T` before. The world
/// keeps its identity.
#[verifier::external_body]
pub(crate) fn put_slot<T: Send + Sync + 'static>(world: &mut World, slot: StaticRef<T>)
    ensures
        identity_of(*final(world)) == identity_of(*old(world)),
        slots_of(*final(world)).contains(slot@),
{
    world.insert_resource(slot)
}

/// `World::remove_resource`, asked for the slot of `T`: if the world holds
/// one, it is taken out and handed back, and the other slots stay; if not,
/// the slots stay as they are. The world keeps its identity.
#[verifier::external_body]
pub(crate) fn take_slot<T: Send + Sync + 'static>(world: &mut World) -> (removed: Option<
    StaticRef<T>,
>)
    ensures
        identity_of(*final(world)) == identity_of(*old(world)),
        match removed {
            Some(slot) => slots_of(*old(world)).contains(slot@) && slots_of(*final(world))
                == slots_of(*old(world)).remove(slot@),
            None => slots_of(*final(world)) == slots_of(*old(world)),
        },
{
    world.remove_resource::<StaticRef<T>>()
}

} // verus!
