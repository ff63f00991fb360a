//! Lend a short-lived reference to code that runs inside a `bevy_ecs` `World`.
//!
//! A `World` only holds values it owns. To let systems reach a value that
//! lives on the caller's stack, the value's address is wrapped in a
//! [`StaticRef`], registered as a resource for the duration of one
//! continuation, and handed out through [`RefRes`] and [`RefResMut`] after it
//! has been checked against the world the reader runs in. The slot is taken
//! out again when the continuation has returned.
//!
//! This crate never turns an address into a reference. It decides who may
//! have the address, and when.

use vstd::prelude::*;
use bevy_ecs::world::World;

pub mod guard;
pub mod params;
pub mod protocol;
pub mod static_ref;
pub mod world;

pub use guard::Guard;
pub use guard::RegistrationConflict;
pub use guard::Teardown;
pub use params::RefRes;
pub use params::RefResMut;
pub use params::ResolutionFailure;
pub use static_ref::Mutability;
pub use static_ref::StaticRef;

use guard::install;
use guard::removal;
use guard::uninstall;
use static_ref::SlotView;
use world::identity_of;
use world::slots_of;
use world::world_id;

verus! {

/// What a scope hands back: the continuation's result, and how the teardown
/// went.
pub struct Scoped<R> {
    pub value: R,
    pub teardown: Teardown,
}

/// `during` is the store `before` with the value at `address` lent to it: it
/// has the identity of `before` and holds a slot for that address, made for
/// that identity, with the given kind of borrow.
pub open spec fn lent_in(during: World, before: World, address: usize, mutability: Mutability) -> bool {
    &&& identity_of(during) == identity_of(before)
    &&& slots_of(during).contains(
        SlotView { address, store: identity_of(before), mutability },
    )
}

/// Installs `slot`, runs `then`, and takes the slot of `T` out again.
fn lend<T: Send + Sync + 'static, R>(
    world: &mut World,
    slot: StaticRef<T>,
    then: impl FnOnce(&mut World) -> R,
) -> (outcome: Result<Scoped<R>, RegistrationConflict>)
    requires
        slot@.store == identity_of(*old(world)),
        forall|during: &mut World|
            lent_in(*during, *old(world), slot@.address, slot@.mutability) ==> call_requires(
                then,
                (during,),
            ),
    ensures
        slots_of(*old(world)).len() == 0 ==> outcome is Ok,
        outcome is Err ==> *final(world) == *old(world),
        outcome matches Ok(scoped) ==> exists|during: &mut World|
            {
                &&& lent_in(*during, *old(world), slot@.address, slot@.mutability)
                &&& call_ensures(then, (during,), scoped.value)
                &&& identity_of(*final(world)) == identity_of(*final(during))
                &&& removal(slots_of(*final(during)), scoped.teardown, slots_of(*final(world)))
            },
{
    let ghost lent = slot@;
    let ghost before = *world;
    match install(world, slot) {
        Err(conflict) => Err(conflict),
        Ok(guard) => {
            assert(lent_in(*world, before, lent.address, lent.mutability)) by {
                assert(lent == SlotView {
                    address: lent.address,
                    store: identity_of(before),
                    mutability: lent.mutability,
                });
            }
            let value = then(world);
            let teardown = uninstall(world, guard);
            Ok(Scoped { value, teardown })
        },
    }
}

/// Temporarily stores the address of a value borrowed shared within `world`,
/// to be reached through [`RefRes`] while `then` runs.
///
/// Nothing is installed and `then` does not run if `world` already holds a
/// slot for `T`; a world that holds no slot at all is never refused.
/// Otherwise `then` runs on the world with the slot in it, the slot for `T`
/// is taken out again once `then` has returned, and the teardown outcome says
/// whether it was still there.
pub fn temporarily_store_shared_ref<T: Send + Sync + 'static, R>(
    world: &mut World,
    address: usize,
    then: impl FnOnce(&mut World) -> R,
) -> (outcome: Result<Scoped<R>, RegistrationConflict>)
    requires
        address != 0,
        forall|during: &mut World|
            lent_in(*during, *old(world), address, Mutability::Shared) ==> call_requires(
                then,
                (during,),
            ),
    ensures
        slots_of(*old(world)).len() == 0 ==> outcome is Ok,
        outcome is Err ==> *final(world) == *old(world),
        outcome matches Ok(scoped) ==> exists|during: &mut World|
            {
                &&& lent_in(*during, *old(world), address, Mutability::Shared)
                &&& call_ensures(then, (during,), scoped.value)
                &&& identity_of(*final(world)) == identity_of(*final(during))
                &&& removal(slots_of(*final(during)), scoped.teardown, slots_of(*final(world)))
            },
{
    let slot = StaticRef::<T>::new_shared(world_id(world), address);
    lend(world, slot, then)
}

/// Temporarily stores the address of a value borrowed exclusively within
/// `world`, to be reached through [`RefResMut`] or [`RefRes`] while `then`
/// runs.
///
/// Nothing is installed and `then` does not run if `world` already holds a
/// slot for `T`; a world that holds no slot at all is never refused.
/// Otherwise `then` runs on the world with the slot in it, the slot for `T`
/// is taken out again once `then` has returned, and the teardown outcome says
/// whether it was still there.
pub fn temporarily_store_exclusive_ref<T: Send + Sync + 'static, R>(
    world: &mut World,
    address: usize,
    then: impl FnOnce(&mut World) -> R,
) -> (outcome: Result<Scoped<R>, RegistrationConflict>)
    requires
        address != 0,
        forall|during: &mut World|
            lent_in(*during, *old(world), address, Mutability::Exclusive) ==> call_requires(
                then,
                (during,),
            ),
    ensures
        slots_of(*old(world)).len() == 0 ==> outcome is Ok,
        outcome is Err ==> *final(world) == *old(world),
        outcome matches Ok(scoped) ==> exists|during: &mut World|
            {
                &&& lent_in(*during, *old(world), address, Mutability::Exclusive)
                &&& call_ensures(then, (during,), scoped.value)
                &&& identity_of(*final(world)) == identity_of(*final(during))
                &&& removal(slots_of(*final(during)), scoped.teardown, slots_of(*final(world)))
            },
{
    let slot = StaticRef::<T>::new_exclusive(world_id(world), address);
    lend(world, slot, then)
}

} // verus!
