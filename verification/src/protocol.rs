//! The registration protocol, stated over a store reduced to one erased type.
//!
//! A store keeps at most one slot per erased type, so for a fixed type all
//! that matters of a store is its identity and the slot it holds for that
//! type, if any. [`Registry`] is that reduction. The guard and the accessors
//! are described on it by the same functions their contracts use, and the
//! guarantees of a scope are proved from those.

use vstd::prelude::*;
use bevy_ecs::world::WorldId;
use crate::guard::admission;
use crate::guard::flag_after;
use crate::guard::teardown_of;
use crate::guard::RegistrationConflict;
use crate::guard::Teardown;
use crate::params::exclusive_resolution;
use crate::params::shared_resolution;
use crate::params::ResolutionFailure;
use crate::static_ref::Mutability;
use crate::static_ref::SlotView;

verus! {

/// What one store holds for one erased type.
pub struct Registry {
    /// The identity of the store.
    pub store: WorldId,
    /// The slot registered for the type, if any.
    pub slot: Option<SlotView>,
}

/// How a scope ended on a [`Registry`].
pub struct Ended {
    /// The store once the slot has been taken out.
    pub after: Registry,
    /// Whether the removal found a slot.
    pub teardown: Teardown,
}

impl Registry {
    /// The slot a guard makes for a value at `address` lent to this store.
    pub open spec fn slot_for(self, address: usize, mutability: Mutability) -> SlotView {
        SlotView { address, store: self.store, mutability }
    }

    /// The guard's installation step: the slot goes in unless one is there.
    pub open spec fn install(self, slot: SlotView) -> Result<Registry, RegistrationConflict> {
        match admission(self.slot is Some) {
            Ok(()) => Ok(Registry { store: self.store, slot: Some(slot) }),
            Err(conflict) => Err(conflict),
        }
    }

    /// The guard's removal step: whatever slot is there goes out.
    pub open spec fn uninstall(self) -> Ended {
        Ended {
            after: Registry { store: self.store, slot: None },
            teardown: teardown_of(self.slot is Some),
        }
    }

    /// A whole scope: install `slot`, let the continuation do to the store
    /// what `then` says, remove.
    pub open spec fn scope(self, slot: SlotView, then: spec_fn(Registry) -> Registry) -> Result<
        Ended,
        RegistrationConflict,
    > {
        match self.install(slot) {
            Ok(during) => Ok(then(during).uninstall()),
            Err(conflict) => Err(conflict),
        }
    }

    /// What a shared accessor resolves to against this store.
    pub open spec fn shared(self, disabled: bool) -> Result<usize, ResolutionFailure> {
        shared_resolution(self.slot, self.store, disabled)
    }

    /// What an exclusive accessor resolves to against this store.
    pub open spec fn exclusive(self, disabled: bool) -> Result<usize, ResolutionFailure> {
        exclusive_resolution(self.slot, self.store, disabled)
    }
}

/// A scope is entered exactly on a store that holds no slot for the type,
/// and whatever the continuation did to the store, it holds none once the
/// scope has ended. A scope that is not entered leaves the continuation
/// unused.
pub proof fn scope_leaves_no_slot(
    before: Registry,
    slot: SlotView,
    then: spec_fn(Registry) -> Registry,
)
    ensures
        before.scope(slot, then) is Ok <==> before.slot is None,
        before.scope(slot, then) matches Ok(ended) ==> {
            &&& ended.after.slot is None
            &&& ended.after.store == then(Registry { store: before.store, slot: Some(slot) }).store
        },
        before.scope(slot, then) matches Err(conflict) ==> conflict == RegistrationConflict,
{
}

/// While the scope is open and the fail-flag is unset, a shared accessor
/// resolved against the store yields exactly the address that was lent. An
/// exclusive accessor yields it if the value was lent exclusively, and is
/// refused if it was lent shared.
pub proof fn accessor_reaches_lent_value(before: Registry, address: usize, mutability: Mutability)
    requires
        before.slot is None,
    ensures
        before.install(before.slot_for(address, mutability)) matches Ok(during) && {
            &&& during.shared(false) == Ok::<usize, ResolutionFailure>(address)
            &&& mutability == Mutability::Exclusive ==> during.exclusive(false) == Ok::<
                usize,
                ResolutionFailure,
            >(address)
            &&& mutability == Mutability::Shared ==> during.exclusive(false) == Err::<
                usize,
                ResolutionFailure,
            >(ResolutionFailure::Rejected)
        },
{
}

/// While a slot is installed, a scope for the same type in the same store is
/// not entered: it ends in a registration conflict, whatever the two slots
/// are, and the installed slot stays as it is.
pub proof fn nested_registration_conflicts(
    before: Registry,
    outer: SlotView,
    inner: SlotView,
    then: spec_fn(Registry) -> Registry,
)
    requires
        before.install(outer) is Ok,
    ensures
        before.install(outer) matches Ok(during) && {
            &&& during.slot == Some(outer)
            &&& during.install(inner) == Err::<Registry, RegistrationConflict>(
                RegistrationConflict,
            )
            &&& during.scope(inner, then) == Err::<Ended, RegistrationConflict>(
                RegistrationConflict,
            )
        },
{
}

/// A slot made for one store is refused by every accessor resolved against
/// another, whatever its fail-flag says.
pub proof fn foreign_store_is_refused(slot: SlotView, other: WorldId, disabled: bool)
    requires
        slot.store != other,
    ensures
        slot.shared_grant(other, disabled) is None,
        slot.exclusive_grant(other, disabled) is None,
        shared_resolution(Some(slot), other, disabled) == Err::<usize, ResolutionFailure>(
            ResolutionFailure::Rejected,
        ),
        exclusive_resolution(Some(slot), other, disabled) == Err::<usize, ResolutionFailure>(
            ResolutionFailure::Rejected,
        ),
{
}

/// If the store has lost the slot by the time the continuation returns, the
/// scope still ends: its teardown is flagged, the fail-flag is set from then
/// on, and every accessor resolved from the lost slot is refused, in
/// whichever store it is looked up.
pub proof fn lost_slot_is_disabled(
    before: Registry,
    slot: SlotView,
    then: spec_fn(Registry) -> Registry,
    store: WorldId,
    disabled: bool,
)
    requires
        before.slot is None,
        then(Registry { store: before.store, slot: Some(slot) }).slot is None,
    ensures
        before.scope(slot, then) matches Ok(ended) && {
            &&& ended.teardown == Teardown::Flagged
            &&& flag_after(disabled, ended.teardown)
            &&& shared_resolution(Some(slot), store, flag_after(disabled, ended.teardown))
                == Err::<usize, ResolutionFailure>(ResolutionFailure::Rejected)
            &&& exclusive_resolution(Some(slot), store, flag_after(disabled, ended.teardown))
                == Err::<usize, ResolutionFailure>(ResolutionFailure::Rejected)
        },
{
}

} // verus!
