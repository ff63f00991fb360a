//! The scoped registration guard: the decisions taken when a slot is installed
//! and when it is taken out again.

use vstd::prelude::*;
use vstd::multiset::Multiset;
use vstd::string::StringExecFns;
use bevy_ecs::world::World;
use std::marker::PhantomData;
use std::sync::Arc;
use std::sync::atomic::AtomicBool;
use std::sync::atomic::Ordering;
use crate::static_ref::SlotView;
use crate::static_ref::StaticRef;
use crate::world::has_slot;
use crate::world::identity_of;
use crate::world::put_slot;
use crate::world::slots_of;
use crate::world::take_slot;

verus! {

/// A slot for the same erased type is already registered in the store.
#[derive(Clone, Copy, PartialEq, Eq, Structural, Debug)]
pub struct RegistrationConflict;

/// How a guard's scope ended.
#[derive(Clone, Copy, PartialEq, Eq, Structural, Debug)]
pub enum Teardown {
    /// The slot was still registered and has been removed.
    Confirmed,
    /// No slot was found to remove. The fail-flag has been set, so whoever
    /// still holds the slot is refused from now on.
    Flagged,
}

/// Whether a slot may be installed where `occupied` says a slot of the same
/// type already is: never on top of another one.
pub open spec fn admission(occupied: bool) -> Result<(), RegistrationConflict> {
    if occupied {
        Err(RegistrationConflict)
    } else {
        Ok(())
    }
}

/// How a scope ends, given whether the removal found a slot.
pub open spec fn teardown_of(removed: bool) -> Teardown {
    if removed {
        Teardown::Confirmed
    } else {
        Teardown::Flagged
    }
}

/// The fail-flag after a teardown: once set it stays set, and a teardown that
/// could not confirm the removal sets it.
pub open spec fn flag_after(disabled: bool, teardown: Teardown) -> bool {
    disabled || teardown == Teardown::Flagged
}

/// What a teardown does to the slots a store holds: a confirmed one has taken
/// one of them out, a flagged one has found nothing to take.
pub open spec fn removal(
    left: Multiset<SlotView>,
    teardown: Teardown,
    after: Multiset<SlotView>,
) -> bool {
    match teardown {
        Teardown::Confirmed => exists|gone: SlotView|
            left.contains(gone) && after == left.remove(gone),
        Teardown::Flagged => after == left,
    }
}

/// The text that reports a registration conflict for the type called
/// `erased`.
pub open spec fn conflict_message(erased: Seq<char>) -> Seq<char> {
    "A lifetime erased `&[mut] "@ + erased + "` is already stored in this `World`"@
}

/// The text that reports a teardown that found no slot of the type called
/// `erased`.
pub open spec fn teardown_message(erased: Seq<char>) -> Seq<char> {
    "Could not remove lifetime erased `&[mut] "@ + erased + "` from `World`"@
}

impl RegistrationConflict {
    /// Describes the conflict, naming the erased type.
    pub fn message(&self, erased: &str) -> (text: String)
        ensures
            text@ == conflict_message(erased@),
    {
        let mut text = String::from_str("A lifetime erased `&[mut] ");
        text.append(erased);
        text.append("` is already stored in this `World`");
        text
    }
}

impl Teardown {
    /// The diagnostic owed for this teardown, naming the erased type: none
    /// if the removal was confirmed.
    pub fn diagnostic(&self, erased: &str) -> (text: Option<String>)
        ensures
            *self == Teardown::Confirmed ==> text is None,
            *self == Teardown::Flagged ==> (text matches Some(t) && t@ == teardown_message(
                erased@,
            )),
    {
        match self {
            Teardown::Confirmed => None,
            Teardown::Flagged => {
                let mut text = String::from_str("Could not remove lifetime erased `&[mut] ");
                text.append(erased);
                text.append("` from `World`");
                Some(text)
            },
        }
    }
}

/// The handle that answers for one installed slot from installation to
/// removal. It shares the slot's fail-flag and is used up by [`Guard::release`].
pub struct Guard<T> {
    disabler: Arc<AtomicBool>,
    t: PhantomData<T>,
}

impl<T> Guard<T> {
    /// The fail-flag this guard sets if it cannot confirm the removal.
    pub closed spec fn flag(&self) -> Arc<AtomicBool> {
        self.disabler
    }

    /// Decides on the installation of `slot`, where `occupied` says whether
    /// the store already holds a slot of this type. On success the guard for
    /// `slot` comes back, holding its fail-flag.
    pub fn begin(slot: &StaticRef<T>, occupied: bool) -> (guard: Result<Self, RegistrationConflict>)
        ensures
            admission(occupied) is Ok <==> guard is Ok,
            guard matches Ok(g) ==> g.flag() == slot.flag(),
    {
        if occupied {
            Err(RegistrationConflict)
        } else {
            Ok(Guard { disabler: slot.disabler(), t: PhantomData })
        }
    }

    /// Ends the scope, where `removed` says whether the removal found a slot.
    /// If it did not, the fail-flag is set.
    pub fn release(self, removed: bool) -> (teardown: Teardown)
        ensures
            teardown == teardown_of(removed),
    {
        if removed {
            Teardown::Confirmed
        } else {
            self.disabler.store(true, Ordering::Relaxed);
            Teardown::Flagged
        }
    }
}

/// Installs `slot` in `world` unless a slot of the same type is there already.
pub(crate) fn install<T: Send + Sync + 'static>(world: &mut World, slot: StaticRef<T>) -> (guard:
    Result<Guard<T>, RegistrationConflict>)
    ensures
        slots_of(*old(world)).len() == 0 ==> guard is Ok,
        guard is Err ==> *final(world) == *old(world),
        guard matches Ok(g) ==> g.flag() == slot.flag() && slots_of(*final(world)).contains(slot@),
        identity_of(*final(world)) == identity_of(*old(world)),
{
    let occupied = has_slot::<T>(world);
    match Guard::begin(&slot, occupied) {
        Ok(guard) => {
            put_slot(world, slot);
            Ok(guard)
        },
        Err(conflict) => Err(conflict),
    }
}

/// Takes the slot of `T` out of `world` and ends the guard's scope.
pub(crate) fn uninstall<T: Send + Sync + 'static>(world: &mut World, guard: Guard<T>) -> (teardown:
    Teardown)
    ensures
        identity_of(*final(world)) == identity_of(*old(world)),
        removal(slots_of(*old(world)), teardown, slots_of(*final(world))),
{
    let removed = take_slot::<T>(world);
    guard.release(removed.is_some())
}

} // verus!
