//! The capability accessors: what a reader obtains from a slot once the slot
//! has been checked against the store the reader runs in.

use vstd::prelude::*;
use vstd::string::StringExecFns;
use bevy_ecs::world::WorldId;
use std::marker::PhantomData;
use crate::static_ref::SlotView;
use crate::static_ref::StaticRef;

verus! {

/// Why no accessor could be produced.
#[derive(Clone, Copy, PartialEq, Eq, Structural, Debug)]
pub enum ResolutionFailure {
    /// The store holds no slot for the erased type.
    Absent,
    /// The slot refused the read: it belongs to another store, it has been
    /// disabled, or it does not allow the kind of access asked for.
    Rejected,
}

/// The text that reports a failed resolution for the type called `erased`.
pub open spec fn failure_message(failure: ResolutionFailure, erased: Seq<char>) -> Seq<char> {
    match failure {
        ResolutionFailure::Absent => "No lifetime erased `&[mut] "@ + erased
            + "` is stored in this `World`"@,
        ResolutionFailure::Rejected => "StaticRef<"@ + erased
            + "> should only be present in the correct `World` with the correct mutability and during its lifetime"@,
    }
}

impl ResolutionFailure {
    /// Describes the failure, naming the erased type.
    pub fn message(&self, erased: &str) -> (text: String)
        ensures
            text@ == failure_message(*self, erased@),
    {
        match self {
            ResolutionFailure::Absent => {
                let mut text = String::from_str("No lifetime erased `&[mut] ");
                text.append(erased);
                text.append("` is stored in this `World`");
                text
            },
            ResolutionFailure::Rejected => {
                let mut text = String::from_str("StaticRef<");
                text.append(erased);
                text.append(
                    "> should only be present in the correct `World` with the correct mutability and during its lifetime",
                );
                text
            },
        }
    }
}

/// What resolving a shared accessor yields, for a slot as found in the store
/// (if any), the store the reader runs in, and the state of the fail-flag.
pub open spec fn shared_resolution(slot: Option<SlotView>, store: WorldId, disabled: bool) -> Result<
    usize,
    ResolutionFailure,
> {
    match slot {
        None => Err(ResolutionFailure::Absent),
        Some(found) => match found.shared_grant(store, disabled) {
            Some(address) => Ok(address),
            None => Err(ResolutionFailure::Rejected),
        },
    }
}

/// What resolving an exclusive accessor yields.
pub open spec fn exclusive_resolution(slot: Option<SlotView>, store: WorldId, disabled: bool) -> Result<
    usize,
    ResolutionFailure,
> {
    match slot {
        None => Err(ResolutionFailure::Absent),
        Some(found) => match found.exclusive_grant(store, disabled) {
            Some(address) => Ok(address),
            None => Err(ResolutionFailure::Rejected),
        },
    }
}

/// Shared access to a value of type `T` lent to the store: the address a
/// checked slot handed out for reading, good for as long as the slot is
/// borrowed.
pub struct RefRes<'w, T> {
    address: usize,
    value: PhantomData<&'w T>,
}

/// Exclusive access to a value of type `T` lent to the store: the address a
/// checked slot handed out for reading and writing, good for as long as the
/// slot is borrowed exclusively.
pub struct RefResMut<'w, T> {
    address: usize,
    value: PhantomData<&'w mut T>,
}

impl<'w, T> RefRes<'w, T> {
    #[verifier::type_invariant]
    spec fn never_null(self) -> bool {
        self.address != 0
    }

    /// Where the value lives.
    pub closed spec fn address(&self) -> usize {
        self.address
    }

    /// The outcome of a resolution, as the address obtained or the failure.
    pub open spec fn located(resolved: Result<Self, ResolutionFailure>) -> Result<
        usize,
        ResolutionFailure,
    > {
        match resolved {
            Ok(accessor) => Ok(accessor.address()),
            Err(failure) => Err(failure),
        }
    }

    /// Produces the accessor for a reader that runs in `world`, from the slot
    /// found there, if any. The outcome is the shared resolution for
    /// whichever value the slot's fail-flag held when it was read.
    pub fn resolve(slot: Option<&'w StaticRef<T>>, world: WorldId) -> (resolved: Result<
        Self,
        ResolutionFailure,
    >)
        ensures
            Self::located(resolved) == shared_resolution(found(slot), world, false)
                || Self::located(resolved) == shared_resolution(found(slot), world, true),
            resolved matches Ok(accessor) ==> accessor.address() != 0,
    {
        match slot {
            None => Err(ResolutionFailure::Absent),
            Some(slot) => match slot.read_shared_from(world) {
                Some(address) => Ok(RefRes { address, value: PhantomData }),
                None => Err(ResolutionFailure::Rejected),
            },
        }
    }

    /// The address to read the value from.
    pub fn into_inner(&self) -> (address: usize)
        ensures
            address == self.address(),
            address != 0,
    {
        proof {
            use_type_invariant(self);
        }
        self.address
    }
}

impl<'w, T> RefResMut<'w, T> {
    #[verifier::type_invariant]
    spec fn never_null(self) -> bool {
        self.address != 0
    }

    /// Where the value lives.
    pub closed spec fn address(&self) -> usize {
        self.address
    }

    /// The outcome of a resolution, as the address obtained or the failure.
    pub open spec fn located(resolved: Result<Self, ResolutionFailure>) -> Result<
        usize,
        ResolutionFailure,
    > {
        match resolved {
            Ok(accessor) => Ok(accessor.address()),
            Err(failure) => Err(failure),
        }
    }

    /// Produces the accessor for a reader that runs in `world`, from the slot
    /// found there, if any. The outcome is the exclusive resolution for
    /// whichever value the slot's fail-flag held when it was read.
    pub fn resolve(slot: Option<&'w mut StaticRef<T>>, world: WorldId) -> (resolved: Result<
        Self,
        ResolutionFailure,
    >)
        ensures
            Self::located(resolved) == exclusive_resolution(found_mut(slot), world, false)
                || Self::located(resolved) == exclusive_resolution(found_mut(slot), world, true),
            resolved matches Ok(accessor) ==> accessor.address() != 0,
            slot matches Some(found) ==> *final(found) == *found,
    {
        match slot {
            None => Err(ResolutionFailure::Absent),
            Some(slot) => match slot.read_exclusive_from(world) {
                Some(address) => Ok(RefResMut { address, value: PhantomData }),
                None => Err(ResolutionFailure::Rejected),
            },
        }
    }

    /// The address to read and write the value at. This uses the accessor up.
    pub fn into_inner(self) -> (address: usize)
        ensures
            address == self.address(),
            address != 0,
    {
        proof {
            use_type_invariant(&self);
        }
        self.address
    }
}

/// The view of the slot that was found, if one was.
pub open spec fn found<T>(slot: Option<&StaticRef<T>>) -> Option<SlotView> {
    match slot {
        Some(slot) => Some(slot@),
        None => None,
    }
}

/// The view of the slot that was found for exclusive use, if one was.
pub open spec fn found_mut<T>(slot: Option<&mut StaticRef<T>>) -> Option<SlotView> {
    match slot {
        Some(slot) => Some(slot@),
        None => None,
    }
}

} // verus!
