//! The lifetime-erased slot: the address of a borrowed value together with
//! everything needed to decide, on every access, whether that address may
//! still be handed out.

use vstd::prelude::*;
use bevy_ecs::world::WorldId;
use std::marker::PhantomData;
use std::sync::Arc;
use std::sync::atomic::AtomicBool;
use std::sync::atomic::Ordering;
use crate::world::same_world;
use crate::world::share_flag;

verus! {

/// How the erased value was borrowed.
#[derive(Clone, Copy, PartialEq, Eq, Structural, Debug)]
pub enum Mutability {
    Exclusive,
    Shared,
}

/// What a slot is, apart from its fail-flag: where the value lives, which
/// store the slot was made for, and how the value was borrowed.
pub struct SlotView {
    pub address: usize,
    pub store: WorldId,
    pub mutability: Mutability,
}

impl SlotView {
    /// The slot belongs to `store` and has not been disabled.
    pub open spec fn usable(self, store: WorldId, disabled: bool) -> bool {
        self.store == store && !disabled
    }

    /// The address a shared read obtains. Either kind of borrow serves a
    /// shared read.
    pub open spec fn shared_grant(self, store: WorldId, disabled: bool) -> Option<usize> {
        if self.usable(store, disabled) {
            Some(self.address)
        } else {
            None
        }
    }

    /// The address an exclusive read obtains. A shared borrow is never
    /// upgraded.
    pub open spec fn exclusive_grant(self, store: WorldId, disabled: bool) -> Option<usize> {
        if self.usable(store, disabled) && self.mutability == Mutability::Exclusive {
            Some(self.address)
        } else {
            None
        }
    }
}

/// A reference to a value of type `T` that lives outside the store, with its
/// lifetime erased.
///
/// The slot never owns the value and never touches it: it records the address
/// and answers whether a reader may use it. The fail-flag is shared with the
/// guard that installed the slot; once set, every read is refused.
pub struct StaticRef<T> {
    /// Where the value lives.
    address: usize,
    /// The store this slot was made for.
    world: WorldId,
    mutability: Mutability,
    /// Set once the value's lifetime may have ended without the slot having
    /// been removed.
    disabler: Arc<AtomicBool>,
    marker: PhantomData<T>,
}

impl<T> View for StaticRef<T> {
    type V = SlotView;

    closed spec fn view(&self) -> SlotView {
        SlotView { address: self.address, store: self.world, mutability: self.mutability }
    }
}

impl<T> StaticRef<T> {
    /// The fail-flag this slot consults on every read.
    pub closed spec fn flag(&self) -> Arc<AtomicBool> {
        self.disabler
    }

    #[verifier::type_invariant]
    spec fn never_null(self) -> bool {
        self.address != 0
    }

    /// A slot for a value borrowed shared, bound to `world`, with a fresh
    /// fail-flag.
    pub fn new_shared(world: WorldId, address: usize) -> (slot: Self)
        requires
            address != 0,
        ensures
            slot@ == (SlotView { address, store: world, mutability: Mutability::Shared }),
    {
        StaticRef {
            address,
            world,
            mutability: Mutability::Shared,
            disabler: Arc::new(AtomicBool::new(false)),
            marker: PhantomData,
        }
    }

    /// A slot for a value borrowed exclusively, bound to `world`, with a
    /// fresh fail-flag.
    pub fn new_exclusive(world: WorldId, address: usize) -> (slot: Self)
        requires
            address != 0,
        ensures
            slot@ == (SlotView { address, store: world, mutability: Mutability::Exclusive }),
    {
        StaticRef {
            address,
            world,
            mutability: Mutability::Exclusive,
            disabler: Arc::new(AtomicBool::new(false)),
            marker: PhantomData,
        }
    }

    /// Another handle on this slot's fail-flag.
    pub fn disabler(&self) -> (flag: Arc<AtomicBool>)
        ensures
            flag == self.flag(),
    {
        share_flag(&self.disabler)
    }

    /// Whether the slot may be read from `world`, given what the fail-flag
    /// said.
    pub fn permits(&self, world: WorldId, disabled: bool) -> (ok: bool)
        ensures
            ok == self@.usable(world, disabled),
    {
        same_world(self.world, world) && !disabled
    }

    /// What a shared read from `world` obtains, given what the fail-flag said.
    pub fn shared_access(&self, world: WorldId, disabled: bool) -> (granted: Option<usize>)
        ensures
            granted == self@.shared_grant(world, disabled),
            granted matches Some(address) ==> address != 0,
    {
        proof {
            use_type_invariant(self);
        }
        if self.permits(world, disabled) {
            Some(self.address)
        } else {
            None
        }
    }

    /// What an exclusive read from `world` obtains, given what the fail-flag
    /// said.
    pub fn exclusive_access(&mut self, world: WorldId, disabled: bool) -> (granted: Option<usize>)
        ensures
            *final(self) == *old(self),
            granted == old(self)@.exclusive_grant(world, disabled),
            granted matches Some(address) ==> address != 0,
    {
        proof {
            use_type_invariant(&*self);
        }
        if !self.permits(world, disabled) {
            None
        } else if self.mutability != Mutability::Exclusive {
            None
        } else {
            Some(self.address)
        }
    }

    /// Checks the slot against `world` and against the fail-flag as it stands
    /// at this moment. A slot of another store never passes.
    pub fn check_invariants(&self, world: WorldId) -> (ok: Option<()>)
        ensures
            ok is Some ==> self@.store == world,
    {
        let disabled = self.disabler.load(Ordering::Relaxed);
        if self.permits(world, disabled) {
            Some(())
        } else {
            None
        }
    }

    /// Reads the address for shared use from `world`. The outcome is the
    /// shared grant for whichever value the fail-flag held when it was read.
    pub fn read_shared_from(&self, world: WorldId) -> (granted: Option<usize>)
        ensures
            granted == self@.shared_grant(world, false) || granted == self@.shared_grant(
                world,
                true,
            ),
            granted matches Some(address) ==> address != 0,
    {
        let disabled = self.disabler.load(Ordering::Relaxed);
        self.shared_access(world, disabled)
    }

    /// Reads the address for exclusive use from `world`. The outcome is the
    /// exclusive grant for whichever value the fail-flag held when it was
    /// read.
    pub fn read_exclusive_from(&mut self, world: WorldId) -> (granted: Option<usize>)
        ensures
            *final(self) == *old(self),
            granted == old(self)@.exclusive_grant(world, false) || granted == old(
                self,
            )@.exclusive_grant(world, true),
            granted matches Some(address) ==> address != 0,
    {
        let disabled = self.disabler.load(Ordering::Relaxed);
        self.exclusive_access(world, disabled)
    }
}

} // verus!
