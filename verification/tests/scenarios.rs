//! Whole scopes, run against a real `World`. Addresses are positions in a
//! small memory the test owns: position `p` is address `p + 1`.

use bevy_ecs::world::World;
use bevy_smuggle::temporarily_store_exclusive_ref;
use bevy_smuggle::temporarily_store_shared_ref;
use bevy_smuggle::RefRes;
use bevy_smuggle::RefResMut;
use bevy_smuggle::RegistrationConflict;
use bevy_smuggle::ResolutionFailure;
use bevy_smuggle::StaticRef;
use bevy_smuggle::Teardown;

fn read_shared(world: &World) -> Result<usize, ResolutionFailure> {
    RefRes::resolve(world.get_resource::<StaticRef<i32>>(), world.id())
        .map(|accessor| accessor.into_inner())
}

fn read_exclusive(world: &mut World) -> Result<usize, ResolutionFailure> {
    let id = world.id();
    let slot = world.get_resource_mut::<StaticRef<i32>>().map(|slot| slot.into_inner());
    RefResMut::resolve(slot, id).map(|accessor| accessor.into_inner())
}

#[test]
fn shared_reference_is_read_and_removed() {
    let memory: Vec<i32> = vec![10];
    let mut world = World::new();
    let outcome = temporarily_store_shared_ref::<i32, i32>(&mut world, 1, |world| {
        let address = read_shared(world).unwrap();
        memory[address - 1]
    })
    .unwrap();
    assert_eq!(outcome.value, 10);
    assert_eq!(outcome.teardown, Teardown::Confirmed);
    assert!(world.get_resource::<StaticRef<i32>>().is_none());
}

#[test]
fn exclusive_reference_is_written_through() {
    let mut memory: Vec<i32> = vec![0];
    let mut world = World::new();
    let outcome = temporarily_store_exclusive_ref::<i32, ()>(&mut world, 1, |world| {
        let address = read_exclusive(world).unwrap();
        memory[address - 1] = 10;
    })
    .unwrap();
    assert_eq!(outcome.teardown, Teardown::Confirmed);
    assert_eq!(memory[0], 10);
    assert!(world.get_resource::<StaticRef<i32>>().is_none());
}

#[test]
fn slot_is_absent_before_and_after_and_present_during() {
    let mut world = World::new();
    assert!(!world.contains_resource::<StaticRef<i32>>());
    let seen = temporarily_store_shared_ref::<i32, bool>(&mut world, 7, |world| {
        world.contains_resource::<StaticRef<i32>>()
    })
    .unwrap();
    assert!(seen.value);
    assert!(!world.contains_resource::<StaticRef<i32>>());
}

#[test]
fn accessor_yields_the_lent_address() {
    let mut world = World::new();
    let seen = temporarily_store_shared_ref::<i32, _>(&mut world, 4242, |world| {
        (read_shared(world), read_exclusive(world))
    })
    .unwrap();
    assert_eq!(seen.value.0, Ok(4242));
    assert_eq!(seen.value.1, Err(ResolutionFailure::Rejected));
}

#[test]
fn exclusive_slot_serves_both_accessors() {
    let mut world = World::new();
    let seen = temporarily_store_exclusive_ref::<i32, _>(&mut world, 77, |world| {
        (read_shared(world), read_exclusive(world))
    })
    .unwrap();
    assert_eq!(seen.value.0, Ok(77));
    assert_eq!(seen.value.1, Ok(77));
}

#[test]
fn nested_store_of_same_type_conflicts() {
    let mut world = World::new();
    let outer = temporarily_store_exclusive_ref::<i32, _>(&mut world, 1, |world| {
        let shared = temporarily_store_shared_ref::<i32, ()>(world, 2, |_| ()).map(|_| ());
        let exclusive =
            temporarily_store_exclusive_ref::<i32, ()>(world, 3, |_| ()).map(|_| ());
        (shared, exclusive, read_shared(world))
    })
    .unwrap();
    assert_eq!(outer.value.0, Err(RegistrationConflict));
    assert_eq!(outer.value.1, Err(RegistrationConflict));
    // the outer slot is untouched by the refused attempts
    assert_eq!(outer.value.2, Ok(1));
    assert_eq!(outer.teardown, Teardown::Confirmed);
    assert!(!world.contains_resource::<StaticRef<i32>>());
}

#[test]
fn conflict_does_not_run_the_continuation() {
    let mut world = World::new();
    let mut ran = false;
    let outer = temporarily_store_shared_ref::<i32, _>(&mut world, 1, |world| {
        temporarily_store_shared_ref::<i32, ()>(world, 2, |_| ran = true).map(|_| ())
    })
    .unwrap();
    assert_eq!(outer.value, Err(RegistrationConflict));
    assert!(!ran);
}

#[test]
fn nested_store_of_another_type_is_independent() {
    let mut world = World::new();
    let outer = temporarily_store_shared_ref::<i32, _>(&mut world, 1, |world| {
        temporarily_store_exclusive_ref::<u8, _>(world, 2, |world| {
            let id = world.id();
            let bytes = RefRes::resolve(world.get_resource::<StaticRef<u8>>(), id)
                .map(|accessor| accessor.into_inner());
            (read_shared(world), bytes)
        })
        .map(|inner| inner.value)
    })
    .unwrap();
    assert_eq!(outer.value, Ok((Ok(1), Ok(2))));
    assert!(!world.contains_resource::<StaticRef<i32>>());
    assert!(!world.contains_resource::<StaticRef<u8>>());
}

#[test]
fn slot_registered_in_one_world_is_refused_in_another() {
    let mut first = World::new();
    let mut second = World::new();
    let moved = temporarily_store_exclusive_ref::<i32, _>(&mut first, 5, |first| {
        // carry the slot over into another store
        let slot = first.remove_resource::<StaticRef<i32>>().unwrap();
        second.insert_resource(slot);
        (read_shared(&second), read_exclusive(&mut second))
    })
    .unwrap();
    assert_eq!(moved.value.0, Err(ResolutionFailure::Rejected));
    assert_eq!(moved.value.1, Err(ResolutionFailure::Rejected));
    assert_eq!(moved.teardown, Teardown::Flagged);
}

#[test]
fn lost_slot_flags_the_teardown_and_disables_the_slot() {
    let mut world = World::new();
    let id = world.id();
    let outcome = temporarily_store_exclusive_ref::<i32, _>(&mut world, 9, |world| {
        let slot = world.remove_resource::<StaticRef<i32>>().unwrap();
        assert_eq!(slot.read_shared_from(world.id()), Some(9));
        slot
    })
    .unwrap();
    assert_eq!(outcome.teardown, Teardown::Flagged);
    let mut lost = outcome.value;
    assert_eq!(lost.read_shared_from(id), None);
    assert_eq!(lost.read_exclusive_from(id), None);
    assert_eq!(lost.check_invariants(id), None);
    // put back where accessors look for it, it is still refused
    world.insert_resource(lost);
    assert_eq!(read_shared(&world), Err(ResolutionFailure::Rejected));
    assert_eq!(read_exclusive(&mut world), Err(ResolutionFailure::Rejected));
}

#[test]
fn accessor_outside_any_scope_finds_nothing() {
    let mut world = World::new();
    assert_eq!(read_shared(&world), Err(ResolutionFailure::Absent));
    assert_eq!(read_exclusive(&mut world), Err(ResolutionFailure::Absent));
    temporarily_store_shared_ref::<i32, ()>(&mut world, 1, |_| ()).unwrap();
    assert_eq!(read_shared(&world), Err(ResolutionFailure::Absent));
}

#[test]
fn scope_can_be_entered_again_after_it_ended() {
    let mut world = World::new();
    let first = temporarily_store_shared_ref::<i32, _>(&mut world, 11, |w| read_shared(w));
    let second = temporarily_store_exclusive_ref::<i32, _>(&mut world, 12, |w| read_shared(w));
    assert_eq!(first.unwrap().value, Ok(11));
    assert_eq!(second.unwrap().value, Ok(12));
}

#[test]
fn continuation_result_is_handed_back() {
    let mut world = World::new();
    let outcome =
        temporarily_store_shared_ref::<i32, _>(&mut world, 1, |_| String::from("done"));
    let outcome = outcome.unwrap();
    assert_eq!(outcome.value, "done");
    assert_eq!(outcome.teardown, Teardown::Confirmed);
}
