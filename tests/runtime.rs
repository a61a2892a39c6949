use std::cell::RefCell;

use nox::runtime::{self, Entity, EntityBuilder, EntityId, EntityStore, NumericFault, SimBuilder, StoreError};
use nox::RunMode;

fn entity(state: i32) -> Entity<i32, &'static str, u8> {
    EntityBuilder::new(state).build()
}

#[test]
fn store_keeps_creation_order() {
    let mut store = EntityStore::new();
    assert_eq!(store.create(entity(10)), Ok(EntityId(0)));
    assert_eq!(store.create(entity(20)), Ok(EntityId(1)));
    assert_eq!(store.create(entity(30)), Ok(EntityId(2)));
    assert_eq!(store.len(), 3);
    let states: Vec<i32> = (0..3).map(|i| *store.state(EntityId(i)).unwrap()).collect();
    assert_eq!(states, vec![10, 20, 30]);
    assert!(store.state(EntityId(3)).is_none());
}

#[test]
fn registries_keep_registration_order() {
    let mut store = EntityStore::new();
    let a = store.create(entity(1)).unwrap();
    let b = store.create(entity(2)).unwrap();
    store.attach_effector(b, "gravity").unwrap();
    store.attach_effector(b, "thrust").unwrap();
    store.attach_sensor(b, 7).unwrap();
    store.attach_sensor(b, 3).unwrap();
    assert_eq!(store.get(b).unwrap().effectors, vec!["gravity", "thrust"]);
    assert_eq!(store.get(b).unwrap().sensors, vec![7, 3]);
    assert!(store.get(a).unwrap().effectors.is_empty());
    assert_eq!(store.attach_effector(EntityId(9), "drag"), Err(StoreError::UnknownEntity));
    assert_eq!(store.attach_sensor(EntityId(9), 1), Err(StoreError::UnknownEntity));
}

#[test]
fn set_state_replaces_one_entity() {
    let mut store = EntityStore::new();
    let a = store.create(entity(1)).unwrap();
    let b = store.create(EntityBuilder::new(2).effector("e").sensor(4).build()).unwrap();
    assert_eq!(store.set_state(b, 5), Ok(2));
    assert_eq!(*store.state(b).unwrap(), 5);
    assert_eq!(*store.state(a).unwrap(), 1);
    assert_eq!(store.get(b).unwrap().effectors, vec!["e"]);
    assert_eq!(store.set_state(EntityId(2), 0), Err(StoreError::UnknownEntity));
}

#[test]
fn no_creation_after_start() {
    let mut store = EntityStore::new();
    store.create(entity(1)).unwrap();
    store.start();
    assert!(store.is_started());
    assert_eq!(store.create(entity(2)), Err(StoreError::RunStarted));
    assert_eq!(store.len(), 1);
}

#[test]
fn builder_gives_started_store_in_order() {
    let mut builder = SimBuilder::new();
    builder.entity(EntityBuilder::new(1).effector("a"));
    builder.entity(EntityBuilder::new(2).sensor(9u8));
    let mut store = builder.build();
    assert!(store.is_started());
    assert_eq!(store.len(), 2);
    assert_eq!(*store.state(EntityId(0)).unwrap(), 1);
    assert_eq!(store.get(EntityId(1)).unwrap().sensors, vec![9]);
    assert_eq!(store.create(entity(3)), Err(StoreError::RunStarted));
}

#[test]
fn fixed_ticks_runs_exactly_n_ticks_in_order() {
    let seen = RefCell::new(Vec::new());
    let r = runtime::run(RunMode::FixedTicks(20), 0u64, |k, s| {
        seen.borrow_mut().push(k);
        Ok(s + 1)
    });
    assert_eq!(r, Ok(20));
    assert_eq!(*seen.borrow(), (0..20).collect::<Vec<u64>>());
}

#[test]
fn zero_ticks_return_initial_state() {
    let r = runtime::run(RunMode::FixedTicks(0), 5i32, |_k, _s| Err(NumericFault { tick: 0 }));
    assert_eq!(r, Ok(5));
}

#[test]
fn first_fault_ends_the_run() {
    let calls = RefCell::new(0u64);
    let r = runtime::run(RunMode::FixedTicks(10), 0u64, |k, s| {
        *calls.borrow_mut() += 1;
        if k == 3 {
            Err(NumericFault { tick: k })
        } else {
            Ok(s + k)
        }
    });
    assert_eq!(r, Err(NumericFault { tick: 3 }));
    assert_eq!(*calls.borrow(), 4);
}
