//! Entities with ordered effector and sensor registries, the builder that assembles
//! them, and the runner that drives a tick function under a run mode.
//!
//! The state of an entity, its effectors and its sensors are of types chosen by the
//! caller; the store keeps them in the order of creation and registration, which is the
//! order in which a tick engine must evaluate them.
use vstd::prelude::*;
use crate::monte_carlo::{Outcome, RunMode};

verus! {

/// The position of an entity in its store.
#[derive(Clone, Copy, Debug, PartialEq, Eq, Structural)]
pub struct EntityId(pub usize);

/// An operation on a store that cannot be carried out.
#[derive(Clone, Copy, Debug, PartialEq, Eq, Structural)]
pub enum StoreError {
    /// No entity has this id.
    UnknownEntity,
    /// The run has started; entities can no longer be created.
    RunStarted,
}

/// A non-finite value appeared during the tick of this index.
#[derive(Clone, Copy, Debug, PartialEq, Eq, Structural)]
pub struct NumericFault {
    pub tick: u64,
}

/// One entity: its state, and its effectors and sensors in order of registration.
pub struct Entity<S, E, Z> {
    pub state: S,
    pub effectors: Vec<E>,
    pub sensors: Vec<Z>,
}

/// Accumulates the specification of one entity.
pub struct EntityBuilder<S, E, Z> {
    pub state: S,
    pub effectors: Vec<E>,
    pub sensors: Vec<Z>,
}

impl<S, E, Z> EntityBuilder<S, E, Z> {
    /// An entity with initial state `state`, and no effector or sensor.
    pub fn new(state: S) -> (r: Self)
        ensures
            r.state == state,
            r.effectors@ == Seq::<E>::empty(),
            r.sensors@ == Seq::<Z>::empty(),
    {
        EntityBuilder { state, effectors: Vec::new(), sensors: Vec::new() }
    }

    /// Adds an effector after those added before.
    pub fn effector(self, e: E) -> (r: Self)
        ensures
            r.state == self.state,
            r.effectors@ == self.effectors@.push(e),
            r.sensors@ == self.sensors@,
    {
        let mut b = self;
        b.effectors.push(e);
        b
    }

    /// Adds a sensor after those added before.
    pub fn sensor(self, z: Z) -> (r: Self)
        ensures
            r.state == self.state,
            r.effectors@ == self.effectors@,
            r.sensors@ == self.sensors@.push(z),
    {
        let mut b = self;
        b.sensors.push(z);
        b
    }

    /// The entity so specified.
    pub fn build(self) -> (r: Entity<S, E, Z>)
        ensures
            r.state == self.state,
            r.effectors@ == self.effectors@,
            r.sensors@ == self.sensors@,
    {
        Entity { state: self.state, effectors: self.effectors, sensors: self.sensors }
    }
}

/// The entities of one simulation, in the order of creation.
pub struct EntityStore<S, E, Z> {
    entities: Vec<Entity<S, E, Z>>,
    started: bool,
}

impl<S, E, Z> EntityStore<S, E, Z> {
    /// The entities in the order of creation.
    pub closed spec fn entities(&self) -> Seq<Entity<S, E, Z>> {
        self.entities@
    }

    /// Whether the run has started.
    pub closed spec fn spec_started(&self) -> bool {
        self.started
    }

    pub fn new() -> (r: Self)
        ensures
            r.entities() == Seq::<Entity<S, E, Z>>::empty(),
            !r.spec_started(),
    {
        EntityStore { entities: Vec::new(), started: false }
    }

    pub fn len(&self) -> (r: usize)
        ensures
            r == self.entities().len(),
    {
        self.entities.len()
    }

    pub fn is_started(&self) -> (r: bool)
        ensures
            r == self.spec_started(),
    {
        self.started
    }

    /// Adds an entity after all others and returns its id; refused once the run has
    /// started.
    pub fn create(&mut self, entity: Entity<S, E, Z>) -> (r: Result<EntityId, StoreError>)
        ensures
            final(self).spec_started() == old(self).spec_started(),
            old(self).spec_started() ==> r == Err::<EntityId, StoreError>(StoreError::RunStarted)
                && final(self).entities() == old(self).entities(),
            !old(self).spec_started() ==> r == Ok::<EntityId, StoreError>(
                EntityId(old(self).entities().len() as usize),
            ) && final(self).entities() == old(self).entities().push(entity),
    {
        if self.started {
            return Err(StoreError::RunStarted);
        }
        let id = self.entities.len();
        self.entities.push(entity);
        Ok(EntityId(id))
    }

    /// Marks the run as started: from now on no entity is created.
    pub fn start(&mut self)
        ensures
            final(self).spec_started(),
            final(self).entities() == old(self).entities(),
    {
        self.started = true;
    }

    /// The entity of id `id`, if there is one.
    pub fn get(&self, id: EntityId) -> (r: Option<&Entity<S, E, Z>>)
        ensures
            id.0 < self.entities().len() ==> r == Some(&self.entities()[id.0 as int]),
            id.0 >= self.entities().len() ==> r is None,
    {
        if id.0 < self.entities.len() {
            Some(&self.entities[id.0])
        } else {
            None
        }
    }

    /// The state of entity `id`, if there is one.
    pub fn state(&self, id: EntityId) -> (r: Option<&S>)
        ensures
            id.0 < self.entities().len() ==> r == Some(&self.entities()[id.0 as int].state),
            id.0 >= self.entities().len() ==> r is None,
    {
        match self.get(id) {
            Some(e) => Some(&e.state),
            None => None,
        }
    }

    /// Replaces the state of entity `id`; the old state comes back.
    pub fn set_state(&mut self, id: EntityId, state: S) -> (r: Result<S, StoreError>)
        ensures
            final(self).spec_started() == old(self).spec_started(),
            final(self).entities().len() == old(self).entities().len(),
            id.0 >= old(self).entities().len() ==> r == Err::<S, StoreError>(
                StoreError::UnknownEntity,
            ) && final(self).entities() == old(self).entities(),
            id.0 < old(self).entities().len() ==> {
                &&& r == Ok::<S, StoreError>(old(self).entities()[id.0 as int].state)
                &&& final(self).entities()[id.0 as int].state == state
                &&& final(self).entities()[id.0 as int].effectors@ == old(
                    self,
                ).entities()[id.0 as int].effectors@
                &&& final(self).entities()[id.0 as int].sensors@ == old(
                    self,
                ).entities()[id.0 as int].sensors@
                &&& forall|k: int|
                    0 <= k < old(self).entities().len() && k != id.0 ==> final(self).entities()[k]
                        == #[trigger] old(self).entities()[k]
            },
    {
        if id.0 >= self.entities.len() {
            return Err(StoreError::UnknownEntity);
        }
        let Entity { state: previous, effectors, sensors } = self.entities.remove(id.0);
        self.entities.insert(id.0, Entity { state, effectors, sensors });
        Ok(previous)
    }

    /// Registers an effector of entity `id`, after its others.
    pub fn attach_effector(&mut self, id: EntityId, e: E) -> (r: Result<(), StoreError>)
        ensures
            final(self).spec_started() == old(self).spec_started(),
            final(self).entities().len() == old(self).entities().len(),
            id.0 >= old(self).entities().len() ==> r == Err::<(), StoreError>(
                StoreError::UnknownEntity,
            ) && final(self).entities() == old(self).entities(),
            id.0 < old(self).entities().len() ==> {
                &&& r is Ok
                &&& final(self).entities()[id.0 as int].state == old(
                    self,
                ).entities()[id.0 as int].state
                &&& final(self).entities()[id.0 as int].effectors@ == old(
                    self,
                ).entities()[id.0 as int].effectors@.push(e)
                &&& final(self).entities()[id.0 as int].sensors@ == old(
                    self,
                ).entities()[id.0 as int].sensors@
                &&& forall|k: int|
                    0 <= k < old(self).entities().len() && k != id.0 ==> final(self).entities()[k]
                        == #[trigger] old(self).entities()[k]
            },
    {
        if id.0 >= self.entities.len() {
            return Err(StoreError::UnknownEntity);
        }
        let Entity { state, mut effectors, sensors } = self.entities.remove(id.0);
        effectors.push(e);
        self.entities.insert(id.0, Entity { state, effectors, sensors });
        Ok(())
    }

    /// Registers a sensor of entity `id`, after its others.
    pub fn attach_sensor(&mut self, id: EntityId, z: Z) -> (r: Result<(), StoreError>)
        ensures
            final(self).spec_started() == old(self).spec_started(),
            final(self).entities().len() == old(self).entities().len(),
            id.0 >= old(self).entities().len() ==> r == Err::<(), StoreError>(
                StoreError::UnknownEntity,
            ) && final(self).entities() == old(self).entities(),
            id.0 < old(self).entities().len() ==> {
                &&& r is Ok
                &&& final(self).entities()[id.0 as int].state == old(
                    self,
                ).entities()[id.0 as int].state
                &&& final(self).entities()[id.0 as int].effectors@ == old(
                    self,
                ).entities()[id.0 as int].effectors@
                &&& final(self).entities()[id.0 as int].sensors@ == old(
                    self,
                ).entities()[id.0 as int].sensors@.push(z)
                &&& forall|k: int|
                    0 <= k < old(self).entities().len() && k != id.0 ==> final(self).entities()[k]
                        == #[trigger] old(self).entities()[k]
            },
    {
        if id.0 >= self.entities.len() {
            return Err(StoreError::UnknownEntity);
        }
        let Entity { state, effectors, mut sensors } = self.entities.remove(id.0);
        sensors.push(z);
        self.entities.insert(id.0, Entity { state, effectors, sensors });
        Ok(())
    }
}

/// Accumulates entity specifications; `build` gives the store that a run starts from.
pub struct SimBuilder<S, E, Z> {
    pub entities: Vec<Entity<S, E, Z>>,
}

impl<S, E, Z> SimBuilder<S, E, Z> {
    pub fn new() -> (r: Self)
        ensures
            r.entities@ == Seq::<Entity<S, E, Z>>::empty(),
    {
        SimBuilder { entities: Vec::new() }
    }

    /// Adds an entity after those added before.
    pub fn entity(&mut self, b: EntityBuilder<S, E, Z>)
        ensures
            final(self).entities@.len() == old(self).entities@.len() + 1,
            final(self).entities@.drop_last() == old(self).entities@,
            final(self).entities@.last().state == b.state,
            final(self).entities@.last().effectors@ == b.effectors@,
            final(self).entities@.last().sensors@ == b.sensors@,
    {
        self.entities.push(b.build());
        proof {
            assert(self.entities@.drop_last() =~= old(self).entities@);
        }
    }

    /// The started store holding the entities in the order they were added.
    pub fn build(self) -> (r: EntityStore<S, E, Z>)
        ensures
            r.entities() == self.entities@,
            r.spec_started(),
    {
        EntityStore { entities: self.entities, started: true }
    }
}

/// Whether `states` is a sequence of states that `tick` steps through from `init`: each
/// state after the first is what `tick` returned on the one before, with the tick's
/// index.
pub open spec fn is_tick_chain<S, F: Fn(u64, S) -> Result<S, NumericFault>>(
    tick: F,
    init: S,
    states: Seq<S>,
) -> bool {
    &&& states.len() >= 1
    &&& states[0] == init
    &&& forall|k: int|
        0 <= k < states.len() - 1 ==> tick.ensures(
            (k as u64, #[trigger] states[k]),
            Ok::<S, NumericFault>(states[k + 1]),
        )
}

/// Whether `tick`, stepped `n` times from `init`, ends in `last`.
pub open spec fn completes_with<S, F: Fn(u64, S) -> Result<S, NumericFault>>(
    tick: F,
    init: S,
    n: u64,
    last: S,
) -> bool {
    exists|states: Seq<S>|
        #[trigger] is_tick_chain(tick, init, states) && states.len() == n + 1 && states.last()
            == last
}

/// Whether `tick`, stepped from `init`, reports `fault` at one of its first `n` ticks.
pub open spec fn faults_with<S, F: Fn(u64, S) -> Result<S, NumericFault>>(
    tick: F,
    init: S,
    n: u64,
    fault: NumericFault,
) -> bool {
    exists|states: Seq<S>|
        #[trigger] is_tick_chain(tick, init, states) && states.len() <= n && tick.ensures(
            ((states.len() - 1) as u64, states.last()),
            Err::<S, NumericFault>(fault),
        )
}

/// Drives `tick` from `init` under `mode`. Under `FixedTicks(n)` the tick of index `k` is
/// called on the state that the tick of index `k - 1` returned, for `k` from 0 to
/// `n - 1`, and the last state comes back; the first fault ends the run and comes back.
pub fn run<S, F>(mode: RunMode, init: S, tick: F) -> (r: Result<S, NumericFault>) where
    F: Fn(u64, S) -> Result<S, NumericFault>,

    requires
        forall|k: u64, s: S| #[trigger] tick.requires((k, s)),
    ensures
        r matches Ok(last) ==> completes_with(tick, init, mode.tick_count_spec(), last),
        r matches Err(fault) ==> faults_with(tick, init, mode.tick_count_spec(), fault),
{
    let n = match mode {
        RunMode::FixedTicks(n) => n,
    };
    let mut current = init;
    let mut k: u64 = 0;
    let ghost mut states: Seq<S> = seq![init];
    while k < n
        invariant
            k <= n,
            n == mode.tick_count_spec(),
            forall|j: u64, s: S| #[trigger] tick.requires((j, s)),
            is_tick_chain(tick, init, states),
            states.len() == k + 1,
            states.last() == current,
        decreases n - k,
    {
        let ghost before = current;
        match tick(k, current) {
            Ok(next) => {
                proof {
                    let old_states = states;
                    states = states.push(next);
                    assert forall|j: int| 0 <= j < states.len() - 1 implies tick.ensures(
                        (j as u64, #[trigger] states[j]),
                        Ok::<S, NumericFault>(states[j + 1]),
                    ) by {
                        if j < old_states.len() - 1 {
                            assert(states[j] == old_states[j]);
                            assert(states[j + 1] == old_states[j + 1]);
                        } else {
                            assert(states[j] == before);
                        }
                    }
                }
                current = next;
            },
            Err(fault) => {
                assert(is_tick_chain(tick, init, states));
                return Err(fault);
            },
        }
        k = k + 1;
    }
    assert(is_tick_chain(tick, init, states));
    Ok(current)
}

/// A job of a Monte Carlo trial: the state that its simulation starts from, and the mode
/// to run it under.
pub struct JobSpec<S> {
    pub init: S,
    pub mode: RunMode,
}

/// Runs `job` with `tick`, as `run` does, and reports a fault as a faulted outcome.
pub fn run_job<S, F>(job: JobSpec<S>, tick: F) -> (r: Outcome<S>) where
    F: Fn(u64, S) -> Result<S, NumericFault>,

    requires
        forall|k: u64, s: S| #[trigger] tick.requires((k, s)),
    ensures
        r matches Outcome::Completed(last) ==> completes_with(
            tick,
            job.init,
            job.mode.tick_count_spec(),
            last,
        ),
        r is NumericFault ==> exists|fault: NumericFault|
            faults_with(tick, job.init, job.mode.tick_count_spec(), fault),
{
    match run(job.mode, job.init, tick) {
        Ok(last) => Outcome::Completed(last),
        Err(_) => Outcome::NumericFault,
    }
}

} // verus!
