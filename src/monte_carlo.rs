//! A Monte Carlo driver: declared sampled variables, a job template of fixed arity, and
//! an ensemble of independently sampled trials.
//!
//! Drawing a sample and running one trial are supplied by the caller as functions; the
//! driver checks the configuration before any trial runs, draws one sample per declared
//! variable for each trial, and tags every outcome with its trial index and samples.
use vstd::prelude::*;
use crate::error::ConfigurationError;

verus! {

/// How long a simulation runner drives its tick engine.
#[derive(Clone, Copy, Debug, PartialEq, Eq, Structural)]
pub enum RunMode {
    /// Exactly this many ticks.
    FixedTicks(u64),
}

impl RunMode {
    pub open spec fn tick_count_spec(&self) -> u64 {
        match *self {
            RunMode::FixedTicks(n) => n,
        }
    }

    /// The number of ticks that a runner performs under this mode.
    pub fn tick_count(&self) -> (r: u64)
        ensures
            r == self.tick_count_spec(),
    {
        match *self {
            RunMode::FixedTicks(n) => n,
        }
    }
}

/// The phase of a Monte Carlo experiment.
#[derive(Clone, Copy, Debug, PartialEq, Eq, Structural)]
pub enum Phase {
    Idle,
    Configured,
    Running,
    Completed,
    Failed,
}

/// What came of one trial.
#[derive(Clone, Debug)]
pub enum Outcome<R> {
    /// The trial ran to the end; its result.
    Completed(R),
    /// A non-finite value appeared during the trial.
    NumericFault,
}

/// One trial of an ensemble: its index, the value drawn for each declared variable, and
/// its outcome.
#[derive(Clone, Debug)]
pub struct TrialResult<V, R> {
    pub trial_index: usize,
    pub samples: Vec<V>,
    pub outcome: Outcome<R>,
}

/// A Monte Carlo experiment over variables described by `D`.
pub struct MonteCarlo<D> {
    vars: Vec<D>,
    template_arity: Option<usize>,
    phase: Phase,
}

impl<D> MonteCarlo<D> {
    pub closed spec fn spec_vars(&self) -> Seq<D> {
        self.vars@
    }

    pub closed spec fn spec_template_arity(&self) -> Option<usize> {
        self.template_arity
    }

    pub closed spec fn spec_phase(&self) -> Phase {
        self.phase
    }

    /// A phase in which variables and templates may still be declared.
    pub open spec fn is_open(&self) -> bool {
        self.spec_phase() == Phase::Idle || self.spec_phase() == Phase::Configured
    }

    /// An experiment with no variables and no template.
    pub fn new() -> (r: Self)
        ensures
            r.spec_vars() == Seq::<D>::empty(),
            r.spec_template_arity() == None::<usize>,
            r.spec_phase() == Phase::Idle,
    {
        MonteCarlo { vars: Vec::new(), template_arity: None, phase: Phase::Idle }
    }

    pub fn phase(&self) -> (r: Phase)
        ensures
            r == self.spec_phase(),
    {
        self.phase
    }

    pub fn var_count(&self) -> (r: usize)
        ensures
            r == self.spec_vars().len(),
    {
        self.vars.len()
    }

    /// Declares one more sampled variable, after those declared before.
    pub fn var(&mut self, spec: D) -> (r: Result<(), ConfigurationError>)
        ensures
            old(self).is_open() ==> {
                &&& r is Ok
                &&& final(self).spec_vars() == old(self).spec_vars().push(spec)
                &&& final(self).spec_template_arity() == old(self).spec_template_arity()
                &&& final(self).spec_phase() == old(self).spec_phase()
            },
            !old(self).is_open() ==> {
                &&& r == Err::<(), ConfigurationError>(ConfigurationError::AlreadyStarted)
                &&& final(self).spec_vars() == old(self).spec_vars()
                &&& final(self).spec_template_arity() == old(self).spec_template_arity()
                &&& final(self).spec_phase() == old(self).spec_phase()
            },
    {
        if self.phase == Phase::Idle || self.phase == Phase::Configured {
            self.vars.push(spec);
            Ok(())
        } else {
            Err(ConfigurationError::AlreadyStarted)
        }
    }

    /// Registers a job template taking `parameters` sampled values.
    pub fn job(&mut self, parameters: usize) -> (r: Result<(), ConfigurationError>)
        ensures
            final(self).spec_vars() == old(self).spec_vars(),
            old(self).is_open() ==> {
                &&& r is Ok
                &&& final(self).spec_template_arity() == Some(parameters)
                &&& final(self).spec_phase() == Phase::Configured
            },
            !old(self).is_open() ==> {
                &&& r == Err::<(), ConfigurationError>(ConfigurationError::AlreadyStarted)
                &&& final(self).spec_template_arity() == old(self).spec_template_arity()
                &&& final(self).spec_phase() == old(self).spec_phase()
            },
    {
        if self.phase == Phase::Idle || self.phase == Phase::Configured {
            self.template_arity = Some(parameters);
            self.phase = Phase::Configured;
            Ok(())
        } else {
            Err(ConfigurationError::AlreadyStarted)
        }
    }

    /// The error that `run` reports for this configuration, if any: `AlreadyStarted` once
    /// a run has begun, else `NoTemplate` without a template, else `ArityMismatch` where
    /// the template's arity differs from the number of declared variables.
    pub open spec fn config_error(&self) -> Option<ConfigurationError> {
        if !self.is_open() {
            Some(ConfigurationError::AlreadyStarted)
        } else if self.spec_template_arity() is None {
            Some(ConfigurationError::NoTemplate)
        } else if self.spec_template_arity()->0 != self.spec_vars().len() {
            Some(
                ConfigurationError::ArityMismatch {
                    declared: self.spec_vars().len() as usize,
                    parameters: self.spec_template_arity()->0,
                },
            )
        } else {
            None
        }
    }

    /// Checks the configuration as `run` does, without running anything.
    pub fn check(&self) -> (r: Result<(), ConfigurationError>)
        ensures
            r is Ok <==> self.config_error() is None,
            r matches Err(e) ==> self.config_error() == Some(e),
    {
        if !(self.phase == Phase::Idle || self.phase == Phase::Configured) {
            return Err(ConfigurationError::AlreadyStarted);
        }
        match self.template_arity {
            None => Err(ConfigurationError::NoTemplate),
            Some(parameters) => {
                if parameters == self.vars.len() {
                    Ok(())
                } else {
                    Err(ConfigurationError::ArityMismatch { declared: self.vars.len(), parameters })
                }
            },
        }
    }

    /// Runs `trial_count` trials. For trial `i`, `sample(seed, i, j, var)` draws the value
    /// of the `j`-th declared variable `var`, and `trial` runs the job built from those values.
    ///
    /// The configuration is checked first: where it is not runnable the error comes back
    /// and neither function is called. Otherwise every trial is run, a faulted one
    /// included, and the experiment is completed.
    pub fn run<V, R, S, T>(&mut self, trial_count: usize, seed: u64, sample: S, trial: T) -> (r: Result<
        Vec<TrialResult<V, R>>,
        ConfigurationError,
    >) where S: Fn(u64, usize, usize, &D) -> V, T: Fn(&Vec<V>) -> Outcome<R>
        requires
            forall|i: usize, j: usize, d: &D| #[trigger] sample.requires((seed, i, j, d)),
            forall|s: &Vec<V>| #[trigger] trial.requires((s,)),
        ensures
            final(self).spec_vars() == old(self).spec_vars(),
            final(self).spec_template_arity() == old(self).spec_template_arity(),
            r is Ok <==> old(self).config_error() is None,
            r matches Err(e) ==> old(self).config_error() == Some(e),
            r is Err && old(self).is_open() ==> final(self).spec_phase() == Phase::Failed,
            r is Err && !old(self).is_open() ==> final(self).spec_phase() == old(self).spec_phase(),
            r is Ok ==> final(self).spec_phase() == Phase::Completed,
            r matches Ok(results) ==> results.len() == trial_count && trials_are_tagged(
                results@,
                old(self).spec_vars(),
                seed,
                sample,
                trial,
            ),
    {
        let never = |i: usize| -> (c: bool)
            ensures
                !c,
            { false };
        self.run_cancellable(trial_count, seed, sample, trial, never)
    }

    /// Runs trials as `run` does, but asks `cancelled(i)` before trial `i` and stops at
    /// the first trial for which it answers `true`; the trials completed until then come
    /// back.
    pub fn run_cancellable<V, R, S, T, C>(
        &mut self,
        trial_count: usize,
        seed: u64,
        sample: S,
        trial: T,
        cancelled: C,
    ) -> (r: Result<Vec<TrialResult<V, R>>, ConfigurationError>) where
        S: Fn(u64, usize, usize, &D) -> V,
        T: Fn(&Vec<V>) -> Outcome<R>,
        C: Fn(usize) -> bool,

        requires
            forall|i: usize, j: usize, d: &D| #[trigger] sample.requires((seed, i, j, d)),
            forall|s: &Vec<V>| #[trigger] trial.requires((s,)),
            forall|i: usize| #[trigger] cancelled.requires((i,)),
        ensures
            final(self).spec_vars() == old(self).spec_vars(),
            final(self).spec_template_arity() == old(self).spec_template_arity(),
            r is Ok <==> old(self).config_error() is None,
            r matches Err(e) ==> old(self).config_error() == Some(e),
            r is Err && old(self).is_open() ==> final(self).spec_phase() == Phase::Failed,
            r is Err && !old(self).is_open() ==> final(self).spec_phase() == old(self).spec_phase(),
            r is Ok ==> final(self).spec_phase() == Phase::Completed,
            r matches Ok(results) ==> {
                &&& results.len() <= trial_count
                &&& trials_are_tagged(results@, old(self).spec_vars(), seed, sample, trial)
                &&& forall|i: int|
                    0 <= i < results.len() ==> #[trigger] cancelled.ensures(
                        (i as usize,),
                        false,
                    )
                &&& results.len() < trial_count ==> cancelled.ensures(
                    (results.len() as usize,),
                    true,
                )
            },
    {
        let checked = self.check();
        match checked {
            Err(e) => {
                if self.phase == Phase::Idle || self.phase == Phase::Configured {
                    self.phase = Phase::Failed;
                }
                return Err(e);
            },
            Ok(()) => {},
        }
        self.phase = Phase::Running;
        let n_vars = self.vars.len();
        let mut results: Vec<TrialResult<V, R>> = Vec::new();
        let mut i: usize = 0;
        while i < trial_count
            invariant
                i <= trial_count,
                results.len() == i,
                forall|k: usize, j: usize, d: &D| #[trigger] sample.requires((seed, k, j, d)),
                forall|s: &Vec<V>| #[trigger] trial.requires((s,)),
                forall|k: usize| #[trigger] cancelled.requires((k,)),
                self.vars@ == old(self).vars@,
                self.template_arity == old(self).template_arity,
                n_vars == self.vars@.len(),
                old(self).config_error() is None,
                trials_are_tagged(results@, self.vars@, seed, sample, trial),
                forall|k: int| 0 <= k < i ==> #[trigger] cancelled.ensures((k as usize,), false),
            decreases trial_count - i,
        {
            if cancelled(i) {
                self.phase = Phase::Completed;
                return Ok(results);
            }
            let mut samples: Vec<V> = Vec::new();
            let mut j: usize = 0;
            while j < n_vars
                invariant
                    j <= n_vars,
                    samples.len() == j,
                    n_vars == self.vars@.len(),
                    forall|k: usize, m: usize, d: &D| #[trigger] sample.requires((seed, k, m, d)),
                    forall|m: int|
                        0 <= m < j ==> sample.ensures(
                            (seed, i, m as usize, &self.vars@[m]),
                            #[trigger] samples[m],
                        ),
                decreases n_vars - j,
            {
                let v = sample(seed, i, j, &self.vars[j]);
                samples.push(v);
                j = j + 1;
            }
            let outcome = trial(&samples);
            results.push(TrialResult { trial_index: i, samples, outcome });
            i = i + 1;
        }
        self.phase = Phase::Completed;
        Ok(results)
    }
}

/// Whether trial `k` of `results` has index `k`, one sample per declared variable, the
/// `j`-th drawn by `sample` under `seed` for that trial from the `j`-th declared
/// variable, and the outcome that `trial` gave on those samples.
pub open spec fn trials_are_tagged<
    D,
    V,
    R,
    S: Fn(u64, usize, usize, &D) -> V,
    T: Fn(&Vec<V>) -> Outcome<R>,
>(results: Seq<TrialResult<V, R>>, vars: Seq<D>, seed: u64, sample: S, trial: T) -> bool {
    forall|k: int|
        0 <= k < results.len() ==> {
            &&& (#[trigger] results[k]).trial_index == k
            &&& results[k].samples.len() == vars.len()
            &&& forall|j: int|
                0 <= j < results[k].samples.len() ==> sample.ensures(
                    (seed, k as usize, j as usize, &vars[j]),
                    #[trigger] results[k].samples[j],
                )
            &&& trial.ensures((&results[k].samples,), results[k].outcome)
        }
}

/// A template whose arity differs from the number of declared variables is refused
/// with `ArityMismatch`, so `run` returns that error and runs no trial.
pub proof fn lemma_arity_mismatch_refused<D>(mc: MonteCarlo<D>, parameters: usize)
    requires
        mc.is_open(),
        mc.spec_template_arity() == Some(parameters),
        parameters != mc.spec_vars().len(),
    ensures
        mc.config_error() == Some(
            ConfigurationError::ArityMismatch { declared: mc.spec_vars().len() as usize, parameters },
        ),
{
}

} // verus!
