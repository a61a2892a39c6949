use std::cell::Cell;

use nox::runtime::{run_job, JobSpec, NumericFault};
use nox::{ConfigurationError, MonteCarlo, Outcome, Phase, RunMode};

/// A normal distribution, as the caller describes it.
#[derive(Clone, Copy, Debug)]
struct Normal {
    mean: f64,
    std_dev: f64,
}

/// A deterministic draw from `d` for trial `i`, variable `j`, under `seed`.
fn draw(seed: u64, d: Normal, i: usize, j: usize) -> f64 {
    let mut x = seed ^ ((i as u64) << 20) ^ (j as u64);
    let mut uniform = || {
        x = x.wrapping_add(0x9e3779b97f4a7c15);
        let mut z = x;
        z = (z ^ (z >> 30)).wrapping_mul(0xbf58476d1ce4e5b9);
        z = (z ^ (z >> 27)).wrapping_mul(0x94d049bb133111eb);
        z ^= z >> 31;
        ((z >> 11) as f64 + 0.5) / (1u64 << 53) as f64
    };
    let (u1, u2) = (uniform(), uniform());
    let n = (-2.0 * u1.ln()).sqrt() * (2.0 * std::f64::consts::PI * u2).cos();
    d.mean + d.std_dev * n
}

#[test]
fn thousand_trials_tagged_with_thrust() {
    let mut mc = MonteCarlo::new();
    let normal = Normal { mean: 1.0, std_dev: 0.2 };
    mc.var(normal).unwrap();
    mc.job(1).unwrap();
    assert_eq!(mc.phase(), Phase::Configured);
    let results = mc
        .run(
            1000,
            42,
            |seed, i, j, d: &Normal| draw(seed, *d, i, j),
            |s: &Vec<f64>| {
                // The template: a body at rest pushed by the sampled thrust for 100 ticks.
                let thrust = s[0];
                let job = JobSpec { init: (0.0f64, 0.0f64), mode: RunMode::FixedTicks(100) };
                run_job(job, |k, (x, v): (f64, f64)| {
                    let v = v + thrust * 0.01;
                    let x = x + v * 0.01;
                    if x.is_finite() && v.is_finite() {
                        Ok((x, v))
                    } else {
                        Err(NumericFault { tick: k })
                    }
                })
            },
        )
        .unwrap();
    assert_eq!(results.len(), 1000);
    assert_eq!(mc.phase(), Phase::Completed);
    for (i, r) in results.iter().enumerate() {
        assert_eq!(r.trial_index, i);
        assert_eq!(r.samples.len(), 1);
        assert_eq!(r.samples[0], draw(42, normal, i, 0));
        assert!(matches!(r.outcome, Outcome::Completed(_)));
    }
}

#[test]
fn same_seed_same_ensemble() {
    let run = |seed: u64| {
        let mut mc = MonteCarlo::new();
        let normal = Normal { mean: 1.0, std_dev: 0.2 };
        mc.var(normal).unwrap();
        mc.job(1).unwrap();
        mc.run(10, seed, |seed, i, j, d: &Normal| draw(seed, *d, i, j), |s: &Vec<f64>| Outcome::Completed(s[0]))
            .unwrap()
            .into_iter()
            .map(|r| r.samples[0])
            .collect::<Vec<f64>>()
    };
    assert_eq!(run(7), run(7));
}

#[test]
fn arity_mismatch_runs_no_trial() {
    let trials = Cell::new(0usize);
    let mut mc = MonteCarlo::new();
    mc.var(Normal { mean: 1.0, std_dev: 0.2 }).unwrap();
    mc.var(Normal { mean: 0.0, std_dev: 1.0 }).unwrap();
    mc.job(1).unwrap();
    let r = mc.run(
        1000,
        7,
        |_seed, _i, _j, _d: &Normal| 0.0f64,
        |_s: &Vec<f64>| {
            trials.set(trials.get() + 1);
            Outcome::Completed(())
        },
    );
    assert_eq!(r.unwrap_err(), ConfigurationError::ArityMismatch { declared: 2, parameters: 1 });
    assert_eq!(trials.get(), 0);
    assert_eq!(mc.phase(), Phase::Failed);
}

#[test]
fn run_without_template_is_refused() {
    let mut mc: MonteCarlo<Normal> = MonteCarlo::new();
    assert_eq!(mc.check(), Err(ConfigurationError::NoTemplate));
    let r = mc.run(3, 7, |_seed, _i, _j, _d: &Normal| 0u8, |_s: &Vec<u8>| Outcome::<()>::NumericFault);
    assert_eq!(r.unwrap_err(), ConfigurationError::NoTemplate);
}

#[test]
fn declarations_after_run_are_refused() {
    let mut mc = MonteCarlo::new();
    mc.job(0).unwrap();
    let r = mc.run(2, 7, |_seed, _i, _j, _d: &u8| 0u8, |_s: &Vec<u8>| Outcome::Completed(1u8)).unwrap();
    assert_eq!(r.len(), 2);
    assert_eq!(mc.var(5u8), Err(ConfigurationError::AlreadyStarted));
    assert_eq!(mc.job(1), Err(ConfigurationError::AlreadyStarted));
    assert_eq!(mc.run(1, 7, |_seed, _i, _j, _d: &u8| 0u8, |_s: &Vec<u8>| Outcome::Completed(1u8)).unwrap_err(),
        ConfigurationError::AlreadyStarted);
    assert_eq!(mc.var_count(), 0);
}

#[test]
fn faulted_trial_does_not_stop_the_ensemble() {
    let mut mc = MonteCarlo::new();
    mc.var(0u8).unwrap();
    mc.job(1).unwrap();
    let r = mc
        .run(4, 7, |_seed, i, _j, _d: &u8| i as u32, |s: &Vec<u32>| {
            if s[0] == 2 {
                Outcome::NumericFault
            } else {
                Outcome::Completed(s[0] * 10)
            }
        })
        .unwrap();
    assert_eq!(r.len(), 4);
    assert!(matches!(r[2].outcome, Outcome::NumericFault));
    assert!(matches!(r[3].outcome, Outcome::Completed(30)));
    assert_eq!(mc.phase(), Phase::Completed);
}

#[test]
fn fixed_ticks_count() {
    assert_eq!(RunMode::FixedTicks(20).tick_count(), 20);
}

#[test]
fn cancelled_run_keeps_completed_trials() {
    let mut mc = MonteCarlo::new();
    mc.var(0u8).unwrap();
    mc.job(1).unwrap();
    let r = mc
        .run_cancellable(10, 7, |_seed, i, _j, _d: &u8| i as u32, |s: &Vec<u32>| Outcome::Completed(s[0]), |i| i >= 3)
        .unwrap();
    assert_eq!(r.len(), 3);
    assert_eq!(r[2].trial_index, 2);
    assert_eq!(r[2].samples, vec![2]);
    assert_eq!(mc.phase(), Phase::Completed);
}

#[test]
fn job_outcome_reports_fault() {
    let job = JobSpec { init: 1.0f64, mode: RunMode::FixedTicks(5) };
    let r = run_job(job, |k, x: f64| {
        let y = x * 1e300;
        if y.is_finite() {
            Ok(y)
        } else {
            Err(NumericFault { tick: k })
        }
    });
    assert!(matches!(r, Outcome::NumericFault));
    let job = JobSpec { init: 3u32, mode: RunMode::FixedTicks(4) };
    assert!(matches!(run_job(job, |_k, x: u32| Ok(x * 2)), Outcome::Completed(48)));
}

#[test]
fn sampler_sees_each_declared_variable() {
    let mut mc = MonteCarlo::new();
    mc.var(Normal { mean: 1.0, std_dev: 0.0 }).unwrap();
    mc.var(Normal { mean: -5.0, std_dev: 0.0 }).unwrap();
    mc.job(2).unwrap();
    let r = mc
        .run(3, 9, |seed, i, j, d: &Normal| draw(seed, *d, i, j), |s: &Vec<f64>| Outcome::Completed(s[0] + s[1]))
        .unwrap();
    for t in &r {
        assert_eq!(t.samples, vec![1.0, -5.0]);
        assert!(matches!(t.outcome, Outcome::Completed(x) if x == -4.0));
    }
}
