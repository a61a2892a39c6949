//! Errors of configuration, reported before anything runs.
use vstd::prelude::*;

verus! {

/// A configuration that cannot be run.
#[derive(Clone, Copy, Debug, PartialEq, Eq, Structural)]
pub enum ConfigurationError {
    /// `run` was called before a job template was registered.
    NoTemplate,
    /// The job template takes a number of parameters other than the number of declared
    /// variables.
    ArityMismatch { declared: usize, parameters: usize },
    /// `var` or `job` was called after the run had started.
    AlreadyStarted,
    /// A mass or a diagonal entry of an inertia is not positive.
    NonPositiveInertia,
}

} // verus!
