//! Rigid-body spatial algebra with exact integer components, entity stores with ordered
//! effector and sensor registries, a runner for fixed-length simulations, a Monte Carlo
//! driver for ensembles of trials, and a store of serialised assets.
pub mod error;
pub mod vector;
pub mod sym3;
pub mod quaternion;
pub mod spatial;
pub mod monte_carlo;
pub mod assets;
pub mod scalar;
pub mod runtime;

pub use assets::{Asset, AssetId, AssetItem, AssetStore, Handle};
pub use error::ConfigurationError;
pub use monte_carlo::{MonteCarlo, Outcome, Phase, RunMode, TrialResult};
pub use quaternion::Quaternion;
pub use scalar::{Scalar, ScalarExt};
pub use spatial::{SpatialForce, SpatialInertia, SpatialMotion, SpatialTransform};
pub use vector::Vector3;
