//! Estimator interfaces for point estimation and model fitting.

use vstd::prelude::*;

use crate::error::StatsResult;

verus! {

/// An estimator that produces a single value (point estimate) from data.
///
/// `T` is the data type, `E` the estimate type (a value or a struct of
/// parameters).
pub trait PointEstimator<T, E> {
    /// Compute the point estimate from `data`.
    ///
    /// # Errors
    /// [`crate::error::StatsError::InsufficientData`] if data is too small.
    fn estimate(&self, data: &[T]) -> StatsResult<E>;
}

/// A model that can be fit to (input, output) pairs and used for prediction.
///
/// `X` is the input type, `Y` the output type and `M` the fitted model.
pub trait ModelEstimator<X, Y, M> {
    /// Fit the model to `inputs` and `outputs`.
    ///
    /// # Errors
    /// - [`crate::error::StatsError::DimensionMismatch`] if shapes are incompatible.
    /// - [`crate::error::StatsError::SingularMatrix`] if the design matrix is rank-deficient.
    fn fit(&self, inputs: &X, outputs: &Y) -> StatsResult<M>;

    /// Use a fitted model to make predictions on new `inputs`.
    fn predict(&self, model: &M, inputs: &X) -> StatsResult<Y>;
}

} // verus!

verus! {

/// Maximum likelihood estimation from observed data of type `T`.
pub trait MleFit<T>: Sized {
    /// Fit the distribution to `data` via maximum likelihood.
    ///
    /// # Errors
    /// - [`crate::error::StatsError::InsufficientData`] if not enough observations.
    /// - [`crate::error::StatsError::Convergence`] if the optimisation did not converge.
    fn fit_mle(data: &[T]) -> StatsResult<Self>;
}

/// Method of moments estimation from observed data of type `T`.
pub trait MomFit<T>: Sized {
    /// Fit the distribution to `data` via method of moments.
    ///
    /// # Errors
    /// - [`crate::error::StatsError::InsufficientData`] if not enough observations.
    /// - [`crate::error::StatsError::Domain`] if sample moments are out of the parameter space.
    fn fit_mom(data: &[T]) -> StatsResult<Self>;
}

/// A distribution that supports both MLE and MoM fitting.
///
/// Implemented automatically when both [`MleFit`] and [`MomFit`] are implemented.
pub trait FittableDistribution<T>: MleFit<T> + MomFit<T> {}

impl<T, D: MleFit<T> + MomFit<T>> FittableDistribution<T> for D {}

} // verus!
