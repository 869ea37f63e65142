//! Verified core of the statscore statistics toolkit: the error type and its
//! validation helpers, hypothesis-test directions, estimator and fitting
//! interfaces, shape-checked matrix containers and the integer search behind
//! discrete quantile functions.

pub mod alternative;
pub mod error;
pub mod estimator;
pub mod matrix;
pub mod search;
pub mod text;
