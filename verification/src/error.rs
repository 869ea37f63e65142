//! The single error type of the library and the length checks that guard
//! every data-taking entry point.

use vstd::prelude::*;
use vstd::string::StringExecFns;

use crate::text::{decimal, decimal_text};

verus! {

/// Everything that can go wrong in a statscore computation.
///
/// Every variant carries a human-readable message or structured fields.
#[derive(Debug, Clone, PartialEq)]
pub enum StatsError {
    /// A parameter or input value is outside its mathematical domain.
    Domain(String),
    /// Two arrays or matrices have incompatible shapes.
    DimensionMismatch(String),
    /// An iterative algorithm failed to converge within the allowed iterations.
    Convergence { iterations: usize, message: String },
    /// A matrix is numerically singular.
    SingularMatrix(String),
    /// A matrix is not positive definite.
    NotPositiveDefinite(String),
    /// Arithmetic overflow during computation.
    Overflow { context: String, message: String },
    /// Arithmetic underflow during computation.
    Underflow { context: String, message: String },
    /// Not enough data points to perform the computation.
    InsufficientData { required: usize, got: usize },
    /// A numerical computation produced NaN or infinity unexpectedly.
    Numerical { context: String, message: String },
    /// Feature or algorithm is not yet implemented.
    NotImplemented(String),
    /// Error reported by an external library, after conversion.
    External(String),
}

/// `Result` with [`StatsError`] as the error.
pub type StatsResult<T> = Result<T, StatsError>;

/// The text that describes an error to a human.
pub open spec fn error_text(e: StatsError) -> Seq<char> {
    match e {
        StatsError::Domain(m) => "Domain error: "@ + m@,
        StatsError::DimensionMismatch(m) => "Dimension mismatch: "@ + m@,
        StatsError::Convergence { iterations, message } => "Convergence failed after "@
            + decimal_text(iterations as nat) + " iterations: "@ + message@,
        StatsError::SingularMatrix(m) => "Singular matrix: "@ + m@,
        StatsError::NotPositiveDefinite(m) => "Not positive definite: "@ + m@,
        StatsError::Overflow { context, message } => "Arithmetic overflow in "@ + context@
            + ": "@ + message@,
        StatsError::Underflow { context, message } => "Arithmetic underflow in "@ + context@
            + ": "@ + message@,
        StatsError::InsufficientData { required, got } => "Insufficient data: need at least "@
            + decimal_text(required as nat) + ", got "@ + decimal_text(got as nat),
        StatsError::Numerical { context, message } => "Numerical error in "@ + context@ + ": "@
            + message@,
        StatsError::NotImplemented(m) => "Not implemented: "@ + m@,
        StatsError::External(m) => "External library error: "@ + m@,
    }
}

/// The message of a length mismatch between two arrays.
pub open spec fn length_mismatch_text(ctx: Seq<char>, a: nat, b: nat) -> Seq<char> {
    ctx + ": arrays have different lengths ("@ + decimal_text(a) + " vs "@ + decimal_text(b)
        + ")"@
}

/// `prefix` followed by `rest`.
fn joined(prefix: &str, rest: &str) -> (s: String)
    ensures
        s@ == prefix@ + rest@,
{
    let mut s = prefix.to_owned();
    s.append(rest);
    s
}

impl StatsError {
    /// A [`StatsError::Domain`] error with the given message.
    pub fn domain(msg: &str) -> (e: Self)
        ensures
            e matches StatsError::Domain(m) && m@ == msg@,
    {
        StatsError::Domain(msg.to_owned())
    }

    /// A [`StatsError::DimensionMismatch`] error with the given message.
    pub fn dim_mismatch(msg: &str) -> (e: Self)
        ensures
            e matches StatsError::DimensionMismatch(m) && m@ == msg@,
    {
        StatsError::DimensionMismatch(msg.to_owned())
    }

    /// A [`StatsError::Convergence`] error after `iterations` iterations.
    pub fn convergence(iterations: usize, msg: &str) -> (e: Self)
        ensures
            e matches StatsError::Convergence { iterations: i, message: m } && i == iterations
                && m@ == msg@,
    {
        StatsError::Convergence { iterations, message: msg.to_owned() }
    }

    /// A [`StatsError::InsufficientData`] error: `required` points were needed,
    /// `got` were supplied.
    pub fn insufficient_data(required: usize, got: usize) -> (e: Self)
        ensures
            e == (StatsError::InsufficientData { required, got }),
    {
        StatsError::InsufficientData { required, got }
    }

    /// A [`StatsError::Numerical`] error in the given context.
    pub fn numerical(context: &str, msg: &str) -> (e: Self)
        ensures
            e matches StatsError::Numerical { context: c, message: m } && c@ == context@ && m@
                == msg@,
    {
        StatsError::Numerical { context: context.to_owned(), message: msg.to_owned() }
    }

    /// A [`StatsError::NotImplemented`] error.
    pub fn not_implemented(msg: &str) -> (e: Self)
        ensures
            e matches StatsError::NotImplemented(m) && m@ == msg@,
    {
        StatsError::NotImplemented(msg.to_owned())
    }

    /// A [`StatsError::SingularMatrix`] error.
    pub fn singular(msg: &str) -> (e: Self)
        ensures
            e matches StatsError::SingularMatrix(m) && m@ == msg@,
    {
        StatsError::SingularMatrix(msg.to_owned())
    }

    /// A [`StatsError::NotPositiveDefinite`] error.
    pub fn not_positive_definite(msg: &str) -> (e: Self)
        ensures
            e matches StatsError::NotPositiveDefinite(m) && m@ == msg@,
    {
        StatsError::NotPositiveDefinite(msg.to_owned())
    }

    /// The human-readable description of this error.
    pub fn to_message(&self) -> (s: String)
        ensures
            s@ == error_text(*self),
    {
        match self {
            StatsError::Domain(m) => joined("Domain error: ", m.as_str()),
            StatsError::DimensionMismatch(m) => joined("Dimension mismatch: ", m.as_str()),
            StatsError::Convergence { iterations, message } => {
                let mut s = joined("Convergence failed after ", decimal(*iterations).as_str());
                s.append(" iterations: ");
                s.append(message.as_str());
                s
            },
            StatsError::SingularMatrix(m) => joined("Singular matrix: ", m.as_str()),
            StatsError::NotPositiveDefinite(m) => joined("Not positive definite: ", m.as_str()),
            StatsError::Overflow { context, message } => {
                let mut s = joined("Arithmetic overflow in ", context.as_str());
                s.append(": ");
                s.append(message.as_str());
                s
            },
            StatsError::Underflow { context, message } => {
                let mut s = joined("Arithmetic underflow in ", context.as_str());
                s.append(": ");
                s.append(message.as_str());
                s
            },
            StatsError::InsufficientData { required, got } => {
                let mut s = joined(
                    "Insufficient data: need at least ",
                    decimal(*required).as_str(),
                );
                s.append(", got ");
                s.append(decimal(*got).as_str());
                s
            },
            StatsError::Numerical { context, message } => {
                let mut s = joined("Numerical error in ", context.as_str());
                s.append(": ");
                s.append(message.as_str());
                s
            },
            StatsError::NotImplemented(m) => joined("Not implemented: ", m.as_str()),
            StatsError::External(m) => joined("External library error: ", m.as_str()),
        }
    }
}

/// Require that `slice` has at least `n` elements.
///
/// Fails with [`StatsError::InsufficientData`] carrying `n` and the actual
/// length exactly when the slice is shorter than `n`.
pub fn require_min_len<T>(slice: &[T], n: usize) -> (r: StatsResult<()>)
    ensures
        r is Ok <==> slice@.len() >= n,
        r is Err ==> r == Err::<(), StatsError>(
            StatsError::InsufficientData { required: n, got: slice@.len() as usize },
        ),
{
    if slice.len() < n {
        return Err(StatsError::insufficient_data(n, slice.len()));
    }
    Ok(())
}

/// Require that two slices have the same length.
///
/// Fails with [`StatsError::DimensionMismatch`], naming `ctx` and both
/// lengths, exactly when the lengths differ.
pub fn require_same_len<T>(a: &[T], b: &[T], ctx: &str) -> (r: StatsResult<()>)
    ensures
        r is Ok <==> a@.len() == b@.len(),
        r matches Err(e) ==> e matches StatsError::DimensionMismatch(m) && m@
            == length_mismatch_text(ctx@, a@.len(), b@.len()),
{
    if a.len() != b.len() {
        let mut msg = joined(ctx, ": arrays have different lengths (");
        msg.append(decimal(a.len()).as_str());
        msg.append(" vs ");
        msg.append(decimal(b.len()).as_str());
        msg.append(")");
        return Err(StatsError::DimensionMismatch(msg));
    }
    Ok(())
}

} // verus!
