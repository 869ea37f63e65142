use statscore::error::{require_min_len, require_same_len, StatsError};

#[test]
fn test_require_min_len_passes() {
    assert!(require_min_len(&[1.0, 2.0], 2).is_ok());
}

#[test]
fn test_require_min_len_fails() {
    let err = require_min_len(&[1.0], 2).unwrap_err();
    assert!(matches!(
        err,
        StatsError::InsufficientData { required: 2, got: 1 }
    ));
}

#[test]
fn test_error_display_convergence() {
    let err = StatsError::convergence(100, "Newton step did not shrink");
    assert!(err.to_message().contains("100"));
}

#[test]
fn require_min_len_edges() {
    let empty: [u8; 0] = [];
    assert!(require_min_len(&empty, 0).is_ok());
    assert_eq!(
        require_min_len(&empty, 1),
        Err(StatsError::InsufficientData { required: 1, got: 0 })
    );
    assert!(require_min_len(&[1, 2, 3], 2).is_ok());
}

#[test]
fn require_same_len_reports_both_lengths() {
    assert!(require_same_len(&[1.0, 2.0], &[3.0, 4.0], "pairs").is_ok());
    let err = require_same_len(&[1.0, 2.0, 3.0], &[1.0], "pairs").unwrap_err();
    assert_eq!(
        err,
        StatsError::DimensionMismatch("pairs: arrays have different lengths (3 vs 1)".to_string())
    );
}

#[test]
fn constructors_build_their_variants() {
    assert_eq!(StatsError::domain("x"), StatsError::Domain("x".to_string()));
    assert_eq!(StatsError::dim_mismatch("y"), StatsError::DimensionMismatch("y".to_string()));
    assert_eq!(
        StatsError::convergence(7, "slow"),
        StatsError::Convergence { iterations: 7, message: "slow".to_string() }
    );
    assert_eq!(
        StatsError::insufficient_data(3, 1),
        StatsError::InsufficientData { required: 3, got: 1 }
    );
    assert_eq!(
        StatsError::numerical("svd", "U factor missing"),
        StatsError::Numerical { context: "svd".to_string(), message: "U factor missing".to_string() }
    );
    assert_eq!(StatsError::not_implemented("z"), StatsError::NotImplemented("z".to_string()));
    assert_eq!(StatsError::singular("s"), StatsError::SingularMatrix("s".to_string()));
    assert_eq!(
        StatsError::not_positive_definite("p"),
        StatsError::NotPositiveDefinite("p".to_string())
    );
}

#[test]
fn messages_match_each_variant() {
    assert_eq!(StatsError::domain("bad").to_message(), "Domain error: bad");
    assert_eq!(StatsError::dim_mismatch("2 vs 3").to_message(), "Dimension mismatch: 2 vs 3");
    assert_eq!(
        StatsError::convergence(100, "Newton step did not shrink").to_message(),
        "Convergence failed after 100 iterations: Newton step did not shrink"
    );
    assert_eq!(StatsError::singular("LU").to_message(), "Singular matrix: LU");
    assert_eq!(
        StatsError::not_positive_definite("chol").to_message(),
        "Not positive definite: chol"
    );
    assert_eq!(
        StatsError::Overflow { context: "sum".to_string(), message: "too big".to_string() }
            .to_message(),
        "Arithmetic overflow in sum: too big"
    );
    assert_eq!(
        StatsError::Underflow { context: "exp".to_string(), message: "too small".to_string() }
            .to_message(),
        "Arithmetic underflow in exp: too small"
    );
    assert_eq!(
        StatsError::insufficient_data(1234, 0).to_message(),
        "Insufficient data: need at least 1234, got 0"
    );
    assert_eq!(
        StatsError::numerical("svd", "U factor missing").to_message(),
        "Numerical error in svd: U factor missing"
    );
    assert_eq!(StatsError::not_implemented("mcmc").to_message(), "Not implemented: mcmc");
    assert_eq!(
        StatsError::External("parse".to_string()).to_message(),
        "External library error: parse"
    );
}

#[test]
fn counts_render_in_base_ten() {
    assert_eq!(
        StatsError::insufficient_data(0, 10).to_message(),
        "Insufficient data: need at least 0, got 10"
    );
    assert_eq!(
        StatsError::convergence(usize::MAX, "x").to_message(),
        format!("Convergence failed after {} iterations: x", usize::MAX)
    );
    assert_eq!(
        StatsError::insufficient_data(90, 1009).to_message(),
        "Insufficient data: need at least 90, got 1009"
    );
}
