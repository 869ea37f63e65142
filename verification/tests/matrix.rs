use statscore::error::StatsError;
use statscore::matrix::{
    column_vector, from_row_slice, require_rhs_len, square_from_row_slice, vector_from_slice,
    DenseMatrix, SquareMatrix,
};

#[test]
fn from_row_slice_rejects_bad_length() {
    assert!(from_row_slice(2, 2, &[1.0, 2.0, 3.0]).is_err());
}

#[test]
fn square_matrix_rejects_non_square() {
    let m = DenseMatrix::filled(2, 3, 0.0);
    assert!(SquareMatrix::from_inner(m).is_err());
}

#[test]
fn identity_is_diagonal() {
    let i = SquareMatrix::diagonal(4, 0.0_f64, 1.0);
    for r in 0..4 {
        for c in 0..4 {
            let expected = if r == c { 1.0 } else { 0.0 };
            assert!((i.get(r, c) - expected).abs() < 1e-15);
        }
    }
}

#[test]
fn from_row_slice_is_row_major() {
    let m = from_row_slice(2, 3, &[1, 2, 3, 4, 5, 6]).unwrap();
    assert_eq!(m.nrows(), 2);
    assert_eq!(m.ncols(), 3);
    assert_eq!(m.get(0, 0), 1);
    assert_eq!(m.get(0, 2), 3);
    assert_eq!(m.get(1, 0), 4);
    assert_eq!(m.get(1, 2), 6);
    assert_eq!(m.as_row_slice(), vec![1, 2, 3, 4, 5, 6]);
}

#[test]
fn from_row_slice_error_messages() {
    assert_eq!(
        from_row_slice(2, 2, &[1.0, 2.0, 3.0]).unwrap_err(),
        StatsError::DimensionMismatch("expected 4 elements for a 2×2 matrix, got 3".to_string())
    );
    assert_eq!(
        from_row_slice(usize::MAX, 2, &[1.0]).unwrap_err(),
        StatsError::DimensionMismatch("matrix dimensions overflow usize".to_string())
    );
    let empty: [f64; 0] = [];
    let m = from_row_slice(0, 5, &empty).unwrap();
    assert_eq!((m.nrows(), m.ncols()), (0, 5));
    assert!(m.as_row_slice().is_empty());
}

#[test]
fn square_from_row_slice_views() {
    let s = square_from_row_slice(2, &[1.0, 2.0, 3.0, 4.0]).unwrap();
    assert_eq!(s.dim(), 2);
    assert_eq!(s.get(1, 0), 3.0);
    assert_eq!(s.as_row_slice(), vec![1.0, 2.0, 3.0, 4.0]);
    let d = s.as_dense();
    assert_eq!((d.nrows(), d.ncols()), (2, 2));
    assert_eq!(d.as_row_slice(), s.as_row_slice());
    assert_eq!(
        square_from_row_slice(2, &[1.0, 2.0, 3.0]).unwrap_err(),
        StatsError::DimensionMismatch("expected 4 elements for a 2×2 matrix, got 3".to_string())
    );
}

#[test]
fn non_square_message() {
    let m = from_row_slice(2, 3, &[0; 6]).unwrap();
    assert_eq!(
        SquareMatrix::from_inner(m).unwrap_err(),
        StatsError::DimensionMismatch("expected square matrix, got 2×3".to_string())
    );
    let ok = from_row_slice(3, 3, &[0; 9]).unwrap();
    assert_eq!(SquareMatrix::from_inner(ok).unwrap().dim(), 3);
}

#[test]
fn filled_and_diagonal_shapes() {
    let ones = DenseMatrix::filled(3, 2, 1.0);
    assert_eq!(ones.as_row_slice(), vec![1.0; 6]);
    let d = SquareMatrix::diagonal(3, 0, 7);
    assert_eq!(d.as_row_slice(), vec![7, 0, 0, 0, 7, 0, 0, 0, 7]);
    assert_eq!(SquareMatrix::diagonal(0, 0, 1).dim(), 0);
}

#[test]
fn vectors() {
    let v = vector_from_slice(&[3.0, 4.0]);
    assert_eq!(v.len(), 2);
    assert!(!v.is_empty());
    assert_eq!(v.get(1), 4.0);
    assert_eq!(v.as_slice(), vec![3.0, 4.0]);
    let c = column_vector(3, 2.5);
    assert_eq!(c.as_slice(), vec![2.5, 2.5, 2.5]);
    assert!(column_vector(0, 1.0).is_empty());
}

#[test]
fn rhs_length_check() {
    assert!(require_rhs_len(3, 3).is_ok());
    assert_eq!(
        require_rhs_len(3, 2).unwrap_err(),
        StatsError::DimensionMismatch("expected rhs length 3, got 2".to_string())
    );
}
