//! Shape-checked dense matrices and vectors.
//!
//! Entries are held in row-major order. Every matrix keeps the invariant
//! that it holds exactly `rows × cols` entries; every square matrix has as
//! many rows as columns.

use vstd::prelude::*;
use vstd::arithmetic::div_mod::{lemma_fundamental_div_mod, lemma_mod_bound};
use vstd::slice::slice_to_vec;
use vstd::string::StringExecFns;

use crate::error::{StatsError, StatsResult};
use crate::text::{decimal, decimal_text};

verus! {

/// Row-major position of entry `(r, c)` in a matrix with `cols` columns.
pub open spec fn row_major_index(r: int, c: int, cols: int) -> int {
    r * cols + c
}

/// An in-range entry has an in-range row-major position.
pub proof fn lemma_row_major_in_bounds(r: int, c: int, rows: int, cols: int)
    requires
        0 <= r < rows,
        0 <= c < cols,
    ensures
        0 <= row_major_index(r, c, cols) < rows * cols,
{
    assert(0 <= r * cols + c < rows * cols) by (nonlinear_arith)
        requires
            0 <= r < rows,
            0 <= c < cols,
    ;
}

/// Entries of earlier rows come before every entry of row `r`.
proof fn lemma_row_major_earlier(rr: int, cc: int, r: int, cols: int)
    requires
        0 <= rr < r,
        0 <= cc < cols,
    ensures
        row_major_index(rr, cc, cols) < r * cols,
{
    assert(rr * cols + cc < r * cols) by (nonlinear_arith)
        requires
            0 <= rr < r,
            0 <= cc < cols,
    ;
}

/// Position `i` of a row-major layout with `cols` columns and `rows` rows
/// holds entry `(i / cols, i % cols)`, an in-range entry.
proof fn lemma_flat_position(i: int, rows: int, cols: int)
    requires
        0 <= rows,
        0 <= cols,
        0 <= i < rows * cols,
    ensures
        0 <= i / cols < rows,
        0 <= i % cols < cols,
        row_major_index(i / cols, i % cols, cols) == i,
{
    assert(cols > 0) by (nonlinear_arith)
        requires
            0 <= rows,
            0 <= cols,
            0 <= i < rows * cols,
    ;
    lemma_fundamental_div_mod(i, cols);
    lemma_mod_bound(i, cols);
    let q = i / cols;
    let rem = i % cols;
    assert(0 <= q < rows) by (nonlinear_arith)
        requires
            cols > 0,
            i == cols * q + rem,
            0 <= rem < cols,
            0 <= i < rows * cols,
    ;
    assert(q * cols + rem == i) by (nonlinear_arith)
        requires
            i == cols * q + rem,
    ;
}

/// The message of a row-major slice whose length does not fit the shape.
pub open spec fn element_count_text(expected: nat, rows: nat, cols: nat, got: nat) -> Seq<char> {
    "expected "@ + decimal_text(expected) + " elements for a "@ + decimal_text(rows) + "×"@
        + decimal_text(cols) + " matrix, got "@ + decimal_text(got)
}

/// The message of a right-hand side of the wrong length.
pub open spec fn rhs_len_text(expected: nat, got: nat) -> Seq<char> {
    "expected rhs length "@ + decimal_text(expected) + ", got "@ + decimal_text(got)
}

/// The message of a matrix that is not square.
pub open spec fn not_square_text(rows: nat, cols: nat) -> Seq<char> {
    "expected square matrix, got "@ + decimal_text(rows) + "×"@ + decimal_text(cols)
}

/// A dense `m × n` matrix.
#[derive(Debug, PartialEq)]
pub struct DenseMatrix<T> {
    rows: usize,
    cols: usize,
    data: Vec<T>,
}

impl<T> DenseMatrix<T> {
    #[verifier::type_invariant]
    spec fn holds_rows_times_cols(self) -> bool {
        self.data@.len() == self.rows * self.cols
    }

    /// Number of rows.
    pub closed spec fn row_count(self) -> nat {
        self.rows as nat
    }

    /// Number of columns.
    pub closed spec fn col_count(self) -> nat {
        self.cols as nat
    }

    /// All entries, row after row.
    pub closed spec fn entries(self) -> Seq<T> {
        self.data@
    }

    /// Entry `(r, c)`.
    pub open spec fn entry(self, r: int, c: int) -> T {
        self.entries()[row_major_index(r, c, self.col_count() as int)]
    }

    /// Number of rows.
    pub fn nrows(&self) -> (n: usize)
        ensures
            n == self.row_count(),
            self.entries().len() == self.row_count() * self.col_count(),
    {
        proof {
            use_type_invariant(self);
        }
        self.rows
    }

    /// Number of columns.
    pub fn ncols(&self) -> (n: usize)
        ensures
            n == self.col_count(),
            self.entries().len() == self.row_count() * self.col_count(),
    {
        proof {
            use_type_invariant(self);
        }
        self.cols
    }

    /// Element at `(row, col)`.
    pub fn get(&self, row: usize, col: usize) -> (v: T) where T: Copy
        requires
            row < self.row_count(),
            col < self.col_count(),
        ensures
            v == self.entries()[row * self.col_count() + col],
            v == self.entry(row as int, col as int),
    {
        proof {
            use_type_invariant(self);
            lemma_row_major_in_bounds(row as int, col as int, self.rows as int, self.cols as int);
        }
        let len = self.data.len();
        assert(row * self.cols <= row * self.cols + col < len);
        self.data[row * self.cols + col]
    }

    /// Flatten in row-major order.
    pub fn as_row_slice(&self) -> (out: Vec<T>) where T: Copy
        ensures
            out@ == self.entries(),
            out@.len() == self.row_count() * self.col_count(),
    {
        proof {
            use_type_invariant(self);
        }
        slice_to_vec(self.data.as_slice())
    }

    /// A `rows × cols` matrix whose every entry is `value`.
    pub fn filled(rows: usize, cols: usize, value: T) -> (m: Self) where T: Copy
        requires
            rows * cols <= usize::MAX,
        ensures
            m.row_count() == rows,
            m.col_count() == cols,
            m.entries() == Seq::new((rows * cols) as nat, |i: int| value),
    {
        let total = rows * cols;
        let mut data: Vec<T> = Vec::new();
        while data.len() < total
            invariant
                data@.len() <= total,
                forall|i: int| 0 <= i < data@.len() ==> data@[i] == value,
            decreases total - data@.len(),
        {
            data.push(value);
        }
        assert(data@ =~= Seq::new((rows * cols) as nat, |i: int| value));
        DenseMatrix { rows, cols, data }
    }

    /// A copy of this matrix.
    pub fn copied(&self) -> (m: Self) where T: Copy
        ensures
            m.row_count() == self.row_count(),
            m.col_count() == self.col_count(),
            m.entries() == self.entries(),
    {
        proof {
            use_type_invariant(self);
        }
        DenseMatrix { rows: self.rows, cols: self.cols, data: slice_to_vec(self.data.as_slice()) }
    }
}

impl<T: Copy> Clone for DenseMatrix<T> {
    fn clone(&self) -> (m: Self)
        ensures
            m.row_count() == self.row_count(),
            m.col_count() == self.col_count(),
            m.entries() == self.entries(),
    {
        self.copied()
    }
}

/// Build an `m × n` matrix from a row-major slice.
///
/// # Errors
/// [`StatsError::DimensionMismatch`] if `rows × cols` overflows `usize` or
/// `data.len() != rows × cols`.
pub fn from_row_slice<T: Copy>(rows: usize, cols: usize, data: &[T]) -> (r: StatsResult<
    DenseMatrix<T>,
>)
    ensures
        rows * cols > usize::MAX ==> (r matches Err(StatsError::DimensionMismatch(m)) && m@
            == "matrix dimensions overflow usize"@),
        rows * cols <= usize::MAX && data@.len() != rows * cols ==> (r matches Err(
            StatsError::DimensionMismatch(m),
        ) && m@ == element_count_text((rows * cols) as nat, rows as nat, cols as nat, data@.len())),
        data@.len() == rows * cols ==> (r matches Ok(m) && m.row_count() == rows && m.col_count()
            == cols && m.entries() == data@ && forall|i: int, j: int|
            0 <= i < rows && 0 <= j < cols ==> #[trigger] m.entry(i, j) == data@[i * cols + j]),
{
    let len = data.len();
    let expected = match rows.checked_mul(cols) {
        Some(e) => e,
        None => {
            return Err(StatsError::dim_mismatch("matrix dimensions overflow usize"));
        },
    };
    if len != expected {
        let mut msg = "expected ".to_owned();
        msg.append(decimal(expected).as_str());
        msg.append(" elements for a ");
        msg.append(decimal(rows).as_str());
        msg.append("×");
        msg.append(decimal(cols).as_str());
        msg.append(" matrix, got ");
        msg.append(decimal(len).as_str());
        return Err(StatsError::DimensionMismatch(msg));
    }
    Ok(DenseMatrix { rows, cols, data: slice_to_vec(data) })
}

/// A square `n × n` matrix.
#[derive(Debug, PartialEq)]
pub struct SquareMatrix<T> {
    inner: DenseMatrix<T>,
}

impl<T> SquareMatrix<T> {
    #[verifier::type_invariant]
    spec fn is_square(self) -> bool {
        self.inner.rows == self.inner.cols
    }

    /// Matrix dimension `n`.
    pub closed spec fn size(self) -> nat {
        self.inner.row_count()
    }

    /// All entries, row after row.
    pub closed spec fn entries(self) -> Seq<T> {
        self.inner.entries()
    }

    /// Entry `(r, c)`.
    pub open spec fn entry(self, r: int, c: int) -> T {
        self.entries()[row_major_index(r, c, self.size() as int)]
    }

    /// View a general matrix as a square one.
    ///
    /// # Errors
    /// [`StatsError::DimensionMismatch`] if the row and column counts differ.
    pub fn from_inner(inner: DenseMatrix<T>) -> (r: StatsResult<Self>)
        ensures
            inner.row_count() != inner.col_count() ==> (r matches Err(
                StatsError::DimensionMismatch(m),
            ) && m@ == not_square_text(inner.row_count(), inner.col_count())),
            inner.row_count() == inner.col_count() ==> (r matches Ok(s) && s.size()
                == inner.row_count() && s.entries() == inner.entries() && forall|i: int, j: int|
                0 <= i < s.size() && 0 <= j < s.size() ==> #[trigger] s.entry(i, j) == inner.entry(
                i,
                j,
            )),
    {
        if inner.nrows() != inner.ncols() {
            let mut msg = "expected square matrix, got ".to_owned();
            msg.append(decimal(inner.nrows()).as_str());
            msg.append("×");
            msg.append(decimal(inner.ncols()).as_str());
            return Err(StatsError::DimensionMismatch(msg));
        }
        Ok(SquareMatrix { inner })
    }

    /// The `n × n` matrix with `on` along the diagonal and `off` elsewhere.
    pub fn diagonal(n: usize, off: T, on: T) -> (m: Self) where T: Copy
        requires
            n * n <= usize::MAX,
        ensures
            m.size() == n,
            m.entries().len() == n * n,
            forall|r: int, c: int|
                0 <= r < n && 0 <= c < n ==> #[trigger] m.entry(r, c) == (if r == c {
                    on
                } else {
                    off
                }),
            forall|i: int|
                0 <= i < n * n ==> #[trigger] m.entries()[i] == (if i / (n as int) == i % (
                n as int) {
                    on
                } else {
                    off
                }),
    {
        let mut data: Vec<T> = Vec::new();
        let mut r: usize = 0;
        while r < n
            invariant
                r <= n,
                n * n <= usize::MAX,
                data@.len() == r * n,
                forall|rr: int, cc: int|
                    0 <= rr < r && 0 <= cc < n ==> data@[row_major_index(rr, cc, n as int)] == (
                    if rr == cc {
                        on
                    } else {
                        off
                    }),
            decreases n - r,
        {
            let ghost row_start = data@.len();
            let mut c: usize = 0;
            while c < n
                invariant
                    r < n,
                    c <= n,
                    n * n <= usize::MAX,
                    row_start == r * n,
                    data@.len() == row_start + c,
                    forall|rr: int, cc: int|
                        0 <= rr < r && 0 <= cc < n ==> data@[row_major_index(rr, cc, n as int)]
                            == (if rr == cc {
                            on
                        } else {
                            off
                        }),
                    forall|cc: int|
                        0 <= cc < c ==> data@[row_major_index(r as int, cc, n as int)] == (if r
                            == cc {
                            on
                        } else {
                            off
                        }),
                decreases n - c,
            {
                proof {
                    assert((r + 1) * n <= n * n) by (nonlinear_arith)
                        requires
                            r < n,
                    ;
                    assert((r + 1) * n == r * n + n) by (nonlinear_arith);
                }
                let ghost before = data@;
                if r == c {
                    data.push(on);
                } else {
                    data.push(off);
                }
                proof {
                    assert forall|rr: int, cc: int| 0 <= rr < r && 0 <= cc < n implies data@[
                        row_major_index(rr, cc, n as int)] == (if rr == cc {
                        on
                    } else {
                        off
                    }) by {
                        lemma_row_major_earlier(rr, cc, r as int, n as int);
                        assert(data@[row_major_index(rr, cc, n as int)] == before[row_major_index(
                            rr,
                            cc,
                            n as int,
                        )]);
                    }
                }
                c = c + 1;
            }
            proof {
                assert((r + 1) * n == r * n + n) by (nonlinear_arith);
            }
            r = r + 1;
        }
        proof {
            assert forall|i: int| 0 <= i < n * n implies #[trigger] data@[i] == (if i / (n as int)
                == i % (n as int) {
                on
            } else {
                off
            }) by {
                lemma_flat_position(i, n as int, n as int);
                assert(data@[row_major_index(i / (n as int), i % (n as int), n as int)] == (if i / (
                n as int) == i % (n as int) {
                    on
                } else {
                    off
                }));
            }
        }
        let dense = DenseMatrix { rows: n, cols: n, data };
        SquareMatrix { inner: dense }
    }

    /// Matrix dimension `n` (rows = columns).
    pub fn dim(&self) -> (n: usize)
        ensures
            n == self.size(),
    {
        self.inner.nrows()
    }

    /// Element at `(row, col)`.
    pub fn get(&self, row: usize, col: usize) -> (v: T) where T: Copy
        requires
            row < self.size(),
            col < self.size(),
        ensures
            v == self.entries()[row * self.size() + col],
            v == self.entry(row as int, col as int),
    {
        proof {
            use_type_invariant(self);
        }
        self.inner.get(row, col)
    }

    /// View as a general dense matrix.
    pub fn as_dense(&self) -> (m: DenseMatrix<T>) where T: Copy
        ensures
            m.row_count() == self.size(),
            m.col_count() == self.size(),
            m.entries() == self.entries(),
            forall|r: int, c: int|
                0 <= r < self.size() && 0 <= c < self.size() ==> #[trigger] m.entry(r, c)
                    == self.entry(r, c),
    {
        proof {
            use_type_invariant(self);
        }
        self.inner.copied()
    }

    /// Flatten in row-major order.
    pub fn as_row_slice(&self) -> (out: Vec<T>) where T: Copy
        ensures
            out@ == self.entries(),
    {
        self.inner.as_row_slice()
    }
}

impl<T: Copy> Clone for SquareMatrix<T> {
    fn clone(&self) -> (m: Self)
        ensures
            m.size() == self.size(),
            m.entries() == self.entries(),
    {
        proof {
            use_type_invariant(self);
        }
        SquareMatrix { inner: self.inner.copied() }
    }
}

/// Build an `n × n` square matrix from a row-major slice.
///
/// # Errors
/// [`StatsError::DimensionMismatch`] if `n²` overflows `usize` or
/// `data.len() != n²`.
pub fn square_from_row_slice<T: Copy>(n: usize, data: &[T]) -> (r: StatsResult<SquareMatrix<T>>)
    ensures
        n * n > usize::MAX ==> (r matches Err(StatsError::DimensionMismatch(m)) && m@
            == "matrix dimensions overflow usize"@),
        n * n <= usize::MAX && data@.len() != n * n ==> (r matches Err(
            StatsError::DimensionMismatch(m),
        ) && m@ == element_count_text((n * n) as nat, n as nat, n as nat, data@.len())),
        data@.len() == n * n ==> (r matches Ok(s) && s.size() == n && s.entries() == data@
            && forall|i: int, j: int|
            0 <= i < n && 0 <= j < n ==> #[trigger] s.entry(i, j) == data@[i * n + j]),
{
    match from_row_slice(n, n, data) {
        Ok(m) => SquareMatrix::from_inner(m),
        Err(e) => Err(e),
    }
}

/// A column vector.
#[derive(Debug, PartialEq)]
pub struct Vector<T> {
    data: Vec<T>,
}

impl<T> Vector<T> {
    /// The entries of the vector.
    pub closed spec fn entries(self) -> Seq<T> {
        self.data@
    }

    /// Vector length.
    pub fn len(&self) -> (n: usize)
        ensures
            n == self.entries().len(),
    {
        self.data.len()
    }

    /// Whether the vector has no entries.
    pub fn is_empty(&self) -> (b: bool)
        ensures
            b == (self.entries().len() == 0),
    {
        self.data.len() == 0
    }

    /// Element at `index`.
    pub fn get(&self, index: usize) -> (v: T) where T: Copy
        requires
            index < self.entries().len(),
        ensures
            v == self.entries()[index as int],
    {
        self.data[index]
    }

    /// Copy the entries into a `Vec`.
    pub fn as_slice(&self) -> (out: Vec<T>) where T: Copy
        ensures
            out@ == self.entries(),
    {
        slice_to_vec(self.data.as_slice())
    }
}

impl<T: Copy> Clone for Vector<T> {
    fn clone(&self) -> (v: Self)
        ensures
            v.entries() == self.entries(),
    {
        Vector { data: self.as_slice() }
    }
}

/// Build a column vector from a slice.
pub fn vector_from_slice<T: Copy>(data: &[T]) -> (v: Vector<T>)
    ensures
        v.entries() == data@,
{
    Vector { data: slice_to_vec(data) }
}

/// A column vector of length `len` filled with `value`.
pub fn column_vector<T: Copy>(len: usize, value: T) -> (v: Vector<T>)
    ensures
        v.entries() == Seq::new(len as nat, |i: int| value),
{
    let mut data: Vec<T> = Vec::new();
    while data.len() < len
        invariant
            data@.len() <= len,
            forall|i: int| 0 <= i < data@.len() ==> data@[i] == value,
        decreases len - data@.len(),
    {
        data.push(value);
    }
    assert(data@ =~= Seq::new(len as nat, |i: int| value));
    Vector { data }
}

/// Require that a right-hand side has the length the system expects.
///
/// # Errors
/// [`StatsError::DimensionMismatch`] naming both lengths when they differ.
pub fn require_rhs_len(expected: usize, got: usize) -> (r: StatsResult<()>)
    ensures
        r is Ok <==> expected == got,
        r matches Err(e) ==> e matches StatsError::DimensionMismatch(m) && m@ == rhs_len_text(
            expected as nat,
            got as nat,
        ),
{
    if got != expected {
        let mut msg = "expected rhs length ".to_owned();
        msg.append(decimal(expected).as_str());
        msg.append(", got ");
        msg.append(decimal(got).as_str());
        return Err(StatsError::DimensionMismatch(msg));
    }
    Ok(())
}

} // verus!

verus! {

/// Entry `(r, c)` of `m` lies inside `data` and is the element of `data`
/// at `r·cols + c`.
pub open spec fn entry_is_slice_element<T>(m: DenseMatrix<T>, data: Seq<T>, r: int, c: int) -> bool {
    let i = r * m.col_count() + c;
    0 <= i < data.len() && m.entry(r, c) == data[i]
}

/// Reading a matrix built from a row-major slice: entry `(r, c)` is the
/// slice's element at position `r·cols + c`, a position inside the slice,
/// so every element of the slice is reachable and flattening gives the
/// slice back.
pub proof fn law_row_slice_round_trip<T>(data: Seq<T>, m: DenseMatrix<T>)
    requires
        data.len() == m.row_count() * m.col_count(),
        m.entries() == data,
    ensures
        forall|r: int, c: int|
            0 <= r < m.row_count() && 0 <= c < m.col_count() ==> #[trigger] entry_is_slice_element(
                m,
                data,
                r,
                c,
            ),
{
    assert forall|r: int, c: int| 0 <= r < m.row_count() && 0 <= c < m.col_count() implies #[trigger] entry_is_slice_element(m, data, r, c) by {
        lemma_row_major_in_bounds(r, c, m.row_count() as int, m.col_count() as int);
    }
}

/// Entry `(r, c)` of a dense matrix is its entry number `r·cols + c`
/// counted row after row; conversely entry number `i` is entry
/// `(i / cols, i % cols)`.
pub proof fn law_dense_entry_is_row_major<T>(m: DenseMatrix<T>)
    requires
        m.entries().len() == m.row_count() * m.col_count(),
    ensures
        forall|r: int, c: int|
            0 <= r < m.row_count() && 0 <= c < m.col_count() ==> #[trigger] m.entry(r, c)
                == m.entries()[r * m.col_count() + c],
        forall|r: int, c: int|
            0 <= r < m.row_count() && 0 <= c < m.col_count() ==> 0 <= #[trigger] (r * m.col_count()
                + c) < m.entries().len(),
        forall|i: int|
            0 <= i < m.entries().len() ==> #[trigger] m.entries()[i] == m.entry(
                i / (m.col_count() as int),
                i % (m.col_count() as int),
            ),
{
    assert forall|r: int, c: int| 0 <= r < m.row_count() && 0 <= c < m.col_count() implies 0
        <= #[trigger] (r * m.col_count() + c) < m.entries().len() by {
        lemma_row_major_in_bounds(r, c, m.row_count() as int, m.col_count() as int);
    }
    assert forall|i: int| 0 <= i < m.entries().len() implies #[trigger] m.entries()[i] == m.entry(
        i / (m.col_count() as int),
        i % (m.col_count() as int),
    ) by {
        lemma_flat_position(i, m.row_count() as int, m.col_count() as int);
    }
}

/// Entry `(r, c)` of an `n × n` matrix is its entry number `r·n + c`
/// counted row after row; conversely entry number `i` is entry
/// `(i / n, i % n)`.
pub proof fn law_square_entry_is_row_major<T>(s: SquareMatrix<T>)
    requires
        s.entries().len() == s.size() * s.size(),
    ensures
        forall|r: int, c: int|
            0 <= r < s.size() && 0 <= c < s.size() ==> #[trigger] s.entry(r, c) == s.entries()[r
                * s.size() + c],
        forall|r: int, c: int|
            0 <= r < s.size() && 0 <= c < s.size() ==> 0 <= #[trigger] (r * s.size() + c)
                < s.entries().len(),
        forall|i: int|
            0 <= i < s.entries().len() ==> #[trigger] s.entries()[i] == s.entry(
                i / (s.size() as int),
                i % (s.size() as int),
            ),
{
    assert forall|r: int, c: int| 0 <= r < s.size() && 0 <= c < s.size() implies 0
        <= #[trigger] (r * s.size() + c) < s.entries().len() by {
        lemma_row_major_in_bounds(r, c, s.size() as int, s.size() as int);
    }
    assert forall|i: int| 0 <= i < s.entries().len() implies #[trigger] s.entries()[i] == s.entry(
        i / (s.size() as int),
        i % (s.size() as int),
    ) by {
        lemma_flat_position(i, s.size() as int, s.size() as int);
    }
}

/// A square matrix and a dense matrix of the same size holding the same
/// entries in the same order agree entry by entry: viewing a dense matrix
/// as square, or a square one as dense, reads every `(r, c)` alike.
pub proof fn law_square_reads_as_dense<T>(s: SquareMatrix<T>, d: DenseMatrix<T>)
    requires
        d.row_count() == s.size(),
        d.col_count() == s.size(),
        d.entries() == s.entries(),
    ensures
        forall|r: int, c: int|
            0 <= r < s.size() && 0 <= c < s.size() ==> #[trigger] s.entry(r, c) == d.entry(r, c),
{
}

} // verus!
