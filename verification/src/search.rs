//! Integer searches behind discrete quantile functions.
//!
//! A discrete quantile `ppf(p)` is the smallest `k` whose cumulative
//! probability reaches `p`. The search over `k` is pure integer logic; the
//! question "does `k` reach the target?" is handed in as an oracle.

use vstd::prelude::*;

verus! {

/// `reaches` can answer `answer` when asked about `k`.
pub open spec fn answers<F: Fn(i64) -> bool>(reaches: F, k: i64, answer: bool) -> bool {
    call_ensures(reaches, (k,), answer)
}

/// `reaches` may be asked about every index in `lo..=hi`.
pub open spec fn askable<F: Fn(i64) -> bool>(reaches: F, lo: int, hi: int) -> bool {
    forall|j: i64| lo <= j <= hi ==> call_requires(reaches, (j,))
}

/// On `lo..=hi` the oracle is monotone: once some index can answer `true`,
/// no later index can answer `false` (in particular each index has a single
/// answer).
pub open spec fn monotone_on<F: Fn(i64) -> bool>(reaches: F, lo: int, hi: int) -> bool {
    forall|i: i64, j: i64|
        #![trigger answers(reaches, i, true), answers(reaches, j, false)]
        lo <= i <= j <= hi && answers(reaches, i, true) ==> !answers(reaches, j, false)
}

/// Bisection for the first index in `lo..=hi` at which `reaches` holds.
///
/// Returns `hi` when no index below `hi` answers `true` (the caller
/// typically knows that `hi` itself reaches the target). When `hi < lo`
/// the range is empty and `lo` is returned without asking the oracle.
pub fn first_reaching<F: Fn(i64) -> bool>(lo: i64, hi: i64, reaches: &F) -> (k: i64)
    requires
        0 <= lo,
        askable(reaches, lo as int, hi as int),
    ensures
        hi < lo ==> k == lo,
        lo <= hi ==> lo <= k <= hi,
        lo <= k < hi ==> answers(reaches, k, true),
        lo < k <= hi ==> answers(reaches, (k - 1) as i64, false),
        monotone_on(reaches, lo as int, hi as int) ==> forall|j: i64|
            lo <= j < k ==> !#[trigger] answers(reaches, j, true),
{
    let mut a = lo;
    let mut b = hi;
    while a < b
        invariant
            0 <= lo <= a,
            a <= b ==> b <= hi,
            hi < lo ==> a == lo,
            lo <= hi ==> a <= b,
            askable(reaches, lo as int, hi as int),
            b < hi ==> answers(reaches, b, true),
            a > lo ==> answers(reaches, (a - 1) as i64, false),
        decreases b - a,
    {
        let mid = a + (b - a) / 2;
        if reaches(mid) {
            b = mid;
        } else {
            a = mid + 1;
        }
    }
    proof {
        if monotone_on(reaches, lo as int, hi as int) && a > lo {
            assert forall|j: i64| lo <= j < a implies !#[trigger] answers(reaches, j, true) by {
                if answers(reaches, j, true) {
                    assert(answers(reaches, (a - 1) as i64, false));
                }
            }
        }
    }
    a
}

/// The bracket after `n` growth steps from `start`; each step grows the
/// bracket by half of itself, rounded up.
pub open spec fn grown(start: int, n: nat) -> int
    decreases n,
{
    if n == 0 {
        start
    } else {
        let h = grown(start, (n - 1) as nat);
        h + (h + 1) / 2
    }
}

/// `hi` is the bracket after `n` growth steps from `start`, and every earlier
/// bracket lay below `i64::MAX / 2` and was answered `false`.
pub open spec fn grown_past_misses<F: Fn(i64) -> bool>(
    reaches: F,
    start: int,
    n: nat,
    hi: int,
) -> bool {
    &&& hi == grown(start, n)
    &&& forall|m: nat|
        m < n ==> grown(start, m) < i64::MAX / 2 && answers(
            reaches,
            #[trigger] grown(start, m) as i64,
            false,
        )
}

/// The upper bracket reached from `start`: it grows by half (rounded up)
/// while the oracle stays below the target and the bracket is below
/// `i64::MAX / 2`.
pub fn grow_bracket<F: Fn(i64) -> bool>(start: i64, reaches: &F) -> (hi: i64)
    requires
        1 <= start,
        askable(*reaches, start as int, i64::MAX as int),
    ensures
        start <= hi,
        answers(*reaches, hi, true) || hi >= i64::MAX / 2,
        exists|n: nat| grown_past_misses(*reaches, start as int, n, hi as int),
{
    let mut hi = start;
    let ghost mut n: nat = 0;
    loop
        invariant
            1 <= start <= hi,
            askable(*reaches, start as int, i64::MAX as int),
            grown_past_misses(*reaches, start as int, n, hi as int),
        decreases i64::MAX - hi,
    {
        if hi >= i64::MAX / 2 {
            return hi;
        }
        if reaches(hi) {
            return hi;
        }
        proof {
            assert forall|m: nat| m < n + 1 implies grown(start as int, m) < i64::MAX / 2
                && answers(*reaches, #[trigger] grown(start as int, m) as i64, false) by {
                if m == n {
                    assert(grown(start as int, m) == hi);
                }
            }
            n = n + 1;
        }
        hi = hi + (hi + 1) / 2;
    }
}

/// First index in `0..` at which `reaches` holds, found by growing an upper
/// bracket from `start` and bisecting below it.
pub fn first_reaching_from<F: Fn(i64) -> bool>(start: i64, reaches: &F) -> (k: i64)
    requires
        1 <= start,
        askable(reaches, 0, i64::MAX as int),
    ensures
        0 <= k,
        answers(*reaches, k, true) || (k >= i64::MAX / 2 && exists|n: nat|
            grown_past_misses(*reaches, start as int, n, k as int)),
        0 < k ==> answers(reaches, (k - 1) as i64, false),
        monotone_on(reaches, 0, i64::MAX as int) ==> forall|j: i64|
            0 <= j < k ==> !#[trigger] answers(reaches, j, true),
{
    let hi = grow_bracket(start, reaches);
    proof {
        if monotone_on(*reaches, 0, i64::MAX as int) {
            assert(monotone_on(*reaches, 0, hi as int));
        }
    }
    first_reaching(0, hi, reaches)
}

} // verus!

verus! {

/// For a monotone oracle the first reaching index is unique: any two indices
/// that reach the target with nothing reaching below them coincide. So the
/// bracket a search starts from never changes its answer.
pub proof fn law_first_reaching_is_unique<F: Fn(i64) -> bool>(reaches: F, k1: i64, k2: i64)
    requires
        0 <= k1,
        0 <= k2,
        monotone_on(reaches, 0, i64::MAX as int),
        answers(reaches, k1, true),
        answers(reaches, k2, true),
        forall|j: i64| 0 <= j < k1 ==> !#[trigger] answers(reaches, j, true),
        forall|j: i64| 0 <= j < k2 ==> !#[trigger] answers(reaches, j, true),
    ensures
        k1 == k2,
{
}

} // verus!
