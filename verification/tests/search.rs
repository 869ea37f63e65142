use statscore::search::{first_reaching, first_reaching_from, grow_bracket};

fn binomial_cdf(n: u64, p: f64, k: i64) -> f64 {
    if k < 0 {
        return 0.0;
    }
    let mut total = 0.0;
    let mut coef = 1.0;
    for j in 0..=(k as u64).min(n) {
        if j > 0 {
            coef = coef * ((n - j + 1) as f64) / (j as f64);
        }
        total += coef * p.powi(j as i32) * (1.0 - p).powi((n - j) as i32);
    }
    total
}

#[test]
fn fair_coin_median_by_bisection() {
    let k = first_reaching(0, 10, &|k: i64| binomial_cdf(10, 0.5, k) >= 0.5);
    assert_eq!(k, 5);
}

#[test]
fn threshold_oracle_finds_first_index() {
    for t in 0..20_i64 {
        assert_eq!(first_reaching(0, 19, &|k: i64| k >= t), t);
    }
    // nothing reaches below the top: the top is returned
    assert_eq!(first_reaching(0, 19, &|_k: i64| false), 19);
    // empty range
    assert_eq!(first_reaching(5, 3, &|_k: i64| true), 5);
    assert_eq!(first_reaching(4, 4, &|_k: i64| false), 4);
}

#[test]
fn bracket_grows_by_half() {
    assert_eq!(grow_bracket(10, &|k: i64| k >= 10), 10);
    assert_eq!(grow_bracket(10, &|k: i64| k >= 11), 15);
    assert_eq!(grow_bracket(10, &|k: i64| k >= 16), 23);
    let top = grow_bracket(10, &|_k: i64| false);
    assert!(top >= i64::MAX / 2);
}

#[test]
fn poisson_style_search() {
    for t in [0_i64, 1, 9, 10, 11, 57, 1000, 123_456] {
        assert_eq!(first_reaching_from(10, &|k: i64| k >= t), t);
    }
    assert!(first_reaching_from(10, &|_k: i64| false) >= i64::MAX / 2);
}

fn poisson_cdf(lambda: f64, k: i64) -> f64 {
    if k < 0 {
        return 0.0;
    }
    let mut term = (-lambda).exp();
    let mut total = term;
    for j in 1..=k {
        term *= lambda / (j as f64);
        total += term;
    }
    total
}

#[test]
fn ppf_cdf_consistency() {
    let cdf = |k: i64| poisson_cdf(4.0, k);
    for &q in &[0.1, 0.5, 0.9] {
        let start = ((4.0_f64 + 10.0 * (4.0_f64 + 1.0).sqrt()).ceil() as i64).max(10);
        let k = first_reaching_from(start, &|j: i64| cdf(j) >= q);
        assert!(cdf(k) >= q);
        if k > 0 {
            assert!(cdf(k - 1) < q);
        }
    }
}

#[test]
fn search_answer_independent_of_start() {
    let cdf = |k: i64| binomial_cdf(30, 0.4, k);
    for &q in &[0.05, 0.5, 0.95] {
        let a = first_reaching_from(1, &|j: i64| cdf(j) >= q);
        let b = first_reaching_from(10, &|j: i64| cdf(j) >= q);
        let c = first_reaching_from(1000, &|j: i64| cdf(j) >= q);
        assert_eq!(a, b);
        assert_eq!(b, c);
        assert_eq!(first_reaching(0, 30, &|j: i64| cdf(j) >= q), a);
    }
}
