# statscore

A statistics toolkit (probability distributions, fuzzy numbers, linear
algebra, Python bindings) whose integer and structural logic is proved with
Verus.

## Layout

- `src/` — the verified library:
  - `error` — `StatsError`, its constructors and exact messages, and the
    length checks `require_min_len` / `require_same_len`;
  - `alternative` — `Alternative` and its parsing from user-supplied names;
  - `estimator` — point/model estimator and fitting interfaces;
  - `matrix` — shape-checked, row-major `DenseMatrix`, `SquareMatrix` and
    `Vector` with their constructors and right-hand-side check;
  - `search` — bisection and bracket growth behind discrete quantiles;
  - `text` — decimal rendering used in messages.
- `app/` — floating-point code and bindings built on the library:
  distributions, numerics, fuzzy sets and logic, nalgebra decompositions and
  solvers, PyO3/NumPy wrappers.
- `tests/` — tests of the library.

## Special functions

The distributions in `app/` compute erf, incomplete gamma/beta, log-gamma,
digamma and their inverses with the `statrs` crate. Values may differ from
other implementations of these functions in the last digits, and more near
the edges of their domains.

The time-series forecasting bindings (ETS, ARIMA, Prophet-style models,
Markov chains, baselines, stationarity tests) need a forecasting crate that
is not part of this build and are not included.
