# krylov_rs

GMRES(m) and BiCGSTAB iterative solvers for linear systems `A x = b`.

- `src/` is the verified library:
  - `system`: the shape check of a system (square operator, right-hand side
    and initial guess of matching size) and its error messages;
  - `gmres_control`: the control flow of restarted GMRES as a state machine
    (restart cycles, iteration budget, convergence and breakdown decisions,
    true-residual rechecks, termination reason), with its invariant and laws:
    the budget is never exceeded, every run terminates, each cycle's solve
    has the size of the Arnoldi basis built in it (at most `m`), the reported
    residual is the true residual of the returned iterate and it alone decides
    convergence;
  - `bicgstab_control`: the same for BiCGSTAB (every run ends with a measured
    true residual, which is reported and decides convergence);
  - `text`: decimal rendering used in the messages.
- `app/` holds the floating-point side over `ndarray`: the `LinearOperator` and
  `Preconditioner` traits and the `gmres` and `bicgstab` functions, which do the
  numeric work that the verified state machines ask for.
- `tests/` exercises the library, including end-to-end runs that drive the
  state machines with `f64` numerics on small dense and matrix-free systems.
