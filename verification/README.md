# ortools_scip

Bindings for the SCIP mixed-integer solver of Google OR-Tools.

- `src/` is the verified library: solve statuses and their backend codes
  (`status.rs`), the solver parameters and their codes (`params.rs`), and the
  conversions at the C boundary (`cabi.rs`): truth values, counts, the
  thread-count result, NUL-terminated strings in both directions.
- `app/` holds the handles (`Solver`, `Variable`, `Constraint`, `Objective`,
  `SolverParams`) that call the OR-Tools C shim and use the library for every
  decision around those calls. It links against the shim and OR-Tools, which
  are built outside this crate.
