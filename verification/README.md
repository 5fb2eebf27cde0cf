# planetes

The decision logic of a WHFast (Wisdom–Holman) N-body integrator, verified
with Verus.

- `src/whfast/` — the integrator's state (`WHFast`), the configuration
  checks of `init`, the set-up of the gravity routine, and the plan that
  `synchronize` returns; `laws.rs` proves the properties that hold across
  these functions.
- `src/integrator.rs`, `src/gravity.rs`, `src/particle.rs`,
  `src/rendezvous.rs` — the simulation context an integrator reads and sets.
- `app/` — the floating-point side (particles, SIMD lanes, the Kepler
  solver, the execution of synchronisation plans with rayon) and the error
  type with its `thiserror` impls.
