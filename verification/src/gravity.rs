use vstd::prelude::*;

verus! {

/// The gravity routine that computes the accelerations between the steps of an integrator.
#[derive(Debug, Clone, Copy, PartialEq, Eq, Structural)]
pub enum Gravity {
    Disabled,
    Basic,
    Compensated,
    Tree,
    Mercurius,
    Jacobi,
    Trace,
}

/// Which pairwise interactions the gravity routine leaves out, because the
/// integrator accounts for them in its Kepler drifts.
#[derive(Debug, Clone, Copy, PartialEq, Eq, Structural)]
pub enum IgnoreGravityTerms {
    IgnoreNone,
    IgnoreWHFastwithJacobi,
    IgnoreWHFastwithDHC,
    IgnoreAll,
}

} // verus!
