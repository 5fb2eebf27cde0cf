use vstd::prelude::*;

verus! {

/// How test particles (those past the active ones) take part in the gravity computation.
#[derive(Debug, Clone, Copy, PartialEq, Eq, Structural)]
pub enum TestParticleKind {
    /// Test particles feel the active particles but do not act on them.
    Massless,
    /// Test particles act on the active particles too.
    Massive,
}

} // verus!
