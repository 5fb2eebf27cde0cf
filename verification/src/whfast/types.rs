use vstd::prelude::*;

verus! {

/// The coordinate system in which the integrator splits the Hamiltonian.
#[derive(Debug, Clone, Copy, PartialEq, Eq, Structural)]
pub enum Coordinates {
    /// Jacobi coordinates (default)
    Jacobi,
    /// Democratic Heliocentric coordinates
    DemocraticHeliocentric,
    /// WHDS coordinates (Hernandez and Dehnen 2017)
    Whds,
    /// Barycentric coordinates
    Barycentric,
}

impl Default for Coordinates {
    /// Jacobi coordinates are the default.
    fn default() -> (c: Self)
        ensures
            c == Coordinates::Jacobi,
    {
        Coordinates::Jacobi
    }
}

/// The kernel of the Wisdom–Holman map.
#[derive(Debug, Clone, Copy, PartialEq, Eq, Structural)]
pub enum Kernel {
    Default,
    ModifiedKick,
    Composition,
    Lazy,
}

/// How drift steps of consecutive time steps are handled.
#[derive(Debug, Clone, Copy, PartialEq, Eq, Structural)]
pub enum SafeMode {
    DriftKickDrift,
    Combine,
}

/// The reasons for which the integrator refuses a configuration.
#[derive(Debug, Clone, Copy, PartialEq, Eq, Structural)]
pub enum WHFastError {
    UnsupportedVariationalOrder,
    TestParticleVariationalNotSupported,
    VariationalJacobiOnly,
    NonStandardKernelJacobiOnly,
    VariationalStandardKernelOnly,
    SymplecticCorrectorJacobiOrBarycentricOnly,
    InvalidSafeModeCombination,
}

/// The human-readable text of each error.
pub open spec fn error_message(e: WHFastError) -> Seq<char> {
    match e {
        WHFastError::UnsupportedVariationalOrder =>
            "WHFast/MEGNO only supports first-order variational equations"@,
        WHFastError::TestParticleVariationalNotSupported =>
            "Test particle variational particles are not supported in WHFast"@,
        WHFastError::VariationalJacobiOnly =>
            "Variational particles require Jacobi coordinates in WHFast"@,
        WHFastError::NonStandardKernelJacobiOnly =>
            "Non-standard kernels require Jacobi coordinates in WHFast"@,
        WHFastError::VariationalStandardKernelOnly =>
            "Variational particles are only supported with the standard kernel in WHFast"@,
        WHFastError::SymplecticCorrectorJacobiOrBarycentricOnly =>
            "Symplectic correctors require Jacobi or Barycentric coordinates in WHFast"@,
        WHFastError::InvalidSafeModeCombination =>
            "Cannot keep unsynchronized particles when using SafeMode::Combine in WHFast"@,
    }
}

impl WHFastError {
    /// The text that describes the error.
    pub fn message(&self) -> (m: &'static str)
        ensures
            m@ == error_message(*self),
    {
        match self {
            WHFastError::UnsupportedVariationalOrder =>
                "WHFast/MEGNO only supports first-order variational equations",
            WHFastError::TestParticleVariationalNotSupported =>
                "Test particle variational particles are not supported in WHFast",
            WHFastError::VariationalJacobiOnly =>
                "Variational particles require Jacobi coordinates in WHFast",
            WHFastError::NonStandardKernelJacobiOnly =>
                "Non-standard kernels require Jacobi coordinates in WHFast",
            WHFastError::VariationalStandardKernelOnly =>
                "Variational particles are only supported with the standard kernel in WHFast",
            WHFastError::SymplecticCorrectorJacobiOrBarycentricOnly =>
                "Symplectic correctors require Jacobi or Barycentric coordinates in WHFast",
            WHFastError::InvalidSafeModeCombination =>
                "Cannot keep unsynchronized particles when using SafeMode::Combine in WHFast",
        }
    }
}

} // verus!
