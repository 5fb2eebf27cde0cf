use vstd::prelude::*;

use crate::gravity::{Gravity, IgnoreGravityTerms};
use crate::particle::TestParticleKind;
use crate::rendezvous::VariationalOrder;

verus! {

/// One set of variational equations attached to the simulation.
#[derive(Debug, Clone, Copy, PartialEq, Eq, Structural)]
pub struct VariationalConfig {
    pub order: VariationalOrder,
    pub is_test_particle: bool,
}

/// What an integrator reads and sets of the simulation when it synchronises.
pub struct SyncContext {
    /// The variational equations, if the simulation integrates any.
    pub var_cfg: Option<Vec<VariationalConfig>>,
    /// The gravity routine of the simulation.
    pub gravity: Gravity,
    /// The interactions that the gravity routine leaves out.
    pub ignore_gravity_terms: IgnoreGravityTerms,
    /// How test particles take part in the gravity computation.
    pub test_particle_kind: TestParticleKind,
    /// The number of real (non-variational) particles.
    pub n_real: usize,
    /// The number of particles in the active list.
    pub active_len: usize,
    /// Whether every real particle is active.
    pub all_active: bool,
}

/// The model of a `SyncContext`: the same values, the variational
/// configurations as a sequence.
pub struct SyncContextView {
    pub var_cfg: Option<Seq<VariationalConfig>>,
    pub gravity: Gravity,
    pub ignore_gravity_terms: IgnoreGravityTerms,
    pub test_particle_kind: TestParticleKind,
    pub n_real: usize,
    pub active_len: usize,
    pub all_active: bool,
}

impl View for SyncContext {
    type V = SyncContextView;

    open spec fn view(&self) -> SyncContextView {
        SyncContextView {
            var_cfg: match self.var_cfg {
                Some(v) => Some(v@),
                None => None,
            },
            gravity: self.gravity,
            ignore_gravity_terms: self.ignore_gravity_terms,
            test_particle_kind: self.test_particle_kind,
            n_real: self.n_real,
            active_len: self.active_len,
            all_active: self.all_active,
        }
    }
}

/// The number of particles that act on the others: every real particle when
/// all are active or test particles are massive, otherwise the active list.
pub open spec fn active_count(c: SyncContextView) -> usize {
    if c.all_active || c.test_particle_kind == TestParticleKind::Massive {
        c.n_real
    } else {
        c.active_len
    }
}

impl SyncContext {
    /// The number of particles that act on the others.
    pub fn n_active(&self) -> (n: usize)
        ensures
            n == active_count(self@),
    {
        if self.all_active || self.test_particle_kind == TestParticleKind::Massive {
            self.n_real
        } else {
            self.active_len
        }
    }
}

} // verus!
