pub mod corrector;
pub mod laws;
pub mod types;

use vstd::prelude::*;

use crate::gravity::{Gravity, IgnoreGravityTerms};
use crate::integrator::{active_count, SyncContext, SyncContextView, VariationalConfig};
use crate::rendezvous::VariationalOrder;

pub use corrector::Corrector;
pub use types::{Coordinates, Kernel, SafeMode, WHFastError};

verus! {

/// The state of a WHFast integrator that its decisions depend on.
pub struct WHFast {
    recalculate_coordinates_this_time_step: bool,
    coordinates: Coordinates,
    kernel: Kernel,
    corrector: Corrector,
    use_secondary_corrector: bool,
    keep_unsynchoronized: bool,
    is_synchronized: bool,
    safe_mode: SafeMode,
    time_step_warning: usize,
}

/// The model of a `WHFast`: its fields as plain values.
pub struct WHFastState {
    pub recalculate_coordinates_this_time_step: bool,
    pub coordinates: Coordinates,
    pub kernel: Kernel,
    pub corrector: Corrector,
    pub use_secondary_corrector: bool,
    pub keep_unsynchronized: bool,
    pub is_synchronized: bool,
    pub safe_mode: SafeMode,
    pub time_step_warning: usize,
}

impl View for WHFast {
    type V = WHFastState;

    closed spec fn view(&self) -> WHFastState {
        WHFastState {
            recalculate_coordinates_this_time_step: self.recalculate_coordinates_this_time_step,
            coordinates: self.coordinates,
            kernel: self.kernel,
            corrector: self.corrector,
            use_secondary_corrector: self.use_secondary_corrector,
            keep_unsynchronized: self.keep_unsynchoronized,
            is_synchronized: self.is_synchronized,
            safe_mode: self.safe_mode,
            time_step_warning: self.time_step_warning,
        }
    }
}

/// The first error among a list of variational configurations: the first
/// entry that is not of first order, or that belongs to a test particle,
/// decides; a wrong order is reported before a test particle.
pub open spec fn variational_error(cfg: Seq<VariationalConfig>) -> Option<WHFastError>
    decreases cfg.len(),
{
    if cfg.len() == 0 {
        None
    } else if cfg[0].order != VariationalOrder::First {
        Some(WHFastError::UnsupportedVariationalOrder)
    } else if cfg[0].is_test_particle {
        Some(WHFastError::TestParticleVariationalNotSupported)
    } else {
        variational_error(cfg.drop_first())
    }
}

/// Why the integrator refuses its configuration in the given context, if it
/// does: the checks in the order in which they are made.
pub open spec fn init_error(s: WHFastState, c: SyncContextView) -> Option<WHFastError> {
    if c.var_cfg is Some && variational_error(c.var_cfg->0) is Some {
        variational_error(c.var_cfg->0)
    } else if c.var_cfg is Some && s.coordinates != Coordinates::Jacobi {
        Some(WHFastError::VariationalJacobiOnly)
    } else if s.kernel != Kernel::Default && s.coordinates != Coordinates::Jacobi {
        Some(WHFastError::NonStandardKernelJacobiOnly)
    } else if c.var_cfg is Some && s.kernel != Kernel::Default {
        Some(WHFastError::VariationalStandardKernelOnly)
    } else if s.corrector != Corrector::Disabled && !(s.coordinates == Coordinates::Jacobi
        || s.coordinates == Coordinates::Barycentric) {
        Some(WHFastError::SymplecticCorrectorJacobiOrBarycentricOnly)
    } else if s.keep_unsynchronized && s.safe_mode == SafeMode::Combine {
        Some(WHFastError::InvalidSafeModeCombination)
    } else {
        None
    }
}

/// What `init` returns.
pub open spec fn init_result(s: WHFastState, c: SyncContextView) -> Result<(), WHFastError> {
    match init_error(s, c) {
        Some(e) => Err(e),
        None => Ok(()),
    }
}

/// The integrator's state after `init`: unchanged when refused, otherwise
/// with the coordinates marked for recalculation.
pub open spec fn state_after_init(s: WHFastState, c: SyncContextView) -> WHFastState {
    if init_error(s, c) is Some {
        s
    } else {
        WHFastState { recalculate_coordinates_this_time_step: true, ..s }
    }
}

/// Whether a kernel needs the gravity routine for Jacobi coordinates.
pub open spec fn kernel_needs_jacobi_gravity(k: Kernel) -> bool {
    k == Kernel::ModifiedKick || k == Kernel::Lazy
}

/// The interactions that the gravity routine leaves out for a coordinate system.
pub open spec fn ignored_terms_for(coordinates: Coordinates) -> IgnoreGravityTerms {
    match coordinates {
        Coordinates::Jacobi => IgnoreGravityTerms::IgnoreWHFastwithJacobi,
        Coordinates::Barycentric => IgnoreGravityTerms::IgnoreAll,
        _ => IgnoreGravityTerms::IgnoreWHFastwithDHC,
    }
}

/// The context after `init`: unchanged when refused; otherwise the gravity
/// routine becomes the Jacobi one for the kernels that need it, and for the
/// others the ignored interactions follow the coordinate system.
pub open spec fn context_after_init(s: WHFastState, c: SyncContextView) -> SyncContextView {
    if init_error(s, c) is Some {
        c
    } else if kernel_needs_jacobi_gravity(s.kernel) {
        SyncContextView { gravity: Gravity::Jacobi, ..c }
    } else {
        SyncContextView { ignore_gravity_terms: ignored_terms_for(s.coordinates), ..c }
    }
}

/// A fraction of the time step: `numerator / denominator`.
#[derive(Debug, Clone, Copy, PartialEq, Eq, Structural)]
pub struct DtFraction {
    pub numerator: u32,
    pub denominator: u32,
}

/// The floating-point work of one synchronisation, to be carried out in this
/// order: remember the particles when `restore_particles` holds; when `drift`
/// is present, a Kepler step and a centre-of-mass step over that fraction of
/// the time step; the secondary corrector; the corrector; the transformation
/// from `transformation` coordinates to inertial ones over `n_real` particles
/// of which `n_active` are active; finally, when `restore_particles` holds,
/// put back the particles remembered at the start.
#[derive(Debug, Clone, Copy, PartialEq, Eq, Structural)]
pub struct SyncPlan {
    pub n_real: usize,
    pub n_active: usize,
    pub restore_particles: bool,
    pub drift: Option<DtFraction>,
    pub apply_secondary_corrector: bool,
    pub apply_corrector: bool,
    pub transformation: Coordinates,
}

/// The drift that a kernel still owes when it synchronises: half a time step
/// for the lazy kernel, three eighths for the composition kernel, none otherwise.
pub open spec fn pending_drift(k: Kernel) -> Option<DtFraction> {
    match k {
        Kernel::Lazy => Some(DtFraction { numerator: 1, denominator: 2 }),
        Kernel::Composition => Some(DtFraction { numerator: 3, denominator: 8 }),
        _ => None,
    }
}

/// What `synchronize` returns: no work when the configuration is refused or the
/// particles are already synchronised, otherwise the plan for this state.
pub open spec fn sync_plan(s: WHFastState, c: SyncContextView) -> Option<SyncPlan> {
    if init_error(s, c) is Some || s.is_synchronized {
        None
    } else {
        Some(SyncPlan {
            n_real: c.n_real,
            n_active: active_count(c),
            restore_particles: s.keep_unsynchronized,
            drift: pending_drift(s.kernel),
            apply_secondary_corrector: s.use_secondary_corrector,
            apply_corrector: s.corrector != Corrector::Disabled,
            transformation: s.coordinates,
        })
    }
}

/// The states in which a synchronisation would have to synchronise
/// variational particles, which the integrator does not support.
pub open spec fn variational_sync_unsupported(s: WHFastState, c: SyncContextView) -> bool {
    &&& !s.is_synchronized
    &&& c.var_cfg is Some
    &&& init_error(s, c) is None
}

/// The first error of a list of variational configurations.
fn first_variational_error(cfg: &Vec<VariationalConfig>) -> (r: Option<WHFastError>)
    ensures
        r == variational_error(cfg@),
{
    let mut i: usize = 0;
    assert(cfg@.skip(0) =~= cfg@);
    while i < cfg.len()
        invariant
            i <= cfg@.len(),
            variational_error(cfg@) == variational_error(cfg@.skip(i as int)),
        decreases cfg@.len() - i,
    {
        let v = cfg[i];
        if v.order != VariationalOrder::First {
            return Some(WHFastError::UnsupportedVariationalOrder);
        }
        if v.is_test_particle {
            return Some(WHFastError::TestParticleVariationalNotSupported);
        }
        assert(cfg@.skip(i as int).drop_first() =~= cfg@.skip(i + 1));
        i = i + 1;
    }
    assert(cfg@.skip(i as int) =~= Seq::<VariationalConfig>::empty());
    None
}

impl WHFast {
    /// An integrator with the given configuration, whose coordinates are not
    /// yet marked for recalculation.
    pub fn new(
        coordinates: Coordinates,
        kernel: Kernel,
        corrector: Corrector,
        use_secondary_corrector: bool,
        keep_unsynchronized: bool,
        is_synchronized: bool,
        safe_mode: SafeMode,
    ) -> (w: Self)
        ensures
            w@ == (WHFastState {
                recalculate_coordinates_this_time_step: false,
                coordinates,
                kernel,
                corrector,
                use_secondary_corrector,
                keep_unsynchronized,
                is_synchronized,
                safe_mode,
                time_step_warning: 0,
            }),
    {
        WHFast {
            recalculate_coordinates_this_time_step: false,
            coordinates,
            kernel,
            corrector,
            use_secondary_corrector,
            keep_unsynchoronized: keep_unsynchronized,
            is_synchronized,
            safe_mode,
            time_step_warning: 0,
        }
    }

    /// Whether the particles are synchronised.
    pub fn is_synchronized(&self) -> (b: bool)
        ensures
            b == self@.is_synchronized,
    {
        self.is_synchronized
    }

    /// Whether the coordinates are to be recalculated at the next time step.
    pub fn recalculate_coordinates_this_time_step(&self) -> (b: bool)
        ensures
            b == self@.recalculate_coordinates_this_time_step,
    {
        self.recalculate_coordinates_this_time_step
    }

    /// Why this configuration is refused in the given context, if it is.
    pub fn configuration_error(&self, ctx: &SyncContext) -> (r: Option<WHFastError>)
        ensures
            r == init_error(self@, ctx@),
    {
        let has_var = ctx.var_cfg.is_some();
        match &ctx.var_cfg {
            Some(cfg) => {
                let e = first_variational_error(cfg);
                if e.is_some() {
                    return e;
                }
            },
            None => {},
        }
        if has_var && self.coordinates != Coordinates::Jacobi {
            return Some(WHFastError::VariationalJacobiOnly);
        }
        if self.kernel != Kernel::Default && self.coordinates != Coordinates::Jacobi {
            return Some(WHFastError::NonStandardKernelJacobiOnly);
        }
        if has_var && self.kernel != Kernel::Default {
            return Some(WHFastError::VariationalStandardKernelOnly);
        }
        if self.corrector != Corrector::Disabled && !(self.coordinates == Coordinates::Jacobi
            || self.coordinates == Coordinates::Barycentric) {
            return Some(WHFastError::SymplecticCorrectorJacobiOrBarycentricOnly);
        }
        if self.keep_unsynchoronized && self.safe_mode == SafeMode::Combine {
            return Some(WHFastError::InvalidSafeModeCombination);
        }
        None
    }

    /// Checks the configuration against the context and, when it is accepted,
    /// sets up the gravity routine and marks the coordinates for recalculation.
    pub fn init(&mut self, ctx: &mut SyncContext) -> (r: Result<(), WHFastError>)
        ensures
            r == init_result(old(self)@, old(ctx)@),
            final(self)@ == state_after_init(old(self)@, old(ctx)@),
            final(ctx)@ == context_after_init(old(self)@, old(ctx)@),
    {
        if let Some(e) = self.configuration_error(ctx) {
            return Err(e);
        }
        if self.kernel == Kernel::ModifiedKick || self.kernel == Kernel::Lazy {
            ctx.gravity = Gravity::Jacobi;
        } else {
            match self.coordinates {
                Coordinates::Jacobi => {
                    ctx.ignore_gravity_terms = IgnoreGravityTerms::IgnoreWHFastwithJacobi;
                },
                Coordinates::Barycentric => {
                    ctx.ignore_gravity_terms = IgnoreGravityTerms::IgnoreAll;
                },
                _ => {
                    ctx.ignore_gravity_terms = IgnoreGravityTerms::IgnoreWHFastwithDHC;
                },
            }
        }
        self.recalculate_coordinates();
        Ok(())
    }

    /// Runs `init` and, when the particles are not synchronised, decides the
    /// floating-point work that synchronises them.
    pub fn synchronize(&mut self, ctx: &mut SyncContext) -> (plan: Option<SyncPlan>)
        requires
            !variational_sync_unsupported(old(self)@, old(ctx)@),
        ensures
            plan == sync_plan(old(self)@, old(ctx)@),
            final(self)@ == state_after_init(old(self)@, old(ctx)@),
            final(ctx)@ == context_after_init(old(self)@, old(ctx)@),
    {
        if self.init(ctx).is_err() {
            return None;
        }
        if self.is_synchronized {
            return None;
        }
        let n_real = ctx.n_real;
        let n_active = ctx.n_active();
        let drift = match self.kernel {
            Kernel::Default | Kernel::ModifiedKick => None,
            Kernel::Lazy => Some(DtFraction { numerator: 1, denominator: 2 }),
            Kernel::Composition => Some(DtFraction { numerator: 3, denominator: 8 }),
        };
        Some(SyncPlan {
            n_real,
            n_active,
            restore_particles: self.keep_unsynchoronized,
            drift,
            apply_secondary_corrector: self.use_secondary_corrector,
            apply_corrector: self.corrector != Corrector::Disabled,
            transformation: self.coordinates,
        })
    }

    /// Marks the coordinates for recalculation at the next time step.
    pub fn recalculate_coordinates(&mut self)
        ensures
            final(self)@ == (WHFastState {
                recalculate_coordinates_this_time_step: true,
                ..old(self)@
            }),
    {
        self.recalculate_coordinates_this_time_step = true;
    }
}

impl Default for WHFast {
    /// Jacobi coordinates, the standard kernel, no correctors, synchronised
    /// particles that are not kept, drift-kick-drift safe mode.
    fn default() -> (w: Self)
        ensures
            w@ == (WHFastState {
                recalculate_coordinates_this_time_step: false,
                coordinates: Coordinates::Jacobi,
                kernel: Kernel::Default,
                corrector: Corrector::Disabled,
                use_secondary_corrector: false,
                keep_unsynchronized: false,
                is_synchronized: true,
                safe_mode: SafeMode::DriftKickDrift,
                time_step_warning: 0,
            }),
    {
        WHFast::new(
            Coordinates::Jacobi,
            Kernel::Default,
            Corrector::Disabled,
            false,
            false,
            true,
            SafeMode::DriftKickDrift,
        )
    }
}

} // verus!
