use vstd::prelude::*;

use crate::gravity::{Gravity, IgnoreGravityTerms};
use crate::integrator::{active_count, SyncContextView, VariationalConfig};
use crate::particle::TestParticleKind;
use crate::rendezvous::VariationalOrder;
use crate::whfast::{
    context_after_init, ignored_terms_for, init_error, init_result, kernel_needs_jacobi_gravity,
    state_after_init, sync_plan, variational_error, variational_sync_unsupported, Coordinates,
    Corrector, DtFraction, Kernel, SafeMode, WHFastError, WHFastState,
};

verus! {

/// The error that a single variational configuration causes on its own.
pub open spec fn entry_error(v: VariationalConfig) -> Option<WHFastError> {
    if v.order != VariationalOrder::First {
        Some(WHFastError::UnsupportedVariationalOrder)
    } else if v.is_test_particle {
        Some(WHFastError::TestParticleVariationalNotSupported)
    } else {
        None
    }
}

/// A list of variational configurations is accepted exactly when every entry
/// is of first order and belongs to no test particle; when it is refused, the
/// error is the one of the first entry that has one.
pub proof fn lemma_variational_error_is_first_entry_error(cfg: Seq<VariationalConfig>)
    ensures
        variational_error(cfg) is None <==> forall|i: int|
            0 <= i < cfg.len() ==> #[trigger] entry_error(cfg[i]) is None,
        variational_error(cfg) is Some ==> exists|i: int|
            0 <= i < cfg.len() && #[trigger] entry_error(cfg[i]) == variational_error(cfg)
                && forall|j: int| 0 <= j < i ==> #[trigger] entry_error(cfg[j]) is None,
    decreases cfg.len(),
{
    if cfg.len() > 0 {
        let rest = cfg.drop_first();
        lemma_variational_error_is_first_entry_error(rest);
        assert forall|i: int| 0 < i < cfg.len() implies cfg[i] == rest[i - 1] by {}
        if entry_error(cfg[0]) is None {
            assert(variational_error(cfg) == variational_error(rest));
            if variational_error(rest) is Some {
                let k = choose|k: int|
                    0 <= k < rest.len() && #[trigger] entry_error(rest[k]) == variational_error(rest)
                        && forall|j: int| 0 <= j < k ==> #[trigger] entry_error(rest[j]) is None;
                assert(entry_error(cfg[k + 1]) == variational_error(cfg));
                assert forall|j: int| 0 <= j < k + 1 implies #[trigger] entry_error(cfg[j]) is None by {
                    if j > 0 {
                        assert(cfg[j] == rest[j - 1]);
                    }
                }
            } else {
                assert forall|i: int| 0 <= i < cfg.len() implies #[trigger] entry_error(cfg[i]) is None by {
                    if i > 0 {
                        assert(cfg[i] == rest[i - 1]);
                    }
                }
            }
        } else {
            assert(entry_error(cfg[0]) == variational_error(cfg));
        }
    }
}

/// A refused `init` changes neither the integrator nor the context.
pub proof fn lemma_refused_init_changes_nothing(s: WHFastState, c: SyncContextView)
    requires
        init_error(s, c) is Some,
    ensures
        init_result(s, c) is Err,
        state_after_init(s, c) == s,
        context_after_init(s, c) == c,
        sync_plan(s, c) is None,
{
}

/// `init` changes nothing of the integrator but the recalculation flag, which
/// it sets exactly when it accepts.
pub proof fn lemma_init_changes_only_the_recalculation_flag(s: WHFastState, c: SyncContextView)
    ensures
        ({
            let t = state_after_init(s, c);
            &&& t.recalculate_coordinates_this_time_step == (s.recalculate_coordinates_this_time_step
                || init_error(s, c) is None)
            &&& t.coordinates == s.coordinates
            &&& t.kernel == s.kernel
            &&& t.corrector == s.corrector
            &&& t.use_secondary_corrector == s.use_secondary_corrector
            &&& t.keep_unsynchronized == s.keep_unsynchronized
            &&& t.is_synchronized == s.is_synchronized
            &&& t.safe_mode == s.safe_mode
            &&& t.time_step_warning == s.time_step_warning
        }),
{
}

/// An accepted configuration is consistent: no kept copy of the particles in
/// combined safe mode, non-standard kernels only in Jacobi coordinates,
/// correctors only in Jacobi or barycentric coordinates, and variational
/// equations only of first order, for no test particle, in Jacobi coordinates
/// with the standard kernel.
pub proof fn lemma_accepted_configuration_is_consistent(s: WHFastState, c: SyncContextView)
    requires
        init_error(s, c) is None,
    ensures
        !(s.keep_unsynchronized && s.safe_mode == SafeMode::Combine),
        s.kernel != Kernel::Default ==> s.coordinates == Coordinates::Jacobi,
        s.corrector != Corrector::Disabled ==> (s.coordinates == Coordinates::Jacobi
            || s.coordinates == Coordinates::Barycentric),
        c.var_cfg is Some ==> {
            &&& s.coordinates == Coordinates::Jacobi
            &&& s.kernel == Kernel::Default
            &&& forall|i: int| 0 <= i < c.var_cfg->0.len() ==> {
                &&& (#[trigger] c.var_cfg->0[i]).order == VariationalOrder::First
                &&& !c.var_cfg->0[i].is_test_particle
            }
        },
{
    if c.var_cfg is Some {
        let cfg = c.var_cfg->0;
        lemma_variational_error_is_first_entry_error(cfg);
        assert forall|i: int| 0 <= i < cfg.len() implies {
            &&& (#[trigger] cfg[i]).order == VariationalOrder::First
            &&& !cfg[i].is_test_particle
        } by {
            assert(entry_error(cfg[i]) is None);
        }
    }
}

/// An accepted `init` sets up the force computation: the kernels that kick in
/// Jacobi coordinates get the Jacobi gravity routine and keep the ignored
/// interactions; the others keep their gravity routine and leave out the
/// interactions that the coordinate system accounts for. Nothing else of the
/// context changes.
pub proof fn lemma_accepted_init_sets_up_gravity(s: WHFastState, c: SyncContextView)
    requires
        init_error(s, c) is None,
    ensures
        ({
            let d = context_after_init(s, c);
            &&& kernel_needs_jacobi_gravity(s.kernel) ==> {
                &&& d.gravity == Gravity::Jacobi
                &&& d.ignore_gravity_terms == c.ignore_gravity_terms
            }
            &&& !kernel_needs_jacobi_gravity(s.kernel) ==> {
                &&& d.gravity == c.gravity
                &&& d.ignore_gravity_terms == ignored_terms_for(s.coordinates)
            }
            &&& d.var_cfg == c.var_cfg
            &&& d.test_particle_kind == c.test_particle_kind
            &&& d.n_real == c.n_real
            &&& d.active_len == c.active_len
            &&& d.all_active == c.all_active
        }),
{
}

/// Running `init` a second time gives the same answer and changes nothing more.
pub proof fn lemma_init_is_idempotent(s: WHFastState, c: SyncContextView)
    ensures
        ({
            let t = state_after_init(s, c);
            let d = context_after_init(s, c);
            &&& init_result(t, d) == init_result(s, c)
            &&& state_after_init(t, d) == t
            &&& context_after_init(t, d) == d
        }),
{
    let t = state_after_init(s, c);
    let d = context_after_init(s, c);
    assert(init_error(t, d) == init_error(s, c));
}

/// `synchronize` plans work exactly when the configuration is accepted and
/// the particles are not synchronised; the plan keeps a copy of the particles
/// exactly when the integrator keeps them unsynchronised, which never happens
/// in combined safe mode; it drifts half a step for the lazy kernel, three
/// eighths of a step for the composition kernel and not at all otherwise; and
/// it transforms from the integrator's own coordinates.
pub proof fn lemma_sync_plan_follows_configuration(s: WHFastState, c: SyncContextView)
    ensures
        sync_plan(s, c) is Some <==> (init_error(s, c) is None && !s.is_synchronized),
        sync_plan(s, c) matches Some(p) ==> {
            &&& p.restore_particles == s.keep_unsynchronized
            &&& p.restore_particles ==> s.safe_mode == SafeMode::DriftKickDrift
            &&& p.transformation == s.coordinates
            &&& p.apply_corrector == (s.corrector != Corrector::Disabled)
            &&& p.apply_secondary_corrector == s.use_secondary_corrector
            &&& p.n_real == c.n_real
            &&& p.n_active == active_count(c)
            &&& (s.kernel == Kernel::Lazy ==> p.drift == Some(
                DtFraction { numerator: 1, denominator: 2 },
            ))
            &&& (s.kernel == Kernel::Composition ==> p.drift == Some(
                DtFraction { numerator: 3, denominator: 8 },
            ))
            &&& ((s.kernel == Kernel::Default || s.kernel == Kernel::ModifiedKick)
                ==> p.drift is None)
        },
{
}

/// Synchronising again, with no step in between, plans the same work, and
/// remains possible.
pub proof fn lemma_synchronize_is_repeatable(s: WHFastState, c: SyncContextView)
    requires
        !variational_sync_unsupported(s, c),
    ensures
        ({
            let t = state_after_init(s, c);
            let d = context_after_init(s, c);
            &&& !variational_sync_unsupported(t, d)
            &&& sync_plan(t, d) == sync_plan(s, c)
        }),
{
    let t = state_after_init(s, c);
    let d = context_after_init(s, c);
    assert(init_error(t, d) == init_error(s, c));
    assert(active_count(d) == active_count(c));
}

/// A configuration is accepted exactly when it is consistent: every listed
/// variational equation is of first order and belongs to no test particle,
/// variational equations come only with Jacobi coordinates and the standard
/// kernel, a non-standard kernel only with Jacobi coordinates, a corrector only
/// with Jacobi or barycentric coordinates, and unsynchronised particles are
/// never kept in combined safe mode. Each error names a condition that fails.
pub proof fn lemma_init_accepts_exactly_consistent_configurations(
    s: WHFastState,
    c: SyncContextView,
)
    ensures
        init_error(s, c) is None <==> {
            &&& c.var_cfg is Some ==> {
                &&& s.coordinates == Coordinates::Jacobi
                &&& s.kernel == Kernel::Default
                &&& forall|i: int| 0 <= i < c.var_cfg->0.len() ==> {
                    &&& (#[trigger] c.var_cfg->0[i]).order == VariationalOrder::First
                    &&& !c.var_cfg->0[i].is_test_particle
                }
            }
            &&& s.kernel != Kernel::Default ==> s.coordinates == Coordinates::Jacobi
            &&& s.corrector != Corrector::Disabled ==> (s.coordinates == Coordinates::Jacobi
                || s.coordinates == Coordinates::Barycentric)
            &&& !(s.keep_unsynchronized && s.safe_mode == SafeMode::Combine)
        },
        init_error(s, c) == Some(WHFastError::UnsupportedVariationalOrder) ==> {
            &&& c.var_cfg is Some
            &&& exists|i: int| 0 <= i < c.var_cfg->0.len()
                && (#[trigger] c.var_cfg->0[i]).order != VariationalOrder::First
        },
        init_error(s, c) == Some(WHFastError::TestParticleVariationalNotSupported) ==> {
            &&& c.var_cfg is Some
            &&& exists|i: int| 0 <= i < c.var_cfg->0.len()
                && (#[trigger] c.var_cfg->0[i]).is_test_particle
                && c.var_cfg->0[i].order == VariationalOrder::First
        },
        init_error(s, c) == Some(WHFastError::VariationalJacobiOnly) ==> (c.var_cfg is Some
            && s.coordinates != Coordinates::Jacobi),
        init_error(s, c) == Some(WHFastError::NonStandardKernelJacobiOnly) ==> (s.kernel
            != Kernel::Default && s.coordinates != Coordinates::Jacobi),
        init_error(s, c) == Some(WHFastError::VariationalStandardKernelOnly) ==> (c.var_cfg is Some
            && s.kernel != Kernel::Default),
        init_error(s, c) == Some(WHFastError::SymplecticCorrectorJacobiOrBarycentricOnly) ==> (
        s.corrector != Corrector::Disabled && s.coordinates != Coordinates::Jacobi && s.coordinates
            != Coordinates::Barycentric),
        init_error(s, c) == Some(WHFastError::InvalidSafeModeCombination) ==> (s.keep_unsynchronized
            && s.safe_mode == SafeMode::Combine),
        init_result(s, c) is Ok <==> init_error(s, c) is None,
{
    if c.var_cfg is Some {
        let cfg = c.var_cfg->0;
        lemma_variational_error_is_first_entry_error(cfg);
        if variational_error(cfg) is Some {
            let k = choose|k: int|
                0 <= k < cfg.len() && #[trigger] entry_error(cfg[k]) == variational_error(cfg)
                    && forall|j: int| 0 <= j < k ==> #[trigger] entry_error(cfg[j]) is None;
            assert(entry_error(cfg[k]) is Some);
        } else {
            assert forall|i: int| 0 <= i < cfg.len() implies {
                &&& (#[trigger] cfg[i]).order == VariationalOrder::First
                &&& !cfg[i].is_test_particle
            } by {
                assert(entry_error(cfg[i]) is None);
            }
        }
    }
}

/// An accepted `init` gives the Jacobi gravity routine exactly to the
/// modified-kick and lazy kernels, whose ignored interactions stay as they
/// were; with the standard and composition kernels the gravity routine stays
/// and the ignored interactions are those of the coordinate system: the
/// 0–1 term in Jacobi coordinates, the central terms in democratic
/// heliocentric and WHDS coordinates, all of them in barycentric coordinates.
pub proof fn lemma_accepted_init_gravity_by_kernel(s: WHFastState, c: SyncContextView)
    requires
        init_error(s, c) is None,
    ensures
        ({
            let d = context_after_init(s, c);
            &&& (d.gravity == Gravity::Jacobi && d.ignore_gravity_terms == c.ignore_gravity_terms)
                || (s.kernel != Kernel::ModifiedKick && s.kernel != Kernel::Lazy)
            &&& (s.kernel == Kernel::Default || s.kernel == Kernel::Composition) ==> {
                &&& d.gravity == c.gravity
                &&& s.coordinates == Coordinates::Jacobi ==> d.ignore_gravity_terms
                    == IgnoreGravityTerms::IgnoreWHFastwithJacobi
                &&& s.coordinates == Coordinates::Barycentric ==> d.ignore_gravity_terms
                    == IgnoreGravityTerms::IgnoreAll
                &&& (s.coordinates == Coordinates::DemocraticHeliocentric || s.coordinates
                    == Coordinates::Whds) ==> d.ignore_gravity_terms
                    == IgnoreGravityTerms::IgnoreWHFastwithDHC
            }
        }),
{
}

/// The particles that act on the others are all real particles when every
/// one is active or test particles are massive, and otherwise those of the
/// active list.
pub proof fn lemma_active_count_by_test_particle_kind(c: SyncContextView)
    ensures
        (c.all_active || c.test_particle_kind == TestParticleKind::Massive) ==> active_count(c)
            == c.n_real,
        (!c.all_active && c.test_particle_kind == TestParticleKind::Massless) ==> active_count(c)
            == c.active_len,
{
}

/// An accepted, unsynchronised integrator always gets a plan, which applies
/// the corrector exactly when one is configured and counts the acting
/// particles as the simulation does.
pub proof fn lemma_accepted_unsynchronized_gets_plan(s: WHFastState, c: SyncContextView)
    requires
        init_error(s, c) is None,
        !s.is_synchronized,
    ensures
        sync_plan(s, c) matches Some(p) && {
            &&& p.apply_corrector == (s.corrector != Corrector::Disabled)
            &&& p.n_real == c.n_real
            &&& (!c.all_active && c.test_particle_kind == TestParticleKind::Massless) ==> p.n_active
                == c.active_len
            &&& (c.all_active || c.test_particle_kind == TestParticleKind::Massive) ==> p.n_active
                == c.n_real
        },
{
    lemma_active_count_by_test_particle_kind(c);
}

/// When several checks fail, `init` reports the earliest one: a faulty
/// variational entry first (the first faulty entry, a wrong order before a
/// test particle), then variational equations outside Jacobi coordinates, a
/// non-standard kernel outside Jacobi coordinates, variational equations with
/// a non-standard kernel, a corrector outside Jacobi or barycentric
/// coordinates, and last kept particles in combined safe mode.
pub proof fn lemma_init_reports_the_earliest_failed_check(s: WHFastState, c: SyncContextView)
    ensures
        ({
            let entries_ok = c.var_cfg is Some ==> forall|i: int|
                0 <= i < c.var_cfg->0.len() ==> #[trigger] entry_error(c.var_cfg->0[i]) is None;
            let var_jacobi = c.var_cfg is Some ==> s.coordinates == Coordinates::Jacobi;
            let kernel_jacobi = s.kernel != Kernel::Default ==> s.coordinates == Coordinates::Jacobi;
            let var_kernel = c.var_cfg is Some ==> s.kernel == Kernel::Default;
            let corrector_ok = s.corrector != Corrector::Disabled ==> (s.coordinates
                == Coordinates::Jacobi || s.coordinates == Coordinates::Barycentric);
            &&& c.var_cfg matches Some(cfg) ==> forall|k: int|
                0 <= k < cfg.len() && #[trigger] entry_error(cfg[k]) is Some && (forall|j: int|
                    0 <= j < k ==> #[trigger] entry_error(cfg[j]) is None) ==> init_error(s, c)
                    == entry_error(cfg[k])
            &&& (entries_ok && !var_jacobi) ==> init_error(s, c) == Some(
                WHFastError::VariationalJacobiOnly,
            )
            &&& (entries_ok && var_jacobi && !kernel_jacobi) ==> init_error(s, c) == Some(
                WHFastError::NonStandardKernelJacobiOnly,
            )
            &&& (entries_ok && var_jacobi && kernel_jacobi && !var_kernel) ==> init_error(s, c)
                == Some(WHFastError::VariationalStandardKernelOnly)
            &&& (entries_ok && var_jacobi && kernel_jacobi && var_kernel && !corrector_ok)
                ==> init_error(s, c) == Some(
                WHFastError::SymplecticCorrectorJacobiOrBarycentricOnly,
            )
            &&& (entries_ok && var_jacobi && kernel_jacobi && var_kernel && corrector_ok
                && s.keep_unsynchronized && s.safe_mode == SafeMode::Combine) ==> init_error(s, c)
                == Some(WHFastError::InvalidSafeModeCombination)
        }),
{
    if c.var_cfg is Some {
        let cfg = c.var_cfg->0;
        lemma_variational_error_is_first_entry_error(cfg);
        assert forall|k: int|
            0 <= k < cfg.len() && #[trigger] entry_error(cfg[k]) is Some && (forall|j: int|
                0 <= j < k ==> #[trigger] entry_error(cfg[j]) is None) implies init_error(s, c)
            == entry_error(cfg[k]) by {
            let m = choose|m: int|
                0 <= m < cfg.len() && #[trigger] entry_error(cfg[m]) == variational_error(cfg)
                    && forall|j: int| 0 <= j < m ==> #[trigger] entry_error(cfg[j]) is None;
            if m < k {
                assert(entry_error(cfg[m]) is None);
            } else if k < m {
                assert(entry_error(cfg[k]) is None);
            }
        }
        if forall|i: int| 0 <= i < cfg.len() ==> #[trigger] entry_error(cfg[i]) is None {
            assert(variational_error(cfg) is None);
        }
    }
}

} // verus!
