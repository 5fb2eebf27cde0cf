use planetes::gravity::{Gravity, IgnoreGravityTerms};
use planetes::integrator::{SyncContext, VariationalConfig};
use planetes::particle::TestParticleKind;
use planetes::rendezvous::VariationalOrder;
use planetes::whfast::{Corrector, DtFraction, SyncPlan, WHFast};
use planetes::{Coordinates, Kernel, SafeMode, WHFastError};

fn context(var_cfg: Option<Vec<VariationalConfig>>) -> SyncContext {
    SyncContext {
        var_cfg,
        gravity: Gravity::Basic,
        ignore_gravity_terms: IgnoreGravityTerms::IgnoreNone,
        test_particle_kind: TestParticleKind::Massless,
        n_real: 5,
        active_len: 3,
        all_active: false,
    }
}

fn first(is_test_particle: bool) -> VariationalConfig {
    VariationalConfig { order: VariationalOrder::First, is_test_particle }
}

fn second() -> VariationalConfig {
    VariationalConfig { order: VariationalOrder::Second, is_test_particle: false }
}

fn integrator(coordinates: Coordinates, kernel: Kernel, corrector: Corrector) -> WHFast {
    WHFast::new(coordinates, kernel, corrector, false, false, false, SafeMode::DriftKickDrift)
}

fn init_error(w: &mut WHFast, ctx: &mut SyncContext) -> WHFastError {
    match w.init(ctx) {
        Err(e) => e,
        Ok(()) => panic!("configuration was accepted"),
    }
}

#[test]
fn default_integrator_accepts_and_uses_jacobi() {
    let mut w = WHFast::default();
    let mut ctx = context(None);
    assert_eq!(w.init(&mut ctx), Ok(()));
    assert!(w.recalculate_coordinates_this_time_step());
    assert_eq!(ctx.ignore_gravity_terms, IgnoreGravityTerms::IgnoreWHFastwithJacobi);
    assert_eq!(ctx.gravity, Gravity::Basic);
    assert_eq!(Coordinates::default(), Coordinates::Jacobi);
}

#[test]
fn unsupported_variational_order() {
    let mut w = WHFast::default();
    let mut ctx = context(Some(vec![first(false), second(), first(true)]));
    assert_eq!(init_error(&mut w, &mut ctx), WHFastError::UnsupportedVariationalOrder);
}

#[test]
fn test_particle_variational_reported_at_first_failing_entry() {
    let mut w = WHFast::default();
    let mut ctx = context(Some(vec![first(false), first(true), second()]));
    assert_eq!(init_error(&mut w, &mut ctx), WHFastError::TestParticleVariationalNotSupported);
}

#[test]
fn wrong_order_reported_before_test_particle_in_same_entry() {
    let mut w = WHFast::default();
    let mut ctx = context(Some(vec![VariationalConfig {
        order: VariationalOrder::Second,
        is_test_particle: true,
    }]));
    assert_eq!(init_error(&mut w, &mut ctx), WHFastError::UnsupportedVariationalOrder);
}

#[test]
fn variational_needs_jacobi() {
    let mut w = integrator(Coordinates::Barycentric, Kernel::Default, Corrector::Disabled);
    let mut ctx = context(Some(vec![first(false)]));
    assert_eq!(init_error(&mut w, &mut ctx), WHFastError::VariationalJacobiOnly);
}

#[test]
fn empty_variational_list_still_needs_jacobi() {
    let mut w = integrator(Coordinates::Whds, Kernel::Default, Corrector::Disabled);
    let mut ctx = context(Some(vec![]));
    assert_eq!(init_error(&mut w, &mut ctx), WHFastError::VariationalJacobiOnly);
}

#[test]
fn non_standard_kernel_needs_jacobi() {
    let mut w = integrator(Coordinates::DemocraticHeliocentric, Kernel::Composition, Corrector::Disabled);
    let mut ctx = context(None);
    assert_eq!(init_error(&mut w, &mut ctx), WHFastError::NonStandardKernelJacobiOnly);
}

#[test]
fn variational_needs_standard_kernel() {
    let mut w = integrator(Coordinates::Jacobi, Kernel::ModifiedKick, Corrector::Disabled);
    let mut ctx = context(Some(vec![first(false)]));
    assert_eq!(init_error(&mut w, &mut ctx), WHFastError::VariationalStandardKernelOnly);
}

#[test]
fn corrector_needs_jacobi_or_barycentric() {
    let mut w = integrator(Coordinates::Whds, Kernel::Default, Corrector::Order5);
    let mut ctx = context(None);
    assert_eq!(
        init_error(&mut w, &mut ctx),
        WHFastError::SymplecticCorrectorJacobiOrBarycentricOnly
    );
    let mut b = integrator(Coordinates::Barycentric, Kernel::Default, Corrector::Order17);
    assert_eq!(b.init(&mut ctx), Ok(()));
    assert_eq!(ctx.ignore_gravity_terms, IgnoreGravityTerms::IgnoreAll);
}

#[test]
fn kept_particles_and_combined_safe_mode_are_refused() {
    let mut w = WHFast::new(
        Coordinates::Jacobi,
        Kernel::Default,
        Corrector::Disabled,
        false,
        true,
        true,
        SafeMode::Combine,
    );
    let mut ctx = context(None);
    assert_eq!(init_error(&mut w, &mut ctx), WHFastError::InvalidSafeModeCombination);
}

#[test]
fn refused_init_changes_nothing() {
    let mut w = integrator(Coordinates::Whds, Kernel::Lazy, Corrector::Disabled);
    let mut ctx = context(None);
    assert!(w.init(&mut ctx).is_err());
    assert!(!w.recalculate_coordinates_this_time_step());
    assert_eq!(ctx.gravity, Gravity::Basic);
    assert_eq!(ctx.ignore_gravity_terms, IgnoreGravityTerms::IgnoreNone);
    assert_eq!(w.synchronize(&mut ctx), None);
    assert!(!w.recalculate_coordinates_this_time_step());
}

#[test]
fn kicking_kernels_select_jacobi_gravity() {
    for kernel in [Kernel::ModifiedKick, Kernel::Lazy] {
        let mut w = integrator(Coordinates::Jacobi, kernel, Corrector::Disabled);
        let mut ctx = context(None);
        assert_eq!(w.init(&mut ctx), Ok(()));
        assert_eq!(ctx.gravity, Gravity::Jacobi);
        assert_eq!(ctx.ignore_gravity_terms, IgnoreGravityTerms::IgnoreNone);
    }
}

#[test]
fn ignored_terms_follow_coordinates() {
    let cases = [
        (Coordinates::Jacobi, IgnoreGravityTerms::IgnoreWHFastwithJacobi),
        (Coordinates::DemocraticHeliocentric, IgnoreGravityTerms::IgnoreWHFastwithDHC),
        (Coordinates::Whds, IgnoreGravityTerms::IgnoreWHFastwithDHC),
        (Coordinates::Barycentric, IgnoreGravityTerms::IgnoreAll),
    ];
    for (coordinates, ignored) in cases {
        let mut w = integrator(coordinates, Kernel::Default, Corrector::Disabled);
        let mut ctx = context(None);
        assert_eq!(w.init(&mut ctx), Ok(()));
        assert_eq!(ctx.ignore_gravity_terms, ignored);
        assert_eq!(ctx.gravity, Gravity::Basic);
    }
}

#[test]
fn init_twice_gives_the_same_result() {
    let mut w = integrator(Coordinates::Jacobi, Kernel::Lazy, Corrector::Order3);
    let mut ctx = context(Some(vec![]));
    let first = w.init(&mut ctx);
    let second = w.init(&mut ctx);
    assert_eq!(first, Err(WHFastError::VariationalStandardKernelOnly));
    assert_eq!(first, second);
}

#[test]
fn recalculate_coordinates_sets_flag() {
    let mut w = WHFast::default();
    assert!(!w.recalculate_coordinates_this_time_step());
    w.recalculate_coordinates();
    assert!(w.recalculate_coordinates_this_time_step());
    w.recalculate_coordinates();
    assert!(w.recalculate_coordinates_this_time_step());
}

#[test]
fn synchronized_particles_need_no_work() {
    let mut w = WHFast::default();
    let mut ctx = context(Some(vec![first(false)]));
    assert_eq!(w.synchronize(&mut ctx), None);
    assert!(w.recalculate_coordinates_this_time_step());
    assert!(w.is_synchronized());
}

#[test]
fn lazy_kernel_plan() {
    let mut w = WHFast::new(
        Coordinates::Jacobi,
        Kernel::Lazy,
        Corrector::Order11,
        true,
        true,
        false,
        SafeMode::DriftKickDrift,
    );
    let mut ctx = context(None);
    let plan = w.synchronize(&mut ctx);
    assert_eq!(
        plan,
        Some(SyncPlan {
            n_real: 5,
            n_active: 3,
            restore_particles: true,
            drift: Some(DtFraction { numerator: 1, denominator: 2 }),
            apply_secondary_corrector: true,
            apply_corrector: true,
            transformation: Coordinates::Jacobi,
        })
    );
    assert_eq!(ctx.gravity, Gravity::Jacobi);
    assert!(!w.is_synchronized());
    assert_eq!(w.synchronize(&mut ctx), plan);
}

#[test]
fn composition_kernel_plan() {
    let mut w = integrator(Coordinates::Jacobi, Kernel::Composition, Corrector::Disabled);
    let mut ctx = context(None);
    ctx.all_active = true;
    let plan = w.synchronize(&mut ctx).unwrap();
    assert_eq!(plan.drift, Some(DtFraction { numerator: 3, denominator: 8 }));
    assert_eq!(plan.n_active, 5);
    assert!(!plan.restore_particles);
    assert!(!plan.apply_corrector);
    assert!(!plan.apply_secondary_corrector);
}

#[test]
fn standard_kernel_plan_transforms_from_own_coordinates() {
    for coordinates in [
        Coordinates::Jacobi,
        Coordinates::DemocraticHeliocentric,
        Coordinates::Whds,
        Coordinates::Barycentric,
    ] {
        let mut w = integrator(coordinates, Kernel::Default, Corrector::Disabled);
        let mut ctx = context(None);
        ctx.test_particle_kind = TestParticleKind::Massive;
        let plan = w.synchronize(&mut ctx).unwrap();
        assert_eq!(plan.transformation, coordinates);
        assert_eq!(plan.drift, None);
        assert_eq!(plan.n_real, 5);
        assert_eq!(plan.n_active, 5);
    }
}

#[test]
fn active_count_uses_active_list_for_massless_test_particles() {
    let ctx = context(None);
    assert_eq!(ctx.n_active(), 3);
    let mut all = context(None);
    all.all_active = true;
    assert_eq!(all.n_active(), 5);
    let mut massive = context(None);
    massive.test_particle_kind = TestParticleKind::Massive;
    assert_eq!(massive.n_active(), 5);
}

#[test]
fn configuration_error_matches_init() {
    let w = integrator(Coordinates::Whds, Kernel::Lazy, Corrector::Disabled);
    let ctx = context(None);
    assert_eq!(w.configuration_error(&ctx), Some(WHFastError::NonStandardKernelJacobiOnly));
    assert_eq!(WHFast::default().configuration_error(&ctx), None);
}

#[test]
fn error_messages() {
    let cases = [
        (
            WHFastError::UnsupportedVariationalOrder,
            "WHFast/MEGNO only supports first-order variational equations",
        ),
        (
            WHFastError::TestParticleVariationalNotSupported,
            "Test particle variational particles are not supported in WHFast",
        ),
        (
            WHFastError::VariationalJacobiOnly,
            "Variational particles require Jacobi coordinates in WHFast",
        ),
        (
            WHFastError::NonStandardKernelJacobiOnly,
            "Non-standard kernels require Jacobi coordinates in WHFast",
        ),
        (
            WHFastError::VariationalStandardKernelOnly,
            "Variational particles are only supported with the standard kernel in WHFast",
        ),
        (
            WHFastError::SymplecticCorrectorJacobiOrBarycentricOnly,
            "Symplectic correctors require Jacobi or Barycentric coordinates in WHFast",
        ),
        (
            WHFastError::InvalidSafeModeCombination,
            "Cannot keep unsynchronized particles when using SafeMode::Combine in WHFast",
        ),
    ];
    for (e, text) in cases {
        assert_eq!(e.message(), text);
    }
}
