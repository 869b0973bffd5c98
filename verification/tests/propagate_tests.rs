use assist_rs::ffi::{ASSIST_FORCES_DEFAULT, ASSIST_FORCE_NON_GRAVITATIONAL};
use assist_rs::propagate::{
    check_pool_orbit, force_flags, particle_params_layout, thread_plan, variational_count,
    ThreadPlan,
};
use assist_rs::{Error, PropagatorConfig};

#[test]
fn config_constructors() {
    let g = PropagatorConfig::gravity_only();
    assert!(!g.compute_stm && !g.has_nongrav);
    let s = PropagatorConfig::gravity_with_stm();
    assert!(s.compute_stm && !s.has_nongrav);
    let n = PropagatorConfig::nongrav_with_stm();
    assert!(n.compute_stm && n.has_nongrav);
}

#[test]
fn variational_counts() {
    assert_eq!(variational_count(false, false), 0);
    assert_eq!(variational_count(false, true), 0);
    assert_eq!(variational_count(true, false), 6);
    assert_eq!(variational_count(true, true), 9);
}

#[test]
fn force_flags_add_non_gravitational_only_when_needed() {
    assert_eq!(force_flags(false), ASSIST_FORCES_DEFAULT);
    assert_eq!(force_flags(true), ASSIST_FORCES_DEFAULT | ASSIST_FORCE_NON_GRAVITATIONAL);
    assert_eq!(force_flags(true), 0x7f);
}

#[test]
fn particle_params_layout_with_partials() {
    let p = particle_params_layout(10, [1e-10, 2e-10, 3e-10], 0.0f64, 1.0f64, true);
    assert_eq!(p.len(), 30);
    assert_eq!(&p[0..3], &[1e-10, 2e-10, 3e-10]);
    for (j, v) in p.iter().enumerate().skip(3) {
        let want = if j == 21 || j == 25 || j == 29 { 1.0 } else { 0.0 };
        assert_eq!(*v, want, "slot {j}");
    }
}

#[test]
fn particle_params_layout_without_partials() {
    let p = particle_params_layout(1, [0.5, 0.25, 0.125], 0.0f64, 1.0f64, false);
    assert_eq!(p, vec![0.5, 0.25, 0.125]);
    let q = particle_params_layout(7, [4.0, 5.0, 6.0], 0.0f64, 1.0f64, false);
    assert_eq!(q.len(), 21);
    assert!(q[3..].iter().all(|v| *v == 0.0));
}

#[test]
fn thread_plans() {
    assert_eq!(thread_plan(None).unwrap(), ThreadPlan::GlobalPool);
    assert_eq!(thread_plan(Some(1)).unwrap(), ThreadPlan::Serial);
    assert_eq!(thread_plan(Some(4)).unwrap(), ThreadPlan::Dedicated(4));
    match thread_plan(Some(0)) {
        Err(Error::Other(m)) => {
            assert_eq!(m, "num_threads = Some(0) is not valid; use None for the default pool")
        }
        other => panic!("expected error, got {other:?}"),
    }
}

#[test]
fn pools_refuse_orbits_of_the_other_kind() {
    assert!(check_pool_orbit(PropagatorConfig::gravity_with_stm(), false).is_ok());
    assert!(check_pool_orbit(PropagatorConfig::nongrav_with_stm(), true).is_ok());
    match check_pool_orbit(PropagatorConfig::gravity_only(), true) {
        Err(Error::Other(m)) => assert_eq!(
            m,
            "orbit non-grav flag (true) does not match pool config has_nongrav (false) — rebuild the pool with a matching config"
        ),
        other => panic!("expected error, got {other:?}"),
    }
}
