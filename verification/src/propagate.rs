//! Propagator configuration: force flags, variational-particle layout and
//! the thread-dispatch plan for batches.
//!
//! The numerical integration itself runs in the REBOUND/ASSIST C library;
//! this module decides how a simulation is set up and how batches are spread
//! over worker threads.

use vstd::prelude::*;
use vstd::string::*;
use crate::ffi::{ASSIST_FORCES_DEFAULT, ASSIST_FORCE_NON_GRAVITATIONAL};
use crate::status::Error;
use crate::text::{bool_text, push_bool};

verus! {

/// Configuration locked at `PropagatorPool` construction. A single pool can
/// only serve orbits whose variational dimension matches this config:
/// creating a `has_nongrav = false` pool and then passing an orbit with
/// non-gravitational parameters is an error, and vice versa.
#[derive(Debug, Clone, Copy, PartialEq, Eq, Structural)]
pub struct PropagatorConfig {
    /// Compute the 6×6 state transition matrix via variational equations.
    pub compute_stm: bool,
    /// Whether orbits served by this pool carry non-gravitational parameters.
    /// When true, an extra 3 variational particles are added to yield the
    /// 6×3 `∂x/∂A` matrix in each result (when `compute_stm` is also true).
    pub has_nongrav: bool,
}

impl PropagatorConfig {
    /// Gravity-only orbits, no STM — the cheapest configuration.
    pub fn gravity_only() -> (c: PropagatorConfig)
        ensures
            c == (PropagatorConfig { compute_stm: false, has_nongrav: false }),
    {
        PropagatorConfig { compute_stm: false, has_nongrav: false }
    }

    /// Gravity-only orbits with STM (6×6).
    pub fn gravity_with_stm() -> (c: PropagatorConfig)
        ensures
            c == (PropagatorConfig { compute_stm: true, has_nongrav: false }),
    {
        PropagatorConfig { compute_stm: true, has_nongrav: false }
    }

    /// Non-grav orbits with STM (6×6) and parameter partials (6×3).
    pub fn nongrav_with_stm() -> (c: PropagatorConfig)
        ensures
            c == (PropagatorConfig { compute_stm: true, has_nongrav: true }),
    {
        PropagatorConfig { compute_stm: true, has_nongrav: true }
    }
}

/// Number of first-order variational particles: none without an STM, six
/// state columns with one, and three parameter columns more for non-grav orbits.
pub open spec fn variational_particles(compute_stm: bool, has_nongrav: bool) -> nat {
    if !compute_stm {
        0
    } else if !has_nongrav {
        6
    } else {
        9
    }
}

/// Variational particle count: 0, 6, or 9.
pub fn variational_count(compute_stm: bool, has_nongrav: bool) -> (n: usize)
    ensures
        n == variational_particles(compute_stm, has_nongrav),
{
    match (compute_stm, has_nongrav) {
        (false, _) => 0,
        (true, false) => 6,
        (true, true) => 9,
    }
}

/// ASSIST force flags: the default set, plus non-gravitational forces when the orbit has them.
pub open spec fn force_set(has_nongrav: bool) -> i32 {
    if has_nongrav {
        ASSIST_FORCES_DEFAULT | ASSIST_FORCE_NON_GRAVITATIONAL
    } else {
        ASSIST_FORCES_DEFAULT
    }
}

/// The force flags a simulation is configured with.
pub fn force_flags(has_nongrav: bool) -> (f: i32)
    ensures
        f == force_set(has_nongrav),
{
    let mut forces = ASSIST_FORCES_DEFAULT;
    if has_nongrav {
        forces = forces | ASSIST_FORCE_NON_GRAVITATIONAL;
    }
    forces
}

/// Every configuration keeps all default forces, and the non-gravitational
/// force is switched on exactly for orbits that carry non-grav parameters.
pub proof fn lemma_force_flags(has_nongrav: bool)
    ensures
        force_set(has_nongrav) & ASSIST_FORCES_DEFAULT == ASSIST_FORCES_DEFAULT,
        (force_set(has_nongrav) & ASSIST_FORCE_NON_GRAVITATIONAL != 0) == has_nongrav,
{
    assert((0x77i32 | 0x08i32) & 0x77i32 == 0x77i32) by (bit_vector);
    assert((0x77i32 | 0x08i32) & 0x08i32 != 0) by (bit_vector);
    assert(0x77i32 & 0x77i32 == 0x77i32) by (bit_vector);
    assert(0x77i32 & 0x08i32 == 0) by (bit_vector);
}

/// The `particle_params` array for a simulation with `n_total` particles
/// (the test particle first, then its variational particles): three values
/// per particle, the test particle's `[A1, A2, A3]` first, and, when the
/// parameter partials are wanted, a unit entry in the parameter
/// variationals (particles 7, 8, 9) for A1, A2, A3 respectively; every
/// other entry is zero.
pub open spec fn is_params_layout<T>(
    p: Seq<T>,
    n_total: nat,
    a: Seq<T>,
    zero: T,
    one: T,
    want_partials: bool,
) -> bool {
    &&& p.len() == 3 * n_total
    &&& forall|j: int| #![trigger p[j]] 0 <= j < p.len() ==> p[j] == (if j < 3 {
        a[j]
    } else if want_partials && (j == 3 * 7 || j == 3 * 8 + 1 || j == 3 * 9 + 2) {
        one
    } else {
        zero
    })
}

/// Builds the `particle_params` array: `[A1, A2, A3 | 0…0 for the state
/// variationals | 100, 010, 001 for the parameter variationals]`, the last
/// block only when `want_partials` is set.
pub fn particle_params_layout<T: Copy>(
    n_total: usize,
    a: [T; 3],
    zero: T,
    one: T,
    want_partials: bool,
) -> (p: Vec<T>)
    requires
        n_total >= 1,
        want_partials ==> n_total >= 10,
        3 * n_total <= usize::MAX,
    ensures
        is_params_layout(p@, n_total as nat, a@, zero, one, want_partials),
{
    let len = 3 * n_total;
    let mut p: Vec<T> = Vec::new();
    let mut j: usize = 0;
    while j < len
        invariant
            len == 3 * n_total,
            n_total >= 1,
            want_partials ==> n_total >= 10,
            j <= len,
            p@.len() == j,
            forall|k: int| #![trigger p@[k]] 0 <= k < j ==> p@[k] == (if k < 3 {
                a@[k]
            } else if want_partials && (k == 3 * 7 || k == 3 * 8 + 1 || k == 3 * 9 + 2) {
                one
            } else {
                zero
            }),
        decreases len - j,
    {
        let v = if j < 3 {
            a[j]
        } else if want_partials && (j == 21 || j == 25 || j == 29) {
            one
        } else {
            zero
        };
        p.push(v);
        j = j + 1;
    }
    p
}

/// What the `particle_params` layout holds, particle by particle (three
/// values per particle, particle 0 the test particle, then its variational
/// particles): the test particle carries A1, A2, A3; the six state
/// variationals present carry zeros; with partials, the parameter variational for
/// A1, A2, A3 (the particle after the state variationals, plus k) carries
/// a unit value in column k and zeros elsewhere; without partials every
/// entry past the test particle is zero.
pub proof fn lemma_params_layout<T>(
    p: Seq<T>,
    n_total: nat,
    a: Seq<T>,
    zero: T,
    one: T,
    want_partials: bool,
)
    requires
        is_params_layout(p, n_total, a, zero, one, want_partials),
        n_total >= 1,
        want_partials ==> n_total >= 10,
    ensures
        forall|k: int| 0 <= k < 3 ==> p[k] == a[k],
        forall|q: int, k: int|
            1 <= q <= variational_particles(true, false) && q < n_total && 0 <= k < 3
                ==> #[trigger] p[3 * q + k] == zero,
        want_partials ==> forall|j: int, k: int|
            0 <= j < 3 && 0 <= k < 3 ==> #[trigger] p[3 * (1 + variational_particles(true, false) + j)
                + k] == (if j == k { one } else { zero }),
        !want_partials ==> forall|i: int| 3 <= i < p.len() ==> #[trigger] p[i] == zero,
        p.len() == 3 * n_total,
{
    assert forall|q: int, k: int|
        1 <= q <= variational_particles(true, false) && q < n_total && 0 <= k < 3 implies #[trigger] p[3
            * q + k] == zero by {
        assert(p[3 * q + k] == (if 3 * q + k < 3 {
            a[3 * q + k]
        } else if want_partials && (3 * q + k == 3 * 7 || 3 * q + k == 3 * 8 + 1 || 3 * q + k == 3 * 9
            + 2) {
            one
        } else {
            zero
        }));
    }
    if want_partials {
        assert forall|j: int, k: int| 0 <= j < 3 && 0 <= k < 3 implies #[trigger] p[3 * (1
            + variational_particles(true, false) + j) + k] == (if j == k { one } else { zero }) by {
            let i = 3 * (1 + variational_particles(true, false) + j) + k;
            assert(i == 21 + 3 * j + k);
            assert(p[i] == (if i < 3 {
                a[i]
            } else if want_partials && (i == 3 * 7 || i == 3 * 8 + 1 || i == 3 * 9 + 2) {
                one
            } else {
                zero
            }));
        }
    }
}

/// How a batch is spread over threads.
#[derive(Debug, Clone, Copy, PartialEq, Eq, Structural)]
pub enum ThreadPlan {
    /// Run on the default global pool (typically one worker per core).
    GlobalPool,
    /// Run serially on the calling thread.
    Serial,
    /// Run on a dedicated pool with exactly this many workers (at least two).
    Dedicated(usize),
}

/// The error text for a zero thread count.
pub open spec fn zero_threads_message() -> Seq<char> {
    "num_threads = Some(0) is not valid; use None for the default pool"@
}

/// The plan for a requested thread count: `None` = global pool,
/// `Some(1)` = serial, `Some(n)` = dedicated pool of `n`, `Some(0)` = error.
pub open spec fn thread_plan_for(num_threads: Option<usize>) -> Option<ThreadPlan> {
    match num_threads {
        None => Some(ThreadPlan::GlobalPool),
        Some(n) => if n == 0 {
            None
        } else if n == 1 {
            Some(ThreadPlan::Serial)
        } else {
            Some(ThreadPlan::Dedicated(n))
        },
    }
}

/// Decides how a batch is dispatched: `None` uses the default global pool,
/// `Some(1)` runs serially, `Some(n)` builds a pool of exactly `n` workers,
/// and `Some(0)` is refused.
pub fn thread_plan(num_threads: Option<usize>) -> (r: Result<ThreadPlan, Error>)
    ensures
        match thread_plan_for(num_threads) {
            Some(plan) => r == Ok::<ThreadPlan, Error>(plan),
            None => r matches Err(Error::Other(m)) && m@ == zero_threads_message(),
        },
        num_threads is None ==> r == Ok::<ThreadPlan, Error>(ThreadPlan::GlobalPool),
        num_threads == Some(1usize) ==> r == Ok::<ThreadPlan, Error>(ThreadPlan::Serial),
        num_threads matches Some(n) ==> (n >= 2 ==> r == Ok::<ThreadPlan, Error>(
            ThreadPlan::Dedicated(n),
        )),
        num_threads == Some(0usize) ==> r is Err,
{
    match num_threads {
        None => Ok(ThreadPlan::GlobalPool),
        Some(0) => Err(
            Error::Other(
                String::from_str("num_threads = Some(0) is not valid; use None for the default pool"),
            ),
        ),
        Some(1) => Ok(ThreadPlan::Serial),
        Some(n) => Ok(ThreadPlan::Dedicated(n)),
    }
}

/// `None` runs on the global pool, `Some(1)` (and only it) serially, every
/// `Some(n)` with `n >= 2` on a dedicated pool of exactly `n` workers, and
/// `Some(0)` is refused.
pub proof fn lemma_thread_plans(n: usize)
    ensures
        thread_plan_for(None) == Some(ThreadPlan::GlobalPool),
        thread_plan_for(Some(0usize)) is None,
        n >= 2 ==> thread_plan_for(Some(n)) == Some(ThreadPlan::Dedicated(n)),
        thread_plan_for(Some(n)) == Some(ThreadPlan::Serial) <==> n == 1,
        thread_plan_for(Some(n)) matches Some(ThreadPlan::Dedicated(w)) ==> w == n && w >= 2,
{
}

/// The error text when an orbit does not fit a pool's configuration.
pub open spec fn pool_mismatch_message(orbit_has_nongrav: bool, pool_has_nongrav: bool) -> Seq<
    char,
> {
    "orbit non-grav flag ("@ + bool_text(orbit_has_nongrav)
        + ") does not match pool config has_nongrav ("@ + bool_text(pool_has_nongrav)
        + ") — rebuild the pool with a matching config"@
}

/// A pool only serves orbits whose non-grav flag matches its configuration,
/// because the variational dimension is fixed when the pool is built.
pub fn check_pool_orbit(config: PropagatorConfig, orbit_has_nongrav: bool) -> (r: Result<
    (),
    Error,
>)
    ensures
        r is Ok <==> orbit_has_nongrav == config.has_nongrav,
        r matches Err(e) ==> (e matches Error::Other(m) && m@ == pool_mismatch_message(
            orbit_has_nongrav,
            config.has_nongrav,
        )),
{
    if orbit_has_nongrav != config.has_nongrav {
        let mut m = String::from_str("orbit non-grav flag (");
        push_bool(&mut m, orbit_has_nongrav);
        m.append(") does not match pool config has_nongrav (");
        push_bool(&mut m, config.has_nongrav);
        m.append(") — rebuild the pool with a matching config");
        return Err(Error::Other(m));
    }
    Ok(())
}

/// The variational dimension is 0, 6 or 9 and grows with the configuration:
/// a pool that computes partials always has the six state columns, and the
/// three parameter columns exactly when it also carries non-grav parameters.
pub proof fn lemma_variational_layout(config: PropagatorConfig)
    ensures
        variational_particles(config.compute_stm, config.has_nongrav) == 0
            || variational_particles(config.compute_stm, config.has_nongrav) == 6
            || variational_particles(config.compute_stm, config.has_nongrav) == 9,
        config.compute_stm <==> variational_particles(config.compute_stm, config.has_nongrav) >= 6,
        variational_particles(config.compute_stm, config.has_nongrav) == 9 <==> (config.compute_stm
            && config.has_nongrav),
{
}

} // verus!
