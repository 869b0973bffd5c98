//! Integer constants and opaque handle types of the REBOUND / ASSIST C interface.

use vstd::prelude::*;

verus! {

/// Opaque REBOUND simulation; only ever handled through pointers.
pub struct reb_simulation {
    _opaque: [u8; 0],
}

/// Opaque ASSIST ephemeris data; only ever handled through pointers.
pub struct assist_ephem {
    _opaque: [u8; 0],
}

/// Opaque ASSIST extras (ASSIST forces attached to a REBOUND simulation).
pub struct assist_extras {
    _opaque: [u8; 0],
}

// REBOUND integrator IDs.
pub const REB_INTEGRATOR_IAS15: i32 = 0;
pub const REB_INTEGRATOR_WHFAST: i32 = 1;

// REBOUND gravity modes.
pub const REB_GRAVITY_NONE: i32 = 0;
pub const REB_GRAVITY_BASIC: i32 = 1;

// REBOUND status codes.
pub const REB_STATUS_SUCCESS: i32 = 0;
pub const REB_STATUS_RUNNING: i32 = -1;
pub const REB_STATUS_GENERIC_ERROR: i32 = 1;
pub const REB_STATUS_NO_PARTICLES: i32 = 2;
pub const REB_STATUS_ENCOUNTER: i32 = 3;
pub const REB_STATUS_ESCAPE: i32 = 4;
pub const REB_STATUS_COLLISION: i32 = 7;

// ASSIST body IDs.
pub const ASSIST_BODY_SUN: i32 = 0;
pub const ASSIST_BODY_MERCURY: i32 = 1;
pub const ASSIST_BODY_VENUS: i32 = 2;
pub const ASSIST_BODY_EARTH: i32 = 3;
pub const ASSIST_BODY_MOON: i32 = 4;
pub const ASSIST_BODY_MARS: i32 = 5;
pub const ASSIST_BODY_JUPITER: i32 = 6;
pub const ASSIST_BODY_SATURN: i32 = 7;
pub const ASSIST_BODY_URANUS: i32 = 8;
pub const ASSIST_BODY_NEPTUNE: i32 = 9;
pub const ASSIST_BODY_PLUTO: i32 = 10;
pub const ASSIST_BODY_NPLANETS: i32 = 11;

// ASSIST force flags.
pub const ASSIST_FORCE_SUN: i32 = 0x01;
pub const ASSIST_FORCE_PLANETS: i32 = 0x02;
pub const ASSIST_FORCE_ASTEROIDS: i32 = 0x04;
pub const ASSIST_FORCE_NON_GRAVITATIONAL: i32 = 0x08;
pub const ASSIST_FORCE_EARTH_HARMONICS: i32 = 0x10;
pub const ASSIST_FORCE_SUN_HARMONICS: i32 = 0x20;
pub const ASSIST_FORCE_GR_EIH: i32 = 0x40;
pub const ASSIST_FORCE_GR_SIMPLE: i32 = 0x80;
pub const ASSIST_FORCE_GR_POTENTIAL: i32 = 0x100;

/// Default force flags: Sun + planets + asteroids + Earth J2/J3/J4 + Sun J2 + GR (EIH).
pub const ASSIST_FORCES_DEFAULT: i32 = 0x77;

// ASSIST status codes.
pub const ASSIST_SUCCESS: i32 = 0;
pub const ASSIST_ERROR_EPHEM_FILE: i32 = 1;
pub const ASSIST_ERROR_AST_FILE: i32 = 2;

/// The default force set is exactly the union of its six components.
pub proof fn lemma_default_forces_are_union()
    ensures
        ASSIST_FORCES_DEFAULT == (ASSIST_FORCE_SUN | ASSIST_FORCE_PLANETS | ASSIST_FORCE_ASTEROIDS
            | ASSIST_FORCE_EARTH_HARMONICS | ASSIST_FORCE_SUN_HARMONICS | ASSIST_FORCE_GR_EIH),
{
    assert((0x01i32 | 0x02i32 | 0x04i32 | 0x10i32 | 0x20i32 | 0x40i32) == 0x77i32) by (bit_vector);
}

} // verus!
