//! The crate's error type and the meaning of REBOUND integration status codes.

use vstd::prelude::*;
use vstd::string::*;
use crate::ffi::{
    REB_STATUS_COLLISION, REB_STATUS_ENCOUNTER, REB_STATUS_ESCAPE, REB_STATUS_NO_PARTICLES,
    REB_STATUS_RUNNING, REB_STATUS_SUCCESS,
};
use crate::text::{decimal, push_decimal, push_signed_decimal, signed_decimal};

verus! {

#[verifier::external_type_specification]
#[verifier::external_body]
pub struct ExIoError(std::io::Error);

/// Error type for assist-rs operations.
#[derive(Debug)]
pub enum Error {
    /// Integration ended early because no particles remain (`REB_STATUS_NO_PARTICLES`).
    NoParticles,
    /// Integration ended early because two particles had a close encounter
    /// (`REB_STATUS_ENCOUNTER`; triggered by `exit_min_distance`).
    CloseEncounter,
    /// Integration ended early because a particle escaped
    /// (`REB_STATUS_ESCAPE`; triggered by `exit_max_distance`).
    Escape,
    /// Integration ended early because two particles collided (`REB_STATUS_COLLISION`).
    Collision,
    /// REBOUND returned a generic/unknown error status; holds the raw code.
    IntegrationFailed(i32),
    /// The ASSIST ephemeris could not be loaded or queried.
    EphemerisError(String),
    /// A string is neither a known body name nor a valid MPC code.
    InvalidBody(String),
    /// An MPC code is not in the observatory table.
    InvalidObservatory(String),
    /// A ground observatory was queried without an Earth orientation kernel.
    MissingEarthOrientation(String),
    /// Light-time iteration did not converge within the given number of iterations.
    LightTimeConvergence(usize),
    /// An I/O failure.
    Io(std::io::Error),
    /// Anything else.
    Other(String),
}

/// The message of every variant but `Io`, whose text comes from the
/// operating system.
pub open spec fn error_message(e: Error) -> Seq<char> {
    match e {
        Error::NoParticles => "integration ended: no particles remain in the simulation"@,
        Error::CloseEncounter => "integration ended: close encounter"@,
        Error::Escape => "integration ended: particle escape"@,
        Error::Collision => "integration ended: collision"@,
        Error::IntegrationFailed(code) => "REBOUND integration failed with status "@
            + signed_decimal(code as int),
        Error::EphemerisError(m) => "ASSIST ephemeris error: "@ + m@,
        Error::InvalidBody(m) => "invalid body: "@ + m@,
        Error::InvalidObservatory(m) => "invalid observatory: "@ + m@,
        Error::MissingEarthOrientation(code) => "no Earth orientation kernel attached for ground observatory "@
            + code@,
        Error::LightTimeConvergence(n) => "light-time iteration did not converge in "@
            + decimal(n as nat) + " iterations"@,
        Error::Io(_) => "I/O error: "@,
        Error::Other(m) => m@,
    }
}

/// Display text of an I/O error, as written by std.
///
/// Trusted: nothing is stated of the text, which the operating system supplies.
#[verifier::external_body]
pub(crate) fn io_error_text(e: &std::io::Error) -> String {
    format!("{e}")
}

impl Error {
    /// The human-readable message of this error (what `Display` shows).
    pub fn message(&self) -> (r: String)
        ensures
            !(*self is Io) ==> r@ == error_message(*self),
            (*self is Io) ==> r@.len() >= error_message(*self).len()
                && r@.subrange(0, error_message(*self).len() as int) == error_message(*self),
    {
        match self {
            Error::NoParticles => String::from_str(
                "integration ended: no particles remain in the simulation",
            ),
            Error::CloseEncounter => String::from_str("integration ended: close encounter"),
            Error::Escape => String::from_str("integration ended: particle escape"),
            Error::Collision => String::from_str("integration ended: collision"),
            Error::IntegrationFailed(code) => {
                let mut s = String::from_str("REBOUND integration failed with status ");
                push_signed_decimal(&mut s, *code);
                s
            },
            Error::EphemerisError(m) => String::from_str("ASSIST ephemeris error: ").concat(
                m.as_str(),
            ),
            Error::InvalidBody(m) => String::from_str("invalid body: ").concat(m.as_str()),
            Error::InvalidObservatory(m) => String::from_str("invalid observatory: ").concat(
                m.as_str(),
            ),
            Error::MissingEarthOrientation(code) => String::from_str(
                "no Earth orientation kernel attached for ground observatory ",
            ).concat(code.as_str()),
            Error::LightTimeConvergence(n) => {
                let mut s = String::from_str("light-time iteration did not converge in ");
                push_decimal(&mut s, *n as u64);
                s.append(" iterations");
                s
            },
            Error::Io(e) => {
                let t = io_error_text(e);
                let s = String::from_str("I/O error: ").concat(t.as_str());
                proof {
                    assert(s@.subrange(0, "I/O error: "@.len() as int) =~= "I/O error: "@);
                }
                s
            },
            Error::Other(m) => m.clone(),
        }
    }
}

/// What a REBOUND `reb_simulation_integrate` status code means for the caller.
pub open spec fn status_outcome(status: i32) -> Result<(), Error> {
    if status == REB_STATUS_SUCCESS || status == REB_STATUS_RUNNING {
        Ok(())
    } else if status == REB_STATUS_NO_PARTICLES {
        Err(Error::NoParticles)
    } else if status == REB_STATUS_ENCOUNTER {
        Err(Error::CloseEncounter)
    } else if status == REB_STATUS_ESCAPE {
        Err(Error::Escape)
    } else if status == REB_STATUS_COLLISION {
        Err(Error::Collision)
    } else {
        Err(Error::IntegrationFailed(status))
    }
}

/// Maps the status code returned by an integration to `Ok` or the matching error.
pub fn integration_outcome(status: i32) -> (r: Result<(), Error>)
    ensures
        r == status_outcome(status),
{
    if status == REB_STATUS_SUCCESS || status == REB_STATUS_RUNNING {
        Ok(())
    } else if status == REB_STATUS_NO_PARTICLES {
        Err(Error::NoParticles)
    } else if status == REB_STATUS_ENCOUNTER {
        Err(Error::CloseEncounter)
    } else if status == REB_STATUS_ESCAPE {
        Err(Error::Escape)
    } else if status == REB_STATUS_COLLISION {
        Err(Error::Collision)
    } else {
        Err(Error::IntegrationFailed(status))
    }
}

/// An integration succeeds exactly on the success and still-running codes,
/// and a failed integration always carries its code back unless it is one
/// of the named exit conditions.
pub proof fn lemma_status_outcome_ok_iff_success(status: i32)
    ensures
        status_outcome(status) is Ok <==> (status == REB_STATUS_SUCCESS || status
            == REB_STATUS_RUNNING),
        status_outcome(status) matches Err(Error::IntegrationFailed(code)) ==> code == status,
        status_outcome(status) matches Err(Error::IntegrationFailed(_)) ==> status
            != REB_STATUS_NO_PARTICLES && status != REB_STATUS_ENCOUNTER && status
            != REB_STATUS_ESCAPE && status != REB_STATUS_COLLISION,
{
}

/// REBOUND's status codes and what an integration ending with each means:
/// 0 (success) and -1 (still running) succeed; 2 is "no particles", 3 a close
/// encounter, 4 an escape, 7 a collision; every other code, the generic
/// error 1 among them, fails carrying that code.
pub proof fn lemma_status_codes(status: i32)
    ensures
        status_outcome(0i32) is Ok,
        status_outcome(-1i32) is Ok,
        status_outcome(2i32) matches Err(Error::NoParticles),
        status_outcome(3i32) matches Err(Error::CloseEncounter),
        status_outcome(4i32) matches Err(Error::Escape),
        status_outcome(7i32) matches Err(Error::Collision),
        status_outcome(1i32) matches Err(Error::IntegrationFailed(c)) && c == 1,
        (status != 0 && status != -1 && status != 2 && status != 3 && status != 4 && status != 7)
            ==> (status_outcome(status) matches Err(Error::IntegrationFailed(c)) && c == status),
{
}

} // verus!
