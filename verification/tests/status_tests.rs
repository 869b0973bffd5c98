use assist_rs::ffi::{
    ASSIST_FORCES_DEFAULT, REB_STATUS_COLLISION, REB_STATUS_ENCOUNTER, REB_STATUS_ESCAPE,
    REB_STATUS_GENERIC_ERROR, REB_STATUS_NO_PARTICLES, REB_STATUS_RUNNING, REB_STATUS_SUCCESS,
};
use assist_rs::status::integration_outcome;
use assist_rs::text::{push_decimal, push_signed_decimal};
use assist_rs::Error;

#[test]
fn integration_status_codes_map_to_errors() {
    assert!(integration_outcome(REB_STATUS_SUCCESS).is_ok());
    assert!(integration_outcome(REB_STATUS_RUNNING).is_ok());
    assert!(matches!(integration_outcome(REB_STATUS_NO_PARTICLES), Err(Error::NoParticles)));
    assert!(matches!(integration_outcome(REB_STATUS_ENCOUNTER), Err(Error::CloseEncounter)));
    assert!(matches!(integration_outcome(REB_STATUS_ESCAPE), Err(Error::Escape)));
    assert!(matches!(integration_outcome(REB_STATUS_COLLISION), Err(Error::Collision)));
    assert!(matches!(
        integration_outcome(REB_STATUS_GENERIC_ERROR),
        Err(Error::IntegrationFailed(1))
    ));
    assert!(matches!(integration_outcome(-7), Err(Error::IntegrationFailed(-7))));
}

#[test]
fn error_messages() {
    assert_eq!(
        Error::NoParticles.message(),
        "integration ended: no particles remain in the simulation"
    );
    assert_eq!(Error::Collision.message(), "integration ended: collision");
    assert_eq!(
        Error::IntegrationFailed(-12).message(),
        "REBOUND integration failed with status -12"
    );
    assert_eq!(
        Error::EphemerisError("bad".to_string()).message(),
        "ASSIST ephemeris error: bad"
    );
    assert_eq!(Error::Other("plain".to_string()).message(), "plain");
    assert_eq!(
        Error::LightTimeConvergence(10).message(),
        "light-time iteration did not converge in 10 iterations"
    );
    let io = Error::Io(std::io::Error::new(std::io::ErrorKind::NotFound, "gone"));
    assert_eq!(io.message(), "I/O error: gone");
}

#[test]
fn decimal_rendering() {
    let mut s = String::from("n=");
    push_decimal(&mut s, 0);
    assert_eq!(s, "n=0");
    let mut s = String::new();
    push_decimal(&mut s, u64::MAX);
    assert_eq!(s, u64::MAX.to_string());
    let mut s = String::new();
    push_signed_decimal(&mut s, i32::MIN);
    assert_eq!(s, i32::MIN.to_string());
    let mut s = String::new();
    push_signed_decimal(&mut s, 907);
    assert_eq!(s, "907");
}

#[test]
fn default_force_set_value() {
    assert_eq!(ASSIST_FORCES_DEFAULT, 0x01 | 0x02 | 0x04 | 0x10 | 0x20 | 0x40);
}
