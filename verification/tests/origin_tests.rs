use assist_rs::ffi::{ASSIST_BODY_EARTH, ASSIST_BODY_JUPITER, ASSIST_BODY_SUN};
use assist_rs::Error;
use assist_rs::Origin;

#[test]
fn parses_known_body_names() {
    assert!(matches!(Origin::parse("earth").unwrap(), Origin::Earth));
    assert!(matches!(
        Origin::parse("JUPITER_BARYCENTER").unwrap(),
        Origin::JupiterBarycenter
    ));
    assert!(matches!(
        Origin::parse("ssb").unwrap(),
        Origin::SolarSystemBarycenter
    ));
}

#[test]
fn parses_three_char_mpc_codes() {
    match Origin::parse("I11").unwrap() {
        Origin::Observatory(c) => assert_eq!(c, "I11"),
        other => panic!("expected observatory, got {other:?}"),
    }
    // Numeric and mixed are fine.
    assert!(matches!(Origin::parse("500"), Ok(Origin::Observatory(_))));
    assert!(matches!(Origin::parse("W84"), Ok(Origin::Observatory(_))));
}

#[test]
fn rejects_typoed_body_names() {
    let err = Origin::parse("earty").unwrap_err();
    assert!(err.message().contains("neither a known body name"));
}

#[test]
fn rejects_non_three_char_strings() {
    assert!(Origin::parse("ABCD").is_err());
    assert!(Origin::parse("AB").is_err());
    assert!(Origin::parse("").is_err());
    // Non-alphanumeric.
    assert!(Origin::parse("I-1").is_err());
}

#[test]
fn body_names_ignore_letter_case_and_accept_long_forms() {
    assert!(matches!(Origin::parse("Earth").unwrap(), Origin::Earth));
    assert!(matches!(Origin::parse("MOON").unwrap(), Origin::Moon));
    assert!(matches!(Origin::parse("sUn").unwrap(), Origin::Sun));
    assert!(matches!(Origin::parse("Solar_System_Barycenter").unwrap(), Origin::SolarSystemBarycenter));
    assert!(matches!(Origin::parse("mars_barycenter").unwrap(), Origin::MarsBarycenter));
    assert!(matches!(Origin::parse("mercury").unwrap(), Origin::MercuryBarycenter));
    assert!(matches!(Origin::parse("VENUS_BARYCENTER").unwrap(), Origin::VenusBarycenter));
    assert!(matches!(Origin::parse("saturn").unwrap(), Origin::SaturnBarycenter));
    assert!(matches!(Origin::parse("uranus").unwrap(), Origin::UranusBarycenter));
    assert!(matches!(Origin::parse("neptune_barycenter").unwrap(), Origin::NeptuneBarycenter));
    assert!(matches!(Origin::parse("Pluto").unwrap(), Origin::PlutoBarycenter));
}

#[test]
fn three_letter_body_names_win_over_mpc_codes() {
    // "SUN" and "SSB" are 3 alphanumeric characters but name bodies.
    assert!(matches!(Origin::parse("SUN").unwrap(), Origin::Sun));
    assert!(matches!(Origin::parse("SSB").unwrap(), Origin::SolarSystemBarycenter));
}

#[test]
fn mpc_codes_keep_their_letter_case() {
    let o = Origin::parse("w84").unwrap();
    assert_eq!(o.observatory_code(), Some("w84"));
    assert_eq!(Origin::parse("F51").unwrap().observatory_code(), Some("F51"));
    assert_eq!(Origin::Earth.observatory_code(), None);
}

#[test]
fn non_ascii_three_character_strings_are_rejected() {
    // Three characters but more than three bytes.
    assert!(Origin::parse("é11").is_err());
}

#[test]
fn invalid_origin_message_quotes_the_input() {
    match Origin::parse("earty") {
        Err(Error::InvalidBody(m)) => {
            assert_eq!(
                m,
                "\"earty\" is neither a known body name nor a valid 3-character MPC code"
            );
        }
        other => panic!("expected InvalidBody, got {other:?}"),
    }
    let e = Origin::parse("x\"y").unwrap_err();
    assert!(e.message().starts_with("invalid body: \"x\\\"y\""));
}

#[test]
fn body_ids_follow_the_assist_numbering() {
    assert_eq!(Origin::Sun.body_id(), Some(ASSIST_BODY_SUN));
    assert_eq!(Origin::Earth.body_id(), Some(ASSIST_BODY_EARTH));
    assert_eq!(Origin::JupiterBarycenter.body_id(), Some(ASSIST_BODY_JUPITER));
    assert_eq!(Origin::PlutoBarycenter.body_id(), Some(10));
    assert_eq!(Origin::SolarSystemBarycenter.body_id(), None);
    assert_eq!(Origin::Observatory("I11".to_string()).body_id(), None);
}

#[test]
fn any_three_alphanumerics_other_than_sun_and_ssb_are_observatory_codes() {
    for code in ["I11", "W84", "500", "f51", "Sux", "SSA", "mon"] {
        let o = Origin::parse(code).unwrap();
        assert_eq!(o.observatory_code(), Some(code));
        assert_eq!(o.body_id(), None);
    }
    for name in ["SUN", "Ssb"] {
        assert_eq!(Origin::parse(name).unwrap().observatory_code(), None);
    }
    assert_eq!(Origin::Earth.observatory_code(), None);
    assert_eq!(Origin::SolarSystemBarycenter.observatory_code(), None);
}
