use assist_rs::observatory::{
    classify_entry, observatory_frame, CoordField, EntryFields, EntryShape, NameField, ObservatoryFrame,
};
use assist_rs::state::{observatory_placement, state_source, StateSource};
use assist_rs::{Error, Origin};

fn num(present: bool) -> CoordField {
    if present { CoordField::Number } else { CoordField::Absent }
}

fn fields(name: NameField, lon: bool, cos: bool, sin: bool) -> EntryFields {
    EntryFields { is_object: true, name, longitude: num(lon), cos: num(cos), sin: num(sin) }
}

#[test]
fn classifies_ground_and_space_based_entries() {
    let ground = classify_entry("I11", fields(NameField::Text("Gemini South".into()), true, true, true));
    assert!(matches!(ground, Ok(EntryShape::Ground { ref name }) if name == "Gemini South"));
    let space = classify_entry("250", fields(NameField::Text("HST".into()), false, false, false));
    assert!(matches!(space, Ok(EntryShape::SpaceBased { ref name }) if name == "HST"));
}

#[test]
fn rejects_partial_surface_coordinates() {
    // {"X": {"Longitude": 1.0, "cos": 0.5, "Name": "missing sin"}}
    let err = classify_entry("X", fields(NameField::Text("missing sin".into()), true, true, false))
        .unwrap_err();
    assert!(err.message().contains("partial surface coordinates"));
}

#[test]
fn partial_surface_coordinates_message_lists_the_fields() {
    let err = classify_entry("X", fields(NameField::Text("missing sin".into()), true, true, false))
        .unwrap_err();
    assert_eq!(
        err.message(),
        "observatory entry \"X\": partial surface coordinates (Longitude=true, cos=true, sin=false); ground entries need all three, space-based entries need none"
    );
}

#[test]
fn rejects_missing_name() {
    // {"X": {"Longitude": 1.0, "cos": 0.5, "sin": 0.5}}
    let err = classify_entry("X", fields(NameField::Missing, true, true, true)).unwrap_err();
    assert!(err.message().contains("missing Name"));
}

#[test]
fn rejects_non_numeric_coords() {
    // {"X": {"Longitude": "deg", "cos": 0.5, "sin": 0.5, "Name": "broken"}}
    let f = EntryFields {
        is_object: true,
        name: NameField::Text("broken".into()),
        longitude: CoordField::NotANumber,
        cos: CoordField::Number,
        sin: CoordField::Number,
    };
    let err = classify_entry("X", f).unwrap_err();
    assert!(err.message().contains("Longitude is not a number"));
}

#[test]
fn names_the_first_non_numeric_coordinate() {
    let f = EntryFields {
        is_object: true,
        name: NameField::Text("broken".into()),
        longitude: CoordField::Number,
        cos: CoordField::NotANumber,
        sin: CoordField::NotANumber,
    };
    assert_eq!(
        classify_entry("X", f).unwrap_err().message(),
        "observatory entry \"X\": cos is not a number"
    );
    let f = EntryFields {
        is_object: true,
        name: NameField::Text("broken".into()),
        longitude: CoordField::Number,
        cos: CoordField::Number,
        sin: CoordField::NotANumber,
    };
    assert_eq!(
        classify_entry("X", f).unwrap_err().message(),
        "observatory entry \"X\": sin is not a number"
    );
}

#[test]
fn rejects_entries_without_a_string_name_or_not_objects() {
    let err = classify_entry("X", fields(NameField::NotAString, true, true, true)).unwrap_err();
    assert_eq!(err.message(), "observatory entry \"X\": Name is not a string");
    let not_obj = EntryFields {
        is_object: false,
        name: NameField::Missing,
        longitude: CoordField::Absent,
        cos: CoordField::Absent,
        sin: CoordField::Absent,
    };
    assert_eq!(
        classify_entry("Y", not_obj).unwrap_err().message(),
        "observatory entry \"Y\": expected JSON object"
    );
}

#[test]
fn observatory_frames() {
    assert_eq!(observatory_frame(true, "250", false).unwrap(), ObservatoryFrame::Geocentric);
    assert_eq!(observatory_frame(false, "500", false).unwrap(), ObservatoryFrame::Geocentric);
    assert_eq!(observatory_frame(false, "I11", true).unwrap(), ObservatoryFrame::Ground);
    match observatory_frame(false, "I11", false) {
        Err(Error::MissingEarthOrientation(c)) => assert_eq!(c, "I11"),
        other => panic!("expected MissingEarthOrientation, got {other:?}"),
    }
}

#[test]
fn state_sources() {
    assert!(matches!(state_source(&Origin::Earth, false), Ok(StateSource::Body(3))));
    assert!(matches!(
        state_source(&Origin::SolarSystemBarycenter, false),
        Ok(StateSource::Barycenter)
    ));
    let obs = Origin::Observatory("I11".into());
    assert!(matches!(state_source(&obs, true), Ok(StateSource::Observatory(ref c)) if c == "I11"));
    match state_source(&obs, false) {
        Err(Error::Other(m)) => assert_eq!(m, "Observatory table required for observatory codes"),
        other => panic!("expected error, got {other:?}"),
    }
    match observatory_placement("Z99", None, true) {
        Err(Error::InvalidObservatory(m)) => assert_eq!(m, "Unknown MPC code: Z99"),
        other => panic!("expected InvalidObservatory, got {other:?}"),
    }
    assert_eq!(observatory_placement("I11", Some(false), true).unwrap(), ObservatoryFrame::Ground);
}
