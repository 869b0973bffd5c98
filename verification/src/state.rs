//! Where the state of an origin comes from: an ephemeris body, the solar
//! system barycenter, or an observatory looked up in the observatory table.

use vstd::prelude::*;
use vstd::string::*;
use crate::origin::{Origin, body_id_of};
use crate::observatory::{ObservatoryFrame, frame_for, observatory_frame};
use crate::status::Error;

verus! {

/// The source of an origin's heliocentric state.
#[derive(Debug, Clone)]
pub enum StateSource {
    /// A body served by the ASSIST ephemeris, by its body id.
    Body(i32),
    /// The solar system barycenter (the negated barycentric Sun).
    Barycenter,
    /// An observatory, by its MPC code.
    Observatory(String),
}

/// The text of the error for an observatory origin queried without a table.
pub open spec fn table_required_message() -> Seq<char> {
    "Observatory table required for observatory codes"@
}

/// Picks the source for an origin's state. Observatory origins need the
/// observatory table.
pub fn state_source(origin: &Origin, has_table: bool) -> (r: Result<StateSource, Error>)
    ensures
        body_id_of(*origin) matches Some(id) ==> r matches Ok(StateSource::Body(b)) && b == id,
        (*origin is SolarSystemBarycenter) ==> r matches Ok(StateSource::Barycenter),
        (*origin is Observatory && has_table) ==> (r matches Ok(StateSource::Observatory(c))
            && Some(c@) == crate::origin::observatory_code_of(*origin)),
        (*origin is Observatory && !has_table) ==> (r matches Err(Error::Other(m)) && m@
            == table_required_message()),
{
    if let Some(id) = origin.body_id() {
        return Ok(StateSource::Body(id));
    }
    match origin {
        Origin::Observatory(code) => {
            if has_table {
                Ok(StateSource::Observatory(code.clone()))
            } else {
                Err(Error::Other(String::from_str("Observatory table required for observatory codes")))
            }
        },
        _ => Ok(StateSource::Barycenter),
    }
}

/// The text of the error for a code missing from the observatory table.
pub open spec fn unknown_code_message(code: Seq<char>) -> Seq<char> {
    "Unknown MPC code: "@ + code
}

/// Decides how an observatory is placed once it was looked up: `entry` is
/// `None` when the code is not in the table, otherwise whether the entry is
/// space-based.
pub fn observatory_placement(code: &str, entry: Option<bool>, has_earth_orientation: bool) -> (r: Result<
    ObservatoryFrame,
    Error,
>)
    ensures
        entry is None ==> (r matches Err(Error::InvalidObservatory(m)) && m@ == unknown_code_message(
            code@,
        )),
        entry matches Some(space) ==> match frame_for(space, code@, has_earth_orientation) {
            Some(f) => r == Ok::<ObservatoryFrame, Error>(f),
            None => r matches Err(Error::MissingEarthOrientation(c)) && c@ == code@,
        },
        entry == Some(true) || (entry is Some && code@ == "500"@) ==> r == Ok::<
            ObservatoryFrame,
            Error,
        >(ObservatoryFrame::Geocentric),
        entry == Some(false) && code@ != "500"@ && has_earth_orientation ==> r == Ok::<
            ObservatoryFrame,
            Error,
        >(ObservatoryFrame::Ground),
        entry == Some(false) && code@ != "500"@ && !has_earth_orientation ==> (r matches Err(
            Error::MissingEarthOrientation(c),
        ) && c@ == code@),
{
    match entry {
        None => Err(Error::InvalidObservatory(String::from_str("Unknown MPC code: ").concat(code))),
        Some(space) => observatory_frame(space, code, has_earth_orientation),
    }
}

} // verus!
