//! Shape validation of MPC observatory-table entries, and the choice of how
//! an observatory's position is obtained.
//!
//! Each entry of `obscodes_extended.json` is a JSON object that is either
//! ground/geocentric (all of `Longitude`, `cos`, `sin` plus `Name`) or
//! space-based (only `Name`). Partial entries are rejected rather than
//! silently filled with defaults.

use vstd::prelude::*;
use vstd::string::*;
use crate::status::Error;
use crate::text::{bool_text, debug_quoted, push_bool, quote_debug, text_eq};

verus! {

/// The `Name` field of an entry as found in the JSON.
#[derive(Debug, Clone)]
pub enum NameField {
    Missing,
    NotAString,
    Text(String),
}

/// A surface coordinate field of an entry as found in the JSON.
#[derive(Debug, Clone, Copy, PartialEq, Eq, Structural)]
pub enum CoordField {
    Absent,
    /// Present, but not a JSON number.
    NotANumber,
    /// Present and a JSON number.
    Number,
}

/// What the shape check reads from one JSON entry.
#[derive(Debug, Clone)]
pub struct EntryFields {
    /// The entry is a JSON object.
    pub is_object: bool,
    pub name: NameField,
    pub longitude: CoordField,
    pub cos: CoordField,
    pub sin: CoordField,
}

/// The field is present in the entry.
pub open spec fn present(c: CoordField) -> bool {
    !(c is Absent)
}

/// The accepted shapes of an entry.
#[derive(Debug, Clone)]
pub enum EntryShape {
    /// Only a name: space-based, no surface coordinates.
    SpaceBased { name: String },
    /// Name plus all three surface coordinates, each a JSON number.
    Ground { name: String },
}

/// The text of an error about entry `code`.
pub open spec fn entry_message(code: Seq<char>, detail: Seq<char>) -> Seq<char> {
    "observatory entry "@ + debug_quoted(code) + ": "@ + detail
}

/// An error about the observatory entry `code`.
pub fn entry_error(code: &str, detail: &str) -> (e: Error)
    ensures
        e matches Error::Other(m) && m@ == entry_message(code@, detail@),
{
    let mut m = String::from_str("observatory entry ");
    let q = quote_debug(code);
    m.append(q.as_str());
    m.append(": ");
    m.append(detail);
    proof {
        assert(m@ =~= entry_message(code@, detail@));
    }
    Error::Other(m)
}

/// The detail text for an entry with some but not all surface coordinates.
pub open spec fn partial_detail(lon: bool, cos: bool, sin: bool) -> Seq<char> {
    "partial surface coordinates (Longitude="@ + bool_text(lon) + ", cos="@ + bool_text(cos)
        + ", sin="@ + bool_text(sin)
        + "); ground entries need all three, space-based entries need none"@
}

/// The outcome of checking an entry's shape.
pub open spec fn is_shape_result(code: Seq<char>, f: EntryFields, r: Result<EntryShape, Error>) -> bool {
    if !f.is_object {
        r matches Err(Error::Other(m)) && m@ == entry_message(code, "expected JSON object"@)
    } else {
        match f.name {
            NameField::Missing => r matches Err(Error::Other(m)) && m@ == entry_message(
                code,
                "missing Name"@,
            ),
            NameField::NotAString => r matches Err(Error::Other(m)) && m@ == entry_message(
                code,
                "Name is not a string"@,
            ),
            NameField::Text(name) => if !present(f.longitude) && !present(f.cos) && !present(
                f.sin,
            ) {
                r matches Ok(EntryShape::SpaceBased { name: n }) && n@ == name@
            } else if present(f.longitude) && present(f.cos) && present(f.sin) {
                if f.longitude == CoordField::NotANumber {
                    r matches Err(Error::Other(m)) && m@ == entry_message(
                        code,
                        "Longitude is not a number"@,
                    )
                } else if f.cos == CoordField::NotANumber {
                    r matches Err(Error::Other(m)) && m@ == entry_message(
                        code,
                        "cos is not a number"@,
                    )
                } else if f.sin == CoordField::NotANumber {
                    r matches Err(Error::Other(m)) && m@ == entry_message(
                        code,
                        "sin is not a number"@,
                    )
                } else {
                    r matches Ok(EntryShape::Ground { name: n }) && n@ == name@
                }
            } else {
                r matches Err(Error::Other(m)) && m@ == entry_message(
                    code,
                    partial_detail(present(f.longitude), present(f.cos), present(f.sin)),
                )
            },
        }
    }
}

/// Checks the shape of one observatory entry: it must be an object with a
/// string `Name`, and either all three surface coordinates, each a number,
/// or none. The first offending field, in the order `Longitude`, `cos`,
/// `sin`, is named in the error.
pub fn classify_entry(code: &str, fields: EntryFields) -> (r: Result<EntryShape, Error>)
    ensures
        is_shape_result(code@, fields, r),
{
    if !fields.is_object {
        return Err(entry_error(code, "expected JSON object"));
    }
    let name = match fields.name {
        NameField::Missing => {
            return Err(entry_error(code, "missing Name"));
        },
        NameField::NotAString => {
            return Err(entry_error(code, "Name is not a string"));
        },
        NameField::Text(n) => n,
    };
    let lon = !matches!(fields.longitude, CoordField::Absent);
    let cos = !matches!(fields.cos, CoordField::Absent);
    let sin = !matches!(fields.sin, CoordField::Absent);
    if !lon && !cos && !sin {
        Ok(EntryShape::SpaceBased { name })
    } else if lon && cos && sin {
        if matches!(fields.longitude, CoordField::NotANumber) {
            Err(entry_error(code, "Longitude is not a number"))
        } else if matches!(fields.cos, CoordField::NotANumber) {
            Err(entry_error(code, "cos is not a number"))
        } else if matches!(fields.sin, CoordField::NotANumber) {
            Err(entry_error(code, "sin is not a number"))
        } else {
            Ok(EntryShape::Ground { name })
        }
    } else {
        let mut d = String::from_str("partial surface coordinates (Longitude=");
        push_bool(&mut d, lon);
        d.append(", cos=");
        push_bool(&mut d, cos);
        d.append(", sin=");
        push_bool(&mut d, sin);
        d.append("); ground entries need all three, space-based entries need none");
        proof {
            assert(d@ =~= partial_detail(lon, cos, sin));
        }
        Err(entry_error(code, d.as_str()))
    }
}

/// How an observatory's heliocentric state is obtained.
#[derive(Debug, Clone, Copy, PartialEq, Eq, Structural)]
pub enum ObservatoryFrame {
    /// At the Earth's centre: space-based entries and the geocentric code "500".
    Geocentric,
    /// On the Earth's surface, rotated from ITRF93 by the Earth orientation kernel.
    Ground,
}

/// The frame of an observatory: geocentric for space-based entries and code
/// "500", otherwise ground-based, which needs an Earth orientation kernel.
pub open spec fn frame_for(space_based: bool, code: Seq<char>, has_earth_orientation: bool) -> Option<
    ObservatoryFrame,
> {
    if space_based || code == "500"@ {
        Some(ObservatoryFrame::Geocentric)
    } else if has_earth_orientation {
        Some(ObservatoryFrame::Ground)
    } else {
        None
    }
}

/// Chooses how to place an observatory. A ground observatory without an
/// attached Earth orientation kernel is an error, never a silent
/// low-precision fallback.
pub fn observatory_frame(space_based: bool, code: &str, has_earth_orientation: bool) -> (r: Result<
    ObservatoryFrame,
    Error,
>)
    ensures
        match frame_for(space_based, code@, has_earth_orientation) {
            Some(f) => r == Ok::<ObservatoryFrame, Error>(f),
            None => r matches Err(Error::MissingEarthOrientation(c)) && c@ == code@,
        },
        space_based || code@ == "500"@ ==> r == Ok::<ObservatoryFrame, Error>(
            ObservatoryFrame::Geocentric,
        ),
        !space_based && code@ != "500"@ && has_earth_orientation ==> r == Ok::<
            ObservatoryFrame,
            Error,
        >(ObservatoryFrame::Ground),
        !space_based && code@ != "500"@ && !has_earth_orientation ==> (r matches Err(
            Error::MissingEarthOrientation(c),
        ) && c@ == code@),
{
    if space_based || text_eq(code, "500") {
        Ok(ObservatoryFrame::Geocentric)
    } else if has_earth_orientation {
        Ok(ObservatoryFrame::Ground)
    } else {
        Err(Error::MissingEarthOrientation(code.to_owned()))
    }
}

/// Space-based entries and the code "500" are placed at the Earth's centre;
/// every other (ground) entry is placed on the Earth's surface when an Earth
/// orientation kernel is attached, and has no placement otherwise. Ground
/// positions are only ever produced with an Earth orientation kernel.
pub proof fn lemma_ground_needs_earth_orientation(space_based: bool, code: Seq<char>, eo: bool)
    ensures
        frame_for(space_based, code, eo) == Some(ObservatoryFrame::Ground) ==> eo && !space_based
            && code != "500"@,
        frame_for(space_based, code, eo) is None ==> !eo,
        code == "500"@ ==> frame_for(space_based, code, eo) == Some(ObservatoryFrame::Geocentric),
        space_based ==> frame_for(space_based, code, eo) == Some(ObservatoryFrame::Geocentric),
        !space_based && code != "500"@ && eo ==> frame_for(space_based, code, eo) == Some(
            ObservatoryFrame::Ground,
        ),
        !space_based && code != "500"@ && !eo ==> frame_for(space_based, code, eo) is None,
{
}

/// An object entry with a string name is space-based when it has none of
/// the surface coordinates and ground-based when it has all three as
/// numbers; with some but not all coordinates, or with a coordinate that is
/// not a number, it is rejected. An entry that is not an object, or has no
/// string name, is rejected too. Accepted entries keep their name.
pub proof fn lemma_entry_shapes(code: Seq<char>, f: EntryFields, r: Result<EntryShape, Error>)
    requires
        is_shape_result(code, f, r),
    ensures
        (f.is_object && f.name is Text && f.longitude == CoordField::Absent && f.cos
            == CoordField::Absent && f.sin == CoordField::Absent) ==> (r matches Ok(
            EntryShape::SpaceBased { name },
        ) && f.name matches NameField::Text(n) && name@ == n@),
        (f.is_object && f.name is Text && f.longitude == CoordField::Number && f.cos
            == CoordField::Number && f.sin == CoordField::Number) ==> (r matches Ok(
            EntryShape::Ground { name },
        ) && f.name matches NameField::Text(n) && name@ == n@),
        (f.longitude == CoordField::NotANumber || f.cos == CoordField::NotANumber || f.sin
            == CoordField::NotANumber) ==> r is Err,
        (f.longitude is Absent || f.cos is Absent || f.sin is Absent) && !(f.longitude is Absent
            && f.cos is Absent && f.sin is Absent) ==> r is Err,
        !f.is_object ==> r is Err,
        !(f.name is Text) ==> r is Err,
        r matches Ok(EntryShape::Ground { name: _ }) ==> f.longitude == CoordField::Number && f.cos
            == CoordField::Number && f.sin == CoordField::Number,
        r matches Ok(EntryShape::SpaceBased { name: _ }) ==> f.longitude is Absent && f.cos is Absent
            && f.sin is Absent,
{
}

} // verus!
