//! Origin types for state queries and observer positions.

use vstd::prelude::*;
use vstd::string::*;
use crate::ffi::{
    ASSIST_BODY_EARTH, ASSIST_BODY_JUPITER, ASSIST_BODY_MARS, ASSIST_BODY_MERCURY,
    ASSIST_BODY_MOON, ASSIST_BODY_NEPTUNE, ASSIST_BODY_PLUTO, ASSIST_BODY_SATURN, ASSIST_BODY_SUN,
    ASSIST_BODY_URANUS, ASSIST_BODY_VENUS,
};
use crate::status::Error;
use crate::text::{debug_quoted, quote_debug, text_eq};

verus! {

/// An origin point in the solar system: a named body, barycenter, or MPC observatory.
///
/// Bodies sourced from JPL DE440 ephemeris. The giant planets and Pluto are
/// system barycenters (not planet centers) in the underlying ephemeris data.
/// Earth and Moon are resolved individually by ASSIST.
#[derive(Debug, Clone)]
pub enum Origin {
    /// Solar system barycenter (SSB).
    SolarSystemBarycenter,
    Sun,
    /// Mercury system barycenter (≈ Mercury center; no significant satellites).
    MercuryBarycenter,
    /// Venus system barycenter (≈ Venus center; no significant satellites).
    VenusBarycenter,
    /// Earth center (resolved from Earth-Moon barycenter by ASSIST).
    Earth,
    /// Moon center (resolved from Earth-Moon barycenter by ASSIST).
    Moon,
    /// Mars system barycenter (≈ Mars center; Phobos/Deimos are negligible).
    MarsBarycenter,
    /// Jupiter system barycenter (not Jupiter center).
    JupiterBarycenter,
    /// Saturn system barycenter (not Saturn center).
    SaturnBarycenter,
    /// Uranus system barycenter (not Uranus center).
    UranusBarycenter,
    /// Neptune system barycenter (not Neptune center).
    NeptuneBarycenter,
    /// Pluto system barycenter (not Pluto center; Charon is massive).
    PlutoBarycenter,
    /// Ground-based or space-based observatory by MPC code (e.g., "I11", "W84", "500").
    Observatory(String),
}

/// ASCII lower-casing of one character; every other character is unchanged.
pub open spec fn ascii_lower(c: char) -> char {
    if 'A' <= c && c <= 'Z' {
        ((c as int) + 32) as char
    } else {
        c
    }
}

/// Every character is in the ASCII range.
pub open spec fn all_ascii(s: Seq<char>) -> bool {
    forall|i: int| 0 <= i < s.len() ==> (#[trigger] s[i] as u32) < 128
}

/// Name for the Unicode lower-case mapping that `str::to_lowercase` computes.
pub uninterp spec fn unicode_lowercase(s: Seq<char>) -> Seq<char>;

/// Lower-cases `s` with `str::to_lowercase`.
///
/// Trusted: the result is std's Unicode lower-case mapping of `s`; on
/// ASCII-only input that mapping sends 'A'..='Z' to 'a'..='z' and leaves
/// every other character as it is, one character for one.
#[verifier::external_body]
fn lowercase(s: &str) -> (r: String)
    ensures
        r@ == unicode_lowercase(s@),
        all_ascii(s@) ==> r@ == s@.map_values(|c: char| ascii_lower(c)),
{
    s.to_lowercase()
}

/// The lower-cased form of `s` that body names are matched against: the
/// ASCII mapping on ASCII-only text, Unicode lower-casing otherwise.
pub open spec fn lowered(s: Seq<char>) -> Seq<char> {
    if all_ascii(s) {
        s.map_values(|c: char| ascii_lower(c))
    } else {
        unicode_lowercase(s)
    }
}

/// The body that a lower-cased name denotes, if any.
pub open spec fn body_named(name: Seq<char>) -> Option<Origin> {
    if name == "ssb"@ || name == "solar_system_barycenter"@ {
        Some(Origin::SolarSystemBarycenter)
    } else if name == "sun"@ {
        Some(Origin::Sun)
    } else if name == "mercury"@ || name == "mercury_barycenter"@ {
        Some(Origin::MercuryBarycenter)
    } else if name == "venus"@ || name == "venus_barycenter"@ {
        Some(Origin::VenusBarycenter)
    } else if name == "earth"@ {
        Some(Origin::Earth)
    } else if name == "moon"@ {
        Some(Origin::Moon)
    } else if name == "mars"@ || name == "mars_barycenter"@ {
        Some(Origin::MarsBarycenter)
    } else if name == "jupiter"@ || name == "jupiter_barycenter"@ {
        Some(Origin::JupiterBarycenter)
    } else if name == "saturn"@ || name == "saturn_barycenter"@ {
        Some(Origin::SaturnBarycenter)
    } else if name == "uranus"@ || name == "uranus_barycenter"@ {
        Some(Origin::UranusBarycenter)
    } else if name == "neptune"@ || name == "neptune_barycenter"@ {
        Some(Origin::NeptuneBarycenter)
    } else if name == "pluto"@ || name == "pluto_barycenter"@ {
        Some(Origin::PlutoBarycenter)
    } else {
        None
    }
}

/// An ASCII letter or digit, as a byte.
pub open spec fn is_ascii_alnum_byte(b: u8) -> bool {
    (48 <= b && b <= 57) || (65 <= b && b <= 90) || (97 <= b && b <= 122)
}

/// Exactly three bytes, each an ASCII letter or digit.
pub open spec fn is_mpc_code_bytes(b: Seq<u8>) -> bool {
    b.len() == 3 && forall|i: int| 0 <= i < 3 ==> #[trigger] is_ascii_alnum_byte(b[i])
}

/// The text of the error for a string that is neither a body name nor an MPC code.
pub open spec fn invalid_origin_message(s: Seq<char>) -> Seq<char> {
    debug_quoted(s) + " is neither a known body name nor a valid 3-character MPC code"@
}

/// What `Origin::parse` gives for a string: a body whose lower-cased name
/// matches, else an observatory for a 3-character alphanumeric code, else an
/// `InvalidBody` error carrying the message.
pub open spec fn is_parse_result(s: Seq<char>, r: Result<Origin, Error>) -> bool {
    match body_named(lowered(s)) {
        Some(o) => r == Ok::<Origin, Error>(o),
        None => if is_mpc_code_bytes(vstd::utf8::encode_utf8(s)) {
            r matches Ok(Origin::Observatory(code)) && code@ == s
        } else {
            r matches Err(Error::InvalidBody(m)) && m@ == invalid_origin_message(s)
        },
    }
}

/// The MPC code held by an observatory origin.
pub open spec fn observatory_code_of(o: Origin) -> Option<Seq<char>> {
    match o {
        Origin::Observatory(code) => Some(code@),
        _ => None,
    }
}

/// The ASSIST body id of a named body.
pub open spec fn body_id_of(o: Origin) -> Option<i32> {
    match o {
        Origin::Sun => Some(ASSIST_BODY_SUN),
        Origin::MercuryBarycenter => Some(ASSIST_BODY_MERCURY),
        Origin::VenusBarycenter => Some(ASSIST_BODY_VENUS),
        Origin::Earth => Some(ASSIST_BODY_EARTH),
        Origin::Moon => Some(ASSIST_BODY_MOON),
        Origin::MarsBarycenter => Some(ASSIST_BODY_MARS),
        Origin::JupiterBarycenter => Some(ASSIST_BODY_JUPITER),
        Origin::SaturnBarycenter => Some(ASSIST_BODY_SATURN),
        Origin::UranusBarycenter => Some(ASSIST_BODY_URANUS),
        Origin::NeptuneBarycenter => Some(ASSIST_BODY_NEPTUNE),
        Origin::PlutoBarycenter => Some(ASSIST_BODY_PLUTO),
        Origin::SolarSystemBarycenter | Origin::Observatory(_) => None,
    }
}

/// Looks `s` up, case-insensitively, among the body names.
fn parse_body_name(s: &str) -> (r: Option<Origin>)
    ensures
        r == body_named(lowered(s@)),
{
    let lower = lowercase(s);
    let l = lower.as_str();
    if text_eq(l, "ssb") || text_eq(l, "solar_system_barycenter") {
        Some(Origin::SolarSystemBarycenter)
    } else if text_eq(l, "sun") {
        Some(Origin::Sun)
    } else if text_eq(l, "mercury") || text_eq(l, "mercury_barycenter") {
        Some(Origin::MercuryBarycenter)
    } else if text_eq(l, "venus") || text_eq(l, "venus_barycenter") {
        Some(Origin::VenusBarycenter)
    } else if text_eq(l, "earth") {
        Some(Origin::Earth)
    } else if text_eq(l, "moon") {
        Some(Origin::Moon)
    } else if text_eq(l, "mars") || text_eq(l, "mars_barycenter") {
        Some(Origin::MarsBarycenter)
    } else if text_eq(l, "jupiter") || text_eq(l, "jupiter_barycenter") {
        Some(Origin::JupiterBarycenter)
    } else if text_eq(l, "saturn") || text_eq(l, "saturn_barycenter") {
        Some(Origin::SaturnBarycenter)
    } else if text_eq(l, "uranus") || text_eq(l, "uranus_barycenter") {
        Some(Origin::UranusBarycenter)
    } else if text_eq(l, "neptune") || text_eq(l, "neptune_barycenter") {
        Some(Origin::NeptuneBarycenter)
    } else if text_eq(l, "pluto") || text_eq(l, "pluto_barycenter") {
        Some(Origin::PlutoBarycenter)
    } else {
        None
    }
}

fn is_ascii_alnum(b: u8) -> (r: bool)
    ensures
        r == is_ascii_alnum_byte(b),
{
    (48 <= b && b <= 57) || (65 <= b && b <= 90) || (97 <= b && b <= 122)
}

/// MPC observatory codes are exactly three ASCII alphanumeric characters
/// (every entry in `obscodes_extended.json` follows this shape).
fn is_mpc_code(s: &str) -> (r: bool)
    ensures
        r == is_mpc_code_bytes(vstd::utf8::encode_utf8(s@)),
{
    let b = s.as_bytes();
    if b.len() != 3 {
        return false;
    }
    is_ascii_alnum(b[0]) && is_ascii_alnum(b[1]) && is_ascii_alnum(b[2])
}

impl Origin {
    /// Parse a string into an `Origin`.
    ///
    /// Recognises named bodies (case-insensitive) and 3-character alphanumeric
    /// MPC observatory codes (case-preserving). Anything else is rejected, so
    /// a typo'd body name never silently becomes an observatory.
    ///
    /// Body names accept short and explicit forms ("earth", "jupiter",
    /// "jupiter_barycenter", "ssb").
    pub fn parse(s: &str) -> (r: Result<Origin, Error>)
        ensures
            is_parse_result(s@, r),
    {
        if let Some(o) = parse_body_name(s) {
            return Ok(o);
        }
        if is_mpc_code(s) {
            return Ok(Origin::Observatory(s.to_owned()));
        }
        let mut m = quote_debug(s);
        m.append(" is neither a known body name nor a valid 3-character MPC code");
        Err(Error::InvalidBody(m))
    }

    /// The ASSIST body ID if this is a named body (not SSB or observatory).
    pub fn body_id(&self) -> (r: Option<i32>)
        ensures
            r == body_id_of(*self),
            *self is Sun ==> r == Some(ASSIST_BODY_SUN),
            *self is MercuryBarycenter ==> r == Some(ASSIST_BODY_MERCURY),
            *self is VenusBarycenter ==> r == Some(ASSIST_BODY_VENUS),
            *self is Earth ==> r == Some(ASSIST_BODY_EARTH),
            *self is Moon ==> r == Some(ASSIST_BODY_MOON),
            *self is MarsBarycenter ==> r == Some(ASSIST_BODY_MARS),
            *self is JupiterBarycenter ==> r == Some(ASSIST_BODY_JUPITER),
            *self is SaturnBarycenter ==> r == Some(ASSIST_BODY_SATURN),
            *self is UranusBarycenter ==> r == Some(ASSIST_BODY_URANUS),
            *self is NeptuneBarycenter ==> r == Some(ASSIST_BODY_NEPTUNE),
            *self is PlutoBarycenter ==> r == Some(ASSIST_BODY_PLUTO),
            *self is SolarSystemBarycenter ==> r is None,
            *self is Observatory ==> r is None,
    {
        match self {
            Origin::Sun => Some(ASSIST_BODY_SUN),
            Origin::MercuryBarycenter => Some(ASSIST_BODY_MERCURY),
            Origin::VenusBarycenter => Some(ASSIST_BODY_VENUS),
            Origin::Earth => Some(ASSIST_BODY_EARTH),
            Origin::Moon => Some(ASSIST_BODY_MOON),
            Origin::MarsBarycenter => Some(ASSIST_BODY_MARS),
            Origin::JupiterBarycenter => Some(ASSIST_BODY_JUPITER),
            Origin::SaturnBarycenter => Some(ASSIST_BODY_SATURN),
            Origin::UranusBarycenter => Some(ASSIST_BODY_URANUS),
            Origin::NeptuneBarycenter => Some(ASSIST_BODY_NEPTUNE),
            Origin::PlutoBarycenter => Some(ASSIST_BODY_PLUTO),
            Origin::SolarSystemBarycenter | Origin::Observatory(_) => None,
        }
    }

    /// Return the MPC observatory code if this is an observatory.
    pub fn observatory_code(&self) -> (r: Option<&str>)
        ensures
            r is Some <==> observatory_code_of(*self) is Some,
            r matches Some(c) ==> observatory_code_of(*self) == Some(c@),
    {
        match self {
            Origin::Observatory(code) => Some(code.as_str()),
            _ => None,
        }
    }
}

/// Body names are matched without regard to ASCII letter case: two ASCII
/// strings that differ only in letter case parse to the same body.
pub proof fn lemma_body_names_ignore_ascii_case(
    s: Seq<char>,
    t: Seq<char>,
    rs: Result<Origin, Error>,
    rt: Result<Origin, Error>,
)
    requires
        all_ascii(s),
        all_ascii(t),
        s.map_values(|c: char| ascii_lower(c)) == t.map_values(|c: char| ascii_lower(c)),
        body_named(lowered(s)) is Some,
        is_parse_result(s, rs),
        is_parse_result(t, rt),
    ensures
        rs == rt,
        rs is Ok,
{
}

/// A 3-character alphanumeric code that is not a body name parses to an
/// observatory whose code reads back unchanged, letter case included.
pub proof fn lemma_mpc_code_round_trip(s: Seq<char>, r: Result<Origin, Error>)
    requires
        body_named(lowered(s)) is None,
        is_mpc_code_bytes(vstd::utf8::encode_utf8(s)),
        is_parse_result(s, r),
    ensures
        r matches Ok(o) && observatory_code_of(o) == Some(s) && body_id_of(o) is None,
{
}

/// A string that names a body never parses to an observatory, and a string
/// that is neither a body name nor an MPC code is always rejected.
pub proof fn lemma_parse_never_guesses(s: Seq<char>, r: Result<Origin, Error>)
    requires
        is_parse_result(s, r),
    ensures
        body_named(lowered(s)) is Some ==> (r matches Ok(o) && observatory_code_of(o) is None),
        (body_named(lowered(s)) is None && !is_mpc_code_bytes(vstd::utf8::encode_utf8(s)))
            ==> r is Err,
        r is Ok ==> (body_named(lowered(s)) is Some || is_mpc_code_bytes(
            vstd::utf8::encode_utf8(s),
        )),
{
}

/// An ASCII letter or digit.
pub open spec fn is_ascii_alnum_char(c: char) -> bool {
    ('0' <= c && c <= '9') || ('A' <= c && c <= 'Z') || ('a' <= c && c <= 'z')
}

/// Any three ASCII letters or digits that do not spell a three-letter body
/// name ("sun", "ssb") in any letter case parse to an observatory whose code
/// reads back verbatim, letter case included; such an origin has no body id.
pub proof fn lemma_three_alnum_chars_are_observatory_codes(s: Seq<char>, r: Result<Origin, Error>)
    requires
        s.len() == 3,
        forall|i: int| 0 <= i < 3 ==> #[trigger] is_ascii_alnum_char(s[i]),
        lowered(s) != "sun"@,
        lowered(s) != "ssb"@,
        is_parse_result(s, r),
    ensures
        r matches Ok(o) && observatory_code_of(o) == Some(s) && body_id_of(o) is None,
{
    assert(all_ascii(s)) by {
        assert forall|i: int| 0 <= i < s.len() implies (#[trigger] s[i] as u32) < 128 by {
            assert(is_ascii_alnum_char(s[i]));
        }
    }
    assert(vstd::utf8::is_ascii_chars(s)) by {
        assert forall|i: int| 0 <= i < s.len() implies '\0' <= #[trigger] s[i] <= '\u{7f}' by {
            assert(is_ascii_alnum_char(s[i]));
        }
    }
    vstd::utf8::is_ascii_chars_encode_utf8(s);
    let b = vstd::utf8::encode_utf8(s);
    assert forall|i: int| 0 <= i < 3 implies #[trigger] is_ascii_alnum_byte(b[i]) by {
        assert(is_ascii_alnum_char(s[i]));
        assert(s[i] as u8 == b[i]);
        assert((s[i] as u32) < 128);
        assert(s[i] as u8 == s[i] as u32);
    }
    assert(lowered(s).len() == 3);
    lemma_no_other_three_letter_body(lowered(s));
    lemma_mpc_code_round_trip(s, r);
}

/// Every body name but "sun" and "ssb" has a length other than three.
proof fn lemma_no_other_three_letter_body(name: Seq<char>)
    requires
        name.len() == 3,
        name != "sun"@,
        name != "ssb"@,
    ensures
        body_named(name) is None,
{
    reveal_strlit("solar_system_barycenter");
    reveal_strlit("mercury");
    reveal_strlit("mercury_barycenter");
    reveal_strlit("venus");
    reveal_strlit("venus_barycenter");
    reveal_strlit("earth");
    reveal_strlit("moon");
    reveal_strlit("mars");
    reveal_strlit("mars_barycenter");
    reveal_strlit("jupiter");
    reveal_strlit("jupiter_barycenter");
    reveal_strlit("saturn");
    reveal_strlit("saturn_barycenter");
    reveal_strlit("uranus");
    reveal_strlit("uranus_barycenter");
    reveal_strlit("neptune");
    reveal_strlit("neptune_barycenter");
    reveal_strlit("pluto");
    reveal_strlit("pluto_barycenter");
}

/// Every named body maps to the ASSIST index of that same body (Sun 0,
/// Mercury 1, Venus 2, Earth 3, Moon 4, Mars 5, Jupiter 6, Saturn 7,
/// Uranus 8, Neptune 9, Pluto 10); the barycenter and observatories have no
/// body index. No two origins share an index, and every index is below the
/// number of ASSIST bodies.
pub proof fn lemma_body_ids(o: Origin, p: Origin)
    ensures
        body_id_of(Origin::Sun) == Some(0i32),
        body_id_of(Origin::MercuryBarycenter) == Some(1i32),
        body_id_of(Origin::VenusBarycenter) == Some(2i32),
        body_id_of(Origin::Earth) == Some(3i32),
        body_id_of(Origin::Moon) == Some(4i32),
        body_id_of(Origin::MarsBarycenter) == Some(5i32),
        body_id_of(Origin::JupiterBarycenter) == Some(6i32),
        body_id_of(Origin::SaturnBarycenter) == Some(7i32),
        body_id_of(Origin::UranusBarycenter) == Some(8i32),
        body_id_of(Origin::NeptuneBarycenter) == Some(9i32),
        body_id_of(Origin::PlutoBarycenter) == Some(10i32),
        body_id_of(Origin::SolarSystemBarycenter) is None,
        o is Observatory ==> body_id_of(o) is None,
        body_id_of(o) matches Some(id) ==> 0 <= id < crate::ffi::ASSIST_BODY_NPLANETS,
        (body_id_of(o) is Some && body_id_of(o) == body_id_of(p)) ==> o == p,
{
}

/// The text with every ASCII capital letter replaced by its small letter.
pub open spec fn ascii_folded(s: Seq<char>) -> Seq<char> {
    s.map_values(|c: char| ascii_lower(c))
}

/// Body names parse in any ASCII letter case: each planet by its short name
/// or its `_barycenter` name to its system barycenter, "earth", "moon" and
/// "sun" to those bodies, and "ssb" or "solar_system_barycenter" to the
/// solar system barycenter.
pub proof fn lemma_body_names_parse(s: Seq<char>, r: Result<Origin, Error>)
    requires
        all_ascii(s),
        is_parse_result(s, r),
    ensures
        ascii_folded(s) == "ssb"@ || ascii_folded(s) == "solar_system_barycenter"@ ==> r == Ok::<
            Origin,
            Error,
        >(Origin::SolarSystemBarycenter),
        ascii_folded(s) == "sun"@ ==> r == Ok::<Origin, Error>(Origin::Sun),
        ascii_folded(s) == "mercury"@ || ascii_folded(s) == "mercury_barycenter"@ ==> r == Ok::<
            Origin,
            Error,
        >(Origin::MercuryBarycenter),
        ascii_folded(s) == "venus"@ || ascii_folded(s) == "venus_barycenter"@ ==> r == Ok::<
            Origin,
            Error,
        >(Origin::VenusBarycenter),
        ascii_folded(s) == "earth"@ ==> r == Ok::<Origin, Error>(Origin::Earth),
        ascii_folded(s) == "moon"@ ==> r == Ok::<Origin, Error>(Origin::Moon),
        ascii_folded(s) == "mars"@ || ascii_folded(s) == "mars_barycenter"@ ==> r == Ok::<
            Origin,
            Error,
        >(Origin::MarsBarycenter),
        ascii_folded(s) == "jupiter"@ || ascii_folded(s) == "jupiter_barycenter"@ ==> r == Ok::<
            Origin,
            Error,
        >(Origin::JupiterBarycenter),
        ascii_folded(s) == "saturn"@ || ascii_folded(s) == "saturn_barycenter"@ ==> r == Ok::<
            Origin,
            Error,
        >(Origin::SaturnBarycenter),
        ascii_folded(s) == "uranus"@ || ascii_folded(s) == "uranus_barycenter"@ ==> r == Ok::<
            Origin,
            Error,
        >(Origin::UranusBarycenter),
        ascii_folded(s) == "neptune"@ || ascii_folded(s) == "neptune_barycenter"@ ==> r == Ok::<
            Origin,
            Error,
        >(Origin::NeptuneBarycenter),
        ascii_folded(s) == "pluto"@ || ascii_folded(s) == "pluto_barycenter"@ ==> r == Ok::<
            Origin,
            Error,
        >(Origin::PlutoBarycenter),
{
    reveal_strlit("ssb");
    reveal_strlit("solar_system_barycenter");
    reveal_strlit("sun");
    reveal_strlit("mercury");
    reveal_strlit("mercury_barycenter");
    reveal_strlit("venus");
    reveal_strlit("venus_barycenter");
    reveal_strlit("earth");
    reveal_strlit("moon");
    reveal_strlit("mars");
    reveal_strlit("mars_barycenter");
    reveal_strlit("jupiter");
    reveal_strlit("jupiter_barycenter");
    reveal_strlit("saturn");
    reveal_strlit("saturn_barycenter");
    reveal_strlit("uranus");
    reveal_strlit("uranus_barycenter");
    reveal_strlit("neptune");
    reveal_strlit("neptune_barycenter");
    reveal_strlit("pluto");
    reveal_strlit("pluto_barycenter");
    assert(lowered(s) == ascii_folded(s));
    let f = ascii_folded(s);
    // Names of equal length differ in their first or second letter.
    if f == "sun"@ {
        assert(f[1] != "ssb"@[1]);
    } else if f == "earth"@ {
        assert(f[0] != "venus"@[0]);
    } else if f == "mars"@ {
        assert(f[1] != "moon"@[1]);
    } else if f == "jupiter"@ {
        assert(f[0] != "mercury"@[0]);
    } else if f == "jupiter_barycenter"@ {
        assert(f[0] != "mercury_barycenter"@[0]);
    } else if f == "uranus"@ {
        assert(f[0] != "saturn"@[0]);
    } else if f == "uranus_barycenter"@ {
        assert(f[0] != "saturn_barycenter"@[0]);
    } else if f == "neptune"@ {
        assert(f[0] != "mercury"@[0]);
        assert(f[0] != "jupiter"@[0]);
    } else if f == "neptune_barycenter"@ {
        assert(f[0] != "mercury_barycenter"@[0]);
        assert(f[0] != "jupiter_barycenter"@[0]);
    } else if f == "pluto"@ {
        assert(f[0] != "venus"@[0]);
        assert(f[0] != "earth"@[0]);
    } else if f == "pluto_barycenter"@ {
        assert(f[0] != "venus_barycenter"@[0]);
    }
}

} // verus!
