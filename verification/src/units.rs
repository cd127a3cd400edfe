//! The two unit systems the weather service understands, with their query
//! token and their display suffix. The service returns numeric values already
//! converted to the requested system, so displaying a value attaches a suffix
//! and performs no arithmetic.

use vstd::prelude::*;
use vstd::string::StrSliceExecFns;
use vstd::string::StringExecFns;
use crate::strutil::str_eq;

verus! {

#[derive(Clone, Copy, Debug, PartialEq, Eq, Structural)]
pub enum Units {
    Metric,
    Imperial,
}

/// The token that names a unit system in the request URL.
pub open spec fn spec_token(u: Units) -> Seq<char> {
    match u {
        Units::Metric => "metric"@,
        Units::Imperial => "imperial"@,
    }
}

/// The suffix attached to a displayed numeric value.
pub open spec fn spec_suffix(u: Units) -> Seq<char> {
    match u {
        Units::Metric => "°C"@,
        Units::Imperial => "°F"@,
    }
}

/// Which unit system a token names, if any: exactly "metric" and "imperial"
/// are recognized.
pub open spec fn spec_parse_units(s: Seq<char>) -> Option<Units> {
    if s == "metric"@ {
        Some(Units::Metric)
    } else if s == "imperial"@ {
        Some(Units::Imperial)
    } else {
        None
    }
}

impl Units {
    /// The query token of this unit system.
    pub fn to_string(&self) -> (r: String)
        ensures
            r@ == spec_token(*self),
    {
        match self {
            Units::Metric => "metric".to_owned(),
            Units::Imperial => "imperial".to_owned(),
        }
    }

    /// Attach this system's unit suffix to an already-rendered numeric value.
    /// The value itself is reproduced verbatim: no numeric transformation.
    pub fn display(&self, value: &str) -> (r: String)
        ensures
            r@ == value@ + spec_suffix(*self),
    {
        let mut s = value.to_owned();
        match self {
            Units::Metric => s.append("°C"),
            Units::Imperial => s.append("°F"),
        }
        s
    }
}

/// The unit system chosen by an optional `--units` token: metric when the
/// token is absent, else exactly what the token names.
pub fn units_or_default(token: Option<&str>) -> (r: Result<Units, String>)
    ensures
        token is None ==> r == Ok::<Units, String>(Units::Metric),
        token matches Some(t) ==> (r is Ok <==> spec_parse_units(t@) is Some),
        token matches Some(t) ==> (r matches Ok(u) ==> spec_parse_units(t@) == Some(u)),
        token matches Some(t) ==> (r matches Err(e) ==> e@ == "unhandled metric"@),
{
    match token {
        None => Ok(Units::Metric),
        Some(t) => parse_units(t),
    }
}

/// Parse a `--units` token: the two recognized tokens yield their unit
/// system, and every other string is a configuration error.
pub fn parse_units(units: &str) -> (r: Result<Units, String>)
    ensures
        r matches Ok(u) ==> spec_parse_units(units@) == Some(u),
        r matches Err(e) ==> spec_parse_units(units@) is None && e@ == "unhandled metric"@,
        r is Ok <==> spec_parse_units(units@) is Some,
{
    if str_eq(units, "metric") {
        Ok(Units::Metric)
    } else if str_eq(units, "imperial") {
        Ok(Units::Imperial)
    } else {
        Err("unhandled metric".to_owned())
    }
}

} // verus!
