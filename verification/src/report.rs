//! The fixed-shape weather report and its extraction from a JSON response
//! body. Every field the renderer consumes is required: a missing or
//! mistyped field is an error naming its path, never a silent default.
//! Numeric values are carried as their rendered decimal text, since the
//! report reproduces them verbatim and performs no arithmetic on them.
//!
//! The contract of `parse_report` is stated over the named results of
//! `src/jsonval.rs`: success is owed exactly on a complete document
//! (`spec_complete`), a returned report carries exactly the document's
//! values (`spec_matches_doc`), and every field error names a genuine
//! defect (`spec_field_error`).

use vstd::prelude::*;
use vstd::string::StringExecFns;
use crate::jsonval::array_len_at;
use crate::jsonval::elem_i64_at;
use crate::jsonval::elem_string_at;
use crate::jsonval::i64_at;
use crate::jsonval::json_array_len_at;
use crate::jsonval::json_elem_i64_at;
use crate::jsonval::json_elem_string_at;
use crate::jsonval::json_i64_at;
use crate::jsonval::json_null_at;
use crate::jsonval::json_number_text_at;
use crate::jsonval::json_parse_check;
use crate::jsonval::json_parses;
use crate::jsonval::json_present_at;
use crate::jsonval::json_string_at;
use crate::jsonval::null_at;
use crate::jsonval::number_text_at;
use crate::jsonval::present_at;
use crate::jsonval::string_at;

verus! {

/// Why a response body could not be turned into a report.
#[derive(Debug, PartialEq, Eq)]
pub enum ReportError {
    /// The body is not well-formed JSON; carries the parser's diagnostic.
    Json(String),
    /// A required field is missing or of the wrong type; carries its path.
    Field(String),
}

impl ReportError {
    /// A human-readable diagnostic for the process boundary.
    pub fn message(&self) -> (r: String)
        ensures
            self matches ReportError::Json(m) ==> r@ == "invalid weather response: "@ + m@,
            self matches ReportError::Field(p) ==> r@ == "missing or mistyped field: "@ + p@,
    {
        match self {
            ReportError::Json(m) => {
                let mut s = "invalid weather response: ".to_owned();
                s.append(m.as_str());
                s
            },
            ReportError::Field(p) => {
                let mut s = "missing or mistyped field: ".to_owned();
                s.append(p.as_str());
                s
            },
        }
    }
}

/// Where the observation was taken. Informational only.
#[derive(Debug, PartialEq, Eq)]
pub struct Coordinates {
    pub lon: String,
    pub lat: String,
}

/// One weather condition; a response may carry several.
#[derive(Debug, PartialEq, Eq)]
pub struct Weather {
    pub id: i32,
    pub main: String,
    pub description: String,
    pub icon: String,
}

/// Wind data; the gust reading is optional in the wire format.
#[derive(Debug, PartialEq, Eq)]
pub struct Wind {
    pub speed: String,
    pub deg: i32,
    pub gust: Option<String>,
}

/// The measurements the renderer consumes.
#[derive(Debug, PartialEq, Eq)]
pub struct Main {
    pub temp: String,
    pub feels_like: String,
    pub temp_min: String,
    pub temp_max: String,
    pub pressure: String,
    pub humidity: String,
}

/// The full deserialized response for one city.
#[derive(Debug, PartialEq, Eq)]
pub struct ApiResult {
    pub coord: Coordinates,
    pub weather: Vec<Weather>,
    pub base: String,
    pub name: String,
    pub wind: Wind,
    pub main: Main,
}

/// Whether an integer read from the document fits the report's `i32`.
pub open spec fn i32_in_range(n: int) -> bool {
    i32::MIN <= n <= i32::MAX
}

/// An optional numeric field is acceptable when it is absent, null, or a
/// number.
pub open spec fn spec_opt_number_ok(s: Seq<char>, ptr: Seq<char>) -> bool {
    ||| !json_present_at(s, ptr)
    ||| json_null_at(s, ptr)
    ||| json_number_text_at(s, ptr) is Some
}

/// Weather element `i` has every required field, well-typed.
pub open spec fn spec_weather_elem_complete(s: Seq<char>, i: int) -> bool {
    &&& json_elem_i64_at(s, "weather"@, i, "id"@) matches Some(n) && i32_in_range(n)
    &&& json_elem_string_at(s, "weather"@, i, "main"@) is Some
    &&& json_elem_string_at(s, "weather"@, i, "description"@) is Some
    &&& json_elem_string_at(s, "weather"@, i, "icon"@) is Some
}

/// Weather element `i` of the parsed list carries exactly the document's
/// values.
pub open spec fn spec_weather_elem_matches(s: Seq<char>, i: int, w: Weather) -> bool {
    &&& json_elem_i64_at(s, "weather"@, i, "id"@) == Some(w.id as int)
    &&& json_elem_string_at(s, "weather"@, i, "main"@) == Some(w.main@)
    &&& json_elem_string_at(s, "weather"@, i, "description"@) == Some(w.description@)
    &&& json_elem_string_at(s, "weather"@, i, "icon"@) == Some(w.icon@)
}

/// Some element of the weather array is incomplete.
pub open spec fn spec_weather_elem_error(s: Seq<char>, i: int) -> bool {
    &&& json_array_len_at(s, "/weather"@) matches Some(n) && 0 <= i < n
    &&& !spec_weather_elem_complete(s, i)
}

/// The document parses and every required field is present, well-typed.
/// `parse_report` succeeds exactly here.
pub open spec fn spec_complete(s: Seq<char>) -> bool {
    &&& json_parses(s)
    &&& json_number_text_at(s, "/coord/lon"@) is Some
    &&& json_number_text_at(s, "/coord/lat"@) is Some
    &&& json_array_len_at(s, "/weather"@) matches Some(n) && (forall|i: int|
        0 <= i < n ==> spec_weather_elem_complete(s, i))
    &&& json_string_at(s, "/base"@) is Some
    &&& json_string_at(s, "/name"@) is Some
    &&& json_number_text_at(s, "/wind/speed"@) is Some
    &&& json_i64_at(s, "/wind/deg"@) matches Some(d) && i32_in_range(d)
    &&& spec_opt_number_ok(s, "/wind/gust"@)
    &&& json_number_text_at(s, "/main/temp"@) is Some
    &&& json_number_text_at(s, "/main/feels_like"@) is Some
    &&& json_number_text_at(s, "/main/temp_min"@) is Some
    &&& json_number_text_at(s, "/main/temp_max"@) is Some
    &&& json_number_text_at(s, "/main/pressure"@) is Some
    &&& json_number_text_at(s, "/main/humidity"@) is Some
}

/// The parsed report carries exactly the document's values, field by field.
pub open spec fn spec_matches_doc(rep: ApiResult, s: Seq<char>) -> bool {
    &&& json_number_text_at(s, "/coord/lon"@) == Some(rep.coord.lon@)
    &&& json_number_text_at(s, "/coord/lat"@) == Some(rep.coord.lat@)
    &&& json_array_len_at(s, "/weather"@) == Some(rep.weather@.len() as int)
    &&& (forall|i: int| 0 <= i < rep.weather@.len() ==> spec_weather_elem_matches(
        s,
        i,
        rep.weather@[i],
    ))
    &&& json_string_at(s, "/base"@) == Some(rep.base@)
    &&& json_string_at(s, "/name"@) == Some(rep.name@)
    &&& json_number_text_at(s, "/wind/speed"@) == Some(rep.wind.speed@)
    &&& json_i64_at(s, "/wind/deg"@) == Some(rep.wind.deg as int)
    &&& (rep.wind.gust matches Some(g) ==> json_number_text_at(s, "/wind/gust"@) == Some(g@))
    &&& (rep.wind.gust is None ==> !json_present_at(s, "/wind/gust"@) || json_null_at(
        s,
        "/wind/gust"@,
    ))
    &&& json_number_text_at(s, "/main/temp"@) == Some(rep.main.temp@)
    &&& json_number_text_at(s, "/main/feels_like"@) == Some(rep.main.feels_like@)
    &&& json_number_text_at(s, "/main/temp_min"@) == Some(rep.main.temp_min@)
    &&& json_number_text_at(s, "/main/temp_max"@) == Some(rep.main.temp_max@)
    &&& json_number_text_at(s, "/main/pressure"@) == Some(rep.main.pressure@)
    &&& json_number_text_at(s, "/main/humidity"@) == Some(rep.main.humidity@)
}

/// What a `Field` error with path `p` says of the document: the location
/// the path names is missing or mistyped.
pub open spec fn spec_field_error(s: Seq<char>, p: Seq<char>) -> bool {
    ||| (p == "coord.lon"@ && json_number_text_at(s, "/coord/lon"@) is None)
    ||| (p == "coord.lat"@ && json_number_text_at(s, "/coord/lat"@) is None)
    ||| (p == "weather"@ && json_array_len_at(s, "/weather"@) is None)
    ||| ((p == "weather.id"@ || p == "weather.main"@ || p == "weather.description"@ || p
        == "weather.icon"@) && (exists|i: int| #![auto] spec_weather_elem_error(s, i)))
    ||| (p == "base"@ && json_string_at(s, "/base"@) is None)
    ||| (p == "name"@ && json_string_at(s, "/name"@) is None)
    ||| (p == "wind.speed"@ && json_number_text_at(s, "/wind/speed"@) is None)
    ||| (p == "wind.deg"@ && !(json_i64_at(s, "/wind/deg"@) matches Some(d) && i32_in_range(d)))
    ||| (p == "wind.gust"@ && !spec_opt_number_ok(s, "/wind/gust"@))
    ||| (p == "main.temp"@ && json_number_text_at(s, "/main/temp"@) is None)
    ||| (p == "main.feels_like"@ && json_number_text_at(s, "/main/feels_like"@) is None)
    ||| (p == "main.temp_min"@ && json_number_text_at(s, "/main/temp_min"@) is None)
    ||| (p == "main.temp_max"@ && json_number_text_at(s, "/main/temp_max"@) is None)
    ||| (p == "main.pressure"@ && json_number_text_at(s, "/main/pressure"@) is None)
    ||| (p == "main.humidity"@ && json_number_text_at(s, "/main/humidity"@) is None)
}

/// The required number at `ptr`, as decimal text; absent or mistyped is a
/// field error naming `path` — never a default.
fn req_number(body: &str, ptr: &str, path: &str) -> (r: Result<String, ReportError>)
    ensures
        r matches Ok(t) ==> json_number_text_at(body@, ptr@) == Some(t@),
        r is Ok <==> json_number_text_at(body@, ptr@) is Some,
        r matches Err(e) ==> (e matches ReportError::Field(p) && p@ == path@),
{
    match number_text_at(body, ptr) {
        Some(t) => Ok(t),
        None => Err(ReportError::Field(path.to_owned())),
    }
}

/// The required string at `ptr`; absent or mistyped is a field error
/// naming `path`.
fn req_string(body: &str, ptr: &str, path: &str) -> (r: Result<String, ReportError>)
    ensures
        r matches Ok(t) ==> json_string_at(body@, ptr@) == Some(t@),
        r is Ok <==> json_string_at(body@, ptr@) is Some,
        r matches Err(e) ==> (e matches ReportError::Field(p) && p@ == path@),
{
    match string_at(body, ptr) {
        Some(t) => Ok(t),
        None => Err(ReportError::Field(path.to_owned())),
    }
}

/// The required integer at `ptr`, within the range of `i32`; absent,
/// fractional or out of range is a field error naming `path`.
fn req_i32(body: &str, ptr: &str, path: &str) -> (r: Result<i32, ReportError>)
    ensures
        r matches Ok(v) ==> json_i64_at(body@, ptr@) == Some(v as int),
        r is Ok <==> (json_i64_at(body@, ptr@) matches Some(n) && i32_in_range(n)),
        r matches Err(e) ==> (e matches ReportError::Field(p) && p@ == path@),
{
    match i64_at(body, ptr) {
        Some(n) => {
            if i32::MIN as i64 <= n && n <= i32::MAX as i64 {
                Ok(n as i32)
            } else {
                Err(ReportError::Field(path.to_owned()))
            }
        },
        None => Err(ReportError::Field(path.to_owned())),
    }
}

/// The optional number at `ptr`: absent or null is `None`, a number is its
/// text, anything else is a field error naming `path`.
fn opt_number(body: &str, ptr: &str, path: &str) -> (r: Result<Option<String>, ReportError>)
    ensures
        r matches Ok(g) ==> (g matches Some(t) ==> json_number_text_at(body@, ptr@) == Some(t@)),
        r matches Ok(g) ==> (g is None ==> !json_present_at(body@, ptr@) || json_null_at(
            body@,
            ptr@,
        )),
        r is Ok <==> spec_opt_number_ok(body@, ptr@),
        r matches Err(e) ==> (e matches ReportError::Field(p) && p@ == path@),
{
    if !present_at(body, ptr) {
        return Ok(None);
    }
    if null_at(body, ptr) {
        return Ok(None);
    }
    match number_text_at(body, ptr) {
        Some(t) => Ok(Some(t)),
        None => Err(ReportError::Field(path.to_owned())),
    }
}

/// The weather array, element by element; a missing array or an incomplete
/// element is a field error.
fn parse_weather_list(body: &str) -> (r: Result<Vec<Weather>, ReportError>)
    ensures
        r matches Ok(ws) ==> (json_array_len_at(body@, "/weather"@) == Some(ws@.len() as int)
            && (forall|i: int| 0 <= i < ws@.len() ==> spec_weather_elem_matches(
            body@,
            i,
            ws@[i],
        ))),
        r is Ok <==> (json_array_len_at(body@, "/weather"@) matches Some(n) && (forall|i: int|
            0 <= i < n ==> spec_weather_elem_complete(body@, i))),
        r matches Err(e) ==> (e matches ReportError::Field(p) && spec_field_error(body@, p@)),
{
    let n = match array_len_at(body, "/weather") {
        Some(n) => n,
        None => {
            return Err(ReportError::Field("weather".to_owned()));
        },
    };
    let mut items: Vec<Weather> = Vec::new();
    let mut i: usize = 0;
    while i < n
        invariant
            i <= n,
            json_array_len_at(body@, "/weather"@) == Some(n as int),
            items@.len() == i,
            forall|j: int| 0 <= j < i ==> spec_weather_elem_matches(body@, j, items@[j]),
            forall|j: int| 0 <= j < i ==> spec_weather_elem_complete(body@, j),
        decreases n - i,
    {
        let id = match elem_i64_at(body, "weather", i, "id") {
            Some(v) => v,
            None => {
                proof {
                    assert(spec_weather_elem_error(body@, i as int));
                }
                return Err(ReportError::Field("weather.id".to_owned()));
            },
        };
        if !(i32::MIN as i64 <= id && id <= i32::MAX as i64) {
            proof {
                assert(spec_weather_elem_error(body@, i as int));
            }
            return Err(ReportError::Field("weather.id".to_owned()));
        }
        let main = match elem_string_at(body, "weather", i, "main") {
            Some(v) => v,
            None => {
                proof {
                    assert(spec_weather_elem_error(body@, i as int));
                }
                return Err(ReportError::Field("weather.main".to_owned()));
            },
        };
        let description = match elem_string_at(body, "weather", i, "description") {
            Some(v) => v,
            None => {
                proof {
                    assert(spec_weather_elem_error(body@, i as int));
                }
                return Err(ReportError::Field("weather.description".to_owned()));
            },
        };
        let icon = match elem_string_at(body, "weather", i, "icon") {
            Some(v) => v,
            None => {
                proof {
                    assert(spec_weather_elem_error(body@, i as int));
                }
                return Err(ReportError::Field("weather.icon".to_owned()));
            },
        };
        items.push(Weather { id: id as i32, main, description, icon });
        i = i + 1;
    }
    Ok(items)
}

/// Turn a response body into a report.
///
/// Success is owed exactly on a complete document: well-formed JSON with
/// every required field present and well-typed. The returned report then
/// carries exactly the document's values. A body that is not well-formed
/// JSON — exactly that body — yields a `Json` error, and a `Field` error
/// always names a path that is genuinely missing or mistyped.
pub fn parse_report(body: &str) -> (r: Result<ApiResult, ReportError>)
    ensures
        r is Ok <==> spec_complete(body@),
        r matches Ok(rep) ==> spec_matches_doc(rep, body@),
        (r matches Err(e) && e is Json) <==> !json_parses(body@),
        r matches Err(e) ==> (e matches ReportError::Field(p) ==> spec_field_error(body@, p@)),
{
    if let Err(msg) = json_parse_check(body) {
        return Err(ReportError::Json(msg));
    }
    let coord = Coordinates {
        lon: req_number(body, "/coord/lon", "coord.lon")?,
        lat: req_number(body, "/coord/lat", "coord.lat")?,
    };
    let weather = parse_weather_list(body)?;
    let base = req_string(body, "/base", "base")?;
    let name = req_string(body, "/name", "name")?;
    let wind = Wind {
        speed: req_number(body, "/wind/speed", "wind.speed")?,
        deg: req_i32(body, "/wind/deg", "wind.deg")?,
        gust: opt_number(body, "/wind/gust", "wind.gust")?,
    };
    let main = Main {
        temp: req_number(body, "/main/temp", "main.temp")?,
        feels_like: req_number(body, "/main/feels_like", "main.feels_like")?,
        temp_min: req_number(body, "/main/temp_min", "main.temp_min")?,
        temp_max: req_number(body, "/main/temp_max", "main.temp_max")?,
        pressure: req_number(body, "/main/pressure", "main.pressure")?,
        humidity: req_number(body, "/main/humidity", "main.humidity")?,
    };
    Ok(ApiResult { coord, weather, base, name, wind, main })
}

} // verus!
