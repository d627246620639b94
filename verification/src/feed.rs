//! Reading what the services answered.
//!
//! The position, crew and weather services answer with JSON documents.
//! `serde_json` reads them; this module picks out of a document what the
//! dashboard shows.
//! What `serde_json` does is believed, not proved: the items marked
//! `external_body` below say what is believed of it.

use serde_json::Value;
use vstd::prelude::*;

use crate::fixed::decimal_micros;
use crate::fixed::parse_micros;
use crate::history::Position;
use crate::history::TrajectoryHistory;
use crate::iss::FetchError;
use crate::iss::TelemetrySample;
use crate::iss::WeatherReading;
use crate::units::Micros;

verus! {

/// `serde_json::Value`, a JSON document in memory. Nothing inside it is seen
/// here but through the calls below.
#[verifier::external_type_specification]
#[verifier::external_body]
pub struct ExValue(serde_json::Value);

/// `serde_json::Error`, the reason why a text is no JSON document.
#[verifier::external_type_specification]
#[verifier::external_body]
pub struct ExJsonError(serde_json::Error);

/// A JSON document as a mathematical value.
pub enum Json {
    /// The value `null`.
    Null,
    /// A truth value, a number or a text, told apart by its JSON text.
    Scalar(Seq<char>),
    /// An array and its items in order.
    Array(Seq<Json>),
    /// An object and its members by name.
    Object(Map<Seq<char>, Json>),
}

impl Json {
    /// The member `key` of an object. Anything that is no object, and an
    /// object without that member, has the member `null`.
    pub open spec fn member(self, key: Seq<char>) -> Json {
        match self {
            Json::Object(members) if members.contains_key(key) => members[key],
            _ => Json::Null,
        }
    }

    /// The items of an array; nothing else has items.
    pub open spec fn items(self) -> Option<Seq<Json>> {
        match self {
            Json::Array(items) => Some(items),
            _ => None,
        }
    }
}

/// What a `serde_json::Value` holds: `null` as such, a truth value, number or
/// text by its JSON text, an array by what its items hold in order, and an
/// object by what its members hold, each under its name.
pub uninterp spec fn json_contents(value: Value) -> Json;

/// The document that `serde_json::from_str` reads from a text, or `None` where
/// it reads none.
pub uninterp spec fn json_document(text: Seq<char>) -> Option<Json>;

/// The text that `serde_json` writes for a document with `to_string`: compact
/// JSON, the members of an object in the order of their names.
pub uninterp spec fn json_text(document: Json) -> Seq<char>;

/// Calls `serde_json::from_str` for a `Value`. Believed: it returns, and
/// whether a text is read, and as which document, depends on the text alone.
#[verifier::external_body]
fn read_document(text: &str) -> (document: Result<Value, serde_json::Error>)
    ensures
        match document {
            Ok(value) => json_document(text@) == Some(json_contents(value)),
            Err(_) => json_document(text@) is None,
        },
{
    serde_json::from_str(text)
}

/// Indexes a `Value` by a member name, `value[key]`. Believed: the result is
/// the member of that name where the value is an object that has one, and a
/// `null` otherwise; the call stops on no value.
#[verifier::external_body]
fn member_of<'a>(value: &'a Value, key: &str) -> (found: &'a Value)
    ensures
        json_contents(*found) == json_contents(*value).member(key@),
{
    &value[key]
}

/// Calls `Value::as_array`. Believed: the result is the list of the items
/// where the value is an array, and `None` otherwise.
#[verifier::external_body]
fn items_of(value: &Value) -> (found: Option<&Vec<Value>>)
    ensures
        match found {
            Some(list) => json_contents(*value).items() == Some(
                Seq::new(list@.len(), |i: int| json_contents(list@[i])),
            ),
            None => json_contents(*value).items() is None,
        },
{
    value.as_array()
}

/// Calls `to_string` on a `Value`. Believed: the text depends on what the
/// value holds alone, and every value can be written.
#[verifier::external_body]
fn text_of(value: &Value) -> (text: String)
    ensures
        text@ == json_text(json_contents(*value)),
{
    value.to_string()
}

/// The member name under which the crew service lists the people in space.
pub const PEOPLE_MEMBER: &'static str = "people";

/// The member name under which each of them has a name.
pub const NAME_MEMBER: &'static str = "name";

/// The member name under which the weather service reports the weather now.
pub const CURRENT_MEMBER: &'static str = "current";

/// The member name of the temperature in that report.
pub const TEMPERATURE_MEMBER: &'static str = "temperature";

/// The member name of the weather code in that report.
pub const WEATHER_CODE_MEMBER: &'static str = "weather_code";

/// The member name of the latitude in the answer of the position service.
pub const LATITUDE_MEMBER: &'static str = "latitude";

/// The member name of the longitude in the answer of the position service.
pub const LONGITUDE_MEMBER: &'static str = "longitude";

/// The member name of the altitude in the answer of the position service.
pub const ALTITUDE_MEMBER: &'static str = "altitude";

/// The member name of the time in the answer of the position service.
pub const TIMESTAMP_MEMBER: &'static str = "timestamp";

/// The member `key` of `document` in millionths, if it is a number whose
/// millionths can be held.
pub open spec fn number_in(document: Json, key: Seq<char>) -> Option<Micros> {
    decimal_micros(json_text(document.member(key)))
}

/// The reading in the answer `body` of the position service: its members
/// `latitude`, `longitude`, `altitude` and `timestamp`, in millionths. An
/// answer that is no document, or in which one of them is no number that can
/// be held, holds no reading.
pub open spec fn position_in(body: Seq<char>) -> Option<TelemetrySample> {
    match json_document(body) {
        Some(document) => match (
            number_in(document, LATITUDE_MEMBER@),
            number_in(document, LONGITUDE_MEMBER@),
            number_in(document, ALTITUDE_MEMBER@),
            number_in(document, TIMESTAMP_MEMBER@),
        ) {
            (Some(lat), Some(lon), Some(alt), Some(time)) => Some(
                TelemetrySample { lat, lon, alt, time },
            ),
            _ => None,
        },
        None => None,
    }
}

/// The names of the crew in the answer `body` of the crew service: the
/// member `name` of each item of the array `people`, as JSON text. An answer
/// that is no document, or whose `people` is no array, holds no crew.
pub open spec fn crew_in(body: Seq<char>) -> Option<Seq<Seq<char>>> {
    match json_document(body) {
        Some(document) => match document.member(PEOPLE_MEMBER@).items() {
            Some(people) => Some(
                Seq::new(people.len(), |i: int| json_text(people[i].member(NAME_MEMBER@))),
            ),
            None => None,
        },
        None => None,
    }
}

/// The temperature and the weather code in the answer `body` of the weather
/// service, both as JSON text, or `None` where the answer is no document.
pub open spec fn weather_in(body: Seq<char>) -> Option<(Seq<char>, Seq<char>)> {
    match json_document(body) {
        Some(document) => {
            let current = document.member(CURRENT_MEMBER@);
            Some(
                (
                    json_text(current.member(TEMPERATURE_MEMBER@)),
                    json_text(current.member(WEATHER_CODE_MEMBER@)),
                ),
            )
        },
        None => None,
    }
}

/// Reads the names of the crew from the answer of the crew service.
pub fn crew_from_json(body: &str) -> (crew: Result<Vec<String>, FetchError>)
    ensures
        match crew_in(body@) {
            Some(names) => crew matches Ok(list) && list.deep_view() == names,
            None => crew == Err::<Vec<String>, FetchError>(FetchError::Parse),
        },
{
    let document = match read_document(body) {
        Ok(document) => document,
        Err(_) => {
            return Err(FetchError::Parse);
        },
    };
    let people = match items_of(member_of(&document, PEOPLE_MEMBER)) {
        Some(people) => people,
        None => {
            return Err(FetchError::Parse);
        },
    };
    let ghost names = crew_in(body@).unwrap();
    let mut list: Vec<String> = Vec::new();
    let mut i: usize = 0;
    while i < people.len()
        invariant
            i <= people.len(),
            names.len() == people.len(),
            forall|k: int|
                0 <= k < people.len() ==> #[trigger] names[k] == json_text(
                    json_contents(people@[k]).member(NAME_MEMBER@),
                ),
            list.len() == i,
            forall|k: int| 0 <= k < i ==> #[trigger] list@[k]@ == names[k],
        decreases people.len() - i,
    {
        list.push(text_of(member_of(&people[i], NAME_MEMBER)));
        i = i + 1;
    }
    assert(list.deep_view() =~= names);
    Ok(list)
}

/// Reads the temperature and the weather code from the answer of the weather
/// service.
pub fn weather_from_json(body: &str) -> (weather: Result<WeatherReading, FetchError>)
    ensures
        match weather_in(body@) {
            Some((temperature, weather_code)) => weather matches Ok(reading) && reading.temperature@
                == temperature && reading.weather_code@ == weather_code,
            None => weather matches Err(error) && error == FetchError::Parse,
        },
{
    match read_document(body) {
        Ok(document) => {
            let current = member_of(&document, CURRENT_MEMBER);
            Ok(
                WeatherReading {
                    temperature: text_of(member_of(current, TEMPERATURE_MEMBER)),
                    weather_code: text_of(member_of(current, WEATHER_CODE_MEMBER)),
                },
            )
        },
        Err(_) => Err(FetchError::Parse),
    }
}

/// Reads the member `key` of `document` as a number of millionths.
fn number_from(document: &Value, key: &str) -> (number: Option<Micros>)
    ensures
        number == number_in(json_contents(*document), key@),
{
    let text = text_of(member_of(document, key));
    parse_micros(text.as_str())
}

/// Reads the reading of the station from the answer of the position service.
pub fn position_from_json(body: &str) -> (position: Result<TelemetrySample, FetchError>)
    ensures
        match position_in(body@) {
            Some(sample) => position == Ok::<TelemetrySample, FetchError>(sample),
            None => position == Err::<TelemetrySample, FetchError>(FetchError::Parse),
        },
{
    let document = match read_document(body) {
        Ok(document) => document,
        Err(_) => {
            return Err(FetchError::Parse);
        },
    };
    let lat = number_from(&document, LATITUDE_MEMBER);
    let lon = number_from(&document, LONGITUDE_MEMBER);
    let alt = number_from(&document, ALTITUDE_MEMBER);
    let time = number_from(&document, TIMESTAMP_MEMBER);
    match (lat, lon, alt, time) {
        (Some(lat), Some(lon), Some(alt), Some(time)) => Ok(
            TelemetrySample { lat, lon, alt, time },
        ),
        _ => Err(FetchError::Parse),
    }
}

/// The predicted trajectory to show for the outcome of its fetch: the
/// positions that were fetched, or none at all where the fetch failed. A
/// failure here is no reason to stop.
pub fn future_trajectory(fetched: Result<Vec<Position>, FetchError>) -> (trajectory:
    TrajectoryHistory)
    ensures
        trajectory.cap() == None::<nat>,
        trajectory@ == match fetched {
            Ok(points) => points@,
            Err(_) => Seq::<Position>::empty(),
        },
{
    match fetched {
        Ok(points) => TrajectoryHistory::from_points(&points),
        Err(_) => TrajectoryHistory::new(),
    }
}

} // verus!
