//! The telemetry model.
//!
//! The model holds the latest reading of the station, the altitude of the
//! reading before it, the orbital phase that follows from the two, the
//! positions seen so far, and the texts of the country, crew and weather
//! panels. Readings come from outside; a reading that could not be fetched
//! leaves the model as it was, apart from a note of the failure.

use vstd::prelude::*;
use vstd::string::*;

use crate::history::kept;
use crate::history::kept_is_within_cap;
use crate::history::Position;
use crate::history::TrajectoryHistory;
use crate::orbit::classify;
use crate::orbit::phase_label;
use crate::orbit::phase_of;
use crate::orbit::OrbitalPhase;
use crate::units::Micros;
use crate::weather::compose_weather;
use crate::weather::weather_text;

verus! {

/// The name shown where the position belongs to no known country.
pub const UNKNOWN_COUNTRY: &'static str = "Unknown Country";

/// The text put between the names of the crew.
pub const CREW_SEPARATOR: &'static str = "\n";

/// Millionths of a degree in the greatest latitude.
pub const LATITUDE_LIMIT: i64 = 90_000_000;

/// Millionths of a degree in the greatest longitude.
pub const LONGITUDE_LIMIT: i64 = 180_000_000;

/// Why a reading could not be had.
#[derive(Clone, Copy, Debug, PartialEq, Eq, Structural)]
pub enum FetchError {
    /// The service could not be reached.
    Network,
    /// The service answered with something that is no reading.
    Parse,
}

/// One reading of the station: where it is, how high, and when.
#[derive(Clone, Copy, Debug, PartialEq, Eq, Structural)]
pub struct TelemetrySample {
    /// Latitude, in millionths of a degree.
    pub lat: Micros,
    /// Longitude, in millionths of a degree.
    pub lon: Micros,
    /// Altitude, in millionths of a kilometre.
    pub alt: Micros,
    /// Time of the reading, in millionths of a second since the epoch.
    pub time: Micros,
}

impl TelemetrySample {
    /// Whether the reading is a place on or above the globe: a latitude of at
    /// most 90 degrees either way, a longitude of at most 180 degrees either
    /// way, and an altitude that is not negative.
    pub open spec fn in_range(self) -> bool {
        &&& -LATITUDE_LIMIT <= self.lat.value() <= LATITUDE_LIMIT
        &&& -LONGITUDE_LIMIT <= self.lon.value() <= LONGITUDE_LIMIT
        &&& 0 <= self.alt.value()
    }

    /// Whether the reading is a place on or above the globe.
    pub fn is_valid(&self) -> (valid: bool)
        ensures
            valid == self.in_range(),
    {
        -LATITUDE_LIMIT <= self.lat.raw && self.lat.raw <= LATITUDE_LIMIT && -LONGITUDE_LIMIT
            <= self.lon.raw && self.lon.raw <= LONGITUDE_LIMIT && 0 <= self.alt.raw
    }
}

/// A reading together with the country below the station, where one was found.
pub struct PositionFix {
    /// The reading.
    pub sample: TelemetrySample,
    /// The name of the country, or `None` where the lookup found none.
    pub country: Option<String>,
}

/// What the weather service reported, as it wrote it.
pub struct WeatherReading {
    /// The temperature.
    pub temperature: String,
    /// The weather code.
    pub weather_code: String,
}

/// The name to show for the outcome of a country lookup.
pub open spec fn country_name(country: Option<String>) -> Seq<char> {
    match country {
        Some(name) => name@,
        None => UNKNOWN_COUNTRY@,
    }
}

/// The names `names`, one per line.
pub open spec fn joined_lines(names: Seq<Seq<char>>) -> Seq<char>
    decreases names.len(),
{
    if names.len() == 0 {
        Seq::empty()
    } else if names.len() == 1 {
        names[0]
    } else {
        joined_lines(names.drop_last()) + CREW_SEPARATOR@ + names.last()
    }
}

/// The telemetry model as a mathematical value.
pub struct Telemetry {
    /// Latitude of the latest reading.
    pub lat: Micros,
    /// Longitude of the latest reading.
    pub lon: Micros,
    /// Altitude of the latest reading.
    pub alt: Micros,
    /// Time of the latest reading.
    pub time: Micros,
    /// Altitude of the reading before the latest.
    pub prev_alt: Micros,
    /// The orbital phase.
    pub phase: OrbitalPhase,
    /// The country below the station.
    pub country: Seq<char>,
    /// The crew, one name per line.
    pub crew: Seq<char>,
    /// The text of the weather panel.
    pub weather: Seq<char>,
    /// The positions seen so far, oldest first.
    pub history: Seq<Position>,
    /// The cap of the history, if it has one.
    pub cap: Option<nat>,
    /// Why the latest fetch failed, if it did.
    pub last_error: Option<FetchError>,
}

impl Telemetry {
    /// What holds of every model: the phase is the one that follows from the
    /// previous and the current altitude, and the history is within its cap.
    pub open spec fn wf(self) -> bool {
        &&& self.phase == phase_of(self.prev_alt, self.alt)
        &&& kept(self.history, self.cap) == self.history
    }

    /// The model before any reading: everything zero or empty.
    pub open spec fn initial(cap: Option<nat>) -> Telemetry {
        let zero = Micros { raw: 0 };
        Telemetry {
            lat: zero,
            lon: zero,
            alt: zero,
            time: zero,
            prev_alt: zero,
            phase: phase_of(zero, zero),
            country: Seq::empty(),
            crew: Seq::empty(),
            weather: Seq::empty(),
            history: Seq::empty(),
            cap,
            last_error: None,
        }
    }

    /// The model with the current altitude set to `altitude`, as if it had
    /// been read.
    pub open spec fn seeded(self, altitude: Micros) -> Telemetry {
        Telemetry { alt: altitude, phase: phase_of(self.prev_alt, altitude), ..self }
    }

    /// The model with the station put at a place by hand. The place is no
    /// reading: neither the previous altitude nor the history takes note.
    pub open spec fn placed(self, lat: Micros, lon: Micros, alt: Micros) -> Telemetry {
        Telemetry { lat, lon, ..self.seeded(alt) }
    }

    /// The model after the reading `sample` over the country `country`: the
    /// altitude so far becomes the previous one, the reading becomes the
    /// current one, its position joins the history, and the phase follows.
    pub open spec fn moved(self, sample: TelemetrySample, country: Seq<char>) -> Telemetry {
        Telemetry {
            lat: sample.lat,
            lon: sample.lon,
            alt: sample.alt,
            time: sample.time,
            prev_alt: self.alt,
            phase: phase_of(self.alt, sample.alt),
            country,
            history: kept(self.history.push((sample.lat, sample.lon)), self.cap),
            ..self
        }
    }

    /// The model after a fetch that failed with `error`: as before, with the
    /// failure noted.
    pub open spec fn failed(self, error: FetchError) -> Telemetry {
        Telemetry { last_error: Some(error), ..self }
    }

    /// The model after a fetch of the position ended as `fetched`. A reading
    /// that is no place on or above the globe counts as one that could not be
    /// read.
    pub open spec fn refreshed(self, fetched: Result<PositionFix, FetchError>) -> Telemetry {
        match fetched {
            Ok(fix) => if fix.sample.in_range() {
                Telemetry { last_error: None, ..self.moved(fix.sample, country_name(fix.country)) }
            } else {
                self.failed(FetchError::Parse)
            },
            Err(error) => self.failed(error),
        }
    }

    /// The model after a fetch of the crew ended as `fetched`.
    pub open spec fn crew_refreshed(self, fetched: Result<Vec<String>, FetchError>) -> Telemetry {
        match fetched {
            Ok(names) => Telemetry {
                crew: joined_lines(names.deep_view()),
                last_error: None,
                ..self
            },
            Err(error) => self.failed(error),
        }
    }

    /// The model after a fetch of the weather ended as `fetched`.
    pub open spec fn weather_refreshed(
        self,
        fetched: Result<WeatherReading, FetchError>,
    ) -> Telemetry {
        match fetched {
            Ok(reading) => Telemetry {
                weather: weather_text(reading.temperature@, reading.weather_code@),
                last_error: None,
                ..self
            },
            Err(error) => self.failed(error),
        }
    }
}

/// The telemetry model.
#[derive(Clone, Debug)]
pub struct Iss {
    lat: Micros,
    lon: Micros,
    alt: Micros,
    time: Micros,
    country: String,
    pos_data: TrajectoryHistory,
    prev_alt: Micros,
    phase: OrbitalPhase,
    crew: String,
    weather: String,
    last_error: Option<FetchError>,
}

impl View for Iss {
    type V = Telemetry;

    closed spec fn view(&self) -> Telemetry {
        Telemetry {
            lat: self.lat,
            lon: self.lon,
            alt: self.alt,
            time: self.time,
            prev_alt: self.prev_alt,
            phase: self.phase,
            country: self.country@,
            crew: self.crew@,
            weather: self.weather@,
            history: self.pos_data@,
            cap: self.pos_data.cap(),
            last_error: self.last_error,
        }
    }
}

/// Joins `names` into one text, one name per line.
pub fn join_lines(names: &Vec<String>) -> (text: String)
    ensures
        text@ == joined_lines(names.deep_view()),
{
    let ghost all = names.deep_view();
    let mut text = String::new();
    let mut i: usize = 0;
    while i < names.len()
        invariant
            i <= names.len(),
            all == names.deep_view(),
            all.len() == names.len(),
            text@ == joined_lines(all.subrange(0, i as int)),
        decreases names.len() - i,
    {
        let ghost before = all.subrange(0, i as int);
        let ghost after = all.subrange(0, i + 1);
        if i > 0 {
            text.append(CREW_SEPARATOR);
        }
        text.append(names[i].as_str());
        proof {
            assert(after.drop_last() =~= before);
            assert(after.last() == names[i as int]@);
            if i == 0 {
                assert(text@ =~= after[0]);
            }
        }
        i = i + 1;
    }
    assert(all.subrange(0, i as int) =~= all);
    text
}

impl Iss {
    /// A model without readings whose history has no cap.
    pub fn new() -> (iss: Iss)
        ensures
            iss@ == Telemetry::initial(None),
            iss@.wf(),
    {
        let zero = Micros { raw: 0 };
        Iss {
            lat: zero,
            lon: zero,
            alt: zero,
            time: zero,
            country: String::new(),
            pos_data: TrajectoryHistory::new(),
            prev_alt: zero,
            phase: classify(zero, zero),
            crew: String::new(),
            weather: String::new(),
            last_error: None,
        }
    }

    /// A model without readings whose history keeps the latest `cap`
    /// positions.
    pub fn with_history_cap(cap: usize) -> (iss: Iss)
        ensures
            iss@ == Telemetry::initial(Some(cap as nat)),
            iss@.wf(),
    {
        let zero = Micros { raw: 0 };
        Iss {
            lat: zero,
            lon: zero,
            alt: zero,
            time: zero,
            country: String::new(),
            pos_data: TrajectoryHistory::with_cap(cap),
            prev_alt: zero,
            phase: classify(zero, zero),
            crew: String::new(),
            weather: String::new(),
            last_error: None,
        }
    }

    /// Sets the current altitude before the first reading has come, so that
    /// the first reading has something to be compared with.
    pub fn seed_altitude(&mut self, altitude: Micros)
        ensures
            final(self)@ == old(self)@.seeded(altitude),
            old(self)@.wf() ==> final(self)@.wf(),
    {
        self.alt = altitude;
        self.phase = classify(self.prev_alt, altitude);
    }

    /// Puts the station at a place by hand, without a reading.
    pub fn set_position(&mut self, lat: Micros, lon: Micros, alt: Micros)
        ensures
            final(self)@ == old(self)@.placed(lat, lon, alt),
            old(self)@.wf() ==> final(self)@.wf(),
    {
        self.lat = lat;
        self.lon = lon;
        self.alt = alt;
        self.phase = classify(self.prev_alt, alt);
    }

    /// Takes in a reading and the outcome of the country lookup for it.
    pub fn update_position(&mut self, sample: TelemetrySample, country: Option<String>)
        ensures
            final(self)@ == old(self)@.moved(sample, country_name(country)),
            final(self)@.wf(),
    {
        self.prev_alt = self.alt;
        self.lat = sample.lat;
        self.lon = sample.lon;
        self.alt = sample.alt;
        self.time = sample.time;
        self.country = match country {
            Some(name) => name,
            None => String::from_str(UNKNOWN_COUNTRY),
        };
        self.pos_data.append(sample.lat, sample.lon);
        self.phase = classify(self.prev_alt, self.alt);
    }

    /// Takes in the names of the crew.
    pub fn update_crew(&mut self, names: &Vec<String>)
        ensures
            final(self)@ == (Telemetry { crew: joined_lines(names.deep_view()), ..old(self)@ }),
    {
        self.crew = join_lines(names);
    }

    /// Takes in the text of the weather panel.
    pub fn update_weather(&mut self, weather: String)
        ensures
            final(self)@ == (Telemetry { weather: weather@, ..old(self)@ }),
    {
        self.weather = weather;
    }

    /// Takes in the outcome of a fetch of the position. A failure, or a
    /// reading that is no place on or above the globe, leaves the readings as
    /// they were and is noted; a reading updates the model and clears the
    /// note. Says whether the model was updated.
    pub fn refresh(&mut self, fetched: Result<PositionFix, FetchError>) -> (updated: bool)
        ensures
            final(self)@ == old(self)@.refreshed(fetched),
            updated == (fetched matches Ok(fix) && fix.sample.in_range()),
            old(self)@.wf() ==> final(self)@.wf(),
    {
        match fetched {
            Ok(fix) => {
                if fix.sample.is_valid() {
                    self.update_position(fix.sample, fix.country);
                    self.last_error = None;
                    true
                } else {
                    self.last_error = Some(FetchError::Parse);
                    false
                }
            },
            Err(error) => {
                self.last_error = Some(error);
                false
            },
        }
    }

    /// Takes in the outcome of a fetch of the crew, as `refresh` does for the
    /// position.
    pub fn refresh_crew(&mut self, fetched: Result<Vec<String>, FetchError>) -> (updated: bool)
        ensures
            final(self)@ == old(self)@.crew_refreshed(fetched),
            updated == fetched is Ok,
    {
        match fetched {
            Ok(names) => {
                self.update_crew(&names);
                self.last_error = None;
                true
            },
            Err(error) => {
                self.last_error = Some(error);
                false
            },
        }
    }

    /// Takes in the outcome of a fetch of the weather, as `refresh` does for
    /// the position.
    pub fn refresh_weather(&mut self, fetched: Result<WeatherReading, FetchError>) -> (updated:
        bool)
        ensures
            final(self)@ == old(self)@.weather_refreshed(fetched),
            updated == fetched is Ok,
    {
        match fetched {
            Ok(reading) => {
                let text = compose_weather(reading.temperature.as_str(), &reading.weather_code);
                self.update_weather(text);
                self.last_error = None;
                true
            },
            Err(error) => {
                self.last_error = Some(error);
                false
            },
        }
    }

    /// Latitude of the latest reading.
    pub fn lat(&self) -> (lat: Micros)
        ensures
            lat == self@.lat,
    {
        self.lat
    }

    /// Longitude of the latest reading.
    pub fn lon(&self) -> (lon: Micros)
        ensures
            lon == self@.lon,
    {
        self.lon
    }

    /// Altitude of the latest reading.
    pub fn alt(&self) -> (alt: Micros)
        ensures
            alt == self@.alt,
    {
        self.alt
    }

    /// Time of the latest reading.
    pub fn time(&self) -> (time: Micros)
        ensures
            time == self@.time,
    {
        self.time
    }

    /// Altitude of the reading before the latest.
    pub fn prev_alt(&self) -> (alt: Micros)
        ensures
            alt == self@.prev_alt,
    {
        self.prev_alt
    }

    /// The orbital phase.
    pub fn phase(&self) -> (phase: OrbitalPhase)
        ensures
            phase == self@.phase,
    {
        self.phase
    }

    /// The name of the orbital phase, as shown beside the coordinates.
    pub fn alt_perigee_apogee(&self) -> (text: String)
        ensures
            text@ == phase_label(self@.phase),
    {
        self.phase.label()
    }

    /// The country below the station.
    pub fn country(&self) -> (name: &String)
        ensures
            name@ == self@.country,
    {
        &self.country
    }

    /// The crew, one name per line.
    pub fn crew(&self) -> (text: &String)
        ensures
            text@ == self@.crew,
    {
        &self.crew
    }

    /// The text of the weather panel.
    pub fn weather(&self) -> (text: &String)
        ensures
            text@ == self@.weather,
    {
        &self.weather
    }

    /// The positions seen so far.
    pub fn pos_data(&self) -> (history: &TrajectoryHistory)
        ensures
            history@ == self@.history,
            history.cap() == self@.cap,
    {
        &self.pos_data
    }

    /// Why the latest fetch failed, if it did.
    pub fn last_error(&self) -> (error: Option<FetchError>)
        ensures
            error == self@.last_error,
    {
        self.last_error
    }
}

/// A reading always leaves the model well formed, and with the altitude it
/// had as its previous altitude: the old altitude is stored before the new
/// one takes its place.
pub proof fn reading_keeps_model_well_formed(
    model: Telemetry,
    sample: TelemetrySample,
    country: Seq<char>,
)
    ensures
        model.moved(sample, country).wf(),
        model.moved(sample, country).prev_alt == model.alt,
        model.moved(sample, country).alt == sample.alt,
{
}

/// The model is well formed from the start and stays so whatever a fetch
/// brings.
pub proof fn fetches_keep_model_well_formed(
    model: Telemetry,
    position: Result<PositionFix, FetchError>,
    crew: Result<Vec<String>, FetchError>,
    weather: Result<WeatherReading, FetchError>,
    altitude: Micros,
    cap: Option<nat>,
)
    requires
        model.wf(),
    ensures
        Telemetry::initial(cap).wf(),
        model.seeded(altitude).wf(),
        model.placed(altitude, altitude, altitude).wf(),
        model.refreshed(position).wf(),
        model.crew_refreshed(crew).wf(),
        model.weather_refreshed(weather).wf(),
{
}

/// A fetch that fails changes nothing that is shown but the note of the
/// failure.
pub proof fn failed_fetch_keeps_readings(model: Telemetry, error: FetchError)
    ensures
        model.refreshed(Err(error)) == (Telemetry { last_error: Some(error), ..model }),
        model.crew_refreshed(Err(error)) == (Telemetry { last_error: Some(error), ..model }),
        model.weather_refreshed(Err(error)) == (Telemetry { last_error: Some(error), ..model }),
{
}

/// The thresholds decide the phase after a reading whatever the altitude
/// before it was: above the apogee threshold the apogee is reached, below the
/// perigee threshold the perigee.
pub proof fn thresholds_decide_phase_after_reading(
    model: Telemetry,
    sample: TelemetrySample,
    country: Seq<char>,
)
    ensures
        sample.alt.floor() > crate::orbit::APOGEE_THRESHOLD_KM ==> model.moved(
            sample,
            country,
        ).phase == OrbitalPhase::ApogeeReached,
        sample.alt.floor() < crate::orbit::PERIGEE_THRESHOLD_KM ==> model.moved(
            sample,
            country,
        ).phase == OrbitalPhase::PerigeeReached,
{
}

/// Without a cap every reading adds its position at the end of the history
/// and moves nothing that was there.
pub proof fn reading_extends_history(model: Telemetry, sample: TelemetrySample, country: Seq<char>)
    requires
        model.cap is None,
    ensures
        model.moved(sample, country).history == model.history.push((sample.lat, sample.lon)),
        model.moved(sample, country).history.len() == model.history.len() + 1,
        forall|i: int|
            0 <= i < model.history.len() ==> model.moved(sample, country).history[i]
                == model.history[i],
{
}

} // verus!
