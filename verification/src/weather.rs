//! Weather codes.
//!
//! The weather service reports the weather as a WMO code. A table of code
//! ranges gives each code a description and a coarse category that selects the
//! pictograph to show. A code outside every range, or a text that is no
//! number at all, is unknown weather: outer space.

use vstd::prelude::*;
use vstd::string::*;

use crate::decimal::decimal_i32;
use crate::decimal::parse_i32;

verus! {

/// Pictograph of clear or mostly clear sky.
pub const WEATHER_ASCII_SUN: &'static str = "\n   | \n\n ~ 0 ~\n\n   |\n\n";

/// Pictograph of fog.
pub const WEATHER_ASCII_CLOUDS: &'static str =
    "\n    ~~~~\n\n   (\u{2591}\u{2591}\u{2591}\u{2591}) \n\n (\u{2591}\u{2591}\u{2591}\u{2591}\u{2591}\u{2591})\n\n (\u{2591}\u{2591}\u{2591}\u{2591}\u{2591})\n\n";

/// Pictograph of rain, snow and thunderstorms.
pub const WEATHER_ASCII_RAIN: &'static str = "\n !  !\n\n  '   ' '! \n\n ' ' ! !\n\n !  !\n\n";

/// Pictograph of wind. No weather code selects it.
pub const WEATHER_ASCII_WIND: &'static str = "\n ~  ~ ~\n\n   ~  ~  ~\n\n ~ ~ ~ ~\n\n";

/// Pictograph of unknown weather.
pub const WEATHER_ASCII_OUTER_SPACE: &'static str = "\n *       *\n\n      *   \n\n   *    \n\n";

/// The code that stands for a text that is no number.
pub const UNPARSABLE_CODE: i32 = 1001;

/// Coarse category of weather, one per pictograph.
#[derive(Clone, Copy, Debug, PartialEq, Eq, Structural)]
pub enum GlyphCategory {
    /// Codes 0 to 3.
    Sun,
    /// Codes 4 to 8.
    Clouds,
    /// The precipitation and thunderstorm codes between 51 and 99.
    Rain,
    /// Every other code.
    OuterSpace,
}

/// Fine category of weather, one per description.
#[derive(Clone, Copy, Debug, PartialEq, Eq, Structural)]
pub enum WeatherKind {
    /// Code 0.
    ClearSky,
    /// Codes 1 to 3.
    MainlyClear,
    /// Codes 4 to 8.
    Fog,
    /// Codes 51 to 55.
    Drizzle,
    /// Codes 56 and 57.
    FreezingDrizzle,
    /// Codes 61 to 65.
    Rain,
    /// Codes 66 and 67.
    FreezingRain,
    /// Codes 71 to 75.
    Snowfall,
    /// Code 77.
    SnowGrains,
    /// Codes 80 to 82.
    RainShowers,
    /// Codes 85 and 86.
    SnowShowers,
    /// Code 95.
    Thunderstorm,
    /// Codes 96 to 99.
    ThunderstormWithHail,
    /// Every other code.
    Unknown,
}

/// The fine category of the weather code `code`.
pub open spec fn kind_of_code(code: int) -> WeatherKind {
    if code == 0 {
        WeatherKind::ClearSky
    } else if 1 <= code <= 3 {
        WeatherKind::MainlyClear
    } else if 4 <= code <= 8 {
        WeatherKind::Fog
    } else if 51 <= code <= 55 {
        WeatherKind::Drizzle
    } else if 56 <= code <= 57 {
        WeatherKind::FreezingDrizzle
    } else if 61 <= code <= 65 {
        WeatherKind::Rain
    } else if 66 <= code <= 67 {
        WeatherKind::FreezingRain
    } else if 71 <= code <= 75 {
        WeatherKind::Snowfall
    } else if code == 77 {
        WeatherKind::SnowGrains
    } else if 80 <= code <= 82 {
        WeatherKind::RainShowers
    } else if 85 <= code <= 86 {
        WeatherKind::SnowShowers
    } else if code == 95 {
        WeatherKind::Thunderstorm
    } else if 96 <= code <= 99 {
        WeatherKind::ThunderstormWithHail
    } else {
        WeatherKind::Unknown
    }
}

/// The coarse category of a fine one.
pub open spec fn glyph_of_kind(kind: WeatherKind) -> GlyphCategory {
    match kind {
        WeatherKind::ClearSky | WeatherKind::MainlyClear => GlyphCategory::Sun,
        WeatherKind::Fog => GlyphCategory::Clouds,
        WeatherKind::Unknown => GlyphCategory::OuterSpace,
        _ => GlyphCategory::Rain,
    }
}

/// The coarse category of the weather code `code`.
pub open spec fn glyph_of_code(code: int) -> GlyphCategory {
    if 0 <= code <= 3 {
        GlyphCategory::Sun
    } else if 4 <= code <= 8 {
        GlyphCategory::Clouds
    } else if kind_of_code(code) != WeatherKind::Unknown {
        GlyphCategory::Rain
    } else {
        GlyphCategory::OuterSpace
    }
}

/// The description of a fine category.
pub open spec fn description_of(kind: WeatherKind) -> Seq<char> {
    match kind {
        WeatherKind::ClearSky => "Clear sky"@,
        WeatherKind::MainlyClear => "Mainly clear, partly cloudy, or overcast"@,
        WeatherKind::Fog => "Fog"@,
        WeatherKind::Drizzle => "Drizzle (Light, moderate, or dense)"@,
        WeatherKind::FreezingDrizzle => "Freezing Drizzle (Light or dense)"@,
        WeatherKind::Rain => "Rain (Slight, moderate, or heavy)"@,
        WeatherKind::FreezingRain => "Freezing Rain (Light or heavy)"@,
        WeatherKind::Snowfall => "Snowfall (Slight, moderate, or heavy)"@,
        WeatherKind::SnowGrains => "Snow grains"@,
        WeatherKind::RainShowers => "Rain showers (Slight, moderate, or violent)"@,
        WeatherKind::SnowShowers => "Snow showers (Slight or heavy)"@,
        WeatherKind::Thunderstorm => "Thunderstorm (Slight or moderate)"@,
        WeatherKind::ThunderstormWithHail => "Thunderstorm with slight or heavy hail"@,
        WeatherKind::Unknown => "Unknown weather code"@,
    }
}

/// The pictograph of a coarse category.
pub open spec fn art_of(glyph: GlyphCategory) -> Seq<char> {
    match glyph {
        GlyphCategory::Sun => WEATHER_ASCII_SUN@,
        GlyphCategory::Clouds => WEATHER_ASCII_CLOUDS@,
        GlyphCategory::Rain => WEATHER_ASCII_RAIN@,
        GlyphCategory::OuterSpace => WEATHER_ASCII_OUTER_SPACE@,
    }
}

/// The weather code that the text `text` stands for.
pub open spec fn code_of_text(text: Seq<char>) -> int {
    match decimal_i32(text) {
        Some(code) => code as int,
        None => UNPARSABLE_CODE as int,
    }
}

impl WeatherKind {
    /// The description shown for this kind of weather.
    pub fn description(self) -> (text: &'static str)
        ensures
            text@ == description_of(self),
    {
        match self {
            WeatherKind::ClearSky => "Clear sky",
            WeatherKind::MainlyClear => "Mainly clear, partly cloudy, or overcast",
            WeatherKind::Fog => "Fog",
            WeatherKind::Drizzle => "Drizzle (Light, moderate, or dense)",
            WeatherKind::FreezingDrizzle => "Freezing Drizzle (Light or dense)",
            WeatherKind::Rain => "Rain (Slight, moderate, or heavy)",
            WeatherKind::FreezingRain => "Freezing Rain (Light or heavy)",
            WeatherKind::Snowfall => "Snowfall (Slight, moderate, or heavy)",
            WeatherKind::SnowGrains => "Snow grains",
            WeatherKind::RainShowers => "Rain showers (Slight, moderate, or violent)",
            WeatherKind::SnowShowers => "Snow showers (Slight or heavy)",
            WeatherKind::Thunderstorm => "Thunderstorm (Slight or moderate)",
            WeatherKind::ThunderstormWithHail => "Thunderstorm with slight or heavy hail",
            WeatherKind::Unknown => "Unknown weather code",
        }
    }
}

impl GlyphCategory {
    /// The pictograph shown for this category.
    pub fn art(self) -> (text: &'static str)
        ensures
            text@ == art_of(self),
    {
        match self {
            GlyphCategory::Sun => WEATHER_ASCII_SUN,
            GlyphCategory::Clouds => WEATHER_ASCII_CLOUDS,
            GlyphCategory::Rain => WEATHER_ASCII_RAIN,
            GlyphCategory::OuterSpace => WEATHER_ASCII_OUTER_SPACE,
        }
    }
}

/// One row of the weather table: a range of codes and what it means.
#[derive(Clone, Copy, Debug, PartialEq, Eq, Structural)]
pub struct WeatherRow {
    /// The first code of the range.
    pub first: i32,
    /// The last code of the range.
    pub last: i32,
    /// The fine category of every code in the range.
    pub kind: WeatherKind,
    /// The coarse category of every code in the range.
    pub glyph: GlyphCategory,
}

impl WeatherRow {
    /// Whether `code` lies in the range of this row.
    pub open spec fn covers(self, code: int) -> bool {
        self.first <= code <= self.last
    }
}

/// The weather table, in ascending order of codes.
pub open spec fn weather_table() -> Seq<WeatherRow> {
    seq![
        WeatherRow { first: 0, last: 0, kind: WeatherKind::ClearSky, glyph: GlyphCategory::Sun },
        WeatherRow { first: 1, last: 3, kind: WeatherKind::MainlyClear, glyph: GlyphCategory::Sun },
        WeatherRow { first: 4, last: 8, kind: WeatherKind::Fog, glyph: GlyphCategory::Clouds },
        WeatherRow { first: 51, last: 55, kind: WeatherKind::Drizzle, glyph: GlyphCategory::Rain },
        WeatherRow {
            first: 56,
            last: 57,
            kind: WeatherKind::FreezingDrizzle,
            glyph: GlyphCategory::Rain,
        },
        WeatherRow { first: 61, last: 65, kind: WeatherKind::Rain, glyph: GlyphCategory::Rain },
        WeatherRow {
            first: 66,
            last: 67,
            kind: WeatherKind::FreezingRain,
            glyph: GlyphCategory::Rain,
        },
        WeatherRow { first: 71, last: 75, kind: WeatherKind::Snowfall, glyph: GlyphCategory::Rain },
        WeatherRow {
            first: 77,
            last: 77,
            kind: WeatherKind::SnowGrains,
            glyph: GlyphCategory::Rain,
        },
        WeatherRow {
            first: 80,
            last: 82,
            kind: WeatherKind::RainShowers,
            glyph: GlyphCategory::Rain,
        },
        WeatherRow {
            first: 85,
            last: 86,
            kind: WeatherKind::SnowShowers,
            glyph: GlyphCategory::Rain,
        },
        WeatherRow {
            first: 95,
            last: 95,
            kind: WeatherKind::Thunderstorm,
            glyph: GlyphCategory::Rain,
        },
        WeatherRow {
            first: 96,
            last: 99,
            kind: WeatherKind::ThunderstormWithHail,
            glyph: GlyphCategory::Rain,
        },
    ]
}

/// The first row of `rows`, from index `from` on, that covers `code`.
pub open spec fn first_match(rows: Seq<WeatherRow>, code: int, from: int) -> Option<WeatherRow>
    decreases rows.len() - from,
{
    if from < 0 || from >= rows.len() {
        None
    } else if rows[from].covers(code) {
        Some(rows[from])
    } else {
        first_match(rows, code, from + 1)
    }
}

/// The fine category that a table gives a code.
pub open spec fn table_kind(rows: Seq<WeatherRow>, code: int) -> WeatherKind {
    match first_match(rows, code, 0) {
        Some(row) => row.kind,
        None => WeatherKind::Unknown,
    }
}

/// The coarse category that a table gives a code.
pub open spec fn table_glyph(rows: Seq<WeatherRow>, code: int) -> GlyphCategory {
    match first_match(rows, code, 0) {
        Some(row) => row.glyph,
        None => GlyphCategory::OuterSpace,
    }
}

/// The rows of the weather table are ranges in ascending order that do not
/// overlap, so the first row that covers a code is the only one.
pub proof fn table_rows_do_not_overlap(i: int, j: int)
    requires
        0 <= i < j < weather_table().len(),
    ensures
        weather_table().len() == 13,
        weather_table()[i].first <= weather_table()[i].last,
        weather_table()[j].first <= weather_table()[j].last,
        weather_table()[i].last < weather_table()[j].first,
        forall|code: int| !(weather_table()[i].covers(code) && weather_table()[j].covers(code)),
{
}

/// The weather table says of every code what the ranges of the two
/// categories say, and its coarse category is that of its fine one.
pub proof fn table_agrees_with_ranges(code: int)
    ensures
        table_kind(weather_table(), code) == kind_of_code(code),
        table_glyph(weather_table(), code) == glyph_of_code(code),
        glyph_of_code(code) == glyph_of_kind(kind_of_code(code)),
{
    reveal_with_fuel(first_match, 14);
}

/// The weather table as a value to search.
pub fn weather_rows() -> (rows: Vec<WeatherRow>)
    ensures
        rows@ == weather_table(),
{
    let rows = vec![
        WeatherRow { first: 0, last: 0, kind: WeatherKind::ClearSky, glyph: GlyphCategory::Sun },
        WeatherRow { first: 1, last: 3, kind: WeatherKind::MainlyClear, glyph: GlyphCategory::Sun },
        WeatherRow { first: 4, last: 8, kind: WeatherKind::Fog, glyph: GlyphCategory::Clouds },
        WeatherRow { first: 51, last: 55, kind: WeatherKind::Drizzle, glyph: GlyphCategory::Rain },
        WeatherRow {
            first: 56,
            last: 57,
            kind: WeatherKind::FreezingDrizzle,
            glyph: GlyphCategory::Rain,
        },
        WeatherRow { first: 61, last: 65, kind: WeatherKind::Rain, glyph: GlyphCategory::Rain },
        WeatherRow {
            first: 66,
            last: 67,
            kind: WeatherKind::FreezingRain,
            glyph: GlyphCategory::Rain,
        },
        WeatherRow { first: 71, last: 75, kind: WeatherKind::Snowfall, glyph: GlyphCategory::Rain },
        WeatherRow {
            first: 77,
            last: 77,
            kind: WeatherKind::SnowGrains,
            glyph: GlyphCategory::Rain,
        },
        WeatherRow {
            first: 80,
            last: 82,
            kind: WeatherKind::RainShowers,
            glyph: GlyphCategory::Rain,
        },
        WeatherRow {
            first: 85,
            last: 86,
            kind: WeatherKind::SnowShowers,
            glyph: GlyphCategory::Rain,
        },
        WeatherRow {
            first: 95,
            last: 95,
            kind: WeatherKind::Thunderstorm,
            glyph: GlyphCategory::Rain,
        },
        WeatherRow {
            first: 96,
            last: 99,
            kind: WeatherKind::ThunderstormWithHail,
            glyph: GlyphCategory::Rain,
        },
    ];
    assert(rows@ =~= weather_table());
    rows
}

/// Searches `rows` from the top for the first row that covers `code`.
pub fn lookup(rows: &Vec<WeatherRow>, code: i32) -> (found: Option<WeatherRow>)
    ensures
        found == first_match(rows@, code as int, 0),
{
    let mut i: usize = 0;
    while i < rows.len()
        invariant
            i <= rows.len(),
            first_match(rows@, code as int, 0) == first_match(rows@, code as int, i as int),
        decreases rows.len() - i,
    {
        let row = rows[i];
        if row.first <= code && code <= row.last {
            return Some(row);
        }
        i = i + 1;
    }
    None
}

/// What the dashboard shows for a weather code.
pub struct WeatherReport {
    /// The fine category of the code.
    pub kind: WeatherKind,
    /// The description of the weather.
    pub description: String,
    /// The category of the pictograph.
    pub glyph: GlyphCategory,
}

/// Describes the weather code `code`: its description and the category of its
/// pictograph, both read from the weather table.
pub fn describe(code: i32) -> (report: WeatherReport)
    ensures
        report.kind == kind_of_code(code as int),
        report.description@ == description_of(kind_of_code(code as int)),
        report.glyph == glyph_of_code(code as int),
{
    let rows = weather_rows();
    proof {
        table_agrees_with_ranges(code as int);
    }
    let (kind, glyph) = match lookup(&rows, code) {
        Some(row) => (row.kind, row.glyph),
        None => (WeatherKind::Unknown, GlyphCategory::OuterSpace),
    };
    WeatherReport { kind, description: String::from_str(kind.description()), glyph }
}

/// Reads a weather code from text. A text that is no number stands for a code
/// that no range covers.
pub fn parse_code(text: &str) -> (code: i32)
    ensures
        code == code_of_text(text@),
{
    match parse_i32(text) {
        Some(code) => code,
        None => UNPARSABLE_CODE,
    }
}

/// The description of the weather whose code is written in `weather_code`.
pub fn get_wmo_code(weather_code: &String) -> (text: String)
    ensures
        text@ == description_of(kind_of_code(code_of_text(weather_code@))),
{
    let code = parse_code(weather_code.as_str());
    describe(code).description
}

/// The pictograph of the weather whose code is written in `weather_code`.
pub fn get_weather_ascii(weather_code: &String) -> (text: String)
    ensures
        text@ == art_of(glyph_of_code(code_of_text(weather_code@))),
{
    let code = parse_code(weather_code.as_str());
    String::from_str(describe(code).glyph.art())
}

/// The text shown in the weather panel for a temperature reading and a
/// weather code, both as the weather service wrote them.
pub open spec fn weather_text(temperature: Seq<char>, weather_code: Seq<char>) -> Seq<char> {
    temperature + " degrees"@ + "\n"@ + description_of(kind_of_code(code_of_text(weather_code)))
        + "\n"@ + art_of(glyph_of_code(code_of_text(weather_code)))
}

/// Composes the text of the weather panel: the temperature, the description of
/// the weather and its pictograph, one below the other.
pub fn compose_weather(temperature: &str, weather_code: &String) -> (text: String)
    ensures
        text@ == weather_text(temperature@, weather_code@),
{
    let mut forecast = String::from_str(temperature);
    let description = get_wmo_code(weather_code);
    forecast.append(" degrees");
    forecast.append("\n");
    forecast.append(description.as_str());
    let art = get_weather_ascii(weather_code);
    forecast.append("\n");
    forecast.append(art.as_str());
    forecast
}

} // verus!
