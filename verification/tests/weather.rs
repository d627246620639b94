use rsiss::decimal::parse_i32;
use rsiss::weather::compose_weather;
use rsiss::weather::describe;
use rsiss::weather::get_weather_ascii;
use rsiss::weather::get_wmo_code;
use rsiss::weather::lookup;
use rsiss::weather::parse_code;
use rsiss::weather::weather_rows;
use rsiss::weather::GlyphCategory;
use rsiss::weather::WeatherKind;
use rsiss::weather::UNPARSABLE_CODE;
use rsiss::weather::WEATHER_ASCII_CLOUDS;
use rsiss::weather::WEATHER_ASCII_OUTER_SPACE;
use rsiss::weather::WEATHER_ASCII_RAIN;
use rsiss::weather::WEATHER_ASCII_SUN;
use rsiss::weather::WEATHER_ASCII_WIND;

fn expected_description(code: i32) -> &'static str {
    match code {
        0 => "Clear sky",
        1..=3 => "Mainly clear, partly cloudy, or overcast",
        4..=8 => "Fog",
        51..=55 => "Drizzle (Light, moderate, or dense)",
        56..=57 => "Freezing Drizzle (Light or dense)",
        61..=65 => "Rain (Slight, moderate, or heavy)",
        66..=67 => "Freezing Rain (Light or heavy)",
        71..=75 => "Snowfall (Slight, moderate, or heavy)",
        77 => "Snow grains",
        80..=82 => "Rain showers (Slight, moderate, or violent)",
        85..=86 => "Snow showers (Slight or heavy)",
        95 => "Thunderstorm (Slight or moderate)",
        96..=99 => "Thunderstorm with slight or heavy hail",
        _ => "Unknown weather code",
    }
}

fn expected_glyph(code: i32) -> GlyphCategory {
    match code {
        0..=3 => GlyphCategory::Sun,
        4..=8 => GlyphCategory::Clouds,
        51..=57 | 61..=67 | 71..=75 | 77 | 80..=82 | 85..=86 | 95..=99 => GlyphCategory::Rain,
        _ => GlyphCategory::OuterSpace,
    }
}

#[test]
fn describe_clear_sky() {
    let report = describe(0);
    assert_eq!(report.description, "Clear sky");
    assert_eq!(report.glyph, GlyphCategory::Sun);
    assert_eq!(report.kind, WeatherKind::ClearSky);
}

#[test]
fn describe_thunderstorm_with_hail() {
    let report = describe(96);
    assert_eq!(report.description, "Thunderstorm with slight or heavy hail");
    assert_eq!(report.glyph, GlyphCategory::Rain);
    assert_eq!(report.kind, WeatherKind::ThunderstormWithHail);
}

#[test]
fn describe_codes_outside_every_range() {
    for code in [-5, 1000] {
        let report = describe(code);
        assert_eq!(report.description, "Unknown weather code");
        assert_eq!(report.glyph, GlyphCategory::OuterSpace);
        assert_eq!(report.kind, WeatherKind::Unknown);
    }
}

#[test]
fn describe_gaps_between_ranges_are_unknown() {
    for code in [9, 50, 58, 60, 68, 70, 76, 78, 79, 83, 84, 87, 94, 100] {
        let report = describe(code);
        assert_eq!(report.description, "Unknown weather code", "code {}", code);
        assert_eq!(report.glyph, GlyphCategory::OuterSpace, "code {}", code);
    }
}

#[test]
fn describe_first_and_last_code_of_each_range() {
    let edges = [
        (0, 0, WeatherKind::ClearSky),
        (1, 3, WeatherKind::MainlyClear),
        (4, 8, WeatherKind::Fog),
        (51, 55, WeatherKind::Drizzle),
        (56, 57, WeatherKind::FreezingDrizzle),
        (61, 65, WeatherKind::Rain),
        (66, 67, WeatherKind::FreezingRain),
        (71, 75, WeatherKind::Snowfall),
        (77, 77, WeatherKind::SnowGrains),
        (80, 82, WeatherKind::RainShowers),
        (85, 86, WeatherKind::SnowShowers),
        (95, 95, WeatherKind::Thunderstorm),
        (96, 99, WeatherKind::ThunderstormWithHail),
    ];
    for (first, last, kind) in edges {
        assert_eq!(describe(first).kind, kind);
        assert_eq!(describe(last).kind, kind);
    }
}

#[test]
fn describe_matches_the_ranges_for_every_code_nearby() {
    for code in -300..1300 {
        let report = describe(code);
        assert_eq!(report.description, expected_description(code), "code {}", code);
        assert_eq!(report.glyph, expected_glyph(code), "code {}", code);
    }
    for code in [i32::MIN, i32::MIN + 1, i32::MAX - 1, i32::MAX] {
        let report = describe(code);
        assert_eq!(report.description, "Unknown weather code");
        assert_eq!(report.glyph, GlyphCategory::OuterSpace);
    }
}

#[test]
fn description_of_each_kind() {
    assert_eq!(WeatherKind::ClearSky.description(), "Clear sky");
    assert_eq!(WeatherKind::MainlyClear.description(), "Mainly clear, partly cloudy, or overcast");
    assert_eq!(WeatherKind::Fog.description(), "Fog");
    assert_eq!(WeatherKind::Drizzle.description(), "Drizzle (Light, moderate, or dense)");
    assert_eq!(WeatherKind::FreezingDrizzle.description(), "Freezing Drizzle (Light or dense)");
    assert_eq!(WeatherKind::Rain.description(), "Rain (Slight, moderate, or heavy)");
    assert_eq!(WeatherKind::FreezingRain.description(), "Freezing Rain (Light or heavy)");
    assert_eq!(WeatherKind::Snowfall.description(), "Snowfall (Slight, moderate, or heavy)");
    assert_eq!(WeatherKind::SnowGrains.description(), "Snow grains");
    assert_eq!(
        WeatherKind::RainShowers.description(),
        "Rain showers (Slight, moderate, or violent)"
    );
    assert_eq!(WeatherKind::SnowShowers.description(), "Snow showers (Slight or heavy)");
    assert_eq!(WeatherKind::Thunderstorm.description(), "Thunderstorm (Slight or moderate)");
    assert_eq!(
        WeatherKind::ThunderstormWithHail.description(),
        "Thunderstorm with slight or heavy hail"
    );
    assert_eq!(WeatherKind::Unknown.description(), "Unknown weather code");
}

#[test]
fn pictographs_are_drawn_line_by_line() {
    assert_eq!(
        WEATHER_ASCII_SUN,
        "
   | \n
 ~ 0 ~\n
   |\n
"
    );
    assert_eq!(
        WEATHER_ASCII_CLOUDS,
        "
    ~~~~\n
   (░░░░) \n
 (░░░░░░)\n
 (░░░░░)\n
"
    );
    assert_eq!(
        WEATHER_ASCII_RAIN,
        "
 !  !\n
  '   ' '! \n
 ' ' ! !\n
 !  !\n
"
    );
    assert_eq!(
        WEATHER_ASCII_WIND,
        "
 ~  ~ ~\n
   ~  ~  ~\n
 ~ ~ ~ ~\n
"
    );
    assert_eq!(
        WEATHER_ASCII_OUTER_SPACE,
        "
 *       *\n
      *   \n
   *    \n
"
    );
}

#[test]
fn art_of_each_category() {
    assert_eq!(GlyphCategory::Sun.art(), WEATHER_ASCII_SUN);
    assert_eq!(GlyphCategory::Clouds.art(), WEATHER_ASCII_CLOUDS);
    assert_eq!(GlyphCategory::Rain.art(), WEATHER_ASCII_RAIN);
    assert_eq!(GlyphCategory::OuterSpace.art(), WEATHER_ASCII_OUTER_SPACE);
}

#[test]
fn weather_table_is_ascending_and_disjoint() {
    let rows = weather_rows();
    assert_eq!(rows.len(), 13);
    for row in rows.iter() {
        assert!(row.first <= row.last);
    }
    for pair in rows.windows(2) {
        assert!(pair[0].last < pair[1].first);
    }
}

#[test]
fn lookup_finds_the_first_covering_row() {
    let rows = weather_rows();
    let row = lookup(&rows, 63).unwrap();
    assert_eq!((row.first, row.last), (61, 65));
    assert_eq!(row.kind, WeatherKind::Rain);
    assert_eq!(row.glyph, GlyphCategory::Rain);
    assert!(lookup(&rows, 60).is_none());
    assert!(lookup(&Vec::new(), 0).is_none());
}

#[test]
fn wmo_code_text_is_described() {
    assert_eq!(get_wmo_code(&String::from("0")), "Clear sky");
    assert_eq!(get_wmo_code(&String::from("2")), "Mainly clear, partly cloudy, or overcast");
    assert_eq!(get_wmo_code(&String::from("45")), "Unknown weather code");
    assert_eq!(get_wmo_code(&String::from("96")), "Thunderstorm with slight or heavy hail");
    assert_eq!(get_wmo_code(&String::from("+77")), "Snow grains");
    assert_eq!(get_wmo_code(&String::from("007")), "Fog");
    assert_eq!(get_wmo_code(&String::from("-5")), "Unknown weather code");
    assert_eq!(get_wmo_code(&String::from("1000")), "Unknown weather code");
}

#[test]
fn wmo_code_text_that_is_no_number_is_unknown() {
    for text in ["", "null", "abc", "3.0", " 3", "3 ", "\"3\"", "3\n", "-", "+", "99999999999"] {
        assert_eq!(get_wmo_code(&String::from(text)), "Unknown weather code", "text {:?}", text);
        assert_eq!(get_weather_ascii(&String::from(text)), WEATHER_ASCII_OUTER_SPACE);
        assert_eq!(parse_code(text), UNPARSABLE_CODE);
    }
    assert_eq!(UNPARSABLE_CODE, 1001);
}

#[test]
fn weather_ascii_of_code_text() {
    assert_eq!(get_weather_ascii(&String::from("0")), WEATHER_ASCII_SUN);
    assert_eq!(get_weather_ascii(&String::from("3")), WEATHER_ASCII_SUN);
    assert_eq!(get_weather_ascii(&String::from("4")), WEATHER_ASCII_CLOUDS);
    assert_eq!(get_weather_ascii(&String::from("8")), WEATHER_ASCII_CLOUDS);
    assert_eq!(get_weather_ascii(&String::from("51")), WEATHER_ASCII_RAIN);
    assert_eq!(get_weather_ascii(&String::from("77")), WEATHER_ASCII_RAIN);
    assert_eq!(get_weather_ascii(&String::from("99")), WEATHER_ASCII_RAIN);
    assert_eq!(get_weather_ascii(&String::from("100")), WEATHER_ASCII_OUTER_SPACE);
    assert_eq!(get_weather_ascii(&String::from("1001")), WEATHER_ASCII_OUTER_SPACE);
}

#[test]
fn weather_text_has_three_parts() {
    let text = compose_weather("21.5", &String::from("0"));
    assert_eq!(text, format!("21.5 degrees\nClear sky\n{}", WEATHER_ASCII_SUN));
    let text = compose_weather("-3", &String::from("71"));
    assert_eq!(
        text,
        format!("-3 degrees\nSnowfall (Slight, moderate, or heavy)\n{}", WEATHER_ASCII_RAIN)
    );
    let text = compose_weather("null", &String::from("null"));
    assert_eq!(
        text,
        format!("null degrees\nUnknown weather code\n{}", WEATHER_ASCII_OUTER_SPACE)
    );
}

#[test]
fn numbers_are_read_as_the_standard_library_reads_them() {
    let texts = [
        "", "+", "-", "0", "-0", "+0", "007", "-007", "1", "9", "10", "42", "+42", "-42",
        "2147483647", "2147483648", "+2147483647", "+2147483648", "-2147483647", "-2147483648",
        "-2147483649", "4294967296", "99999999999999999999", "-99999999999999999999",
        "00000000000000000000000000000000000000005", "-00000000000000000000002147483648",
        "12a", "a12", "1 2", " 12", "12 ", "\t12", "12\n", "+-1", "-+1", "--1", "++1", "1-", "1+",
        "1e3", "1.0", ".5", "0x10", "1_000", "١٢", "٣", "−5", "５", "1²", "é", "12é", "/", ":",
        "0/", "0:", "nan", "inf",
    ];
    for text in texts {
        assert_eq!(parse_i32(text), text.parse::<i32>().ok(), "text {:?}", text);
    }
}

#[test]
fn numbers_near_the_limits() {
    assert_eq!(parse_i32("2147483647"), Some(i32::MAX));
    assert_eq!(parse_i32("2147483648"), None);
    assert_eq!(parse_i32("-2147483648"), Some(i32::MIN));
    assert_eq!(parse_i32("-2147483649"), None);
    assert_eq!(parse_i32("-0"), Some(0));
    assert_eq!(parse_i32("+96"), Some(96));
    assert_eq!(parse_i32("-5"), Some(-5));
}

#[test]
fn every_small_number_is_read_back() {
    for number in -5000..5000 {
        assert_eq!(parse_i32(&format!("{}", number)), Some(number));
    }
}
