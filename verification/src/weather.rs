use chrono::Datelike;
use vstd::prelude::*;

verus! {

/// Short description of a WMO weather code.
pub open spec fn wmo_text(code: u8) -> Seq<char> {
    if code == 0 {
        "Clear sky"@
    } else if code == 1 {
        "Mainly clear"@
    } else if code == 2 {
        "Partly cloudy"@
    } else if code == 3 {
        "Overcast"@
    } else if code == 45 || code == 48 {
        "Fog"@
    } else if code == 51 || code == 53 || code == 55 {
        "Drizzle"@
    } else if code == 61 || code == 63 || code == 65 {
        "Rain"@
    } else if code == 71 || code == 73 || code == 75 {
        "Snow"@
    } else if code == 77 {
        "Snow grains"@
    } else if code == 80 || code == 81 || code == 82 {
        "Rain showers"@
    } else if code == 85 || code == 86 {
        "Snow showers"@
    } else if code == 95 {
        "Thunderstorm"@
    } else if code == 96 || code == 99 {
        "Thunderstorm w/ hail"@
    } else {
        "Unknown"@
    }
}

/// Very simple ASCII weather icon of a WMO weather code (for the tray tooltip);
/// codes are grouped by ranges: sun `O`, sun and clouds `O~`, clouds `~~`,
/// fog `==`, showers and drizzle `~/`, rain `//`, snow `**`, thunderstorm `!!`.
pub open spec fn wmo_symbol(code: u8) -> Seq<char> {
    if code == 0 {
        "O"@
    } else if code == 1 || code == 2 {
        "O~"@
    } else if code == 3 {
        "~~"@
    } else if code == 45 || code == 48 {
        "=="@
    } else if (51 <= code <= 55) || (80 <= code <= 82) {
        "~/"@
    } else if 61 <= code <= 65 {
        "//"@
    } else if (71 <= code <= 77) || code == 85 || code == 86 {
        "**"@
    } else if 95 <= code <= 99 {
        "!!"@
    } else {
        "?"@
    }
}

/// WMO weather code → short description.
pub fn wmo_description(code: u8) -> (r: &'static str)
    ensures
        r@ == wmo_text(code),
{
    match code {
        0 => "Clear sky",
        1 => "Mainly clear",
        2 => "Partly cloudy",
        3 => "Overcast",
        45 | 48 => "Fog",
        51 | 53 | 55 => "Drizzle",
        61 | 63 | 65 => "Rain",
        71 | 73 | 75 => "Snow",
        77 => "Snow grains",
        80 | 81 | 82 => "Rain showers",
        85 | 86 => "Snow showers",
        95 => "Thunderstorm",
        96 | 99 => "Thunderstorm w/ hail",
        _ => "Unknown",
    }
}

/// Very simple weather icon using ASCII-safe chars (for tray tooltip).
pub fn wmo_icon(code: u8) -> (r: &'static str)
    ensures
        r@ == wmo_symbol(code),
        r@.len() > 0,
        vstd::utf8::is_ascii_chars(r@),
{
    proof {
        reveal_strlit("O");
        reveal_strlit("O~");
        reveal_strlit("~~");
        reveal_strlit("==");
        reveal_strlit("~/");
        reveal_strlit("//");
        reveal_strlit("**");
        reveal_strlit("!!");
        reveal_strlit("?");
    }
    match code {
        0 => "O",
        1 | 2 => "O~",
        3 => "~~",
        45 | 48 => "==",
        51..=55 | 80..=82 => "~/",
        61..=65 => "//",
        71..=77 | 85 | 86 => "**",
        95..=99 => "!!",
        _ => "?",
    }
}

/// The eight compass points, clockwise from north.
pub open spec fn compass_points() -> Seq<Seq<char>> {
    seq!["N"@, "NE"@, "E"@, "SE"@, "S"@, "SW"@, "W"@, "NW"@]
}

/// Compass abbreviation of a 45-degree sector counted clockwise from north;
/// sector numbers wrap around every eight sectors.
pub fn compass_point(sector: usize) -> (r: &'static str)
    ensures
        r@ == compass_points()[(sector % 8) as int],
{
    let idx = sector % 8;
    if idx == 0 {
        "N"
    } else if idx == 1 {
        "NE"
    } else if idx == 2 {
        "E"
    } else if idx == 3 {
        "SE"
    } else if idx == 4 {
        "S"
    } else if idx == 5 {
        "SW"
    } else if idx == 6 {
        "W"
    } else {
        "NW"
    }
}


/// A calendar date: year, month (1 to 12) and day of the month.
#[derive(Debug, Clone, Copy, PartialEq, Eq, Structural)]
pub struct Date {
    pub year: i32,
    pub month: u32,
    pub day: u32,
}

/// What chrono's `NaiveDate` parser makes of a text, as (year, month, day).
pub uninterp spec fn parsed_iso_date(text: Seq<char>) -> Option<(i32, u32, u32)>;

/// The date that a parse outcome stands for.
pub open spec fn date_of(parts: Option<(i32, u32, u32)>) -> Option<Date> {
    match parts {
        Some((y, m, d)) => Some(Date { year: y, month: m, day: d }),
        None => None,
    }
}

/// Parses a date such as "2025-05-01" with `<chrono::NaiveDate as FromStr>::from_str`.
/// The contract claims that the result is the parser's outcome for the text, taken
/// apart into year, month and day, and (as chrono documents for `month()` and `day()`)
/// that a parsed month lies in 1..=12 and a parsed day in 1..=31.
#[verifier::external_body]
fn parse_date(text: &str) -> (r: Option<Date>)
    ensures
        r == date_of(parsed_iso_date(text@)),
        r matches Some(d) ==> 1 <= d.month <= 12 && 1 <= d.day <= 31,
{
    match text.parse::<chrono::NaiveDate>() {
        Ok(d) => Some(Date { year: d.year(), month: d.month(), day: d.day() }),
        Err(_) => None,
    }
}

/// Current conditions as the forecast service reports them.
#[derive(Debug, Clone)]
pub struct RawCurrentWeather<T> {
    pub temperature_2m: T,
    pub apparent_temperature: T,
    pub precipitation: T,
    pub wind_speed_10m: T,
    pub wind_direction_10m: T,
    pub weather_code: u8,
}

/// Daily forecast columns as the forecast service reports them: entry `i` of
/// each column belongs to the day named by `time[i]`.
#[derive(Debug, Clone)]
pub struct RawDailyWeather<T> {
    pub time: Vec<String>,
    pub temperature_2m_max: Vec<T>,
    pub temperature_2m_min: Vec<T>,
    pub apparent_temperature_max: Vec<T>,
    pub apparent_temperature_min: Vec<T>,
    pub precipitation_sum: Vec<T>,
    pub wind_speed_10m_max: Vec<T>,
    pub wind_direction_10m_dominant: Vec<T>,
    pub weather_code: Vec<u8>,
}

/// A whole forecast service response.
#[derive(Debug, Clone)]
pub struct RawWeatherResponse<T> {
    pub current: RawCurrentWeather<T>,
    pub daily: RawDailyWeather<T>,
}

/// Current conditions.
#[derive(Debug, Clone, Copy, PartialEq, Eq, Structural)]
pub struct CurrentWeather<T> {
    pub temperature: T,
    pub feels_like: T,
    pub precipitation: T,
    pub wind_speed: T,
    pub wind_direction: T,
    pub weather_code: u8,
}

/// The forecast for one day.
#[derive(Debug, Clone, Copy, PartialEq, Eq, Structural)]
pub struct DayForecast<T> {
    pub date: Date,
    pub temp_max: T,
    pub temp_min: T,
    pub feels_max: T,
    pub feels_min: T,
    pub precipitation: T,
    pub wind_speed: T,
    pub wind_direction: T,
    pub weather_code: u8,
}

/// Current conditions and the daily forecast (at most a week).
#[derive(Debug, Clone)]
pub struct WeatherData<T> {
    pub current: CurrentWeather<T>,
    pub forecast: Vec<DayForecast<T>>,
}

/// Why a forecast response could not be turned into weather data.
#[derive(Debug, Clone)]
pub enum WeatherError {
    /// The named day could not be read as a date.
    BadDate(String),
}

/// The number of days a forecast is made of: the days reported, at most seven.
pub open spec fn forecast_len<T>(d: RawDailyWeather<T>) -> int {
    if d.time@.len() < 7 {
        d.time@.len() as int
    } else {
        7
    }
}

/// The length of the shortest value column (every column but `time`).
pub open spec fn shortest_column<T>(d: RawDailyWeather<T>) -> int {
    let a = vstd::math::min(d.temperature_2m_max@.len() as int, d.temperature_2m_min@.len() as int);
    let b = vstd::math::min(d.apparent_temperature_max@.len() as int, d.apparent_temperature_min@.len() as int);
    let c = vstd::math::min(d.precipitation_sum@.len() as int, d.wind_speed_10m_max@.len() as int);
    let e = vstd::math::min(d.wind_direction_10m_dominant@.len() as int, d.weather_code@.len() as int);
    vstd::math::min(vstd::math::min(a, b), vstd::math::min(c, e))
}

/// Day `j` of the response names a date.
pub open spec fn date_ok<T>(d: RawDailyWeather<T>, j: int) -> bool {
    parsed_iso_date(d.time@[j]@) is Some
}

/// Reading the days in order never reaches a day whose values are missing: either
/// every forecast day has values, or a date that cannot be read stops the reading
/// at or before the first day without values.
pub open spec fn columns_cover<T>(d: RawDailyWeather<T>) -> bool {
    ||| shortest_column(d) >= forecast_len(d)
    ||| exists|j: int| 0 <= j <= shortest_column(d) && !date_ok(d, j)
}

/// The forecast of day `i`, dated `date`, from the columns.
pub open spec fn day_from<T>(d: RawDailyWeather<T>, i: int, date: Date) -> DayForecast<T> {
    DayForecast {
        date: date,
        temp_max: d.temperature_2m_max@[i],
        temp_min: d.temperature_2m_min@[i],
        feels_max: d.apparent_temperature_max@[i],
        feels_min: d.apparent_temperature_min@[i],
        precipitation: d.precipitation_sum@[i],
        wind_speed: d.wind_speed_10m_max@[i],
        wind_direction: d.wind_direction_10m_dominant@[i],
        weather_code: d.weather_code@[i],
    }
}

/// `r` is what reading the forecast days of `d` gives: the first `forecast_len(d)`
/// days in order, each dated by its `time` entry, or, where some of these entries
/// is no date, the first such entry as an error.
pub open spec fn forecast_outcome<T>(
    d: RawDailyWeather<T>,
    r: Result<Vec<DayForecast<T>>, WeatherError>,
) -> bool {
    match r {
        Ok(days) => {
            &&& forall|j: int| 0 <= j < forecast_len(d) ==> date_ok(d, j)
            &&& days@.len() == forecast_len(d)
            &&& forall|i: int|
                0 <= i < forecast_len(d) ==> #[trigger] days@[i] == day_from(
                    d,
                    i,
                    date_of(parsed_iso_date(d.time@[i]@))->0,
                )
        },
        Err(WeatherError::BadDate(text)) => exists|k: int|
            {
                &&& 0 <= k < forecast_len(d)
                &&& !date_ok(d, k)
                &&& forall|j: int| 0 <= j < k ==> date_ok(d, j)
                &&& text@ == d.time@[k]@
            },
    }
}

/// A forecast covers at most a week: all reported days when there are at most
/// seven of them, else the first seven; day `i` has the values of entry `i`.
pub proof fn law_forecast_is_a_week<T>(d: RawDailyWeather<T>, days: Vec<DayForecast<T>>)
    requires
        forecast_outcome(d, Ok(days)),
    ensures
        days@.len() <= 7,
        d.time@.len() <= 7 ==> days@.len() == d.time@.len(),
        d.time@.len() > 7 ==> days@.len() == 7,
        forall|i: int|
            0 <= i < days@.len() ==> #[trigger] days@[i].weather_code == d.weather_code@[i]
                && days@[i].temp_max == d.temperature_2m_max@[i],
{
    assert forall|i: int| 0 <= i < days@.len() implies #[trigger] days@[i].weather_code
        == d.weather_code@[i] && days@[i].temp_max == d.temperature_2m_max@[i] by {
        assert(days@[i] == day_from(d, i, date_of(parsed_iso_date(d.time@[i]@))->0));
    }
}

/// The WMO weather codes that have a description: clear sky to overcast (0-3),
/// fog (45, 48), drizzle (51, 53, 55), rain (61, 63, 65), snow fall (71, 73, 75),
/// snow grains (77), rain showers (80-82), snow showers (85, 86) and
/// thunderstorms (95, 96, 99).
pub open spec fn is_described_code(c: u8) -> bool {
    ||| c <= 3
    ||| c == 45 || c == 48
    ||| c == 51 || c == 53 || c == 55
    ||| c == 61 || c == 63 || c == 65
    ||| c == 71 || c == 73 || c == 75 || c == 77
    ||| 80 <= c <= 82
    ||| c == 85 || c == 86
    ||| c == 95 || c == 96 || c == 99
}

pub(crate) proof fn lemma_words_differ()
    ensures
        "Clear sky"@ != "Mainly clear"@,
        "Clear sky"@ != "Partly cloudy"@,
        "Clear sky"@ != "Overcast"@,
        "Clear sky"@ != "Fog"@,
        "Clear sky"@ != "Drizzle"@,
        "Clear sky"@ != "Rain"@,
        "Clear sky"@ != "Snow"@,
        "Clear sky"@ != "Snow grains"@,
        "Clear sky"@ != "Rain showers"@,
        "Clear sky"@ != "Snow showers"@,
        "Clear sky"@ != "Thunderstorm"@,
        "Clear sky"@ != "Thunderstorm w/ hail"@,
        "Clear sky"@ != "Unknown"@,
        "Mainly clear"@ != "Partly cloudy"@,
        "Mainly clear"@ != "Overcast"@,
        "Mainly clear"@ != "Fog"@,
        "Mainly clear"@ != "Drizzle"@,
        "Mainly clear"@ != "Rain"@,
        "Mainly clear"@ != "Snow"@,
        "Mainly clear"@ != "Snow grains"@,
        "Mainly clear"@ != "Rain showers"@,
        "Mainly clear"@ != "Snow showers"@,
        "Mainly clear"@ != "Thunderstorm"@,
        "Mainly clear"@ != "Thunderstorm w/ hail"@,
        "Mainly clear"@ != "Unknown"@,
        "Partly cloudy"@ != "Overcast"@,
        "Partly cloudy"@ != "Fog"@,
        "Partly cloudy"@ != "Drizzle"@,
        "Partly cloudy"@ != "Rain"@,
        "Partly cloudy"@ != "Snow"@,
        "Partly cloudy"@ != "Snow grains"@,
        "Partly cloudy"@ != "Rain showers"@,
        "Partly cloudy"@ != "Snow showers"@,
        "Partly cloudy"@ != "Thunderstorm"@,
        "Partly cloudy"@ != "Thunderstorm w/ hail"@,
        "Partly cloudy"@ != "Unknown"@,
        "Overcast"@ != "Fog"@,
        "Overcast"@ != "Drizzle"@,
        "Overcast"@ != "Rain"@,
        "Overcast"@ != "Snow"@,
        "Overcast"@ != "Snow grains"@,
        "Overcast"@ != "Rain showers"@,
        "Overcast"@ != "Snow showers"@,
        "Overcast"@ != "Thunderstorm"@,
        "Overcast"@ != "Thunderstorm w/ hail"@,
        "Overcast"@ != "Unknown"@,
        "Fog"@ != "Drizzle"@,
        "Fog"@ != "Rain"@,
        "Fog"@ != "Snow"@,
        "Fog"@ != "Snow grains"@,
        "Fog"@ != "Rain showers"@,
        "Fog"@ != "Snow showers"@,
        "Fog"@ != "Thunderstorm"@,
        "Fog"@ != "Thunderstorm w/ hail"@,
        "Fog"@ != "Unknown"@,
        "Drizzle"@ != "Rain"@,
        "Drizzle"@ != "Snow"@,
        "Drizzle"@ != "Snow grains"@,
        "Drizzle"@ != "Rain showers"@,
        "Drizzle"@ != "Snow showers"@,
        "Drizzle"@ != "Thunderstorm"@,
        "Drizzle"@ != "Thunderstorm w/ hail"@,
        "Drizzle"@ != "Unknown"@,
        "Rain"@ != "Snow"@,
        "Rain"@ != "Snow grains"@,
        "Rain"@ != "Rain showers"@,
        "Rain"@ != "Snow showers"@,
        "Rain"@ != "Thunderstorm"@,
        "Rain"@ != "Thunderstorm w/ hail"@,
        "Rain"@ != "Unknown"@,
        "Snow"@ != "Snow grains"@,
        "Snow"@ != "Rain showers"@,
        "Snow"@ != "Snow showers"@,
        "Snow"@ != "Thunderstorm"@,
        "Snow"@ != "Thunderstorm w/ hail"@,
        "Snow"@ != "Unknown"@,
        "Snow grains"@ != "Rain showers"@,
        "Snow grains"@ != "Snow showers"@,
        "Snow grains"@ != "Thunderstorm"@,
        "Snow grains"@ != "Thunderstorm w/ hail"@,
        "Snow grains"@ != "Unknown"@,
        "Rain showers"@ != "Snow showers"@,
        "Rain showers"@ != "Thunderstorm"@,
        "Rain showers"@ != "Thunderstorm w/ hail"@,
        "Rain showers"@ != "Unknown"@,
        "Snow showers"@ != "Thunderstorm"@,
        "Snow showers"@ != "Thunderstorm w/ hail"@,
        "Snow showers"@ != "Unknown"@,
        "Thunderstorm"@ != "Thunderstorm w/ hail"@,
        "Thunderstorm"@ != "Unknown"@,
        "Thunderstorm w/ hail"@ != "Unknown"@,
        "O"@ != "O~"@,
        "O"@ != "~~"@,
        "O"@ != "=="@,
        "O"@ != "~/"@,
        "O"@ != "//"@,
        "O"@ != "**"@,
        "O"@ != "!!"@,
        "O"@ != "?"@,
        "O~"@ != "~~"@,
        "O~"@ != "=="@,
        "O~"@ != "~/"@,
        "O~"@ != "//"@,
        "O~"@ != "**"@,
        "O~"@ != "!!"@,
        "O~"@ != "?"@,
        "~~"@ != "=="@,
        "~~"@ != "~/"@,
        "~~"@ != "//"@,
        "~~"@ != "**"@,
        "~~"@ != "!!"@,
        "~~"@ != "?"@,
        "=="@ != "~/"@,
        "=="@ != "//"@,
        "=="@ != "**"@,
        "=="@ != "!!"@,
        "=="@ != "?"@,
        "~/"@ != "//"@,
        "~/"@ != "**"@,
        "~/"@ != "!!"@,
        "~/"@ != "?"@,
        "//"@ != "**"@,
        "//"@ != "!!"@,
        "//"@ != "?"@,
        "**"@ != "!!"@,
        "**"@ != "?"@,
        "!!"@ != "?"@,
{
    reveal_strlit("Clear sky");
    assert("Clear sky"@.len() == 9);
    reveal_strlit("Mainly clear");
    assert("Mainly clear"@.len() == 12);
    reveal_strlit("Partly cloudy");
    assert("Partly cloudy"@.len() == 13);
    reveal_strlit("Overcast");
    assert("Overcast"@.len() == 8);
    reveal_strlit("Fog");
    assert("Fog"@.len() == 3);
    reveal_strlit("Drizzle");
    assert("Drizzle"@.len() == 7);
    reveal_strlit("Rain");
    assert("Rain"@.len() == 4);
    reveal_strlit("Snow");
    assert("Snow"@.len() == 4);
    reveal_strlit("Snow grains");
    assert("Snow grains"@.len() == 11);
    reveal_strlit("Rain showers");
    assert("Rain showers"@.len() == 12);
    reveal_strlit("Snow showers");
    assert("Snow showers"@.len() == 12);
    reveal_strlit("Thunderstorm");
    assert("Thunderstorm"@.len() == 12);
    reveal_strlit("Thunderstorm w/ hail");
    assert("Thunderstorm w/ hail"@.len() == 20);
    reveal_strlit("Unknown");
    assert("Unknown"@.len() == 7);
    reveal_strlit("O");
    assert("O"@.len() == 1);
    reveal_strlit("O~");
    assert("O~"@.len() == 2);
    reveal_strlit("~~");
    assert("~~"@.len() == 2);
    reveal_strlit("==");
    assert("=="@.len() == 2);
    reveal_strlit("~/");
    assert("~/"@.len() == 2);
    reveal_strlit("//");
    assert("//"@.len() == 2);
    reveal_strlit("**");
    assert("**"@.len() == 2);
    reveal_strlit("!!");
    assert("!!"@.len() == 2);
    reveal_strlit("?");
    assert("?"@.len() == 1);
    assert("Mainly clear"@[0] != "Rain showers"@[0]);
    assert("Mainly clear"@[0] != "Snow showers"@[0]);
    assert("Mainly clear"@[0] != "Thunderstorm"@[0]);
    assert("Drizzle"@[0] != "Unknown"@[0]);
    assert("Rain"@[0] != "Snow"@[0]);
    assert("Rain showers"@[0] != "Snow showers"@[0]);
    assert("Rain showers"@[0] != "Thunderstorm"@[0]);
    assert("Snow showers"@[0] != "Thunderstorm"@[0]);
    assert("O"@[0] != "?"@[0]);
    assert("O~"@[0] != "~~"@[0]);
    assert("O~"@[0] != "=="@[0]);
    assert("O~"@[0] != "~/"@[0]);
    assert("O~"@[0] != "//"@[0]);
    assert("O~"@[0] != "**"@[0]);
    assert("O~"@[0] != "!!"@[0]);
    assert("~~"@[0] != "=="@[0]);
    assert("~~"@[1] != "~/"@[1]);
    assert("~~"@[0] != "//"@[0]);
    assert("~~"@[0] != "**"@[0]);
    assert("~~"@[0] != "!!"@[0]);
    assert("=="@[0] != "~/"@[0]);
    assert("=="@[0] != "//"@[0]);
    assert("=="@[0] != "**"@[0]);
    assert("=="@[0] != "!!"@[0]);
    assert("~/"@[0] != "//"@[0]);
    assert("~/"@[0] != "**"@[0]);
    assert("~/"@[0] != "!!"@[0]);
    assert("//"@[0] != "**"@[0]);
    assert("//"@[0] != "!!"@[0]);
    assert("**"@[0] != "!!"@[0]);
}

/// Every described WMO code gets a description of its own, every other code is "Unknown".
pub proof fn law_described_codes(c: u8)
    ensures
        is_described_code(c) <==> wmo_text(c) != "Unknown"@,
{
    lemma_words_differ();
}

/// Codes that differ only in intensity (slight, moderate, heavy) share their words.
pub proof fn law_intensity_does_not_change_words()
    ensures
        wmo_text(45) == wmo_text(48),
        wmo_text(51) == wmo_text(53) && wmo_text(53) == wmo_text(55),
        wmo_text(61) == wmo_text(63) && wmo_text(63) == wmo_text(65),
        wmo_text(71) == wmo_text(73) && wmo_text(73) == wmo_text(75),
        wmo_text(80) == wmo_text(81) && wmo_text(81) == wmo_text(82),
        wmo_text(85) == wmo_text(86),
        wmo_text(96) == wmo_text(99),
        wmo_text(61) == "Rain"@,
        wmo_text(95) == "Thunderstorm"@,
{
}

/// Different kinds of weather are told apart: clear, mainly clear, partly cloudy,
/// overcast, fog, drizzle, rain, snow fall, snow grains, rain showers, snow
/// showers, thunderstorm and thunderstorm with hail all have different words.
pub proof fn law_kinds_have_distinct_words(a: u8, b: u8)
    requires
        a == 0 || a == 1 || a == 2 || a == 3 || a == 45 || a == 51 || a == 61 || a == 71 || a == 77 || a == 80
            || a == 85 || a == 95 || a == 96,
        b == 0 || b == 1 || b == 2 || b == 3 || b == 45 || b == 51 || b == 61 || b == 71 || b == 77 || b == 80
            || b == 85 || b == 95 || b == 96,
        a != b,
    ensures
        wmo_text(a) != wmo_text(b),
{
    lemma_words_differ();
}

/// Different kinds of weather get different icons: sun, sun with clouds,
/// clouds, fog, drizzle and showers, rain, snow, thunderstorm, and the unknown icon.
pub proof fn law_kinds_have_distinct_icons(a: u8, b: u8)
    requires
        a == 0 || a == 1 || a == 3 || a == 45 || a == 51 || a == 61 || a == 71 || a == 95 || a == 4,
        b == 0 || b == 1 || b == 3 || b == 45 || b == 51 || b == 61 || b == 71 || b == 95 || b == 4,
        a != b,
    ensures
        wmo_symbol(a) != wmo_symbol(b),
{
    lemma_words_differ();
}

/// The icon fits the words: a described code never shows the unknown icon, and
/// each kind of weather has its icon.
pub proof fn law_icon_fits_description(c: u8)
    ensures
        wmo_text(c) != "Unknown"@ ==> wmo_symbol(c) != "?"@,
        wmo_text(c) == "Clear sky"@ ==> wmo_symbol(c) == "O"@,
        wmo_text(c) == "Mainly clear"@ || wmo_text(c) == "Partly cloudy"@ ==> wmo_symbol(c) == "O~"@,
        wmo_text(c) == "Overcast"@ ==> wmo_symbol(c) == "~~"@,
        wmo_text(c) == "Fog"@ ==> wmo_symbol(c) == "=="@,
        wmo_text(c) == "Drizzle"@ || wmo_text(c) == "Rain showers"@ ==> wmo_symbol(c) == "~/"@,
        wmo_text(c) == "Rain"@ ==> wmo_symbol(c) == "//"@,
        wmo_text(c) == "Snow"@ || wmo_text(c) == "Snow grains"@ || wmo_text(c) == "Snow showers"@
            ==> wmo_symbol(c) == "**"@,
        wmo_text(c) == "Thunderstorm"@ || wmo_text(c) == "Thunderstorm w/ hail"@ ==> wmo_symbol(c) == "!!"@,
{
    lemma_words_differ();
}

/// Icons go by ranges of codes: every code of a range shows the same icon, also
/// the codes of the range that have no description.
pub proof fn law_icon_ranges(a: u8, b: u8)
    ensures
        (51 <= a <= 55 || 80 <= a <= 82) && (51 <= b <= 55 || 80 <= b <= 82) ==> wmo_symbol(a) == wmo_symbol(b),
        61 <= a <= 65 && 61 <= b <= 65 ==> wmo_symbol(a) == wmo_symbol(b),
        (71 <= a <= 77 || a == 85 || a == 86) && (71 <= b <= 77 || b == 85 || b == 86) ==> wmo_symbol(a)
            == wmo_symbol(b),
        95 <= a <= 99 && 95 <= b <= 99 ==> wmo_symbol(a) == wmo_symbol(b),
        1 <= a <= 2 && 1 <= b <= 2 ==> wmo_symbol(a) == wmo_symbol(b),
{
}

/// Reading the forecast day `k`, every value column has an entry for it.
pub open spec fn has_values<T>(d: RawDailyWeather<T>, k: int) -> bool {
    &&& k < d.temperature_2m_max@.len()
    &&& k < d.temperature_2m_min@.len()
    &&& k < d.apparent_temperature_max@.len()
    &&& k < d.apparent_temperature_min@.len()
    &&& k < d.precipitation_sum@.len()
    &&& k < d.wind_speed_10m_max@.len()
    &&& k < d.wind_direction_10m_dominant@.len()
    &&& k < d.weather_code@.len()
}

/// A response is read without running out of values exactly when every forecast
/// day that the reading reaches (all earlier dates being readable) has values in
/// every column; so a response whose columns are as long as its forecast is never refused.
pub proof fn law_columns_cover_means_values_present<T>(d: RawDailyWeather<T>)
    ensures
        columns_cover(d) <==> forall|k: int|
            0 <= k < forecast_len(d) && (forall|j: int| 0 <= j <= k ==> date_ok(d, j)) ==> #[trigger] has_values(d, k),
        (forall|k: int| 0 <= k < forecast_len(d) ==> #[trigger] has_values(d, k)) ==> columns_cover(d),
{
    let m = shortest_column(d);
    assert(forall|k: int| 0 <= k < m ==> #[trigger] has_values(d, k));
    assert(!has_values(d, m));
    if columns_cover(d) {
        assert forall|k: int|
            0 <= k < forecast_len(d) && (forall|j: int| 0 <= j <= k ==> date_ok(d, j)) implies #[trigger] has_values(d, k) by {
            if m < forecast_len(d) && k >= m {
                let j = choose|j: int| 0 <= j <= m && !date_ok(d, j);
                assert(date_ok(d, j));
            }
        }
    }
    if forall|k: int|
        0 <= k < forecast_len(d) && (forall|j: int| 0 <= j <= k ==> date_ok(d, j)) ==> #[trigger] has_values(d, k) {
        if m < forecast_len(d) {
            if forall|j: int| 0 <= j <= m ==> date_ok(d, j) {
                assert(has_values(d, m));
            }
            assert(columns_cover(d));
        }
    }
    if forall|k: int| 0 <= k < forecast_len(d) ==> #[trigger] has_values(d, k) {
        if m < forecast_len(d) {
            assert(has_values(d, m));
        }
    }
}

/// The current conditions of a response under their own names.
pub open spec fn current_from<T>(c: RawCurrentWeather<T>) -> CurrentWeather<T> {
    CurrentWeather {
        temperature: c.temperature_2m,
        feels_like: c.apparent_temperature,
        precipitation: c.precipitation,
        wind_speed: c.wind_speed_10m,
        wind_direction: c.wind_direction_10m,
        weather_code: c.weather_code,
    }
}

/// Reads the forecast days of a response: the first (at most seven) days, in order.
pub fn forecast_days<T: Copy>(daily: &RawDailyWeather<T>) -> (r: Result<Vec<DayForecast<T>>, WeatherError>)
    requires
        columns_cover(*daily),
    ensures
        forecast_outcome(*daily, r),
{
    let n: usize = if daily.time.len() < 7 {
        daily.time.len()
    } else {
        7
    };
    let mut days: Vec<DayForecast<T>> = Vec::new();
    for i in 0..n
        invariant
            n == forecast_len(*daily),
            columns_cover(*daily),
            days@.len() == i,
            forall|j: int| 0 <= j < i ==> date_ok(*daily, j),
            forall|j: int|
                0 <= j < i ==> #[trigger] days@[j] == day_from(
                    *daily,
                    j,
                    date_of(parsed_iso_date(daily.time@[j]@))->0,
                ),
    {
        let date = match parse_date(daily.time[i].as_str()) {
            Some(x) => x,
            None => {
                let text = daily.time[i].clone();
                assert(!date_ok(*daily, i as int));
                return Err(WeatherError::BadDate(text));
            },
        };
        assert(date_ok(*daily, i as int));
        assert(shortest_column(*daily) > i) by {
            if shortest_column(*daily) <= i {
                let j = choose|j: int| 0 <= j <= shortest_column(*daily) && !date_ok(*daily, j);
                assert(date_ok(*daily, j));
            }
        }
        let day = DayForecast {
            date: date,
            temp_max: daily.temperature_2m_max[i],
            temp_min: daily.temperature_2m_min[i],
            feels_max: daily.apparent_temperature_max[i],
            feels_min: daily.apparent_temperature_min[i],
            precipitation: daily.precipitation_sum[i],
            wind_speed: daily.wind_speed_10m_max[i],
            wind_direction: daily.wind_direction_10m_dominant[i],
            weather_code: daily.weather_code[i],
        };
        days.push(day);
    }
    Ok(days)
}


/// Turns a forecast service response into weather data.
/// `None` where the response lacks values for a day that would be read
/// (see `columns_cover`); otherwise the current conditions and the outcome
/// of `forecast_days`.
pub fn weather_from_response<T: Copy>(raw: &RawWeatherResponse<T>) -> (r: Option<Result<WeatherData<T>, WeatherError>>)
    ensures
        r is None <==> !columns_cover(raw.daily),
        (forall|k: int| 0 <= k < forecast_len(raw.daily) ==> #[trigger] has_values(raw.daily, k)) ==> r is Some,
        r matches Some(Ok(w)) ==> w.current == current_from(raw.current) && forecast_outcome(raw.daily, Ok(w.forecast)),
        r matches Some(Err(e)) ==> forecast_outcome(raw.daily, Err(e)),
{
    let daily = &raw.daily;
    let n: usize = if daily.time.len() < 7 {
        daily.time.len()
    } else {
        7
    };
    let mut shortest: usize = daily.temperature_2m_max.len();
    if daily.temperature_2m_min.len() < shortest {
        shortest = daily.temperature_2m_min.len();
    }
    if daily.apparent_temperature_max.len() < shortest {
        shortest = daily.apparent_temperature_max.len();
    }
    if daily.apparent_temperature_min.len() < shortest {
        shortest = daily.apparent_temperature_min.len();
    }
    if daily.precipitation_sum.len() < shortest {
        shortest = daily.precipitation_sum.len();
    }
    if daily.wind_speed_10m_max.len() < shortest {
        shortest = daily.wind_speed_10m_max.len();
    }
    if daily.wind_direction_10m_dominant.len() < shortest {
        shortest = daily.wind_direction_10m_dominant.len();
    }
    if daily.weather_code.len() < shortest {
        shortest = daily.weather_code.len();
    }
    assert(shortest == shortest_column(*daily));
    proof {
        law_columns_cover_means_values_present(*daily);
    }
    if shortest < n {
        // Look for a date that stops the reading before the missing values.
        let mut j: usize = 0;
        let mut stopped = false;
        while j <= shortest
            invariant_except_break
                !stopped,
            invariant
                shortest == shortest_column(*daily),
                shortest < n,
                n == forecast_len(*daily),
                j <= shortest + 1,
                forall|k: int| 0 <= k < j ==> date_ok(*daily, k),
            ensures
                stopped ==> j <= shortest && !date_ok(*daily, j as int),
                !stopped ==> j == shortest + 1,
            decreases shortest + 1 - j,
        {
            if parse_date(daily.time[j].as_str()).is_none() {
                stopped = true;
                assert(!date_ok(*daily, j as int));
                break;
            }
            j = j + 1;
        }
        if !stopped {
            assert(!columns_cover(*daily)) by {
                if exists|k: int| 0 <= k <= shortest_column(*daily) && !date_ok(*daily, k) {
                    let k = choose|k: int| 0 <= k <= shortest_column(*daily) && !date_ok(*daily, k);
                    assert(date_ok(*daily, k));
                }
            }
            return None;
        }
    }
    let current = CurrentWeather {
        temperature: raw.current.temperature_2m,
        feels_like: raw.current.apparent_temperature,
        precipitation: raw.current.precipitation,
        wind_speed: raw.current.wind_speed_10m,
        wind_direction: raw.current.wind_direction_10m,
        weather_code: raw.current.weather_code,
    };
    match forecast_days(daily) {
        Ok(forecast) => Some(Ok(WeatherData { current, forecast })),
        Err(e) => Some(Err(e)),
    }
}

impl<T: Copy> CurrentWeather<T> {
    pub fn description(&self) -> (r: &'static str)
        ensures
            r@ == wmo_text(self.weather_code),
    {
        wmo_description(self.weather_code)
    }

    pub fn icon(&self) -> (r: &'static str)
        ensures
            r@ == wmo_symbol(self.weather_code),
            r@.len() > 0,
            vstd::utf8::is_ascii_chars(r@),
    {
        wmo_icon(self.weather_code)
    }

    /// The temperature the tray shows: the measured one or the felt one.
    pub fn tray_temperature(&self, mode: crate::config::TrayTemp) -> (r: T)
        ensures
            r == (match mode {
                crate::config::TrayTemp::Actual => self.temperature,
                crate::config::TrayTemp::FeelsLike => self.feels_like,
            }),
    {
        match mode {
            crate::config::TrayTemp::Actual => self.temperature,
            crate::config::TrayTemp::FeelsLike => self.feels_like,
        }
    }
}

impl<T: Copy> DayForecast<T> {
    pub fn description(&self) -> (r: &'static str)
        ensures
            r@ == wmo_text(self.weather_code),
    {
        wmo_description(self.weather_code)
    }

    pub fn icon(&self) -> (r: &'static str)
        ensures
            r@ == wmo_symbol(self.weather_code),
            r@.len() > 0,
            vstd::utf8::is_ascii_chars(r@),
    {
        wmo_icon(self.weather_code)
    }
}

} // verus!
