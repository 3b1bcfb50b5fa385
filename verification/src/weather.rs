//! The pure half of the weather display: mapping a wttr.in weather code
//! to an emoji and formatting the summary string. Fetching and JSON
//! parsing are network work and stay with the surrounding application,
//! which hands the parsed fields in as plain values.

use vstd::prelude::*;
use vstd::string::StringExecFns;

use crate::strutil::str_eq;

verus! {

/// The parsed shape of a wttr.in response: its current conditions.
#[derive(Clone, PartialEq, Debug)]
pub struct WttrResponse {
    pub current_condition: Vec<CurrentCondition>,
}

/// One current-condition record: temperature in Fahrenheit and the
/// numeric weather code, both as the service sends them.
#[derive(Clone, PartialEq, Debug)]
#[allow(non_snake_case)]
pub struct CurrentCondition {
    pub temp_F: String,
    pub weatherCode: String,
}

/// The emoji that stands for a wttr.in weather code.
pub open spec fn spec_weather_emoji(code: Seq<char>) -> Seq<char> {
    if code == "113"@ {
        "☀️"@
    } else if code == "116"@ {
        "⛅"@
    } else if code == "119"@ || code == "122"@ {
        "☁️"@
    } else if code == "143"@ || code == "248"@ || code == "260"@ {
        "🌫️"@
    } else if code == "176"@ || code == "263"@ || code == "266"@ || code == "293"@ || code
        == "296"@ || code == "353"@ {
        "🌦️"@
    } else if code == "299"@ || code == "302"@ || code == "305"@ || code == "308"@ || code
        == "356"@ || code == "359"@ {
        "🌧️"@
    } else if code == "185"@ || code == "281"@ || code == "284"@ || code == "311"@ || code
        == "314"@ {
        "🌧️"@
    } else if code == "179"@ || code == "323"@ || code == "326"@ {
        "🌨️"@
    } else if code == "227"@ || code == "230"@ || code == "329"@ || code == "332"@ || code
        == "335"@ || code == "338"@ || code == "368"@ || code == "371"@ {
        "❄️"@
    } else if code == "182"@ || code == "317"@ || code == "320"@ || code == "362"@ || code
        == "365"@ || code == "350"@ || code == "374"@ || code == "377"@ {
        "🌨️"@
    } else if code == "200"@ || code == "386"@ || code == "389"@ || code == "392"@ || code
        == "395"@ {
        "⛈️"@
    } else {
        "🌡️"@
    }
}

/// Map a wttr.in weather code to its emoji; unknown codes get the
/// thermometer.
pub fn weather_code_to_emoji(code: &str) -> (emoji: &'static str)
    ensures
        emoji@ == spec_weather_emoji(code@),
{
    if str_eq(code, "113") {
        "☀️"
    } else if str_eq(code, "116") {
        "⛅"
    } else if str_eq(code, "119") || str_eq(code, "122") {
        "☁️"
    } else if str_eq(code, "143") || str_eq(code, "248") || str_eq(code, "260") {
        "🌫️"
    } else if str_eq(code, "176") || str_eq(code, "263") || str_eq(code, "266") || str_eq(
        code,
        "293",
    ) || str_eq(code, "296") || str_eq(code, "353") {
        "🌦️"
    } else if str_eq(code, "299") || str_eq(code, "302") || str_eq(code, "305") || str_eq(
        code,
        "308",
    ) || str_eq(code, "356") || str_eq(code, "359") {
        "🌧️"
    } else if str_eq(code, "185") || str_eq(code, "281") || str_eq(code, "284") || str_eq(
        code,
        "311",
    ) || str_eq(code, "314") {
        "🌧️"
    } else if str_eq(code, "179") || str_eq(code, "323") || str_eq(code, "326") {
        "🌨️"
    } else if str_eq(code, "227") || str_eq(code, "230") || str_eq(code, "329") || str_eq(
        code,
        "332",
    ) || str_eq(code, "335") || str_eq(code, "338") || str_eq(code, "368") || str_eq(
        code,
        "371",
    ) {
        "❄️"
    } else if str_eq(code, "182") || str_eq(code, "317") || str_eq(code, "320") || str_eq(
        code,
        "362",
    ) || str_eq(code, "365") || str_eq(code, "350") || str_eq(code, "374") || str_eq(
        code,
        "377",
    ) {
        "🌨️"
    } else if str_eq(code, "200") || str_eq(code, "386") || str_eq(code, "389") || str_eq(
        code,
        "392",
    ) || str_eq(code, "395") {
        "⛈️"
    } else {
        "🌡️"
    }
}

/// The display string for a temperature and weather code.
pub open spec fn spec_weather_summary(temp: Seq<char>, code: Seq<char>) -> Seq<char> {
    temp + "°F "@ + spec_weather_emoji(code)
}

/// Format a weather summary: the temperature, the degree-Fahrenheit mark,
/// then the code's emoji.
pub fn format_weather(temp: &str, code: &str) -> (summary: String)
    ensures
        summary@ == spec_weather_summary(temp@, code@),
{
    let emoji = weather_code_to_emoji(code);
    String::from_str(temp).concat("°F ").concat(emoji)
}

/// The summary a parsed response yields: the first current-condition
/// record formatted, or nothing when the response carries none.
pub fn weather_summary(response: &WttrResponse) -> (r: Option<String>)
    ensures
        response.current_condition@.len() == 0 ==> r is None,
        response.current_condition@.len() > 0 ==> (r matches Some(s) && s@
            == spec_weather_summary(
            response.current_condition@[0].temp_F@,
            response.current_condition@[0].weatherCode@,
        )),
{
    if response.current_condition.len() == 0 {
        return None;
    }
    let first = &response.current_condition[0];
    Some(format_weather(first.temp_F.as_str(), first.weatherCode.as_str()))
}

} // verus!
