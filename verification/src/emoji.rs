//! Glyphs for weather conditions and for the parts of a report.

use vstd::prelude::*;
use crate::error::Error;

verus! {

/// Stands in front of the chance of rain.
pub const PRECIPITATION: &'static str = "☔";

/// Stands in front of the wind.
pub const WIND: &'static str = "💨";

/// Stands in front of the name and date of an event.
pub const CALENDAR: &'static str = "🗓️";

/// Stands in front of a place.
pub const GLOBE: &'static str = "🌐";

/// The kinds of sky that the provider's weather codes stand for.
#[derive(Debug, Clone, Copy, PartialEq, Eq, Structural)]
pub enum Sky {
    Clear,
    PartlyCloudy,
    Overcast,
    Rain,
    Snow,
    Showers,
    SnowShowers,
    Thunderstorm,
}

/// The sky that a weather code stands for; codes outside the eight closed
/// ranges stand for none.
pub open spec fn sky_of(code: int) -> Option<Sky> {
    if 0 <= code <= 1 {
        Some(Sky::Clear)
    } else if 2 <= code <= 3 {
        Some(Sky::PartlyCloudy)
    } else if 45 <= code <= 48 {
        Some(Sky::Overcast)
    } else if 51 <= code <= 67 {
        Some(Sky::Rain)
    } else if 71 <= code <= 77 {
        Some(Sky::Snow)
    } else if 80 <= code <= 82 {
        Some(Sky::Showers)
    } else if 85 <= code <= 86 {
        Some(Sky::SnowShowers)
    } else if 95 <= code <= 99 {
        Some(Sky::Thunderstorm)
    } else {
        None
    }
}

/// The glyph shown for a sky. Rain and showers share one, as do snow and
/// snow showers.
pub open spec fn glyph_of(sky: Sky) -> Seq<char> {
    match sky {
        Sky::Clear => "☀️"@,
        Sky::PartlyCloudy => "⛅"@,
        Sky::Overcast => "☁️"@,
        Sky::Rain => "🌧️"@,
        Sky::Snow => "🌨️"@,
        Sky::Showers => "🌧️"@,
        Sky::SnowShowers => "🌨️"@,
        Sky::Thunderstorm => "🌩️"@,
    }
}

/// Whether a weather code lies in one of the ranges that have a glyph.
pub open spec fn is_known_code(code: int) -> bool {
    sky_of(code) is Some
}

/// The codes with a glyph are those of the eight ranges and no others.
pub proof fn lemma_known_codes(code: int)
    ensures
        is_known_code(code) <==> (0 <= code <= 3 || 45 <= code <= 48 || 51 <= code <= 67 || 71
            <= code <= 77 || 80 <= code <= 82 || 85 <= code <= 86 || 95 <= code <= 99),
{
}

/// The glyph for a weather code, or `UnknownWeatherCode` for a code that no
/// range holds.
pub fn emoji_for_weather(code: i8) -> (glyph: Result<&'static str, Error>)
    ensures
        match sky_of(code as int) {
            Some(sky) => glyph is Ok && glyph->Ok_0@ == glyph_of(sky),
            None => glyph == Err::<&'static str, Error>(Error::UnknownWeatherCode(code)),
        },
{
    if 0 <= code && code <= 1 {
        Ok("☀️")
    } else if 2 <= code && code <= 3 {
        Ok("⛅")
    } else if 45 <= code && code <= 48 {
        Ok("☁️")
    } else if 51 <= code && code <= 67 {
        Ok("🌧️")
    } else if 71 <= code && code <= 77 {
        Ok("🌨️")
    } else if 80 <= code && code <= 82 {
        Ok("🌧️")
    } else if 85 <= code && code <= 86 {
        Ok("🌨️")
    } else if 95 <= code && code <= 99 {
        Ok("🌩️")
    } else {
        Err(Error::UnknownWeatherCode(code))
    }
}

} // verus!
