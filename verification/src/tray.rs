use vstd::prelude::*;
use crate::weather::{wmo_text, wmo_symbol, lemma_words_differ};

verus! {

/// The pictures the tray icon can show.
#[derive(Debug, Clone, Copy, PartialEq, Eq, Structural)]
pub enum IconKind {
    Sun,
    Cloud,
    Rain,
    Snow,
}

/// The tray picture for a WMO weather code.
pub open spec fn icon_kind_of(code: u8) -> IconKind {
    if code == 0 || code == 1 {
        IconKind::Sun
    } else if code == 2 || code == 3 || code == 45 || code == 48 {
        IconKind::Cloud
    } else if (51 <= code <= 67) || (80 <= code <= 82) {
        IconKind::Rain
    } else if (71 <= code <= 77) || code == 85 || code == 86 {
        IconKind::Snow
    } else if 95 <= code <= 99 {
        IconKind::Rain
    } else {
        IconKind::Cloud
    }
}

/// Picks the tray picture for a WMO weather code: clear skies show the sun,
/// drizzle, rain, showers and thunderstorms show rain, snow shows snow, and
/// everything else a cloud.
pub fn icon_kind_for_code(code: u8) -> (r: IconKind)
    ensures
        r == icon_kind_of(code),
{
    match code {
        0 | 1 => IconKind::Sun,
        2 | 3 | 45 | 48 => IconKind::Cloud,
        51..=67 | 80..=82 => IconKind::Rain,
        71..=77 | 85 | 86 => IconKind::Snow,
        95..=99 => IconKind::Rain,
        _ => IconKind::Cloud,
    }
}

/// The tray picture fits the weather as the words and the small icon tell it:
/// drizzle, rain, showers and thunderstorms show rain; snow shows snow; clear
/// skies the sun; clouds and fog a cloud.
pub proof fn law_picture_fits_weather(c: u8)
    ensures
        wmo_text(c) == "Drizzle"@ || wmo_text(c) == "Rain"@ || wmo_text(c) == "Rain showers"@
            || wmo_text(c) == "Thunderstorm"@ || wmo_text(c) == "Thunderstorm w/ hail"@ ==> icon_kind_of(c)
            == IconKind::Rain,
        wmo_text(c) == "Snow"@ || wmo_text(c) == "Snow grains"@ || wmo_text(c) == "Snow showers"@
            ==> icon_kind_of(c) == IconKind::Snow,
        wmo_text(c) == "Clear sky"@ || wmo_text(c) == "Mainly clear"@ ==> icon_kind_of(c) == IconKind::Sun,
        wmo_text(c) == "Partly cloudy"@ || wmo_text(c) == "Overcast"@ || wmo_text(c) == "Fog"@
            ==> icon_kind_of(c) == IconKind::Cloud,
        wmo_symbol(c) == "~/"@ || wmo_symbol(c) == "//"@ || wmo_symbol(c) == "!!"@ ==> icon_kind_of(c)
            == IconKind::Rain,
        wmo_symbol(c) == "**"@ ==> icon_kind_of(c) == IconKind::Snow,
        wmo_symbol(c) == "~~"@ || wmo_symbol(c) == "=="@ ==> icon_kind_of(c) == IconKind::Cloud,
{
    lemma_words_differ();
}

/// Whole ranges of codes share a picture: drizzle, rain and freezing rain
/// (51-67), rain showers (80-82) and thunderstorms (95-99) show rain, snow
/// (71-77, 85, 86) shows snow.
pub proof fn law_picture_ranges(c: u8)
    ensures
        51 <= c <= 67 || 80 <= c <= 82 || 95 <= c <= 99 ==> icon_kind_of(c) == IconKind::Rain,
        71 <= c <= 77 || c == 85 || c == 86 ==> icon_kind_of(c) == IconKind::Snow,
        !(c <= 3 || c == 45 || c == 48 || 51 <= c <= 67 || 71 <= c <= 77 || 80 <= c <= 82 || c == 85 || c == 86
            || 95 <= c <= 99) ==> icon_kind_of(c) == IconKind::Cloud,
{
}

} // verus!
