//! Weather conditions and the bands that pick a color or a word for a reading.

use vstd::prelude::*;
use crate::config::TemperatureUnit;
use crate::style::Color;
use crate::text::{truncate_units, truncated_units};

verus! {

/// The sky, as far as the dashboard tells it apart.
#[derive(Debug, Clone, Copy, PartialEq, Eq)]
pub enum WeatherCondition {
    ClearDay,
    ClearNight,
    PartlyCloudyDay,
    PartlyCloudyNight,
    Overcast,
    Fog,
    Drizzle,
    Rain,
    HeavyRain,
    Snow,
    HeavySnow,
    Thunderstorm,
    Unknown,
}

/// The width of the large picture of a condition, in characters.
pub const ICON_WIDTH: usize = 12;

/// The orange of the warning bands.
pub open spec fn orange() -> Color {
    Color::Rgb(255, 165, 0)
}

impl WeatherCondition {
    /// The condition that a WMO weather code stands for, by day or by night.
    /// A code outside the table is `Unknown`.
    pub open spec fn classified(code: int, is_day: bool) -> WeatherCondition {
        if code == 0 {
            if is_day {
                WeatherCondition::ClearDay
            } else {
                WeatherCondition::ClearNight
            }
        } else if code == 1 || code == 2 {
            if is_day {
                WeatherCondition::PartlyCloudyDay
            } else {
                WeatherCondition::PartlyCloudyNight
            }
        } else if code == 3 {
            WeatherCondition::Overcast
        } else if code == 45 || code == 48 {
            WeatherCondition::Fog
        } else if code == 51 || code == 53 || code == 55 || code == 56 || code == 57 {
            WeatherCondition::Drizzle
        } else if code == 61 || code == 63 || code == 66 || code == 80 || code == 81 || code == 82 {
            WeatherCondition::Rain
        } else if code == 65 || code == 67 {
            WeatherCondition::HeavyRain
        } else if code == 71 || code == 73 || code == 77 {
            WeatherCondition::Snow
        } else if code == 75 || code == 85 || code == 86 {
            WeatherCondition::HeavySnow
        } else if code == 95 || code == 96 || code == 99 {
            WeatherCondition::Thunderstorm
        } else {
            WeatherCondition::Unknown
        }
    }

    /// The condition in words.
    pub open spec fn description_text(self) -> Seq<char> {
        match self {
            WeatherCondition::ClearDay => "Clear"@,
            WeatherCondition::ClearNight => "Clear"@,
            WeatherCondition::PartlyCloudyDay => "Partly Cloudy"@,
            WeatherCondition::PartlyCloudyNight => "Partly Cloudy"@,
            WeatherCondition::Overcast => "Overcast"@,
            WeatherCondition::Fog => "Foggy"@,
            WeatherCondition::Drizzle => "Drizzle"@,
            WeatherCondition::Rain => "Rain"@,
            WeatherCondition::HeavyRain => "Heavy Rain"@,
            WeatherCondition::Snow => "Snow"@,
            WeatherCondition::HeavySnow => "Heavy Snow"@,
            WeatherCondition::Thunderstorm => "Thunderstorm"@,
            WeatherCondition::Unknown => "Unknown"@,
        }
    }

    /// The color that the condition is drawn in.
    pub open spec fn tint(self) -> Color {
        match self {
            WeatherCondition::ClearDay => Color::Yellow,
            WeatherCondition::ClearNight => Color::Blue,
            WeatherCondition::PartlyCloudyDay => Color::LightYellow,
            WeatherCondition::PartlyCloudyNight => Color::LightBlue,
            WeatherCondition::Overcast => Color::Gray,
            WeatherCondition::Fog => Color::DarkGray,
            WeatherCondition::Drizzle => Color::LightCyan,
            WeatherCondition::Rain => Color::Cyan,
            WeatherCondition::HeavyRain => Color::Blue,
            WeatherCondition::Snow => Color::White,
            WeatherCondition::HeavySnow => Color::White,
            WeatherCondition::Thunderstorm => Color::Magenta,
            WeatherCondition::Unknown => Color::Gray,
        }
    }

    /// The five rows of the large picture, top to bottom, each of twelve
    /// characters.
    pub open spec fn icon_rows(self) -> Seq<Seq<char>> {
        match self {
            WeatherCondition::ClearDay => seq![
                "    \\   /   "@,
                "     .-.    "@,
                "  - (   ) - "@,
                "     `-'    "@,
                "    /   \\   "@,
            ],
            WeatherCondition::ClearNight => seq![
                "            "@,
                "     .--.   "@,
                "    (    )  "@,
                "     `--'   "@,
                "            "@,
            ],
            WeatherCondition::PartlyCloudyDay => seq![
                "   \\  /     "@,
                " _ /\"\".-.   "@,
                "   \\_( _ ). "@,
                "   /(___(__)"@,
                "            "@,
            ],
            WeatherCondition::PartlyCloudyNight => seq![
                "     .--.   "@,
                "  _ (    ). "@,
                "  _(___(__) "@,
                "            "@,
                "            "@,
            ],
            WeatherCondition::Overcast => seq![
                "            "@,
                "    .--.    "@,
                " .-(    ).  "@,
                "(___.__)__) "@,
                "            "@,
            ],
            WeatherCondition::Fog => seq![
                "            "@,
                " _ - _ - _  "@,
                "  _ - _ -   "@,
                " _ - _ - _  "@,
                "            "@,
            ],
            WeatherCondition::Drizzle => seq![
                "    .-.     "@,
                "   (   ).   "@,
                "  (___(__)  "@,
                "   ' ' ' '  "@,
                "  ' ' ' '   "@,
            ],
            WeatherCondition::Rain => seq![
                "    .-.     "@,
                "   (   ).   "@,
                "  (___(__)  "@,
                "  ,',',','  "@,
                "  ,',',','  "@,
            ],
            WeatherCondition::HeavyRain => seq![
                "    .-.     "@,
                "   (   ).   "@,
                "  (___(__)  "@,
                " ,',',',',' "@,
                " ,',',',',' "@,
            ],
            WeatherCondition::Snow => seq![
                "    .-.     "@,
                "   (   ).   "@,
                "  (___(__)  "@,
                "   * * * *  "@,
                "  * * * *   "@,
            ],
            WeatherCondition::HeavySnow => seq![
                "    .-.     "@,
                "   (   ).   "@,
                "  (___(__)  "@,
                "  * * * * * "@,
                " * * * * *  "@,
            ],
            WeatherCondition::Thunderstorm => seq![
                "    .-.     "@,
                "   (   ).   "@,
                "  (___(__)  "@,
                "   ⚡⚡⚡      "@,
                "  ,',',','  "@,
            ],
            WeatherCondition::Unknown => seq![
                "            "@,
                "    ???     "@,
                "            "@,
                "    ???     "@,
                "            "@,
            ],
        }
    }

    /// The condition as one glyph.
    pub open spec fn small_icon_text(self) -> Seq<char> {
        match self {
            WeatherCondition::ClearDay => "☀️"@,
            WeatherCondition::ClearNight => "🌙"@,
            WeatherCondition::PartlyCloudyDay => "🌤️"@,
            WeatherCondition::PartlyCloudyNight => "☁️"@,
            WeatherCondition::Overcast => "☁️"@,
            WeatherCondition::Fog => "🌫️"@,
            WeatherCondition::Drizzle => "🌧️"@,
            WeatherCondition::Rain => "🌧️"@,
            WeatherCondition::HeavyRain => "🌧️"@,
            WeatherCondition::Snow => "❄️"@,
            WeatherCondition::HeavySnow => "❄️"@,
            WeatherCondition::Thunderstorm => "🌩️"@,
            WeatherCondition::Unknown => "❓"@,
        }
    }

    /// The condition that a WMO weather code stands for, by day or by night.
    /// Every code has one.
    pub fn from_wmo_code(code: i32, is_day: bool) -> (r: WeatherCondition)
        ensures
            r == WeatherCondition::classified(code as int, is_day),
    {
        match code {
            0 => {
                if is_day {
                    WeatherCondition::ClearDay
                } else {
                    WeatherCondition::ClearNight
                }
            },
            1 | 2 => {
                if is_day {
                    WeatherCondition::PartlyCloudyDay
                } else {
                    WeatherCondition::PartlyCloudyNight
                }
            },
            3 => WeatherCondition::Overcast,
            45 | 48 => WeatherCondition::Fog,
            51 | 53 | 55 | 56 | 57 => WeatherCondition::Drizzle,
            61 | 63 | 66 => WeatherCondition::Rain,
            65 | 67 => WeatherCondition::HeavyRain,
            71 | 73 | 77 => WeatherCondition::Snow,
            75 | 85 | 86 => WeatherCondition::HeavySnow,
            80 | 81 | 82 => WeatherCondition::Rain,
            95 | 96 | 99 => WeatherCondition::Thunderstorm,
            _ => WeatherCondition::Unknown,
        }
    }

    /// The condition in words.
    pub fn description(&self) -> (r: &'static str)
        ensures
            r@ == self.description_text(),
    {
        match self {
            WeatherCondition::ClearDay => "Clear",
            WeatherCondition::ClearNight => "Clear",
            WeatherCondition::PartlyCloudyDay => "Partly Cloudy",
            WeatherCondition::PartlyCloudyNight => "Partly Cloudy",
            WeatherCondition::Overcast => "Overcast",
            WeatherCondition::Fog => "Foggy",
            WeatherCondition::Drizzle => "Drizzle",
            WeatherCondition::Rain => "Rain",
            WeatherCondition::HeavyRain => "Heavy Rain",
            WeatherCondition::Snow => "Snow",
            WeatherCondition::HeavySnow => "Heavy Snow",
            WeatherCondition::Thunderstorm => "Thunderstorm",
            WeatherCondition::Unknown => "Unknown",
        }
    }

    /// The color that the condition is drawn in.
    pub fn color(&self) -> (r: Color)
        ensures
            r == self.tint(),
    {
        match self {
            WeatherCondition::ClearDay => Color::Yellow,
            WeatherCondition::ClearNight => Color::Blue,
            WeatherCondition::PartlyCloudyDay => Color::LightYellow,
            WeatherCondition::PartlyCloudyNight => Color::LightBlue,
            WeatherCondition::Overcast => Color::Gray,
            WeatherCondition::Fog => Color::DarkGray,
            WeatherCondition::Drizzle => Color::LightCyan,
            WeatherCondition::Rain => Color::Cyan,
            WeatherCondition::HeavyRain => Color::Blue,
            WeatherCondition::Snow => Color::White,
            WeatherCondition::HeavySnow => Color::White,
            WeatherCondition::Thunderstorm => Color::Magenta,
            WeatherCondition::Unknown => Color::Gray,
        }
    }

    /// The large picture of the condition: five rows of twelve characters.
    pub fn icon(&self) -> (r: [&'static str; 5])
        ensures
            self.icon_rows().len() == 5,
            forall|i: int| 0 <= i < 5 ==> (#[trigger] r[i])@ == self.icon_rows()[i],
            forall|i: int| 0 <= i < 5 ==> (#[trigger] r[i])@.len() == ICON_WIDTH,
    {
        proof {
            pictures_have_one_size(*self);
        }
        match self {
            WeatherCondition::ClearDay => [
                "    \\   /   ",
                "     .-.    ",
                "  - (   ) - ",
                "     `-'    ",
                "    /   \\   ",
            ],
            WeatherCondition::ClearNight => [
                "            ",
                "     .--.   ",
                "    (    )  ",
                "     `--'   ",
                "            ",
            ],
            WeatherCondition::PartlyCloudyDay => [
                "   \\  /     ",
                " _ /\"\".-.   ",
                "   \\_( _ ). ",
                "   /(___(__)",
                "            ",
            ],
            WeatherCondition::PartlyCloudyNight => [
                "     .--.   ",
                "  _ (    ). ",
                "  _(___(__) ",
                "            ",
                "            ",
            ],
            WeatherCondition::Overcast => [
                "            ",
                "    .--.    ",
                " .-(    ).  ",
                "(___.__)__) ",
                "            ",
            ],
            WeatherCondition::Fog => [
                "            ",
                " _ - _ - _  ",
                "  _ - _ -   ",
                " _ - _ - _  ",
                "            ",
            ],
            WeatherCondition::Drizzle => [
                "    .-.     ",
                "   (   ).   ",
                "  (___(__)  ",
                "   ' ' ' '  ",
                "  ' ' ' '   ",
            ],
            WeatherCondition::Rain => [
                "    .-.     ",
                "   (   ).   ",
                "  (___(__)  ",
                "  ,',',','  ",
                "  ,',',','  ",
            ],
            WeatherCondition::HeavyRain => [
                "    .-.     ",
                "   (   ).   ",
                "  (___(__)  ",
                " ,',',',',' ",
                " ,',',',',' ",
            ],
            WeatherCondition::Snow => [
                "    .-.     ",
                "   (   ).   ",
                "  (___(__)  ",
                "   * * * *  ",
                "  * * * *   ",
            ],
            WeatherCondition::HeavySnow => [
                "    .-.     ",
                "   (   ).   ",
                "  (___(__)  ",
                "  * * * * * ",
                " * * * * *  ",
            ],
            WeatherCondition::Thunderstorm => [
                "    .-.     ",
                "   (   ).   ",
                "  (___(__)  ",
                "   ⚡⚡⚡      ",
                "  ,',',','  ",
            ],
            WeatherCondition::Unknown => [
                "            ",
                "    ???     ",
                "            ",
                "    ???     ",
                "            ",
            ],
        }
    }

    /// The condition as one glyph.
    pub fn small_icon(&self) -> (r: &'static str)
        ensures
            r@ == self.small_icon_text(),
    {
        match self {
            WeatherCondition::ClearDay => "☀️",
            WeatherCondition::ClearNight => "🌙",
            WeatherCondition::PartlyCloudyDay => "🌤️",
            WeatherCondition::PartlyCloudyNight => "☁️",
            WeatherCondition::Overcast => "☁️",
            WeatherCondition::Fog => "🌫️",
            WeatherCondition::Drizzle => "🌧️",
            WeatherCondition::Rain => "🌧️",
            WeatherCondition::HeavyRain => "🌧️",
            WeatherCondition::Snow => "❄️",
            WeatherCondition::HeavySnow => "❄️",
            WeatherCondition::Thunderstorm => "🌩️",
            WeatherCondition::Unknown => "❓",
        }
    }
}

/// The color of a temperature of so many whole degrees Fahrenheit.
pub open spec fn temperature_band(degrees: int) -> Color {
    if degrees <= 32 {
        Color::LightBlue
    } else if degrees <= 50 {
        Color::Cyan
    } else if degrees <= 65 {
        Color::Green
    } else if degrees <= 75 {
        Color::LightGreen
    } else if degrees <= 85 {
        Color::Yellow
    } else if degrees <= 95 {
        orange()
    } else {
        Color::Red
    }
}

/// The color of a temperature of so many whole degrees Fahrenheit.
fn band_of(degrees: i64) -> (r: Color)
    ensures
        r == temperature_band(degrees as int),
{
    if degrees <= 32 {
        Color::LightBlue
    } else if degrees <= 50 {
        Color::Cyan
    } else if degrees <= 65 {
        Color::Green
    } else if degrees <= 75 {
        Color::LightGreen
    } else if degrees <= 85 {
        Color::Yellow
    } else if degrees <= 95 {
        Color::Rgb(255, 165, 0)
    } else {
        Color::Red
    }
}

/// The color for a temperature in thousandths of a degree Fahrenheit: the band
/// of its whole degrees, the fraction cut off.
pub fn temperature_color_fahrenheit(temp_f: i64) -> (r: Color)
    ensures
        r == temperature_band(truncated_units(temp_f as int)),
{
    band_of(truncate_units(temp_f))
}

/// The color of a stored temperature, in thousandths of a degree Celsius:
/// the band of its whole degrees Fahrenheit.
pub open spec fn celsius_color(temp_c: int) -> Color {
    temperature_band(TemperatureUnit::Fahrenheit.cut(temp_c))
}

/// The color for a stored temperature: that of its Fahrenheit figure,
/// whatever unit is shown.
pub fn temperature_color_celsius(temp_c: i32) -> (r: Color)
    ensures
        r == celsius_color(temp_c as int),
{
    band_of(TemperatureUnit::Fahrenheit.truncated(temp_c))
}

/// The word for a UV index of so many whole points.
pub open spec fn uv_word(points: int) -> Seq<char> {
    if 0 <= points <= 2 {
        "Low"@
    } else if 3 <= points <= 5 {
        "Moderate"@
    } else if 6 <= points <= 7 {
        "High"@
    } else if 8 <= points <= 10 {
        "Very High"@
    } else {
        "Extreme"@
    }
}

/// The color for a UV index of so many whole points.
pub open spec fn uv_color(points: int) -> Color {
    if 0 <= points <= 2 {
        Color::Green
    } else if 3 <= points <= 5 {
        Color::Yellow
    } else if 6 <= points <= 7 {
        orange()
    } else if 8 <= points <= 10 {
        Color::Red
    } else {
        Color::Magenta
    }
}

/// The category of a UV index given in thousandths: word and color of its
/// whole points, the fraction cut off.
pub fn uv_info(uv_index: i32) -> (r: (&'static str, Color))
    ensures
        r.0@ == uv_word(truncated_units(uv_index as int)),
        r.1 == uv_color(truncated_units(uv_index as int)),
{
    let points = truncate_units(uv_index as i64);
    if 0 <= points && points <= 2 {
        ("Low", Color::Green)
    } else if 3 <= points && points <= 5 {
        ("Moderate", Color::Yellow)
    } else if 6 <= points && points <= 7 {
        ("High", Color::Rgb(255, 165, 0))
    } else if 8 <= points && points <= 10 {
        ("Very High", Color::Red)
    } else {
        ("Extreme", Color::Magenta)
    }
}

/// The compass point of a bearing of `degrees` in `[0, 360)`: eight sectors of
/// 45 degrees, north centered on 0.
pub open spec fn compass_point(degrees: int) -> Seq<char> {
    if degrees <= 22 {
        "N"@
    } else if degrees <= 67 {
        "NE"@
    } else if degrees <= 112 {
        "E"@
    } else if degrees <= 157 {
        "SE"@
    } else if degrees <= 202 {
        "S"@
    } else if degrees <= 247 {
        "SW"@
    } else if degrees <= 292 {
        "W"@
    } else if degrees <= 337 {
        "NW"@
    } else {
        "N"@
    }
}

/// A bearing brought into `[0, 360)`.
pub fn normalize_degrees(degrees: i32) -> (r: i32)
    ensures
        r == degrees as int % 360,
        0 <= r < 360,
{
    if degrees >= 0 {
        degrees % 360
    } else {
        let back: i64 = (-(degrees as i64)) % 360;
        if back == 0 {
            0
        } else {
            (360 - back) as i32
        }
    }
}

/// The compass point that the wind comes from, for a bearing of any size and sign.
pub fn wind_direction_str(degrees: i32) -> (r: &'static str)
    ensures
        r@ == compass_point(degrees as int % 360),
{
    let normalized = normalize_degrees(degrees);
    if normalized <= 22 {
        "N"
    } else if normalized <= 67 {
        "NE"
    } else if normalized <= 112 {
        "E"
    } else if normalized <= 157 {
        "SE"
    } else if normalized <= 202 {
        "S"
    } else if normalized <= 247 {
        "SW"
    } else if normalized <= 292 {
        "W"
    } else if normalized <= 337 {
        "NW"
    } else {
        "N"
    }
}

/// The color of a chance of precipitation in the hourly list and the daily
/// columns: green up to 20 percent, yellow up to 50, orange up to 70, red above.
pub open spec fn precipitation_band(percent: int) -> Color {
    if percent <= 20 {
        Color::Green
    } else if percent <= 50 {
        Color::Yellow
    } else if percent <= 70 {
        orange()
    } else {
        Color::Red
    }
}

/// The color of a chance of precipitation in the hourly list and the daily columns.
pub fn precipitation_color(percent: i32) -> (r: Color)
    ensures
        r == precipitation_band(percent as int),
{
    if percent <= 20 {
        Color::Green
    } else if percent <= 50 {
        Color::Yellow
    } else if percent <= 70 {
        Color::Rgb(255, 165, 0)
    } else {
        Color::Red
    }
}

/// Every code has a condition, and a code that the table does not hold is
/// `Unknown`: so is every negative code and every code above 99.
pub proof fn codes_outside_the_table_are_unknown(code: int, is_day: bool)
    requires
        code < 0 || code > 99,
    ensures
        WeatherCondition::classified(code, is_day) == WeatherCondition::Unknown,
{
}

/// The bearing of the wind is read modulo a full turn: a turn more or less
/// names the same compass point.
pub proof fn full_turns_keep_the_compass_point(degrees: int, turns: int)
    ensures
        compass_point((degrees + 360 * turns) % 360) == compass_point(degrees % 360),
{
    assert((degrees + 360 * turns) % 360 == degrees % 360) by (nonlinear_arith);
}

/// The picture of every condition has five rows, and every row has twelve
/// characters.
pub proof fn pictures_have_one_size(condition: WeatherCondition)
    ensures
        condition.icon_rows().len() == 5,
        forall|i: int| 0 <= i < 5 ==> (#[trigger] condition.icon_rows()[i]).len() == ICON_WIDTH,
{
    reveal_strlit("    \\   /   ");
    reveal_strlit("     .-.    ");
    reveal_strlit("  - (   ) - ");
    reveal_strlit("     `-'    ");
    reveal_strlit("    /   \\   ");
    reveal_strlit("            ");
    reveal_strlit("     .--.   ");
    reveal_strlit("    (    )  ");
    reveal_strlit("     `--'   ");
    reveal_strlit("   \\  /     ");
    reveal_strlit(" _ /\"\".-.   ");
    reveal_strlit("   \\_( _ ). ");
    reveal_strlit("   /(___(__)");
    reveal_strlit("  _ (    ). ");
    reveal_strlit("  _(___(__) ");
    reveal_strlit("    .--.    ");
    reveal_strlit(" .-(    ).  ");
    reveal_strlit("(___.__)__) ");
    reveal_strlit(" _ - _ - _  ");
    reveal_strlit("  _ - _ -   ");
    reveal_strlit("    .-.     ");
    reveal_strlit("   (   ).   ");
    reveal_strlit("  (___(__)  ");
    reveal_strlit("   ' ' ' '  ");
    reveal_strlit("  ' ' ' '   ");
    reveal_strlit("  ,',',','  ");
    reveal_strlit(" ,',',',',' ");
    reveal_strlit("   * * * *  ");
    reveal_strlit("  * * * *   ");
    reveal_strlit("  * * * * * ");
    reveal_strlit(" * * * * *  ");
    reveal_strlit("   ⚡⚡⚡      ");
    reveal_strlit("    ???     ");
}

} // verus!
