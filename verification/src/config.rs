//! What the user configures: the location, and the four display units.
//!
//! Measurements are stored in metric base units (degrees Celsius, km/h, mm,
//! hPa) as integers in thousandths. Each unit knows the exact figure of such
//! a value on its own scale, as a fraction; what is shown is that fraction
//! rounded or cut once, and `convert` gives it to the nearest thousandth.

use vstd::prelude::*;
use vstd::arithmetic::div_mod::lemma_div_is_ordered;
use crate::text::{fraction_hundredths_text, fraction_truncated, fraction_whole_text, Figure};

verus! {

/// `n / d` rounded to the nearest integer, a tie going upwards.
pub open spec fn round_div(n: int, d: int) -> int
    recommends
        d > 0,
{
    (2 * n + d) / (2 * d)
}

/// The fraction `num / den` of whole units in thousandths, to the nearest one.
pub open spec fn to_thousandths(num: int, den: int) -> int
    recommends
        den > 0,
{
    round_div(1000 * num, den)
}

/// `n / d` rounded down, for a numerator of either sign.
pub fn div_floor(n: i64, d: i64) -> (q: i64)
    requires
        d > 0,
    ensures
        q == n as int / d as int,
        n >= 0 ==> 0 <= q <= n,
        n < 0 ==> n <= q < 0,
{
    if n >= 0 {
        let q = n / d;
        assert(0 <= q <= n) by (nonlinear_arith)
            requires
                n >= 0,
                d > 0,
                q == n as int / d as int,
        ;
        q
    } else {
        let m: i128 = -(n as i128);
        let up: i128 = (m + (d as i128) - 1) / (d as i128);
        assert(-up == n as int / d as int && 0 < up <= m) by (nonlinear_arith)
            requires
                d > 0,
                m == -n,
                m > 0,
                up == (m + d - 1) / (d as int),
        ;
        (-up) as i64
    }
}

/// A figure in thousandths, to the nearest one. The figure is one of a stored
/// measurement, which keeps the arithmetic within 64 bits.
pub fn thousandths(figure: Figure) -> (r: i64)
    requires
        0 < figure.den <= 1_000_000_000,
        -1_400_000_000_000_000 <= figure.num <= 1_400_000_000_000_000,
    ensures
        r == to_thousandths(figure.num as int, figure.den as int),
{
    div_floor(2 * (1000 * figure.num) + figure.den as i64, 2 * (figure.den as i64))
}

/// The product of a stored measurement and a factor of a unit.
fn times(value: i32, factor: i64) -> (r: i64)
    requires
        0 < factor <= 621_371,
    ensures
        r == value * factor,
        -1_400_000_000_000_000 <= r <= 1_400_000_000_000_000,
{
    assert(-1_400_000_000_000_000 <= value * factor <= 1_400_000_000_000_000) by (nonlinear_arith)
        requires
            -2_147_483_648 <= value <= 2_147_483_647,
            0 < factor <= 621_371,
    ;
    (value as i64) * factor
}

/// The unit that temperatures are shown in.
#[derive(Debug, Clone, Copy, PartialEq, Eq)]
pub enum TemperatureUnit {
    Fahrenheit,
    Celsius,
}

impl TemperatureUnit {
    /// The symbol that stands behind a figure in this unit.
    pub open spec fn symbol_text(self) -> Seq<char> {
        match self {
            TemperatureUnit::Fahrenheit => "°F"@,
            TemperatureUnit::Celsius => "°C"@,
        }
    }

    /// The numerator of the exact figure, in this unit, of thousandths of a
    /// degree Celsius: °F = °C · 9 / 5 + 32.
    pub open spec fn exact_num(self, celsius: int) -> int {
        match self {
            TemperatureUnit::Celsius => celsius,
            TemperatureUnit::Fahrenheit => 9 * celsius + 160_000,
        }
    }

    /// The denominator of the exact figure.
    pub open spec fn exact_den(self) -> int {
        match self {
            TemperatureUnit::Celsius => 1_000,
            TemperatureUnit::Fahrenheit => 5_000,
        }
    }

    /// Thousandths of a degree Celsius in thousandths of this unit, to the
    /// nearest one.
    pub open spec fn converted(self, celsius: int) -> int {
        to_thousandths(self.exact_num(celsius), self.exact_den())
    }

    /// The symbol that stands behind a figure in this unit.
    pub fn symbol(&self) -> (r: &'static str)
        ensures
            r@ == self.symbol_text(),
    {
        match self {
            TemperatureUnit::Fahrenheit => "°F",
            TemperatureUnit::Celsius => "°C",
        }
    }

    /// The whole degrees of a temperature in this unit: the exact figure
    /// with its fraction cut off.
    pub open spec fn cut(self, celsius: int) -> int {
        fraction_truncated(self.exact_num(celsius), self.exact_den())
    }

    /// A temperature in this unit without decimal place: the exact figure,
    /// rounded once.
    pub open spec fn whole_text(self, celsius: int) -> Seq<char> {
        fraction_whole_text(self.exact_num(celsius), self.exact_den())
    }

    /// The whole degrees of a temperature in this unit, the fraction cut off.
    pub fn truncated(&self, celsius: i32) -> (r: i64)
        ensures
            r == self.cut(celsius as int),
    {
        self.figure(celsius).truncate()
    }

    /// A temperature in this unit without decimal place.
    pub fn whole(&self, celsius: i32) -> (r: String)
        ensures
            r@ == self.whole_text(celsius as int),
    {
        self.figure(celsius).whole()
    }

    /// The exact figure, in this unit, of thousandths of a degree Celsius.
    pub fn figure(&self, celsius: i32) -> (r: Figure)
        ensures
            r.num == self.exact_num(celsius as int),
            r.den == self.exact_den(),
            r.well_formed(),
            r.den <= 1_000_000_000,
            -1_400_000_000_000_000 <= r.num <= 1_400_000_000_000_000,
    {
        match self {
            TemperatureUnit::Celsius => Figure { num: celsius as i64, den: 1_000 },
            TemperatureUnit::Fahrenheit => Figure { num: times(celsius, 9) + 160_000, den: 5_000 },
        }
    }

    /// Thousandths of a degree Celsius in thousandths of this unit.
    pub fn convert(&self, celsius: i32) -> (r: i64)
        ensures
            r == self.converted(celsius as int),
    {
        thousandths(self.figure(celsius))
    }
}

/// The unit that wind speeds are shown in.
#[derive(Debug, Clone, Copy, PartialEq, Eq)]
pub enum WindSpeedUnit {
    Mph,
    Kmh,
    Ms,
    Knots,
}

impl WindSpeedUnit {
    /// The symbol that stands behind a figure in this unit.
    pub open spec fn symbol_text(self) -> Seq<char> {
        match self {
            WindSpeedUnit::Mph => "mph"@,
            WindSpeedUnit::Kmh => "km/h"@,
            WindSpeedUnit::Ms => "m/s"@,
            WindSpeedUnit::Knots => "kn"@,
        }
    }

    /// The numerator of the exact figure, in this unit, of thousandths of a
    /// km/h: mph = km/h · 0.621371, m/s = km/h / 3.6, knots = km/h · 0.539957.
    pub open spec fn exact_num(self, kmh: int) -> int {
        match self {
            WindSpeedUnit::Kmh => kmh,
            WindSpeedUnit::Mph => kmh * 621_371,
            WindSpeedUnit::Ms => kmh,
            WindSpeedUnit::Knots => kmh * 539_957,
        }
    }

    /// The denominator of the exact figure.
    pub open spec fn exact_den(self) -> int {
        match self {
            WindSpeedUnit::Kmh => 1_000,
            WindSpeedUnit::Mph => 1_000_000_000,
            WindSpeedUnit::Ms => 3_600,
            WindSpeedUnit::Knots => 1_000_000_000,
        }
    }

    /// Thousandths of a km/h in thousandths of this unit, to the nearest one.
    pub open spec fn converted(self, kmh: int) -> int {
        to_thousandths(self.exact_num(kmh), self.exact_den())
    }

    /// The symbol that stands behind a figure in this unit.
    pub fn symbol(&self) -> (r: &'static str)
        ensures
            r@ == self.symbol_text(),
    {
        match self {
            WindSpeedUnit::Mph => "mph",
            WindSpeedUnit::Kmh => "km/h",
            WindSpeedUnit::Ms => "m/s",
            WindSpeedUnit::Knots => "kn",
        }
    }

    /// A wind speed in this unit without decimal place: the exact figure,
    /// rounded once.
    pub open spec fn whole_text(self, kmh: int) -> Seq<char> {
        fraction_whole_text(self.exact_num(kmh), self.exact_den())
    }

    /// A wind speed in this unit without decimal place.
    pub fn whole(&self, kmh: i32) -> (r: String)
        ensures
            r@ == self.whole_text(kmh as int),
    {
        self.figure(kmh).whole()
    }

    /// The exact figure, in this unit, of thousandths of a km/h.
    pub fn figure(&self, kmh: i32) -> (r: Figure)
        ensures
            r.num == self.exact_num(kmh as int),
            r.den == self.exact_den(),
            r.well_formed(),
            r.den <= 1_000_000_000,
            -1_400_000_000_000_000 <= r.num <= 1_400_000_000_000_000,
    {
        match self {
            WindSpeedUnit::Kmh => Figure { num: kmh as i64, den: 1_000 },
            WindSpeedUnit::Mph => Figure { num: times(kmh, 621_371), den: 1_000_000_000 },
            WindSpeedUnit::Ms => Figure { num: kmh as i64, den: 3_600 },
            WindSpeedUnit::Knots => Figure { num: times(kmh, 539_957), den: 1_000_000_000 },
        }
    }

    /// Thousandths of a km/h in thousandths of this unit.
    pub fn convert(&self, kmh: i32) -> (r: i64)
        ensures
            r == self.converted(kmh as int),
    {
        thousandths(self.figure(kmh))
    }
}

/// The unit that amounts of precipitation are shown in.
#[derive(Debug, Clone, Copy, PartialEq, Eq)]
pub enum PrecipitationUnit {
    Inch,
    Cm,
}

impl PrecipitationUnit {
    /// The symbol that stands behind a figure in this unit.
    pub open spec fn symbol_text(self) -> Seq<char> {
        match self {
            PrecipitationUnit::Inch => "in"@,
            PrecipitationUnit::Cm => "cm"@,
        }
    }

    /// The numerator of the exact figure, in this unit, of thousandths of a
    /// millimetre: cm = mm / 10, inch = mm / 25.4.
    pub open spec fn exact_num(self, mm: int) -> int {
        mm
    }

    /// The denominator of the exact figure.
    pub open spec fn exact_den(self) -> int {
        match self {
            PrecipitationUnit::Cm => 10_000,
            PrecipitationUnit::Inch => 25_400,
        }
    }

    /// Thousandths of a millimetre in thousandths of this unit, to the
    /// nearest one.
    pub open spec fn converted(self, mm: int) -> int {
        to_thousandths(self.exact_num(mm), self.exact_den())
    }

    /// The symbol that stands behind a figure in this unit.
    pub fn symbol(&self) -> (r: &'static str)
        ensures
            r@ == self.symbol_text(),
    {
        match self {
            PrecipitationUnit::Inch => "in",
            PrecipitationUnit::Cm => "cm",
        }
    }

    /// An amount in this unit with two decimal places: the exact figure,
    /// rounded once.
    pub open spec fn hundredths_text(self, mm: int) -> Seq<char> {
        fraction_hundredths_text(self.exact_num(mm), self.exact_den())
    }

    /// An amount in this unit with two decimal places.
    pub fn hundredths(&self, mm: i32) -> (r: String)
        ensures
            r@ == self.hundredths_text(mm as int),
    {
        self.figure(mm).hundredths()
    }

    /// The exact figure, in this unit, of thousandths of a millimetre.
    pub fn figure(&self, mm: i32) -> (r: Figure)
        ensures
            r.num == self.exact_num(mm as int),
            r.den == self.exact_den(),
            r.well_formed(),
            r.den <= 1_000_000_000,
            -1_400_000_000_000_000 <= r.num <= 1_400_000_000_000_000,
    {
        match self {
            PrecipitationUnit::Cm => Figure { num: mm as i64, den: 10_000 },
            PrecipitationUnit::Inch => Figure { num: mm as i64, den: 25_400 },
        }
    }

    /// Thousandths of a millimetre in thousandths of this unit.
    pub fn convert(&self, mm: i32) -> (r: i64)
        ensures
            r == self.converted(mm as int),
    {
        thousandths(self.figure(mm))
    }
}

/// The unit that the pressure is shown in.
#[derive(Debug, Clone, Copy, PartialEq, Eq)]
pub enum PressureUnit {
    Hpa,
    InHg,
}

impl PressureUnit {
    /// The symbol that stands behind a figure in this unit.
    pub open spec fn symbol_text(self) -> Seq<char> {
        match self {
            PressureUnit::Hpa => "hPa"@,
            PressureUnit::InHg => "inHg"@,
        }
    }

    /// The numerator of the exact figure, in this unit, of thousandths of a
    /// hectopascal: inHg = hPa · 0.02953.
    pub open spec fn exact_num(self, hpa: int) -> int {
        match self {
            PressureUnit::Hpa => hpa,
            PressureUnit::InHg => hpa * 2_953,
        }
    }

    /// The denominator of the exact figure.
    pub open spec fn exact_den(self) -> int {
        match self {
            PressureUnit::Hpa => 1_000,
            PressureUnit::InHg => 100_000_000,
        }
    }

    /// Thousandths of a hectopascal in thousandths of this unit, to the
    /// nearest one.
    pub open spec fn converted(self, hpa: int) -> int {
        to_thousandths(self.exact_num(hpa), self.exact_den())
    }

    /// The pressure as it is shown: whole hectopascals, or inches of mercury
    /// with two decimal places; the exact figure, rounded once, half to even.
    pub open spec fn formatted(self, hpa: int) -> Seq<char> {
        match self {
            PressureUnit::Hpa => fraction_whole_text(self.exact_num(hpa), self.exact_den()),
            PressureUnit::InHg => fraction_hundredths_text(self.exact_num(hpa), self.exact_den()),
        }
    }

    /// The symbol that stands behind a figure in this unit.
    pub fn symbol(&self) -> (r: &'static str)
        ensures
            r@ == self.symbol_text(),
    {
        match self {
            PressureUnit::Hpa => "hPa",
            PressureUnit::InHg => "inHg",
        }
    }

    /// The exact figure, in this unit, of thousandths of a hectopascal.
    pub fn figure(&self, hpa: i32) -> (r: Figure)
        ensures
            r.num == self.exact_num(hpa as int),
            r.den == self.exact_den(),
            r.well_formed(),
            r.den <= 1_000_000_000,
            -1_400_000_000_000_000 <= r.num <= 1_400_000_000_000_000,
    {
        match self {
            PressureUnit::Hpa => Figure { num: hpa as i64, den: 1_000 },
            PressureUnit::InHg => Figure { num: times(hpa, 2_953), den: 100_000_000 },
        }
    }

    /// Thousandths of a hectopascal in thousandths of this unit.
    pub fn convert(&self, hpa: i32) -> (r: i64)
        ensures
            r == self.converted(hpa as int),
    {
        thousandths(self.figure(hpa))
    }

    /// A pressure in thousandths of a hectopascal as this unit shows it.
    pub fn format(&self, hpa: i32) -> (r: String)
        ensures
            r@ == self.formatted(hpa as int),
    {
        let figure = self.figure(hpa);
        match self {
            PressureUnit::Hpa => figure.whole(),
            PressureUnit::InHg => figure.hundredths(),
        }
    }
}

/// The temperature unit of a configuration that names none.
pub fn default_temperature() -> (r: TemperatureUnit)
    ensures
        r == TemperatureUnit::Fahrenheit,
{
    TemperatureUnit::Fahrenheit
}

/// The wind speed unit of a configuration that names none.
pub fn default_wind_speed() -> (r: WindSpeedUnit)
    ensures
        r == WindSpeedUnit::Mph,
{
    WindSpeedUnit::Mph
}

/// The precipitation unit of a configuration that names none.
pub fn default_precipitation() -> (r: PrecipitationUnit)
    ensures
        r == PrecipitationUnit::Cm,
{
    PrecipitationUnit::Cm
}

/// The pressure unit of a configuration that names none.
pub fn default_pressure() -> (r: PressureUnit)
    ensures
        r == PressureUnit::InHg,
{
    PressureUnit::InHg
}

/// The four display units. Each is chosen on its own.
#[derive(Debug, Clone, Copy, PartialEq, Eq)]
pub struct UnitsConfig {
    pub temperature: TemperatureUnit,
    pub wind_speed: WindSpeedUnit,
    pub precipitation: PrecipitationUnit,
    pub pressure: PressureUnit,
}

impl UnitsConfig {
    /// The units of a configuration that names none.
    pub open spec fn initial() -> UnitsConfig {
        UnitsConfig {
            temperature: TemperatureUnit::Fahrenheit,
            wind_speed: WindSpeedUnit::Mph,
            precipitation: PrecipitationUnit::Cm,
            pressure: PressureUnit::InHg,
        }
    }
}

impl Default for UnitsConfig {
    fn default() -> (r: Self)
        ensures
            r == UnitsConfig::initial(),
    {
        UnitsConfig {
            temperature: default_temperature(),
            wind_speed: default_wind_speed(),
            precipitation: default_precipitation(),
            pressure: default_pressure(),
        }
    }
}

/// The configured place: a text to look up, or coordinates in millionths of a
/// degree with the name to show for them. Nothing set means: locate by network.
#[derive(Debug, Clone, PartialEq, Eq)]
pub struct LocationConfig {
    pub zipcode: Option<String>,
    pub latitude: Option<i32>,
    pub longitude: Option<i32>,
    pub city: Option<String>,
}

impl LocationConfig {
    /// No place configured.
    pub open spec fn is_unset(&self) -> bool {
        &&& self.zipcode is None
        &&& self.latitude is None
        &&& self.longitude is None
        &&& self.city is None
    }
}

impl Default for LocationConfig {
    fn default() -> (r: Self)
        ensures
            r.is_unset(),
    {
        LocationConfig { zipcode: None, latitude: None, longitude: None, city: None }
    }
}

/// The configuration: the place, and the units.
#[derive(Debug, Clone, PartialEq, Eq)]
pub struct Config {
    pub location: LocationConfig,
    pub units: UnitsConfig,
}

impl Default for Config {
    fn default() -> (r: Self)
        ensures
            r.location.is_unset(),
            r.units == UnitsConfig::initial(),
    {
        Config { location: LocationConfig::default(), units: UnitsConfig::default() }
    }
}

/// What `str::to_lowercase` makes of a text.
pub uninterp spec fn lowercased(text: Seq<char>) -> Seq<char>;

/// `str::to_lowercase`: the text with every character in its lower case.
#[verifier::external_body]
fn lowercase(text: &str) -> (r: String)
    ensures
        r@ == lowercased(text@),
{
    text.to_lowercase()
}

/// Whether two texts hold the same characters.
fn same_text(a: &str, b: &str) -> (r: bool)
    ensures
        r == (a@ == b@),
{
    String::from_str(a) == String::from_str(b)
}

/// The unit that a lower-case name stands for. Millimetres are read as
/// centimetres, for configurations written before the unit changed.
pub open spec fn precipitation_unit_named(name: Seq<char>) -> Option<PrecipitationUnit> {
    if name == "inch"@ || name == "in"@ {
        Some(PrecipitationUnit::Inch)
    } else if name == "cm"@ || name == "centimeter"@ || name == "centimeters"@ || name == "mm"@
        || name == "millimeter"@ || name == "millimeters"@ {
        Some(PrecipitationUnit::Cm)
    } else {
        None
    }
}

/// The message for a name that stands for no precipitation unit.
pub open spec fn invalid_precipitation_unit(name: Seq<char>) -> Seq<char> {
    "invalid precipitation unit: "@ + name
        + ". Expected 'inch', 'cm', or 'mm' (treated as cm)"@
}

impl PrecipitationUnit {
    /// Reads a unit from a name that is already in lower case.
    pub fn from_lowercase(name: &str) -> (r: Option<PrecipitationUnit>)
        ensures
            r == precipitation_unit_named(name@),
    {
        if same_text(name, "inch") || same_text(name, "in") {
            Some(PrecipitationUnit::Inch)
        } else if same_text(name, "cm") || same_text(name, "centimeter") || same_text(
            name,
            "centimeters",
        ) || same_text(name, "mm") || same_text(name, "millimeter") || same_text(
            name,
            "millimeters",
        ) {
            Some(PrecipitationUnit::Cm)
        } else {
            None
        }
    }

    /// Reads a unit from its name as a configuration file spells it, in any
    /// case; the error is the message for a name that stands for none.
    pub fn parse(name: &str) -> (r: Result<PrecipitationUnit, String>)
        ensures
            match r {
                Ok(unit) => precipitation_unit_named(lowercased(name@)) == Some(unit),
                Err(message) => precipitation_unit_named(lowercased(name@)) is None
                    && message@ == invalid_precipitation_unit(name@),
            },
    {
        let lowered = lowercase(name);
        match PrecipitationUnit::from_lowercase(lowered.as_str()) {
            Some(unit) => Ok(unit),
            None => {
                let mut message = String::from_str("invalid precipitation unit: ");
                message.append(name);
                message.append(". Expected 'inch', 'cm', or 'mm' (treated as cm)");
                Err(message)
            },
        }
    }
}

/// Rounding to the nearest integer keeps the order of the numerators.
pub proof fn round_div_monotonic(a: int, b: int, d: int)
    requires
        a <= b,
        d > 0,
    ensures
        round_div(a, d) <= round_div(b, d),
{
    lemma_div_is_ordered(2 * a + d, 2 * b + d, 2 * d);
}

/// Of two fractions over one denominator, the one with the greater
/// numerator is no less in thousandths.
pub proof fn to_thousandths_monotonic(a: int, b: int, den: int)
    requires
        a <= b,
        den > 0,
    ensures
        to_thousandths(a, den) <= to_thousandths(b, den),
{
    round_div_monotonic(1000 * a, 1000 * b, den);
}

/// A higher temperature never converts to a lower figure, in either unit.
pub proof fn temperature_convert_monotonic(unit: TemperatureUnit, a: int, b: int)
    requires
        a <= b,
    ensures
        unit.converted(a) <= unit.converted(b),
        unit.exact_num(a) <= unit.exact_num(b),
{
    to_thousandths_monotonic(unit.exact_num(a), unit.exact_num(b), unit.exact_den());
}

/// A higher wind speed never converts to a lower figure, in any unit.
pub proof fn wind_speed_convert_monotonic(unit: WindSpeedUnit, a: int, b: int)
    requires
        a <= b,
    ensures
        unit.converted(a) <= unit.converted(b),
        unit.exact_num(a) <= unit.exact_num(b),
{
    to_thousandths_monotonic(unit.exact_num(a), unit.exact_num(b), unit.exact_den());
}

/// A larger amount of precipitation never converts to a lower figure, in either unit.
pub proof fn precipitation_convert_monotonic(unit: PrecipitationUnit, a: int, b: int)
    requires
        a <= b,
    ensures
        unit.converted(a) <= unit.converted(b),
        unit.exact_num(a) <= unit.exact_num(b),
{
    to_thousandths_monotonic(unit.exact_num(a), unit.exact_num(b), unit.exact_den());
}

/// A higher pressure never converts to a lower figure, in either unit.
pub proof fn pressure_convert_monotonic(unit: PressureUnit, a: int, b: int)
    requires
        a <= b,
    ensures
        unit.converted(a) <= unit.converted(b),
        unit.exact_num(a) <= unit.exact_num(b),
{
    to_thousandths_monotonic(unit.exact_num(a), unit.exact_num(b), unit.exact_den());
}

/// A fraction in thousandths is `expected` where it lies within half a
/// thousandth of it, the upper end left out.
pub proof fn to_thousandths_is(num: int, den: int, expected: int)
    requires
        den > 0,
        2 * den * expected <= 2 * (1000 * num) + den < 2 * den * (expected + 1),
    ensures
        to_thousandths(num, den) == expected,
{
    let n = 2 * (1000 * num) + den;
    let d = 2 * den;
    assert(n / d == expected) by (nonlinear_arith)
        requires
            d > 0,
            d * expected <= n < d * (expected + 1),
    ;
}

/// The landmark values of each scale convert exactly: freezing, boiling and
/// the crossing of the two temperature scales; one metre per second; one inch;
/// one standard atmosphere, which is 29.921 inches of mercury.
pub proof fn conversion_landmarks()
    ensures
        TemperatureUnit::Fahrenheit.converted(0) == 32_000,
        TemperatureUnit::Fahrenheit.converted(100_000) == 212_000,
        TemperatureUnit::Fahrenheit.converted(-40_000) == -40_000,
        WindSpeedUnit::Ms.converted(3_600) == 1_000,
        PrecipitationUnit::Inch.converted(25_400) == 1_000,
        PrecipitationUnit::Cm.converted(10_000) == 1_000,
        PressureUnit::InHg.converted(1_013_250) == 29_921,
{
    to_thousandths_is(160_000, 5_000, 32_000);
    to_thousandths_is(1_060_000, 5_000, 212_000);
    to_thousandths_is(-200_000, 5_000, -40_000);
    to_thousandths_is(3_600, 3_600, 1_000);
    to_thousandths_is(25_400, 25_400, 1_000);
    to_thousandths_is(10_000, 10_000, 1_000);
    to_thousandths_is(2_992_127_250, 100_000_000, 29_921);
}

} // verus!
