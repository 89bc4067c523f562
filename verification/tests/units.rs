use wxman::config::{
    PrecipitationUnit, PressureUnit, TemperatureUnit, UnitsConfig, WindSpeedUnit,
};

/// A measurement as the library stores it: thousandths, to the nearest one.
fn milli(value: f64) -> i32 {
    (value * 1000.0).round() as i32
}

/// A converted figure back in whole units.
fn units(milli: i64) -> f64 {
    milli as f64 / 1000.0
}

#[test]
fn test_celsius_to_celsius() {
    let unit = TemperatureUnit::Celsius;
    assert_eq!(units(unit.convert(milli(0.0))), 0.0);
    assert_eq!(units(unit.convert(milli(100.0))), 100.0);
    assert_eq!(units(unit.convert(milli(-40.0))), -40.0);
}

#[test]
fn test_celsius_to_fahrenheit() {
    let unit = TemperatureUnit::Fahrenheit;
    assert!((units(unit.convert(milli(0.0))) - 32.0).abs() < 0.001);
    assert!((units(unit.convert(milli(100.0))) - 212.0).abs() < 0.001);
    assert!((units(unit.convert(milli(-40.0))) - (-40.0)).abs() < 0.001);
    assert!((units(unit.convert(milli(20.0))) - 68.0).abs() < 0.001);
}

#[test]
fn test_symbol() {
    assert_eq!(TemperatureUnit::Celsius.symbol(), "°C");
    assert_eq!(TemperatureUnit::Fahrenheit.symbol(), "°F");
}

#[test]
fn config_test_symbol() {
    assert_eq!(WindSpeedUnit::Mph.symbol(), "mph");
    assert_eq!(WindSpeedUnit::Kmh.symbol(), "km/h");
    assert_eq!(WindSpeedUnit::Ms.symbol(), "m/s");
    assert_eq!(WindSpeedUnit::Knots.symbol(), "kn");

    assert_eq!(PrecipitationUnit::Cm.symbol(), "cm");
    assert_eq!(PrecipitationUnit::Inch.symbol(), "in");

    assert_eq!(PressureUnit::Hpa.symbol(), "hPa");
    assert_eq!(PressureUnit::InHg.symbol(), "inHg");
}

#[test]
fn test_kmh_to_kmh() {
    let unit = WindSpeedUnit::Kmh;
    assert_eq!(units(unit.convert(milli(100.0))), 100.0);
    assert_eq!(units(unit.convert(milli(0.0))), 0.0);
}

#[test]
fn test_kmh_to_mph() {
    let unit = WindSpeedUnit::Mph;
    assert!((units(unit.convert(milli(100.0))) - 62.1371).abs() < 0.001);
    assert!((units(unit.convert(milli(1.0))) - 0.621371).abs() < 0.001);
}

#[test]
fn test_kmh_to_ms() {
    let unit = WindSpeedUnit::Ms;
    assert!((units(unit.convert(milli(3.6))) - 1.0).abs() < 0.001);
    assert!((units(unit.convert(milli(36.0))) - 10.0).abs() < 0.001);
}

#[test]
fn test_kmh_to_knots() {
    let unit = WindSpeedUnit::Knots;
    assert!((units(unit.convert(milli(1.0))) - 0.539957).abs() < 0.001);
    assert!((units(unit.convert(milli(100.0))) - 53.9957).abs() < 0.001);
}

#[test]
fn test_mm_to_cm() {
    let unit = PrecipitationUnit::Cm;
    assert_eq!(units(unit.convert(milli(10.0))), 1.0);
    assert!((units(unit.convert(milli(25.4))) - 2.54).abs() < 0.001);
    assert_eq!(units(unit.convert(milli(0.0))), 0.0);
}

#[test]
fn test_mm_to_inch() {
    let unit = PrecipitationUnit::Inch;
    assert!((units(unit.convert(milli(25.4))) - 1.0).abs() < 0.001);
    assert!((units(unit.convert(milli(50.8))) - 2.0).abs() < 0.001);
}

#[test]
fn test_hpa_to_hpa() {
    let unit = PressureUnit::Hpa;
    assert_eq!(units(unit.convert(milli(1013.25))), 1013.25);
    assert_eq!(units(unit.convert(milli(0.0))), 0.0);
}

#[test]
fn test_hpa_to_inhg() {
    let unit = PressureUnit::InHg;
    assert!((units(unit.convert(milli(1013.25))) - 29.921).abs() < 0.01);
    assert!((units(unit.convert(milli(1000.0))) - 29.53).abs() < 0.01);
}

#[test]
fn test_format_hpa() {
    let unit = PressureUnit::Hpa;
    assert_eq!(unit.format(milli(1013.25)), "1013");
    assert_eq!(unit.format(milli(1000.0)), "1000");
}

#[test]
fn test_format_inhg() {
    let unit = PressureUnit::InHg;
    assert_eq!(unit.format(milli(1013.25)), "29.92");
    assert_eq!(unit.format(milli(1000.0)), "29.53");
}

#[test]
fn test_default_units() {
    let units = UnitsConfig::default();
    assert_eq!(units.temperature, TemperatureUnit::Fahrenheit);
    assert_eq!(units.wind_speed, WindSpeedUnit::Mph);
    assert_eq!(units.precipitation, PrecipitationUnit::Cm);
    assert_eq!(units.pressure, PressureUnit::InHg);
}

#[test]
fn a_pressure_is_rounded_once() {
    let unit = PressureUnit::InHg;
    assert_eq!(unit.format(milli(1013.7)), "29.93");
    assert_eq!(unit.format(milli(875.9)), "25.87");
    assert_eq!(unit.format(milli(0.0)), "0.00");
    assert_eq!(unit.format(-1_000), "-0.03");
    assert_eq!(unit.convert(milli(1013.7)), 29_935);
    assert_eq!(PressureUnit::Hpa.format(milli(1013.5)), "1014");
    assert_eq!(PressureUnit::Hpa.format(milli(1012.5)), "1012");
    assert_eq!(PressureUnit::Hpa.format(milli(1013.499)), "1013");
}

#[test]
fn shown_figures_come_from_the_exact_fraction() {
    assert_eq!(WindSpeedUnit::Mph.whole(milli(258.3)), "161");
    assert_eq!(WindSpeedUnit::Mph.convert(milli(258.3)), 160_500);
    assert_eq!(WindSpeedUnit::Ms.whole(milli(9.0)), "2");
    assert_eq!(WindSpeedUnit::Ms.whole(milli(5.4)), "2");
    assert_eq!(WindSpeedUnit::Kmh.whole(milli(15.5)), "16");
    assert_eq!(WindSpeedUnit::Knots.whole(milli(100.0)), "54");
    assert_eq!(TemperatureUnit::Fahrenheit.truncated(milli(20.5)), 68);
    assert_eq!(TemperatureUnit::Fahrenheit.truncated(2_222), 35);
    assert_eq!(TemperatureUnit::Fahrenheit.convert(2_222), 36_000);
    assert_eq!(TemperatureUnit::Fahrenheit.truncated(milli(-18.0)), 0);
    assert_eq!(TemperatureUnit::Fahrenheit.truncated(milli(-40.5)), -40);
    assert_eq!(TemperatureUnit::Fahrenheit.whole(milli(20.5)), "69");
    assert_eq!(TemperatureUnit::Celsius.whole(milli(-0.4)), "-0");
    assert_eq!(TemperatureUnit::Celsius.truncated(milli(-0.4)), 0);
    assert_eq!(PrecipitationUnit::Inch.hundredths(milli(0.5)), "0.02");
    assert_eq!(PrecipitationUnit::Inch.hundredths(milli(2.54)), "0.10");
    assert_eq!(PrecipitationUnit::Inch.hundredths(127), "0.00");
    assert_eq!(PrecipitationUnit::Inch.hundredths(128), "0.01");
    assert_eq!(PrecipitationUnit::Cm.hundredths(milli(12.0)), "1.20");
    assert_eq!(PrecipitationUnit::Cm.hundredths(50), "0.00");
    assert_eq!(PrecipitationUnit::Cm.hundredths(150), "0.02");
    let figure = TemperatureUnit::Fahrenheit.figure(milli(100.0));
    assert_eq!((figure.num, figure.den), (1_060_000, 5_000));
}
