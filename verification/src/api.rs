//! The requests to the services: where each is sent.
//!
//! Sending a request and reading its answer is the caller's part; the answers
//! are the types of `models`.

use vstd::prelude::*;
use crate::text::{digit, digit_char, magnitude, nat_digits, push_nat, push_text, abs_u64};

verus! {

/// Where places are looked up by text.
pub open spec fn geocoding_api() -> Seq<char> {
    "https://geocoding-api.open-meteo.com/v1/search"@
}

/// Where the network says where this machine is.
pub open spec fn ip_api() -> Seq<char> {
    "https://ipapi.co/json/"@
}

/// Where the weather is fetched.
pub open spec fn weather_api() -> Seq<char> {
    "https://api.open-meteo.com/v1/forecast"@
}

/// A number below a million as six digits, with leading zeros.
pub open spec fn six_digits(n: nat) -> Seq<char> {
    seq![
        digit_char(((n / 100_000) % 10) as int),
        digit_char(((n / 10_000) % 10) as int),
        digit_char(((n / 1_000) % 10) as int),
        digit_char(((n / 100) % 10) as int),
        digit_char(((n / 10) % 10) as int),
        digit_char((n % 10) as int),
    ]
}

/// A coordinate, held in millionths of a degree, in decimal degrees with six
/// decimal places.
pub open spec fn coordinate_text(micro: int) -> Seq<char> {
    let digits = nat_digits(magnitude(micro) / 1_000_000) + seq!['.'] + six_digits(
        magnitude(micro) % 1_000_000,
    );
    if micro < 0 {
        seq!['-'] + digits
    } else {
        digits
    }
}

/// The parts of a list with a comma between each two.
pub open spec fn comma_joined(parts: Seq<Seq<char>>) -> Seq<char>
    decreases parts.len(),
{
    if parts.len() == 0 {
        Seq::<char>::empty()
    } else if parts.len() == 1 {
        parts[0]
    } else {
        comma_joined(parts.drop_last()) + seq![','] + parts.last()
    }
}

/// The current readings that are asked for.
pub open spec fn current_fields() -> Seq<Seq<char>> {
    seq![
        "temperature_2m"@,
        "relative_humidity_2m"@,
        "apparent_temperature"@,
        "precipitation"@,
        "weather_code"@,
        "wind_speed_10m"@,
        "wind_direction_10m"@,
        "wind_gusts_10m"@,
        "cloud_cover"@,
        "pressure_msl"@,
        "uv_index"@,
        "is_day"@,
    ]
}

/// The hourly columns that are asked for.
pub open spec fn hourly_fields() -> Seq<Seq<char>> {
    seq![
        "temperature_2m"@,
        "apparent_temperature"@,
        "precipitation_probability"@,
        "weather_code"@,
        "wind_speed_10m"@,
    ]
}

/// The daily columns that are asked for.
pub open spec fn daily_fields() -> Seq<Seq<char>> {
    seq![
        "weather_code"@,
        "temperature_2m_max"@,
        "temperature_2m_min"@,
        "apparent_temperature_max"@,
        "apparent_temperature_min"@,
        "sunrise"@,
        "sunset"@,
        "precipitation_sum"@,
        "precipitation_probability_max"@,
        "wind_speed_10m_max"@,
        "uv_index_max"@,
    ]
}

/// The request for the weather at a place: five days, local time, and always
/// in metric units, whatever units are shown.
pub open spec fn weather_request(latitude: int, longitude: int) -> Seq<char> {
    weather_api() + "?latitude="@ + coordinate_text(latitude) + "&longitude="@ + coordinate_text(
        longitude,
    ) + "&current="@ + comma_joined(current_fields()) + "&hourly="@ + comma_joined(
        hourly_fields(),
    ) + "&daily="@ + comma_joined(daily_fields())
        + "&temperature_unit=celsius&wind_speed_unit=kmh&precipitation_unit=mm&timezone=auto&forecast_days=5"@
}

/// The request that looks `query` up: one result, in English. The text goes
/// into the request as it is.
pub open spec fn lookup_request(query: Seq<char>) -> Seq<char> {
    geocoding_api() + "?name="@ + query + "&count=1&language=en&format=json"@
}

/// Appends a coordinate in decimal degrees.
pub fn push_coordinate(s: &mut String, micro: i32)
    ensures
        final(s)@ == old(s)@ + coordinate_text(micro as int),
{
    let size = abs_u64(micro as i64);
    let whole = size / 1_000_000;
    let part = size % 1_000_000;
    if micro < 0 {
        s.push('-');
    }
    push_nat(s, whole as u128);
    s.push('.');
    s.push(digit(((part / 100_000) % 10) as u8));
    s.push(digit(((part / 10_000) % 10) as u8));
    s.push(digit(((part / 1_000) % 10) as u8));
    s.push(digit(((part / 100) % 10) as u8));
    s.push(digit(((part / 10) % 10) as u8));
    s.push(digit((part % 10) as u8));
}

/// The views of a list of texts.
pub open spec fn texts(parts: Seq<&'static str>) -> Seq<Seq<char>> {
    parts.map_values(|part: &'static str| part@)
}

/// Appends the parts with a comma between each two.
pub fn push_comma_joined(s: &mut String, parts: &Vec<&'static str>)
    ensures
        final(s)@ == old(s)@ + comma_joined(texts(parts@)),
{
    let mut i: usize = 0;
    while i < parts.len()
        invariant
            i <= parts@.len(),
            s@ == old(s)@ + comma_joined(texts(parts@).take(i as int)),
        decreases parts@.len() - i,
    {
        if i > 0 {
            s.push(',');
        }
        push_text(s, parts[i]);
        proof {
            let all = texts(parts@);
            assert(all.take(i + 1).drop_last() == all.take(i as int));
            assert(all.take(i + 1).last() == parts@[i as int]@);
        }
        i += 1;
    }
    proof {
        assert(texts(parts@).take(parts@.len() as int) == texts(parts@));
    }
}

/// The request that looks `query` up as a place.
pub fn geocoding_url(query: &str) -> (r: String)
    ensures
        r@ == lookup_request(query@),
{
    let mut r = String::from_str("https://geocoding-api.open-meteo.com/v1/search");
    push_text(&mut r, "?name=");
    push_text(&mut r, query);
    push_text(&mut r, "&count=1&language=en&format=json");
    r
}

/// The address that says where this machine is.
pub fn geolocation_url() -> (r: &'static str)
    ensures
        r@ == ip_api(),
{
    "https://ipapi.co/json/"
}

/// The request for the weather at a place given in millionths of a degree.
pub fn weather_url(latitude: i32, longitude: i32) -> (r: String)
    ensures
        r@ == weather_request(latitude as int, longitude as int),
{
    let mut current: Vec<&'static str> = Vec::new();
    current.push("temperature_2m");
    current.push("relative_humidity_2m");
    current.push("apparent_temperature");
    current.push("precipitation");
    current.push("weather_code");
    current.push("wind_speed_10m");
    current.push("wind_direction_10m");
    current.push("wind_gusts_10m");
    current.push("cloud_cover");
    current.push("pressure_msl");
    current.push("uv_index");
    current.push("is_day");
    assert(texts(current@) == current_fields());
    let mut hourly: Vec<&'static str> = Vec::new();
    hourly.push("temperature_2m");
    hourly.push("apparent_temperature");
    hourly.push("precipitation_probability");
    hourly.push("weather_code");
    hourly.push("wind_speed_10m");
    assert(texts(hourly@) == hourly_fields());
    let mut daily: Vec<&'static str> = Vec::new();
    daily.push("weather_code");
    daily.push("temperature_2m_max");
    daily.push("temperature_2m_min");
    daily.push("apparent_temperature_max");
    daily.push("apparent_temperature_min");
    daily.push("sunrise");
    daily.push("sunset");
    daily.push("precipitation_sum");
    daily.push("precipitation_probability_max");
    daily.push("wind_speed_10m_max");
    daily.push("uv_index_max");
    assert(texts(daily@) == daily_fields());

    let mut r = String::from_str("https://api.open-meteo.com/v1/forecast");
    push_text(&mut r, "?latitude=");
    push_coordinate(&mut r, latitude);
    push_text(&mut r, "&longitude=");
    push_coordinate(&mut r, longitude);
    push_text(&mut r, "&current=");
    push_comma_joined(&mut r, &current);
    push_text(&mut r, "&hourly=");
    push_comma_joined(&mut r, &hourly);
    push_text(&mut r, "&daily=");
    push_comma_joined(&mut r, &daily);
    push_text(
        &mut r,
        "&temperature_unit=celsius&wind_speed_unit=kmh&precipitation_unit=mm&timezone=auto&forecast_days=5",
    );
    r
}

} // verus!
