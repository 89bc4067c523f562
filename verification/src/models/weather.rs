//! The weather at one place: now, hour by hour, and day by day.
//!
//! Every measurement is an integer in thousandths of its metric base unit
//! (degrees Celsius, km/h, mm, hPa; the UV index in thousandths of a point),
//! whatever units are shown.

use vstd::prelude::*;
use vstd::std_specs::convert::FromSpecImpl;

verus! {

/// The weather at one place: the current readings, and the forecasts in the
/// order of time, one complete record for each hour and each day.
#[derive(Debug, Clone, PartialEq, Eq)]
pub struct WeatherData {
    pub current: CurrentWeather,
    pub hourly: Vec<HourlyForecast>,
    pub daily: Vec<DailyForecast>,
}

/// The readings of the moment. Humidity and cloud cover are in percent, the
/// wind direction in degrees.
#[derive(Debug, Clone, Copy, PartialEq, Eq)]
pub struct CurrentWeather {
    pub temperature: i32,
    pub apparent_temperature: i32,
    pub humidity: i32,
    pub weather_code: i32,
    pub wind_speed: i32,
    pub wind_direction: i32,
    pub wind_gusts: i32,
    pub cloud_cover: i32,
    pub pressure: i32,
    pub precipitation: i32,
    pub uv_index: i32,
    pub is_day: bool,
}

/// One hour of the forecast. `time` is local, written `2024-01-01T00:00`.
/// The amount of precipitation is there only where the source gives it.
#[derive(Debug, Clone, PartialEq, Eq)]
pub struct HourlyForecast {
    pub time: String,
    pub temperature: i32,
    pub apparent_temperature: i32,
    pub precipitation_probability: i32,
    pub weather_code: i32,
    pub wind_speed: i32,
    pub precipitation: Option<i32>,
}

/// One day of the forecast. `date` is written `2024-01-01`.
#[derive(Debug, Clone, PartialEq, Eq)]
pub struct DailyForecast {
    pub date: String,
    pub weather_code: i32,
    pub temp_max: i32,
    pub temp_min: i32,
    pub apparent_temp_max: i32,
    pub apparent_temp_min: i32,
    pub sunrise: String,
    pub sunset: String,
    pub precipitation_sum: i32,
    pub precipitation_probability: i32,
    pub wind_speed_max: i32,
    pub uv_index_max: i32,
}

/// What the weather service answers: the current readings, and the two
/// forecasts as one column per quantity.
#[derive(Debug, Clone, PartialEq, Eq)]
pub struct OpenMeteoResponse {
    pub current: OpenMeteoCurrent,
    pub hourly: OpenMeteoHourly,
    pub daily: OpenMeteoDaily,
}

/// The current readings as the service names them. `is_day` is 1 by day.
#[derive(Debug, Clone, Copy, PartialEq, Eq)]
pub struct OpenMeteoCurrent {
    pub temperature_2m: i32,
    pub relative_humidity_2m: i32,
    pub apparent_temperature: i32,
    pub precipitation: i32,
    pub weather_code: i32,
    pub wind_speed_10m: i32,
    pub wind_direction_10m: i32,
    pub wind_gusts_10m: i32,
    pub cloud_cover: i32,
    pub pressure_msl: i32,
    pub uv_index: i32,
    pub is_day: i32,
}

/// The hourly forecast as the service gives it: one column for each quantity.
#[derive(Debug, Clone, PartialEq, Eq)]
pub struct OpenMeteoHourly {
    pub time: Vec<String>,
    pub temperature_2m: Vec<i32>,
    pub apparent_temperature: Vec<i32>,
    pub precipitation_probability: Vec<i32>,
    pub weather_code: Vec<i32>,
    pub wind_speed_10m: Vec<i32>,
}

/// The daily forecast as the service gives it: one column for each quantity.
#[derive(Debug, Clone, PartialEq, Eq)]
pub struct OpenMeteoDaily {
    pub time: Vec<String>,
    pub weather_code: Vec<i32>,
    pub temperature_2m_max: Vec<i32>,
    pub temperature_2m_min: Vec<i32>,
    pub apparent_temperature_max: Vec<i32>,
    pub apparent_temperature_min: Vec<i32>,
    pub sunrise: Vec<String>,
    pub sunset: Vec<String>,
    pub precipitation_sum: Vec<i32>,
    pub precipitation_probability_max: Vec<i32>,
    pub wind_speed_10m_max: Vec<i32>,
    pub uv_index_max: Vec<i32>,
}

/// The smaller of two lengths.
pub open spec fn shorter(a: nat, b: nat) -> nat {
    if a <= b {
        a
    } else {
        b
    }
}

fn min_len(a: usize, b: usize) -> (r: usize)
    ensures
        r == shorter(a as nat, b as nat),
{
    if a <= b {
        a
    } else {
        b
    }
}

impl OpenMeteoCurrent {
    /// The current readings as the dashboard holds them. Day is the flag 1.
    pub open spec fn reading(self) -> CurrentWeather {
        CurrentWeather {
            temperature: self.temperature_2m,
            apparent_temperature: self.apparent_temperature,
            humidity: self.relative_humidity_2m,
            weather_code: self.weather_code,
            wind_speed: self.wind_speed_10m,
            wind_direction: self.wind_direction_10m,
            wind_gusts: self.wind_gusts_10m,
            cloud_cover: self.cloud_cover,
            pressure: self.pressure_msl,
            precipitation: self.precipitation,
            uv_index: self.uv_index,
            is_day: self.is_day == 1,
        }
    }

    /// The current readings as the dashboard holds them.
    pub fn to_reading(&self) -> (r: CurrentWeather)
        ensures
            r == self.reading(),
    {
        CurrentWeather {
            temperature: self.temperature_2m,
            apparent_temperature: self.apparent_temperature,
            humidity: self.relative_humidity_2m,
            weather_code: self.weather_code,
            wind_speed: self.wind_speed_10m,
            wind_direction: self.wind_direction_10m,
            wind_gusts: self.wind_gusts_10m,
            cloud_cover: self.cloud_cover,
            pressure: self.pressure_msl,
            precipitation: self.precipitation,
            uv_index: self.uv_index,
            is_day: self.is_day == 1,
        }
    }
}

impl OpenMeteoHourly {
    /// How many hours every column has a value for.
    pub open spec fn complete_rows(&self) -> nat {
        shorter(
            shorter(
                shorter(self.time@.len(), self.temperature_2m@.len()),
                shorter(self.apparent_temperature@.len(), self.precipitation_probability@.len()),
            ),
            shorter(self.weather_code@.len(), self.wind_speed_10m@.len()),
        )
    }

    /// The hour `i`, read across the columns.
    pub open spec fn row(&self, i: int) -> HourlyForecast {
        HourlyForecast {
            time: self.time@[i],
            temperature: self.temperature_2m@[i],
            apparent_temperature: self.apparent_temperature@[i],
            precipitation_probability: self.precipitation_probability@[i],
            weather_code: self.weather_code@[i],
            wind_speed: self.wind_speed_10m@[i],
            precipitation: None,
        }
    }

    /// The hours as records, each read across the columns.
    pub open spec fn rows(&self) -> Seq<HourlyForecast> {
        Seq::new(self.complete_rows(), |i: int| self.row(i))
    }

    /// The hours as records, each read across the columns.
    pub fn to_rows(&self) -> (r: Vec<HourlyForecast>)
        ensures
            r@ == self.rows(),
    {
        let n = min_len(
            min_len(
                min_len(self.time.len(), self.temperature_2m.len()),
                min_len(self.apparent_temperature.len(), self.precipitation_probability.len()),
            ),
            min_len(self.weather_code.len(), self.wind_speed_10m.len()),
        );
        let mut r: Vec<HourlyForecast> = Vec::new();
        let mut i: usize = 0;
        while i < n
            invariant
                i <= n,
                n == self.complete_rows(),
                r@ == Seq::new(i as nat, |k: int| self.row(k)),
            decreases n - i,
        {
            r.push(
                HourlyForecast {
                    time: self.time[i].clone(),
                    temperature: self.temperature_2m[i],
                    apparent_temperature: self.apparent_temperature[i],
                    precipitation_probability: self.precipitation_probability[i],
                    weather_code: self.weather_code[i],
                    wind_speed: self.wind_speed_10m[i],
                    precipitation: None,
                },
            );
            i += 1;
        }
        r
    }
}

impl OpenMeteoDaily {
    /// How many days every column has a value for.
    pub open spec fn complete_rows(&self) -> nat {
        shorter(
            shorter(
                shorter(
                    shorter(self.time@.len(), self.weather_code@.len()),
                    shorter(self.temperature_2m_max@.len(), self.temperature_2m_min@.len()),
                ),
                shorter(
                    shorter(
                        self.apparent_temperature_max@.len(),
                        self.apparent_temperature_min@.len(),
                    ),
                    shorter(self.sunrise@.len(), self.sunset@.len()),
                ),
            ),
            shorter(
                shorter(self.precipitation_sum@.len(), self.precipitation_probability_max@.len()),
                shorter(self.wind_speed_10m_max@.len(), self.uv_index_max@.len()),
            ),
        )
    }

    /// The day `i`, read across the columns.
    pub open spec fn row(&self, i: int) -> DailyForecast {
        DailyForecast {
            date: self.time@[i],
            weather_code: self.weather_code@[i],
            temp_max: self.temperature_2m_max@[i],
            temp_min: self.temperature_2m_min@[i],
            apparent_temp_max: self.apparent_temperature_max@[i],
            apparent_temp_min: self.apparent_temperature_min@[i],
            sunrise: self.sunrise@[i],
            sunset: self.sunset@[i],
            precipitation_sum: self.precipitation_sum@[i],
            precipitation_probability: self.precipitation_probability_max@[i],
            wind_speed_max: self.wind_speed_10m_max@[i],
            uv_index_max: self.uv_index_max@[i],
        }
    }

    /// The days as records, each read across the columns.
    pub open spec fn rows(&self) -> Seq<DailyForecast> {
        Seq::new(self.complete_rows(), |i: int| self.row(i))
    }

    /// The days as records, each read across the columns.
    pub fn to_rows(&self) -> (r: Vec<DailyForecast>)
        ensures
            r@ == self.rows(),
    {
        let n = min_len(
            min_len(
                min_len(
                    min_len(self.time.len(), self.weather_code.len()),
                    min_len(self.temperature_2m_max.len(), self.temperature_2m_min.len()),
                ),
                min_len(
                    min_len(
                        self.apparent_temperature_max.len(),
                        self.apparent_temperature_min.len(),
                    ),
                    min_len(self.sunrise.len(), self.sunset.len()),
                ),
            ),
            min_len(
                min_len(self.precipitation_sum.len(), self.precipitation_probability_max.len()),
                min_len(self.wind_speed_10m_max.len(), self.uv_index_max.len()),
            ),
        );
        let mut r: Vec<DailyForecast> = Vec::new();
        let mut i: usize = 0;
        while i < n
            invariant
                i <= n,
                n == self.complete_rows(),
                r@ == Seq::new(i as nat, |k: int| self.row(k)),
            decreases n - i,
        {
            r.push(
                DailyForecast {
                    date: self.time[i].clone(),
                    weather_code: self.weather_code[i],
                    temp_max: self.temperature_2m_max[i],
                    temp_min: self.temperature_2m_min[i],
                    apparent_temp_max: self.apparent_temperature_max[i],
                    apparent_temp_min: self.apparent_temperature_min[i],
                    sunrise: self.sunrise[i].clone(),
                    sunset: self.sunset[i].clone(),
                    precipitation_sum: self.precipitation_sum[i],
                    precipitation_probability: self.precipitation_probability_max[i],
                    wind_speed_max: self.wind_speed_10m_max[i],
                    uv_index_max: self.uv_index_max[i],
                },
            );
            i += 1;
        }
        r
    }
}

impl From<OpenMeteoResponse> for WeatherData {
    /// Turns the columns of an answer into one complete record per hour and per
    /// day, in the order of the answer. Where the columns of a forecast differ in
    /// length, it has as many records as its shortest column.
    fn from(resp: OpenMeteoResponse) -> (r: WeatherData)
        ensures
            r.current == resp.current.reading(),
            r.hourly@ == resp.hourly.rows(),
            r.daily@ == resp.daily.rows(),
    {
        WeatherData {
            current: resp.current.to_reading(),
            hourly: resp.hourly.to_rows(),
            daily: resp.daily.to_rows(),
        }
    }
}

impl FromSpecImpl<OpenMeteoResponse> for WeatherData {
    /// The records are new values, so the result is stated by what it holds
    /// and not as one value.
    open spec fn obeys_from_spec() -> bool {
        false
    }

    open spec fn from_spec(resp: OpenMeteoResponse) -> WeatherData {
        arbitrary()
    }
}

} // verus!
