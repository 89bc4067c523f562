//! The data that the dashboard shows: a place, and the weather there.

pub mod location;
pub mod weather;

pub use location::Location;
pub use weather::{CurrentWeather, DailyForecast, HourlyForecast, WeatherData};
