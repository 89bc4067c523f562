use wxman::app::{
    command_for, poll_timeout, refresh_due, App, AppState, Command, Effect, Key, LoadAction,
    LoadEvent, LocationRequest, Overlay, Scroll, SubmitEvent, UnitMenuField,
};
use wxman::config::{
    Config, LocationConfig, PrecipitationUnit, PressureUnit, TemperatureUnit, UnitsConfig,
    WindSpeedUnit,
};
use wxman::models::weather::{CurrentWeather, HourlyForecast, WeatherData};
use wxman::models::Location;
use wxman::time::{Clock, Date, HourStamp, ResolvedTime};

fn app() -> App {
    App::new(Config::default())
}

fn configured(zipcode: Option<&str>, coordinates: Option<(i32, i32)>, city: Option<&str>) -> App {
    App::new(Config {
        location: LocationConfig {
            zipcode: zipcode.map(|z| z.to_string()),
            latitude: coordinates.map(|c| c.0),
            longitude: coordinates.map(|c| c.1),
            city: city.map(|c| c.to_string()),
        },
        units: UnitsConfig::default(),
    })
}

fn new_york() -> Location {
    Location {
        latitude: 40_712_800,
        longitude: -74_006_000,
        city: "New York".to_string(),
        region: Some("New York".to_string()),
        country: "United States".to_string(),
        timezone: "America/New_York".to_string(),
    }
}

fn weather(hours: usize) -> WeatherData {
    WeatherData {
        current: CurrentWeather {
            temperature: 20_500,
            apparent_temperature: 19_000,
            humidity: 65,
            weather_code: 3,
            wind_speed: 15_000,
            wind_direction: 180,
            wind_gusts: 25_000,
            cloud_cover: 75,
            pressure: 1_013_250,
            precipitation: 500,
            uv_index: 5_000,
            is_day: true,
        },
        hourly: (0..hours)
            .map(|h| HourlyForecast {
                time: format!("2999-01-{:02}T{:02}:00", 1 + h / 24, h % 24),
                temperature: 10_000,
                apparent_temperature: 9_000,
                precipitation_probability: 0,
                weather_code: 0,
                wind_speed: 5_000,
                precipitation: None,
            })
            .collect(),
        daily: vec![],
    }
}

fn noon() -> Clock {
    Clock {
        epoch_seconds: 1_704_110_400,
        subsec_nanos: 0,
        local: HourStamp {
            date: Date { year: 2024, month: 1, day: 1, weekday: 0 },
            hour: 12,
            minute: 0,
        },
    }
}

fn buffer(app: &App) -> Option<&str> {
    match &app.overlay {
        Overlay::LocationInput { buffer, .. } => Some(buffer.as_str()),
        _ => None,
    }
}

fn error(app: &App) -> Option<&str> {
    match &app.overlay {
        Overlay::LocationInput { error, .. } => error.as_deref(),
        _ => None,
    }
}

fn is_nothing(effect: &Effect) -> bool {
    !effect.persist && !effect.reload && effect.lookup.is_none()
}

#[test]
fn a_new_dashboard_is_loading_and_shows_nothing() {
    let app = app();
    assert!(matches!(app.state, AppState::Loading));
    assert!(app.location.is_none());
    assert!(app.weather.is_none());
    assert!(app.last_updated.is_none());
    assert_eq!(app.hourly_scroll, 0);
    assert!(matches!(app.overlay, Overlay::Closed));
    assert_eq!(app.units_menu_selection, UnitMenuField::Temperature);
    assert!(!app.units_changed);
    assert!(!app.should_quit);
}

#[test]
fn the_units_menu_moves_in_a_ring() {
    let mut app = app();
    let mut down = vec![];
    for _ in 0..5 {
        app.units_menu_down();
        down.push(app.units_menu_selection);
    }
    assert_eq!(
        down,
        [
            UnitMenuField::WindSpeed,
            UnitMenuField::Precipitation,
            UnitMenuField::Pressure,
            UnitMenuField::Temperature,
            UnitMenuField::WindSpeed,
        ]
    );
    let mut up = vec![];
    for _ in 0..5 {
        app.units_menu_up();
        up.push(app.units_menu_selection);
    }
    assert_eq!(
        up,
        [
            UnitMenuField::Temperature,
            UnitMenuField::Pressure,
            UnitMenuField::Precipitation,
            UnitMenuField::WindSpeed,
            UnitMenuField::Temperature,
        ]
    );
}

#[test]
fn a_toggle_changes_only_the_unit_in_focus() {
    let mut app = app();
    app.units_menu_toggle_selected();
    assert!(app.units_changed);
    assert_eq!(app.config.units.temperature, TemperatureUnit::Celsius);
    assert_eq!(app.config.units.wind_speed, WindSpeedUnit::Mph);
    assert_eq!(app.config.units.precipitation, PrecipitationUnit::Cm);
    assert_eq!(app.config.units.pressure, PressureUnit::InHg);
    app.units_menu_toggle_selected();
    assert_eq!(app.config.units.temperature, TemperatureUnit::Fahrenheit);

    app.units_menu_down();
    let mut winds = vec![];
    for _ in 0..4 {
        app.units_menu_toggle_selected();
        winds.push(app.config.units.wind_speed);
    }
    assert_eq!(
        winds,
        [WindSpeedUnit::Kmh, WindSpeedUnit::Ms, WindSpeedUnit::Knots, WindSpeedUnit::Mph]
    );

    app.units_menu_down();
    app.units_menu_toggle_selected();
    assert_eq!(app.config.units.precipitation, PrecipitationUnit::Inch);
    app.units_menu_toggle_selected();
    assert_eq!(app.config.units.precipitation, PrecipitationUnit::Cm);

    app.units_menu_down();
    app.units_menu_toggle_selected();
    assert_eq!(app.config.units.pressure, PressureUnit::Hpa);
    app.units_menu_toggle_selected();
    assert_eq!(app.config.units.pressure, PressureUnit::InHg);
    assert_eq!(app.config.units.temperature, TemperatureUnit::Fahrenheit);
}

#[test]
fn a_toggle_leaves_the_stored_weather_alone() {
    let mut app = app();
    app.load_weather_at(LoadEvent::Fetched(new_york(), Ok(weather(3))), noon());
    let before = app.weather.as_ref().unwrap().current;
    let shown = app.config.units.temperature.convert(before.temperature);
    for _ in 0..7 {
        app.units_menu_toggle_selected();
    }
    let after = app.weather.as_ref().unwrap().current;
    assert_eq!(after.temperature, before.temperature);
    assert_eq!(after.pressure, before.pressure);
    assert_eq!(app.config.units.temperature, TemperatureUnit::Celsius);
    app.units_menu_toggle_selected();
    assert_eq!(app.config.units.temperature.convert(after.temperature), shown);
    assert_eq!(shown, 68_900);
    assert!(matches!(app.state, AppState::Ready));
}

#[test]
fn closing_the_units_menu_after_a_change_persists_and_reloads() {
    let mut app = app();
    let opened = app.toggle_units_menu();
    assert!(is_nothing(&opened));
    assert!(matches!(app.overlay, Overlay::UnitsMenu));
    app.units_menu_toggle_selected();
    let closed = app.close_units_menu();
    assert!(closed.persist && closed.reload && closed.lookup.is_none());
    assert!(matches!(app.overlay, Overlay::Closed));
    assert!(!app.units_changed);

    let again = app.close_units_menu();
    assert!(is_nothing(&again));
}

#[test]
fn closing_the_units_menu_without_a_change_asks_for_nothing() {
    let mut app = app();
    app.toggle_units_menu();
    let closed = app.close_units_menu();
    assert!(is_nothing(&closed));
    assert!(matches!(app.overlay, Overlay::Closed));
}

#[test]
fn toggling_the_units_menu_shut_persists_a_change_without_reload() {
    let mut app = app();
    app.toggle_units_menu();
    app.units_menu_toggle_selected();
    let closed = app.toggle_units_menu();
    assert!(closed.persist);
    assert!(!closed.reload);
    assert!(matches!(app.overlay, Overlay::Closed));
    assert!(app.units_changed);
}

#[test]
fn help_toggles() {
    let mut app = app();
    app.toggle_help();
    assert!(matches!(app.overlay, Overlay::Help));
    app.toggle_help();
    assert!(matches!(app.overlay, Overlay::Closed));
}

#[test]
fn scrolling_is_clamped() {
    let mut app = app();
    app.scroll_hourly(Scroll::Up, 3);
    assert_eq!(app.hourly_scroll, 0);
    app.scroll_hourly_up();
    assert_eq!(app.hourly_scroll, 0);
    let mut seen = vec![];
    for _ in 0..5 {
        app.scroll_hourly(Scroll::Down, 3);
        seen.push(app.hourly_scroll);
    }
    assert_eq!(seen, [1, 2, 3, 3, 3]);
    app.scroll_hourly(Scroll::Up, 3);
    assert_eq!(app.hourly_scroll, 2);
    app.scroll_hourly_up();
    assert_eq!(app.hourly_scroll, 1);
    app.scroll_hourly(Scroll::Down, 0);
    assert_eq!(app.hourly_scroll, 1);
}

#[test]
fn scrolling_down_follows_the_hours_ahead() {
    let mut app = app();
    app.scroll_hourly_down(12);
    assert_eq!(app.hourly_scroll, 0);

    app.load_weather_at(LoadEvent::Fetched(new_york(), Ok(weather(13))), noon());
    let mut seen = vec![];
    for _ in 0..5 {
        app.scroll_hourly_down(12);
        seen.push(app.hourly_scroll);
    }
    assert_eq!(seen, [1, 2, 3, 3, 3]);
}

#[test]
fn the_location_input_is_a_text_buffer() {
    let mut app = configured(Some("10001"), None, None);
    app.location_input_char('x');
    assert!(matches!(app.overlay, Overlay::Closed));

    app.open_location_input();
    assert_eq!(buffer(&app), Some("10001"));
    assert_eq!(error(&app), None);
    app.location_input_backspace();
    app.location_input_backspace();
    app.location_input_char('9');
    app.location_input_char('é');
    assert_eq!(buffer(&app), Some("1009é"));
    for _ in 0..7 {
        app.location_input_backspace();
    }
    assert_eq!(buffer(&app), Some(""));
    app.close_location_input();
    assert!(matches!(app.overlay, Overlay::Closed));

    app.open_location_input();
    assert_eq!(buffer(&app), Some("10001"));
}

#[test]
fn the_location_input_opens_empty_without_a_configured_text() {
    let mut app = app();
    app.open_location_input();
    assert_eq!(buffer(&app), Some(""));
}

#[test]
fn closing_the_location_input_leaves_other_overlays() {
    let mut app = app();
    app.toggle_help();
    app.close_location_input();
    assert!(matches!(app.overlay, Overlay::Help));
}

#[test]
fn submitting_empty_text_clears_the_location_and_reloads() {
    let mut app = configured(Some("10001"), Some((40_000_000, -74_000_000)), Some("New York"));
    app.open_location_input();
    for _ in 0..5 {
        app.location_input_backspace();
    }
    app.location_input_char(' ');
    let effect = app.submit_location(SubmitEvent::Entered);
    assert!(effect.reload);
    assert!(effect.persist);
    assert!(effect.lookup.is_none());
    assert!(app.config.location.zipcode.is_none());
    assert!(app.config.location.latitude.is_none());
    assert!(app.config.location.longitude.is_none());
    assert!(app.config.location.city.is_none());
    assert!(matches!(app.overlay, Overlay::Closed));
    assert!(matches!(app.get_location(), LocationRequest::Network));
}

#[test]
fn submitting_a_text_asks_for_its_lookup() {
    let mut app = app();
    app.open_location_input();
    for c in "  Paris ".chars() {
        app.location_input_char(c);
    }
    let effect = app.submit_location(SubmitEvent::Entered);
    assert_eq!(effect.lookup.as_deref(), Some("Paris"));
    assert!(!effect.reload);
    assert!(!effect.persist);
    assert_eq!(buffer(&app), Some("  Paris "));
    assert!(app.config.location.zipcode.is_none());
}

#[test]
fn a_place_that_was_found_becomes_the_configured_location() {
    let mut app = app();
    app.open_location_input();
    for c in " 10001".chars() {
        app.location_input_char(c);
    }
    app.submit_location(SubmitEvent::Entered);
    let effect = app.submit_location(SubmitEvent::Resolved(Ok(new_york())));
    assert!(effect.reload && effect.persist && effect.lookup.is_none());
    assert_eq!(app.config.location.zipcode.as_deref(), Some("10001"));
    assert_eq!(app.config.location.latitude, Some(40_712_800));
    assert_eq!(app.config.location.longitude, Some(-74_006_000));
    assert_eq!(app.config.location.city.as_deref(), Some("New York"));
    assert!(matches!(app.overlay, Overlay::Closed));
}

#[test]
fn a_lookup_that_failed_keeps_the_input_open_with_its_message() {
    let mut app = configured(Some("10001"), None, None);
    app.open_location_input();
    app.location_input_char('x');
    app.submit_location(SubmitEvent::Entered);
    let effect = app.submit_location(SubmitEvent::Resolved(Err(
        "No location found for zipcode: 10001x".to_string(),
    )));
    assert!(!effect.reload);
    assert!(is_nothing(&effect));
    assert_eq!(buffer(&app), Some("10001x"));
    assert_eq!(error(&app), Some("Not found: No location found for zipcode: 10001x"));
    assert!(!error(&app).unwrap().is_empty());
    assert_eq!(app.config.location.zipcode.as_deref(), Some("10001"));
    assert!(matches!(app.state, AppState::Loading));

    app.location_input_backspace();
    assert_eq!(error(&app), None);
}

#[test]
fn submitting_without_the_input_open_does_nothing() {
    let mut app = configured(Some("10001"), None, None);
    let effect = app.submit_location(SubmitEvent::Entered);
    assert!(is_nothing(&effect));
    let effect = app.submit_location(SubmitEvent::Resolved(Ok(new_york())));
    assert!(is_nothing(&effect));
    assert_eq!(app.config.location.zipcode.as_deref(), Some("10001"));
    assert!(app.config.location.latitude.is_none());
}

#[test]
fn a_configured_text_wins_over_coordinates() {
    let app = configured(Some("10001"), Some((40_000_000, -74_000_000)), Some("Somewhere"));
    match app.get_location() {
        LocationRequest::Lookup(text) => assert_eq!(text, "10001"),
        other => panic!("{other:?}"),
    }
}

#[test]
fn configured_coordinates_make_a_location_of_their_own() {
    let app = configured(None, Some((40_000_000, -74_000_000)), Some("Home"));
    match app.get_location() {
        LocationRequest::Fixed(place) => {
            assert_eq!(place.latitude, 40_000_000);
            assert_eq!(place.longitude, -74_000_000);
            assert_eq!(place.city, "Home");
            assert_eq!(place.region, None);
            assert_eq!(place.country, "");
            assert_eq!(place.timezone, "auto");
        }
        other => panic!("{other:?}"),
    }
    let unnamed = configured(None, Some((1, 2)), None);
    match unnamed.get_location() {
        LocationRequest::Fixed(place) => assert_eq!(place.city, "Unknown"),
        other => panic!("{other:?}"),
    }
}

#[test]
fn half_a_pair_of_coordinates_falls_back_to_the_network() {
    let mut app = configured(None, Some((1, 2)), Some("Home"));
    app.config.location.longitude = None;
    assert!(matches!(app.get_location(), LocationRequest::Network));
    assert!(matches!(self::app().get_location(), LocationRequest::Network));
}

#[test]
fn a_load_runs_from_the_place_to_the_weather() {
    let mut app = configured(Some("10001"), Some((1, 2)), None);
    app.set_error("old".to_string());
    app.hourly_scroll = 4;
    match app.load_weather(LoadEvent::Begin) {
        LoadAction::Lookup(text) => assert_eq!(text, "10001"),
        other => panic!("{other:?}"),
    }
    assert!(matches!(app.state, AppState::Loading));
    match app.load_weather(LoadEvent::Located(Ok(new_york()))) {
        LoadAction::Fetch(place) => assert_eq!(place.city, "New York"),
        other => panic!("{other:?}"),
    }
    assert!(matches!(app.state, AppState::Loading));
    assert!(app.location.is_none());
    let done = app.load_weather_at(LoadEvent::Fetched(new_york(), Ok(weather(2))), noon());
    assert!(matches!(done, LoadAction::Done));
    assert!(matches!(app.state, AppState::Ready));
    assert_eq!(app.location.as_ref().unwrap().city, "New York");
    assert_eq!(app.weather.as_ref().unwrap().hourly.len(), 2);
    assert_eq!(app.last_updated, Some(noon()));
    assert_eq!(app.hourly_scroll, 0);
}

#[test]
fn a_load_begins_by_how_the_place_is_configured() {
    let mut fixed = configured(None, Some((40_000_000, -74_000_000)), Some("Home"));
    match fixed.load_weather(LoadEvent::Begin) {
        LoadAction::Fetch(place) => {
            assert_eq!(place.city, "Home");
            assert_eq!(place.latitude, 40_000_000);
        }
        other => panic!("{other:?}"),
    }
    let mut bare = app();
    assert!(matches!(bare.load_weather(LoadEvent::Begin), LoadAction::Geolocate));
}

#[test]
fn a_finished_load_is_stamped_by_the_clock() {
    let mut app = app();
    app.load_weather(LoadEvent::Fetched(new_york(), Ok(weather(1))));
    let at = app.last_updated.unwrap();
    assert!(at.epoch_seconds > 1_700_000_000);
    assert!(at.local.hour < 24 && at.local.minute < 60);
}

#[test]
fn a_failed_load_keeps_what_was_loaded() {
    let mut app = app();
    app.load_weather_at(LoadEvent::Fetched(new_york(), Ok(weather(5))), noon());
    app.hourly_scroll = 2;

    app.load_weather(LoadEvent::Begin);
    let done = app.load_weather(LoadEvent::Located(Err("no network".to_string())));
    assert!(matches!(done, LoadAction::Done));
    assert!(matches!(&app.state, AppState::Error(message) if message == "no network"));
    assert_eq!(app.location.as_ref().unwrap().city, "New York");
    assert_eq!(app.weather.as_ref().unwrap().hourly.len(), 5);
    assert_eq!(app.last_updated, Some(noon()));
    assert_eq!(app.hourly_scroll, 2);

    app.load_weather(LoadEvent::Begin);
    assert!(matches!(app.state, AppState::Loading));
    let mut elsewhere = new_york();
    elsewhere.city = "Elsewhere".to_string();
    let done = app.load_weather(LoadEvent::Fetched(elsewhere, Err("timeout".to_string())));
    assert!(matches!(done, LoadAction::Done));
    assert!(matches!(&app.state, AppState::Error(message) if message == "timeout"));
    assert_eq!(app.location.as_ref().unwrap().city, "New York");
    assert_eq!(app.weather.as_ref().unwrap().hourly.len(), 5);
}

#[test]
fn set_error_shows_the_message() {
    let mut app = app();
    app.set_error("boom".to_string());
    assert!(matches!(&app.state, AppState::Error(message) if message == "boom"));
}

#[test]
fn keys_are_bound_by_the_open_overlay() {
    let closed = Overlay::Closed;
    assert_eq!(command_for(&closed, Key::Char('q')), Command::Quit);
    assert_eq!(command_for(&closed, Key::Esc), Command::Quit);
    assert_eq!(command_for(&closed, Key::Char('r')), Command::Refresh);
    assert_eq!(command_for(&closed, Key::Char('u')), Command::ToggleUnitsMenu);
    assert_eq!(command_for(&closed, Key::Char('l')), Command::OpenLocationInput);
    assert_eq!(command_for(&closed, Key::Up), Command::ScrollUp);
    assert_eq!(command_for(&closed, Key::Char('k')), Command::ScrollUp);
    assert_eq!(command_for(&closed, Key::Down), Command::ScrollDown);
    assert_eq!(command_for(&closed, Key::Char('j')), Command::ScrollDown);
    assert_eq!(command_for(&closed, Key::Char('?')), Command::ToggleHelp);
    assert_eq!(command_for(&closed, Key::Enter), Command::Nothing);
    assert_eq!(command_for(&closed, Key::Char('x')), Command::Nothing);

    for key in [Key::Char('q'), Key::Esc, Key::Enter, Key::Other, Key::Char('?')] {
        assert_eq!(command_for(&Overlay::Help, key), Command::CloseHelp);
    }

    let menu = Overlay::UnitsMenu;
    for key in [Key::Esc, Key::Char('u'), Key::Char('q')] {
        assert_eq!(command_for(&menu, key), Command::CloseUnitsMenu);
    }
    for key in [Key::Up, Key::Char('k')] {
        assert_eq!(command_for(&menu, key), Command::UnitsMenuUp);
    }
    for key in [Key::Down, Key::Char('j')] {
        assert_eq!(command_for(&menu, key), Command::UnitsMenuDown);
    }
    for key in [Key::Enter, Key::Char(' '), Key::Left, Key::Right] {
        assert_eq!(command_for(&menu, key), Command::UnitsMenuToggle);
    }
    assert_eq!(command_for(&menu, Key::Char('r')), Command::Nothing);
    assert_eq!(command_for(&menu, Key::Backspace), Command::Nothing);

    let input = Overlay::LocationInput { buffer: String::new(), error: None };
    assert_eq!(command_for(&input, Key::Esc), Command::CloseLocationInput);
    assert_eq!(command_for(&input, Key::Enter), Command::SubmitLocation);
    assert_eq!(command_for(&input, Key::Backspace), Command::Backspace);
    assert_eq!(command_for(&input, Key::Char('q')), Command::Type('q'));
    assert_eq!(command_for(&input, Key::Up), Command::Nothing);
}

#[test]
fn any_key_closes_the_help_and_does_nothing_else() {
    let mut app = app();
    app.handle_key(Key::Char('?'), 12);
    assert!(matches!(app.overlay, Overlay::Help));
    let effect = app.handle_key(Key::Char('q'), 12);
    assert!(is_nothing(&effect));
    assert!(matches!(app.overlay, Overlay::Closed));
    assert!(!app.should_quit);
    app.handle_key(Key::Char('q'), 12);
    assert!(app.should_quit);
}

#[test]
fn keys_drive_the_units_menu() {
    let mut app = app();
    assert!(is_nothing(&app.handle_key(Key::Char('u'), 12)));
    app.handle_key(Key::Down, 12);
    app.handle_key(Key::Char(' '), 12);
    assert_eq!(app.config.units.wind_speed, WindSpeedUnit::Kmh);
    app.handle_key(Key::Char('k'), 12);
    app.handle_key(Key::Enter, 12);
    assert_eq!(app.config.units.temperature, TemperatureUnit::Celsius);
    let effect = app.handle_key(Key::Esc, 12);
    assert!(effect.persist && effect.reload);
    assert!(matches!(app.overlay, Overlay::Closed));
    assert!(!app.should_quit);
}

#[test]
fn keys_drive_the_location_input() {
    let mut app = app();
    app.handle_key(Key::Char('l'), 12);
    for c in "qru?".chars() {
        assert!(is_nothing(&app.handle_key(Key::Char(c), 12)));
    }
    app.handle_key(Key::Backspace, 12);
    assert_eq!(buffer(&app), Some("qru"));
    let effect = app.handle_key(Key::Enter, 12);
    assert_eq!(effect.lookup.as_deref(), Some("qru"));
    app.handle_key(Key::Esc, 12);
    assert!(matches!(app.overlay, Overlay::Closed));
    assert!(!app.should_quit);
}

#[test]
fn refresh_asks_for_a_reload() {
    let mut app = app();
    let effect = app.handle_key(Key::Char('r'), 12);
    assert!(effect.reload && !effect.persist && effect.lookup.is_none());
    assert!(is_nothing(&app.handle_key(Key::Other, 12)));
    assert!(is_nothing(&app.execute(Command::Nothing, 12)));
}

#[test]
fn timers() {
    assert_eq!(poll_timeout(0), 250);
    assert_eq!(poll_timeout(100), 150);
    assert_eq!(poll_timeout(250), 0);
    assert_eq!(poll_timeout(10_000), 0);
    assert!(!refresh_due(0));
    assert!(!refresh_due(899));
    assert!(refresh_due(900));
    assert!(refresh_due(5_000));
}

fn resolved(hours: usize) -> Vec<ResolvedTime> {
    (0..hours)
        .map(|h| ResolvedTime {
            stamp: Some(HourStamp {
                date: Date { year: 2024, month: 1, day: 1, weekday: 0 },
                hour: 12 + h as u32 % 12,
                minute: 0,
            }),
            epoch_seconds: Some(noon().epoch_seconds + 3600 * h as i64),
        })
        .collect()
}

#[test]
fn scrolling_down_is_bounded_by_the_window() {
    let mut app = app();
    app.load_weather_at(LoadEvent::Fetched(new_york(), Ok(weather(10))), noon());
    let times = resolved(10);
    let mut seen = vec![];
    for _ in 0..6 {
        app.scroll_hourly_down_at(&times, &noon(), 8);
        seen.push(app.hourly_scroll);
    }
    assert_eq!(seen, [1, 2, 3, 4, 4, 4]);

    app.hourly_scroll = 0;
    app.scroll_hourly_down_at(&times, &noon(), 12);
    assert_eq!(app.hourly_scroll, 0);
    for _ in 0..12 {
        app.scroll_hourly_down_at(&times, &noon(), 2);
    }
    assert_eq!(app.hourly_scroll, 10);

    app.hourly_scroll = 0;
    let mut later = noon();
    later.epoch_seconds += 6 * 3600;
    for _ in 0..9 {
        app.scroll_hourly_down_at(&times, &later, 4);
    }
    assert_eq!(app.hourly_scroll, 3);
}

#[test]
fn scrolling_down_without_a_forecast_stays() {
    let mut app = app();
    app.scroll_hourly_down_at(&resolved(10), &noon(), 4);
    assert_eq!(app.hourly_scroll, 0);
    app.scroll_hourly_down(4);
    assert_eq!(app.hourly_scroll, 0);
}

#[test]
fn scrolling_down_by_the_clock_uses_the_window_given() {
    let mut app = app();
    app.load_weather_at(LoadEvent::Fetched(new_york(), Ok(weather(13))), noon());
    let mut seen = vec![];
    for _ in 0..5 {
        app.handle_key(Key::Down, 13);
        seen.push(app.hourly_scroll);
    }
    assert_eq!(seen, [1, 2, 2, 2, 2]);
    app.scroll_hourly_down(5);
    assert_eq!(app.hourly_scroll, 3);
    for _ in 0..20 {
        app.execute(Command::ScrollDown, 5);
    }
    assert_eq!(app.hourly_scroll, 10);
}

#[test]
fn the_decision_on_a_submit_is_by_the_trimmed_text() {
    let mut app = configured(Some("10001"), Some((1, 2)), Some("Old"));
    app.open_location_input();
    let effect = app.submit_query(String::new(), SubmitEvent::Entered);
    assert!(effect.persist && effect.reload && effect.lookup.is_none());
    assert!(app.config.location.zipcode.is_none());
    assert!(app.config.location.latitude.is_none());
    assert!(matches!(app.overlay, Overlay::Closed));

    app.open_location_input();
    app.location_input_char('x');
    let effect = app.submit_query("Paris".to_string(), SubmitEvent::Entered);
    assert_eq!(effect.lookup.as_deref(), Some("Paris"));
    assert!(!effect.persist && !effect.reload);
    assert_eq!(buffer(&app), Some("x"));

    let effect = app.submit_query(" ".to_string(), SubmitEvent::Entered);
    assert_eq!(effect.lookup.as_deref(), Some(" "));

    let effect = app.submit_query(
        "Paris".to_string(),
        SubmitEvent::Resolved(Err("nothing there".to_string())),
    );
    assert!(is_nothing(&effect));
    assert_eq!(buffer(&app), Some("x"));
    assert_eq!(error(&app), Some("Not found: nothing there"));

    let effect = app.submit_query("Paris".to_string(), SubmitEvent::Resolved(Ok(new_york())));
    assert!(effect.persist && effect.reload && effect.lookup.is_none());
    assert_eq!(app.config.location.zipcode.as_deref(), Some("Paris"));
    assert_eq!(app.config.location.city.as_deref(), Some("New York"));
    assert!(matches!(app.overlay, Overlay::Closed));

    let effect = app.submit_query("Rome".to_string(), SubmitEvent::Entered);
    assert!(is_nothing(&effect));
    assert_eq!(app.config.location.zipcode.as_deref(), Some("Paris"));
}

#[test]
fn white_space_of_every_kind_is_trimmed() {
    let mut app = app();
    app.open_location_input();
    for c in "\t \u{a0}Oslo\n ".chars() {
        app.location_input_char(c);
    }
    let effect = app.submit_location(SubmitEvent::Entered);
    assert_eq!(effect.lookup.as_deref(), Some("Oslo"));
    let mut blank = self::app();
    blank.open_location_input();
    let effect = blank.submit_location(SubmitEvent::Entered);
    assert!(effect.reload && effect.persist);
    assert!(matches!(blank.overlay, Overlay::Closed));
}
