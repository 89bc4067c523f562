//! The state of the dashboard, and the commands that change it.
//!
//! A command never waits and never touches the disk or the network: where one
//! of them is called for, the command says so in what it returns, and the
//! caller reports back with the outcome.

use vstd::prelude::*;
use crate::config::{
    Config, LocationConfig, PrecipitationUnit, PressureUnit, TemperatureUnit, UnitsConfig,
    WindSpeedUnit,
};
use crate::models::{Location, WeatherData};
use crate::text::trimmed;
use crate::time::{now, Clock};
use crate::time::ResolvedTime;
use crate::ui::hourly::{max_hourly_scroll_at, max_scroll, resolve_times, resolves, upcoming};

verus! {

/// Whether there is weather to show.
#[derive(Debug, Clone, PartialEq, Eq)]
pub enum AppState {
    Loading,
    Ready,
    /// The last load failed, with this message.
    Error(String),
}

/// The rows of the units menu.
#[derive(Debug, Clone, Copy, PartialEq, Eq)]
pub enum UnitMenuField {
    Temperature,
    WindSpeed,
    Precipitation,
    Pressure,
}

impl UnitMenuField {
    /// The row below, the first below the last.
    pub open spec fn below(self) -> UnitMenuField {
        match self {
            UnitMenuField::Temperature => UnitMenuField::WindSpeed,
            UnitMenuField::WindSpeed => UnitMenuField::Precipitation,
            UnitMenuField::Precipitation => UnitMenuField::Pressure,
            UnitMenuField::Pressure => UnitMenuField::Temperature,
        }
    }

    /// The row above, the last above the first.
    pub open spec fn above(self) -> UnitMenuField {
        match self {
            UnitMenuField::Temperature => UnitMenuField::Pressure,
            UnitMenuField::WindSpeed => UnitMenuField::Temperature,
            UnitMenuField::Precipitation => UnitMenuField::WindSpeed,
            UnitMenuField::Pressure => UnitMenuField::Precipitation,
        }
    }
}

impl TemperatureUnit {
    /// The unit that a toggle changes this one to.
    pub open spec fn following(self) -> TemperatureUnit {
        match self {
            TemperatureUnit::Fahrenheit => TemperatureUnit::Celsius,
            TemperatureUnit::Celsius => TemperatureUnit::Fahrenheit,
        }
    }

    /// This unit after one toggle.
    pub fn next(self) -> (r: TemperatureUnit)
        ensures
            r == self.following(),
    {
        match self {
            TemperatureUnit::Fahrenheit => TemperatureUnit::Celsius,
            TemperatureUnit::Celsius => TemperatureUnit::Fahrenheit,
        }
    }
}

impl WindSpeedUnit {
    /// The unit that a toggle changes this one to.
    pub open spec fn following(self) -> WindSpeedUnit {
        match self {
            WindSpeedUnit::Mph => WindSpeedUnit::Kmh,
            WindSpeedUnit::Kmh => WindSpeedUnit::Ms,
            WindSpeedUnit::Ms => WindSpeedUnit::Knots,
            WindSpeedUnit::Knots => WindSpeedUnit::Mph,
        }
    }

    /// This unit after one toggle.
    pub fn next(self) -> (r: WindSpeedUnit)
        ensures
            r == self.following(),
    {
        match self {
            WindSpeedUnit::Mph => WindSpeedUnit::Kmh,
            WindSpeedUnit::Kmh => WindSpeedUnit::Ms,
            WindSpeedUnit::Ms => WindSpeedUnit::Knots,
            WindSpeedUnit::Knots => WindSpeedUnit::Mph,
        }
    }
}

impl PrecipitationUnit {
    /// The unit that a toggle changes this one to.
    pub open spec fn following(self) -> PrecipitationUnit {
        match self {
            PrecipitationUnit::Inch => PrecipitationUnit::Cm,
            PrecipitationUnit::Cm => PrecipitationUnit::Inch,
        }
    }

    /// This unit after one toggle.
    pub fn next(self) -> (r: PrecipitationUnit)
        ensures
            r == self.following(),
    {
        match self {
            PrecipitationUnit::Inch => PrecipitationUnit::Cm,
            PrecipitationUnit::Cm => PrecipitationUnit::Inch,
        }
    }
}

impl PressureUnit {
    /// The unit that a toggle changes this one to.
    pub open spec fn following(self) -> PressureUnit {
        match self {
            PressureUnit::Hpa => PressureUnit::InHg,
            PressureUnit::InHg => PressureUnit::Hpa,
        }
    }

    /// This unit after one toggle.
    pub fn next(self) -> (r: PressureUnit)
        ensures
            r == self.following(),
    {
        match self {
            PressureUnit::Hpa => PressureUnit::InHg,
            PressureUnit::InHg => PressureUnit::Hpa,
        }
    }
}

impl UnitsConfig {
    /// The units after a toggle of the unit on the row `field`: that unit
    /// changed to the one following it, every other as it was.
    pub open spec fn toggled(self, field: UnitMenuField) -> UnitsConfig {
        match field {
            UnitMenuField::Temperature => UnitsConfig {
                temperature: self.temperature.following(),
                ..self
            },
            UnitMenuField::WindSpeed => UnitsConfig {
                wind_speed: self.wind_speed.following(),
                ..self
            },
            UnitMenuField::Precipitation => UnitsConfig {
                precipitation: self.precipitation.following(),
                ..self
            },
            UnitMenuField::Pressure => UnitsConfig { pressure: self.pressure.following(), ..self },
        }
    }
}

/// The layer over the dashboard that takes the keys. There is one at most.
#[derive(Debug, Clone, PartialEq, Eq)]
pub enum Overlay {
    Closed,
    Help,
    UnitsMenu,
    /// The place being typed, and the message of a lookup that failed.
    LocationInput { buffer: String, error: Option<String> },
}

/// What an overlay holds: the characters of its texts.
pub enum OverlayView {
    Closed,
    Help,
    UnitsMenu,
    LocationInput { buffer: Seq<char>, error: Option<Seq<char>> },
}

impl View for Overlay {
    type V = OverlayView;

    open spec fn view(&self) -> OverlayView {
        match self {
            Overlay::Closed => OverlayView::Closed,
            Overlay::Help => OverlayView::Help,
            Overlay::UnitsMenu => OverlayView::UnitsMenu,
            Overlay::LocationInput { buffer, error } => OverlayView::LocationInput {
                buffer: buffer@,
                error: match error {
                    Some(message) => Some(message@),
                    None => None,
                },
            },
        }
    }
}

/// What the caller is to do after a command.
#[derive(Debug, Clone, PartialEq, Eq)]
pub struct Effect {
    /// Write the configuration to disk. A failure to do so changes nothing.
    pub persist: bool,
    /// Load the weather anew, before the next key is handled.
    pub reload: bool,
    /// Look this text up as a place, and report what was found.
    pub lookup: Option<String>,
}

impl Effect {
    /// Nothing is asked for.
    pub open spec fn nothing(&self) -> bool {
        !self.persist && !self.reload && self.lookup is None
    }

    /// Nothing to do.
    pub fn none() -> (r: Effect)
        ensures
            r.nothing(),
    {
        Effect { persist: false, reload: false, lookup: None }
    }
}

/// The dashboard: the configuration, what was loaded, and what the user has
/// open and scrolled to.
pub struct App {
    pub config: Config,
    pub state: AppState,
    pub location: Option<Location>,
    pub weather: Option<WeatherData>,
    pub last_updated: Option<Clock>,
    pub hourly_scroll: usize,
    pub overlay: Overlay,
    /// The row that the units menu has in focus; it stays when the menu closes.
    pub units_menu_selection: UnitMenuField,
    /// Whether a unit was changed and the configuration not yet written.
    pub units_changed: bool,
    pub should_quit: bool,
}

impl App {
    /// The time of the last load, where there is one, is a time of the calendar.
    pub open spec fn well_formed(self) -> bool {
        self.last_updated matches Some(at) ==> at.well_formed()
    }

    /// Whether the weather, the place and the time of their loading are those of `other`.
    pub open spec fn same_data(self, other: App) -> bool {
        &&& self.state == other.state
        &&& self.location == other.location
        &&& self.weather == other.weather
        &&& self.last_updated == other.last_updated
    }

    /// Whether nothing but the overlay differs from `other`.
    pub open spec fn same_but_overlay(self, other: App) -> bool {
        &&& self.same_data(other)
        &&& self.config == other.config
        &&& self.hourly_scroll == other.hourly_scroll
        &&& self.units_menu_selection == other.units_menu_selection
        &&& self.units_changed == other.units_changed
        &&& self.should_quit == other.should_quit
    }

    /// Whether nothing but the units menu's focus and pending change differs from `other`.
    pub open spec fn same_but_menu(self, other: App) -> bool {
        &&& self.same_data(other)
        &&& self.config == other.config
        &&& self.hourly_scroll == other.hourly_scroll
        &&& self.overlay == other.overlay
        &&& self.should_quit == other.should_quit
    }

    /// The help opened, or closed where it was open.
    pub open spec fn help_toggled(pre: App, post: App) -> bool {
        &&& post.same_but_overlay(pre)
        &&& post.overlay@ == (if pre.overlay is Help {
            OverlayView::Closed
        } else {
            OverlayView::Help
        })
    }

    /// The units menu opened, or closed where it was open; closing asks for
    /// the configuration to be written if a unit was changed.
    pub open spec fn units_menu_toggled(pre: App, post: App, effect: Effect) -> bool {
        &&& post.same_but_overlay(pre)
        &&& post.overlay@ == (if pre.overlay is UnitsMenu {
            OverlayView::Closed
        } else {
            OverlayView::UnitsMenu
        })
        &&& effect.persist == (pre.overlay is UnitsMenu && pre.units_changed)
        &&& !effect.reload
        &&& effect.lookup is None
    }

    /// The focus of the units menu moved to `field`.
    pub open spec fn focus_moved(pre: App, post: App, field: UnitMenuField) -> bool {
        &&& post.same_but_menu(pre)
        &&& post.units_changed == pre.units_changed
        &&& post.units_menu_selection == field
    }

    /// The unit on the focused row changed to the one following it, and the
    /// change is noted as not yet written. What was loaded is as it was: a
    /// unit is a way of showing it.
    pub open spec fn unit_toggled(pre: App, post: App) -> bool {
        &&& post.same_data(pre)
        &&& post.config.units == pre.config.units.toggled(pre.units_menu_selection)
        &&& post.config.location == pre.config.location
        &&& post.units_changed
        &&& post.units_menu_selection == pre.units_menu_selection
        &&& post.hourly_scroll == pre.hourly_scroll
        &&& post.overlay == pre.overlay
        &&& post.should_quit == pre.should_quit
    }

    /// The units menu closed where it was open. If a unit was changed since
    /// the configuration was last written, that is asked for, and a reload.
    pub open spec fn units_menu_closed(pre: App, post: App, effect: Effect) -> bool {
        &&& post.same_data(pre)
        &&& post.config == pre.config
        &&& post.hourly_scroll == pre.hourly_scroll
        &&& post.should_quit == pre.should_quit
        &&& post.units_menu_selection == pre.units_menu_selection
        &&& if pre.overlay is UnitsMenu {
            post.overlay is Closed && !post.units_changed
        } else {
            post.overlay == pre.overlay && post.units_changed == pre.units_changed
        }
        &&& effect.persist == (pre.overlay is UnitsMenu && pre.units_changed)
        &&& effect.reload == effect.persist
        &&& effect.lookup is None
    }

    /// Whether nothing but the scroll offset differs from `other`.
    pub open spec fn same_but_scroll(self, other: App) -> bool {
        &&& self.same_data(other)
        &&& self.config == other.config
        &&& self.overlay == other.overlay
        &&& self.units_menu_selection == other.units_menu_selection
        &&& self.units_changed == other.units_changed
        &&& self.should_quit == other.should_quit
    }

    /// The hourly list scrolled one step, as far as `max_scroll` allows.
    pub open spec fn scrolled(pre: App, post: App, step: Scroll, max_scroll: nat) -> bool {
        &&& post.same_but_scroll(pre)
        &&& post.hourly_scroll == scroll_target(pre.hourly_scroll as nat, step, max_scroll)
    }

    /// The largest scroll offset at `now`, in a window of `window_height`
    /// rows with its two rows of titles: as many of the listed hours as do
    /// not fit, and none without a forecast.
    pub open spec fn scroll_bound(
        self,
        resolved: Seq<ResolvedTime>,
        now: Clock,
        window_height: nat,
    ) -> nat {
        match self.weather {
            Some(_) => max_scroll(upcoming(resolved, now).len(), window_height),
            None => 0,
        }
    }

    /// The hourly list scrolled one step down in a window of `window_height`
    /// rows, as far as the largest offset allows that the list has at some
    /// reading of the clock, with the times of the forecast resolved in some
    /// time zone. Without a forecast nothing changed.
    pub open spec fn scrolled_down(pre: App, post: App, window_height: nat) -> bool {
        match pre.weather {
            Some(weather) => exists|resolved: Seq<ResolvedTime>, now: Clock|
                resolves(resolved, weather.hourly@) && now.well_formed() && App::scrolled(
                    pre,
                    post,
                    Scroll::Down,
                    max_scroll((#[trigger] upcoming(resolved, now)).len(), window_height),
                ),
            None => post == pre,
        }
    }

    /// The location input opened on the configured text.
    pub open spec fn location_input_opened(pre: App, post: App) -> bool {
        &&& post.same_but_overlay(pre)
        &&& post.overlay@ == (OverlayView::LocationInput {
            buffer: match pre.config.location.zipcode {
                Some(text) => text@,
                None => Seq::<char>::empty(),
            },
            error: None,
        })
    }

    /// The location input closed where it was open.
    pub open spec fn location_input_closed(pre: App, post: App) -> bool {
        &&& post.same_but_overlay(pre)
        &&& post.overlay@ == (if pre.overlay is LocationInput {
            OverlayView::Closed
        } else {
            pre.overlay@
        })
    }

    /// The text of the location input changed to what `edit` makes of it, and
    /// the message of an earlier lookup is gone. Without the input open,
    /// nothing changed.
    pub open spec fn location_input_edited(
        pre: App,
        post: App,
        edit: spec_fn(Seq<char>) -> Seq<char>,
    ) -> bool {
        &&& post.same_but_overlay(pre)
        &&& post.overlay@ == (match pre.overlay@ {
            OverlayView::LocationInput { buffer, error } => OverlayView::LocationInput {
                buffer: edit(buffer),
                error: None,
            },
            other => other,
        })
    }

    /// The dashboard at startup: loading, nothing to show, no overlay.
    pub fn new(config: Config) -> (r: App)
        ensures
            r.config == config,
            r.state is Loading,
            r.location is None,
            r.weather is None,
            r.last_updated is None,
            r.hourly_scroll == 0,
            r.overlay is Closed,
            r.units_menu_selection == UnitMenuField::Temperature,
            !r.units_changed,
            !r.should_quit,
            r.well_formed(),
    {
        App {
            config,
            state: AppState::Loading,
            location: None,
            weather: None,
            last_updated: None,
            hourly_scroll: 0,
            overlay: Overlay::Closed,
            units_menu_selection: UnitMenuField::Temperature,
            units_changed: false,
            should_quit: false,
        }
    }

    /// Shows `message` in place of the weather. What was loaded stays.
    pub fn set_error(&mut self, message: String)
        ensures
            final(self).state == AppState::Error(message),
            final(self).location == old(self).location,
            final(self).weather == old(self).weather,
            final(self).last_updated == old(self).last_updated,
            final(self).config == old(self).config,
            final(self).hourly_scroll == old(self).hourly_scroll,
            final(self).overlay == old(self).overlay,
            final(self).units_menu_selection == old(self).units_menu_selection,
            final(self).units_changed == old(self).units_changed,
            final(self).should_quit == old(self).should_quit,
    {
        self.state = AppState::Error(message);
    }

    /// Opens the help, or closes it where it is open.
    pub fn toggle_help(&mut self)
        ensures
            App::help_toggled(*old(self), *final(self)),
    {
        self.overlay = match self.overlay {
            Overlay::Help => Overlay::Closed,
            _ => Overlay::Help,
        };
    }

    /// Opens the units menu, or closes it where it is open.
    pub fn toggle_units_menu(&mut self) -> (effect: Effect)
        ensures
            App::units_menu_toggled(*old(self), *final(self), effect),
    {
        match self.overlay {
            Overlay::UnitsMenu => {
                self.overlay = Overlay::Closed;
                Effect { persist: self.units_changed, reload: false, lookup: None }
            },
            _ => {
                self.overlay = Overlay::UnitsMenu;
                Effect::none()
            },
        }
    }

    /// Moves the focus of the units menu one row up, from the first to the last.
    pub fn units_menu_up(&mut self)
        ensures
            App::focus_moved(*old(self), *final(self), old(self).units_menu_selection.above()),
    {
        self.units_menu_selection = match self.units_menu_selection {
            UnitMenuField::Temperature => UnitMenuField::Pressure,
            UnitMenuField::WindSpeed => UnitMenuField::Temperature,
            UnitMenuField::Precipitation => UnitMenuField::WindSpeed,
            UnitMenuField::Pressure => UnitMenuField::Precipitation,
        };
    }

    /// Moves the focus of the units menu one row down, from the last to the first.
    pub fn units_menu_down(&mut self)
        ensures
            App::focus_moved(*old(self), *final(self), old(self).units_menu_selection.below()),
    {
        self.units_menu_selection = match self.units_menu_selection {
            UnitMenuField::Temperature => UnitMenuField::WindSpeed,
            UnitMenuField::WindSpeed => UnitMenuField::Precipitation,
            UnitMenuField::Precipitation => UnitMenuField::Pressure,
            UnitMenuField::Pressure => UnitMenuField::Temperature,
        };
    }

    /// Changes the unit on the focused row to the one following it.
    pub fn units_menu_toggle_selected(&mut self)
        ensures
            App::unit_toggled(*old(self), *final(self)),
    {
        self.units_changed = true;
        match self.units_menu_selection {
            UnitMenuField::Temperature => {
                self.config.units.temperature = self.config.units.temperature.next();
            },
            UnitMenuField::WindSpeed => {
                self.config.units.wind_speed = self.config.units.wind_speed.next();
            },
            UnitMenuField::Precipitation => {
                self.config.units.precipitation = self.config.units.precipitation.next();
            },
            UnitMenuField::Pressure => {
                self.config.units.pressure = self.config.units.pressure.next();
            },
        }
    }

    /// Closes the units menu where it is open.
    pub fn close_units_menu(&mut self) -> (effect: Effect)
        ensures
            App::units_menu_closed(*old(self), *final(self), effect),
    {
        match self.overlay {
            Overlay::UnitsMenu => {
                self.overlay = Overlay::Closed;
                let changed = self.units_changed;
                self.units_changed = false;
                Effect { persist: changed, reload: changed, lookup: None }
            },
            _ => Effect::none(),
        }
    }

    /// Scrolls the hourly list one step, no further than `max_scroll`.
    pub fn scroll_hourly(&mut self, step: Scroll, max_scroll: usize)
        ensures
            App::scrolled(*old(self), *final(self), step, max_scroll as nat),
    {
        match step {
            Scroll::Up => {
                if self.hourly_scroll > 0 {
                    self.hourly_scroll -= 1;
                }
            },
            Scroll::Down => {
                if self.hourly_scroll < max_scroll {
                    self.hourly_scroll += 1;
                }
            },
        }
    }

    /// Scrolls the hourly list one step up; at the top it stays.
    pub fn scroll_hourly_up(&mut self)
        ensures
            App::scrolled(*old(self), *final(self), Scroll::Up, 0),
    {
        self.scroll_hourly(Scroll::Up, 0);
    }

    /// Scrolls the hourly list one step down at `now`, in a window of
    /// `window_height` rows: no further than the hours that are listed then
    /// need, given the resolved times of the forecast.
    pub fn scroll_hourly_down_at(
        &mut self,
        resolved: &Vec<ResolvedTime>,
        now: &Clock,
        window_height: usize,
    )
        ensures
            App::scrolled(
                *old(self),
                *final(self),
                Scroll::Down,
                old(self).scroll_bound(resolved@, *now, window_height as nat),
            ),
    {
        let max_scroll = match &self.weather {
            Some(_) => max_hourly_scroll_at(resolved, now, window_height),
            None => 0,
        };
        self.scroll_hourly(Scroll::Down, max_scroll);
    }

    /// Scrolls the hourly list one step down in a window of `window_height`
    /// rows, by this machine's clock and time zone.
    pub fn scroll_hourly_down(&mut self, window_height: usize)
        ensures
            App::scrolled_down(*old(self), *final(self), window_height as nat),
    {
        let resolved = match &self.weather {
            Some(weather) => resolve_times(&weather.hourly),
            None => {
                return ;
            },
        };
        let at = now();
        self.scroll_hourly_down_at(&resolved, &at, window_height);
        assert(App::scrolled(
            *old(self),
            *self,
            Scroll::Down,
            max_scroll(upcoming(resolved@, at).len(), window_height as nat),
        ));
    }

    /// Opens the location input, on the text that is configured.
    pub fn open_location_input(&mut self)
        ensures
            App::location_input_opened(*old(self), *final(self)),
    {
        let buffer = match &self.config.location.zipcode {
            Some(text) => text.clone(),
            None => String::new(),
        };
        self.overlay = Overlay::LocationInput { buffer, error: None };
    }

    /// Closes the location input where it is open; what was typed is gone.
    pub fn close_location_input(&mut self)
        ensures
            App::location_input_closed(*old(self), *final(self)),
    {
        match self.overlay {
            Overlay::LocationInput { .. } => {
                self.overlay = Overlay::Closed;
            },
            _ => {},
        }
    }

    /// Types `c` at the end of the location input.
    pub fn location_input_char(&mut self, c: char)
        ensures
            App::location_input_edited(
                *old(self),
                *final(self),
                |text: Seq<char>| text.push(c),
            ),
    {
        match &mut self.overlay {
            Overlay::LocationInput { buffer, error } => {
                buffer.push(c);
                *error = None;
            },
            _ => {},
        }
    }

    /// Takes the last character off the location input, if it has one.
    pub fn location_input_backspace(&mut self)
        ensures
            App::location_input_edited(
                *old(self),
                *final(self),
                |text: Seq<char>|
                    if text.len() > 0 {
                        text.drop_last()
                    } else {
                        text
                    },
            ),
    {
        match &mut self.overlay {
            Overlay::LocationInput { buffer, error } => {
                buffer.pop();
                *error = None;
            },
            _ => {},
        }
    }
}

/// One step of scrolling.
#[derive(Debug, Clone, Copy, PartialEq, Eq)]
pub enum Scroll {
    Up,
    Down,
}

/// Where a step of scrolling leads from `offset`: one up but not above the
/// top, one down but not beyond `max_scroll`.
pub open spec fn scroll_target(offset: nat, step: Scroll, max_scroll: nat) -> nat {
    match step {
        Scroll::Up => if offset > 0 {
            (offset - 1) as nat
        } else {
            0
        },
        Scroll::Down => if offset < max_scroll {
            offset + 1
        } else {
            offset
        },
    }
}

/// Where a run of steps leads from `offset`.
pub open spec fn scroll_path(offset: nat, steps: Seq<Scroll>, max_scroll: nat) -> nat
    decreases steps.len(),
{
    if steps.len() == 0 {
        offset
    } else {
        scroll_target(scroll_path(offset, steps.drop_last(), max_scroll), steps.last(), max_scroll)
    }
}

/// However the list is scrolled, an offset within the range stays within it;
/// a step up at the top and a step down at the end change nothing.
pub proof fn scrolling_stays_in_range(offset: nat, steps: Seq<Scroll>, max_scroll: nat)
    requires
        offset <= max_scroll,
    ensures
        scroll_path(offset, steps, max_scroll) <= max_scroll,
        scroll_target(0, Scroll::Up, max_scroll) == 0,
        scroll_target(max_scroll, Scroll::Down, max_scroll) == max_scroll,
    decreases steps.len(),
{
    if steps.len() > 0 {
        scrolling_stays_in_range(offset, steps.drop_last(), max_scroll);
    }
}

/// How the place of the weather is to be found.
#[derive(Debug, Clone, PartialEq, Eq)]
pub enum LocationRequest {
    /// By looking this text up.
    Lookup(String),
    /// It is this place, made of the configured coordinates.
    Fixed(Location),
    /// By asking the network where this machine is.
    Network,
}

/// The place that configured coordinates stand for: the configured name, or
/// `Unknown`, no region, an empty country, and the time zone left to the service.
pub open spec fn is_configured_place(config: LocationConfig, place: Location) -> bool {
    &&& config.latitude == Some(place.latitude)
    &&& config.longitude == Some(place.longitude)
    &&& place.city@ == (match config.city {
        Some(name) => name@,
        None => "Unknown"@,
    })
    &&& place.region is None
    &&& place.country@ == Seq::<char>::empty()
    &&& place.timezone@ == "auto"@
}

/// How a configuration asks for the place to be found: by its text if it has
/// one; else by its coordinates if it has both; else by the network.
pub open spec fn location_requested(config: LocationConfig, request: LocationRequest) -> bool {
    match config.zipcode {
        Some(text) => request == LocationRequest::Lookup(text),
        None => if config.latitude is Some && config.longitude is Some {
            request matches LocationRequest::Fixed(place) && is_configured_place(config, place)
        } else {
            request is Network
        },
    }
}

/// What is reported to `submit_location`.
#[derive(Debug)]
pub enum SubmitEvent {
    /// The text was entered.
    Entered,
    /// The lookup that was asked for ended: with a place, or with a message.
    Resolved(Result<Location, String>),
}

/// The message under the location input for a lookup that failed with `reason`.
pub open spec fn not_found(reason: Seq<char>) -> Seq<char> {
    "Not found: "@ + reason
}

/// What is reported to `load_weather`.
#[derive(Debug)]
pub enum LoadEvent {
    /// A load is wanted.
    Begin,
    /// The search for the place ended: with a place, or with a message.
    Located(Result<Location, String>),
    /// The fetch for this place ended: with the weather, or with a message.
    Fetched(Location, Result<WeatherData, String>),
}

/// What `load_weather` asks for next.
#[derive(Debug, Clone, PartialEq, Eq)]
pub enum LoadAction {
    /// Look this text up as a place, and report `Located`.
    Lookup(String),
    /// Ask the network where this machine is, and report `Located`.
    Geolocate,
    /// Fetch the weather at this place, and report `Fetched`.
    Fetch(Location),
    /// The load has ended.
    Done,
}

/// The first step of a load, by how the place is to be found.
pub open spec fn first_step(request: LocationRequest) -> LoadAction {
    match request {
        LocationRequest::Lookup(text) => LoadAction::Lookup(text),
        LocationRequest::Fixed(place) => LoadAction::Fetch(place),
        LocationRequest::Network => LoadAction::Geolocate,
    }
}

impl App {
    /// Whether nothing but the configured location and the overlay differs from `other`.
    pub open spec fn same_but_place(self, other: App) -> bool {
        &&& self.same_data(other)
        &&& self.config.units == other.config.units
        &&& self.hourly_scroll == other.hourly_scroll
        &&& self.units_menu_selection == other.units_menu_selection
        &&& self.units_changed == other.units_changed
        &&& self.should_quit == other.should_quit
    }

    /// What a report on a submit leads to, the text of the input being
    /// `query` once the white space at its two ends is off.
    ///
    /// Entered, an empty text clears the configured location, closes the
    /// input and asks for the configuration to be written and the weather to
    /// be loaded anew; any other text is asked to be looked up, and nothing
    /// changes yet. A place that the lookup found becomes the configured
    /// location, under that text; the input closes, and the same is asked
    /// for. A lookup that failed leaves its message under the input, which
    /// stays open on what was typed, and asks for nothing. Without the input
    /// open, nothing happens.
    pub open spec fn query_submitted(
        pre: App,
        post: App,
        query: Seq<char>,
        event: SubmitEvent,
        effect: Effect,
    ) -> bool {
        match pre.overlay@ {
            OverlayView::LocationInput { buffer, error } => match event {
                SubmitEvent::Entered => if query.len() == 0 {
                    &&& post.same_but_place(pre)
                    &&& post.config.location.is_unset()
                    &&& post.overlay is Closed
                    &&& effect.persist && effect.reload && effect.lookup is None
                } else {
                    &&& post == pre
                    &&& !effect.persist && !effect.reload
                    &&& effect.lookup matches Some(asked) && asked@ == query
                },
                SubmitEvent::Resolved(Ok(place)) => {
                    &&& post.same_but_place(pre)
                    &&& post.config.location.zipcode matches Some(text) && text@ == query
                    &&& post.config.location.latitude == Some(place.latitude)
                    &&& post.config.location.longitude == Some(place.longitude)
                    &&& post.config.location.city == Some(place.city)
                    &&& post.overlay is Closed
                    &&& effect.persist && effect.reload && effect.lookup is None
                },
                SubmitEvent::Resolved(Err(reason)) => {
                    &&& post.same_but_overlay(pre)
                    &&& post.overlay@ == (OverlayView::LocationInput {
                        buffer,
                        error: Some(not_found(reason@)),
                    })
                    &&& effect.nothing()
                },
            },
            _ => post == pre && effect.nothing(),
        }
    }

    /// What a report to `submit_location` leads to: what it leads to with
    /// the text of the input trimmed.
    pub open spec fn submitted(pre: App, post: App, event: SubmitEvent, effect: Effect) -> bool {
        match pre.overlay@ {
            OverlayView::LocationInput { buffer, error } => App::query_submitted(
                pre,
                post,
                trimmed(buffer),
                event,
                effect,
            ),
            _ => post == pre && effect.nothing(),
        }
    }

    /// Whether nothing but the state and what was loaded differs from `other`.
    pub open spec fn same_but_data(self, other: App) -> bool {
        &&& self.config == other.config
        &&& self.overlay == other.overlay
        &&& self.units_menu_selection == other.units_menu_selection
        &&& self.units_changed == other.units_changed
        &&& self.should_quit == other.should_quit
    }

    /// Whether what was loaded, and the scroll offset, are those of `other`.
    pub open spec fn same_loaded(self, other: App) -> bool {
        &&& self.location == other.location
        &&& self.weather == other.weather
        &&& self.last_updated == other.last_updated
        &&& self.hourly_scroll == other.hourly_scroll
    }

    /// What a report to `load_weather` at the time `at` leads to.
    ///
    /// A load begins with the state `Loading` and the search for the place. A
    /// place that was found is fetched for. The weather that was fetched
    /// replaces what was loaded, together with its place and the time; the
    /// list is scrolled to the top and the state is `Ready`. A failure of
    /// either leaves its message as the state, and what was loaded as it was.
    pub open spec fn load_stepped(
        pre: App,
        post: App,
        event: LoadEvent,
        at: Clock,
        action: LoadAction,
    ) -> bool {
        &&& post.same_but_data(pre)
        &&& match event {
            LoadEvent::Begin => {
                &&& post.state is Loading
                &&& post.same_loaded(pre)
                &&& exists|request: LocationRequest| #[trigger]
                    location_requested(pre.config.location, request) && action == first_step(
                        request,
                    )
            },
            LoadEvent::Located(Ok(place)) => {
                &&& post.state == pre.state
                &&& post.same_loaded(pre)
                &&& action == LoadAction::Fetch(place)
            },
            LoadEvent::Located(Err(reason)) => {
                &&& post.state == AppState::Error(reason)
                &&& post.same_loaded(pre)
                &&& action is Done
            },
            LoadEvent::Fetched(place, Ok(weather)) => {
                &&& post.state is Ready
                &&& post.location == Some(place)
                &&& post.weather == Some(weather)
                &&& post.last_updated == Some(at)
                &&& post.hourly_scroll == 0
                &&& action is Done
            },
            LoadEvent::Fetched(place, Err(reason)) => {
                &&& post.state == AppState::Error(reason)
                &&& post.same_loaded(pre)
                &&& action is Done
            },
        }
    }

    /// How the place of the weather is to be found: by the configured text if
    /// there is one; else by the configured coordinates if both are there;
    /// else by the network.
    pub fn get_location(&self) -> (request: LocationRequest)
        ensures
            location_requested(self.config.location, request),
    {
        match &self.config.location.zipcode {
            Some(text) => LocationRequest::Lookup(text.clone()),
            None => match (self.config.location.latitude, self.config.location.longitude) {
                (Some(latitude), Some(longitude)) => {
                    let city = match &self.config.location.city {
                        Some(name) => name.clone(),
                        None => String::from_str("Unknown"),
                    };
                    LocationRequest::Fixed(
                        Location {
                            latitude,
                            longitude,
                            city,
                            region: None,
                            country: String::new(),
                            timezone: String::from_str("auto"),
                        },
                    )
                },
                _ => LocationRequest::Network,
            },
        }
    }

    /// Takes a report on the loading of the weather, by the clock's reading
    /// `at`, and says what is to be done next.
    pub fn load_weather_at(&mut self, event: LoadEvent, at: Clock) -> (action: LoadAction)
        ensures
            App::load_stepped(*old(self), *final(self), event, at, action),
    {
        match event {
            LoadEvent::Begin => {
                self.state = AppState::Loading;
                let request = self.get_location();
                let action = match request {
                    LocationRequest::Lookup(text) => LoadAction::Lookup(text),
                    LocationRequest::Fixed(place) => LoadAction::Fetch(place),
                    LocationRequest::Network => LoadAction::Geolocate,
                };
                assert(location_requested(old(self).config.location, request) && action
                    == first_step(request));
                action
            },
            LoadEvent::Located(Ok(place)) => LoadAction::Fetch(place),
            LoadEvent::Located(Err(reason)) => {
                self.state = AppState::Error(reason);
                LoadAction::Done
            },
            LoadEvent::Fetched(place, Ok(weather)) => {
                self.location = Some(place);
                self.weather = Some(weather);
                self.last_updated = Some(at);
                self.hourly_scroll = 0;
                self.state = AppState::Ready;
                LoadAction::Done
            },
            LoadEvent::Fetched(_, Err(reason)) => {
                self.state = AppState::Error(reason);
                LoadAction::Done
            },
        }
    }

    /// Takes a report on the loading of the weather and says what is to be
    /// done next. The time of a finished load is read from this machine's clock.
    pub fn load_weather(&mut self, event: LoadEvent) -> (action: LoadAction)
        ensures
            exists|at: Clock|
                at.well_formed() && #[trigger] App::load_stepped(
                    *old(self),
                    *final(self),
                    event,
                    at,
                    action,
                ),
    {
        let at = now();
        self.load_weather_at(event, at)
    }

    /// Takes a report on the submitting of the location input, whose text
    /// without the white space at its ends is `query`, and says what is to be
    /// done next.
    pub fn submit_query(&mut self, query: String, event: SubmitEvent) -> (effect: Effect)
        ensures
            App::query_submitted(*old(self), *final(self), query@, event, effect),
    {
        match &self.overlay {
            Overlay::LocationInput { .. } => {},
            _ => {
                return Effect::none();
            },
        }
        match event {
            SubmitEvent::Entered => {
                if query.as_str().is_empty() {
                    self.config.location = LocationConfig {
                        zipcode: None,
                        latitude: None,
                        longitude: None,
                        city: None,
                    };
                    self.overlay = Overlay::Closed;
                    Effect { persist: true, reload: true, lookup: None }
                } else {
                    Effect { persist: false, reload: false, lookup: Some(query) }
                }
            },
            SubmitEvent::Resolved(Ok(place)) => {
                self.config.location = LocationConfig {
                    zipcode: Some(query),
                    latitude: Some(place.latitude),
                    longitude: Some(place.longitude),
                    city: Some(place.city),
                };
                self.overlay = Overlay::Closed;
                Effect { persist: true, reload: true, lookup: None }
            },
            SubmitEvent::Resolved(Err(reason)) => {
                let mut message = String::from_str("Not found: ");
                message.append(reason.as_str());
                match &mut self.overlay {
                    Overlay::LocationInput { buffer, error } => {
                        *error = Some(message);
                    },
                    _ => {},
                }
                Effect::none()
            },
        }
    }

    /// Takes a report on the submitting of the location input and says what
    /// is to be done next. The text counts without the white space at its ends.
    pub fn submit_location(&mut self, event: SubmitEvent) -> (effect: Effect)
        ensures
            App::submitted(*old(self), *final(self), event, effect),
            event is Entered && old(self).overlay is LocationInput && old(
                self,
            ).overlay@->LocationInput_buffer.len() == 0 ==> final(self).config.location.is_unset()
                && final(self).overlay is Closed && effect.reload && effect.persist,
    {
        let query = match &self.overlay {
            Overlay::LocationInput { buffer, error } => String::from_str(buffer.as_str().trim()),
            _ => {
                return Effect::none();
            },
        };
        self.submit_query(query, event)
    }
}

/// A key of the keyboard, as far as the dashboard tells keys apart.
#[derive(Debug, Clone, Copy, PartialEq, Eq)]
pub enum Key {
    Char(char),
    Up,
    Down,
    Left,
    Right,
    Enter,
    Esc,
    Backspace,
    Other,
}

/// What a key asks for.
#[derive(Debug, Clone, Copy, PartialEq, Eq)]
pub enum Command {
    Nothing,
    CloseHelp,
    CloseUnitsMenu,
    UnitsMenuUp,
    UnitsMenuDown,
    UnitsMenuToggle,
    CloseLocationInput,
    SubmitLocation,
    Backspace,
    Type(char),
    Quit,
    Refresh,
    ToggleUnitsMenu,
    OpenLocationInput,
    ScrollUp,
    ScrollDown,
    ToggleHelp,
}

/// What a key asks for while the units menu is open.
pub open spec fn units_menu_binding(key: Key) -> Command {
    match key {
        Key::Esc => Command::CloseUnitsMenu,
        Key::Up => Command::UnitsMenuUp,
        Key::Down => Command::UnitsMenuDown,
        Key::Enter | Key::Left | Key::Right => Command::UnitsMenuToggle,
        Key::Char(c) => if c == 'u' || c == 'q' {
            Command::CloseUnitsMenu
        } else if c == 'k' {
            Command::UnitsMenuUp
        } else if c == 'j' {
            Command::UnitsMenuDown
        } else if c == ' ' {
            Command::UnitsMenuToggle
        } else {
            Command::Nothing
        },
        _ => Command::Nothing,
    }
}

/// What a key asks for while the location input is open.
pub open spec fn location_input_binding(key: Key) -> Command {
    match key {
        Key::Esc => Command::CloseLocationInput,
        Key::Enter => Command::SubmitLocation,
        Key::Backspace => Command::Backspace,
        Key::Char(c) => Command::Type(c),
        _ => Command::Nothing,
    }
}

/// What a key asks for while no overlay is open.
pub open spec fn dashboard_binding(key: Key) -> Command {
    match key {
        Key::Esc => Command::Quit,
        Key::Up => Command::ScrollUp,
        Key::Down => Command::ScrollDown,
        Key::Char(c) => if c == 'q' {
            Command::Quit
        } else if c == 'r' {
            Command::Refresh
        } else if c == 'u' {
            Command::ToggleUnitsMenu
        } else if c == 'l' {
            Command::OpenLocationInput
        } else if c == 'k' {
            Command::ScrollUp
        } else if c == 'j' {
            Command::ScrollDown
        } else if c == '?' {
            Command::ToggleHelp
        } else {
            Command::Nothing
        },
        _ => Command::Nothing,
    }
}

/// What a key asks for under the overlay that is open. The open overlay
/// takes every key: the help closes on any, and is the only thing it does.
pub open spec fn binding(overlay: OverlayView, key: Key) -> Command {
    match overlay {
        OverlayView::Help => Command::CloseHelp,
        OverlayView::UnitsMenu => units_menu_binding(key),
        OverlayView::LocationInput { .. } => location_input_binding(key),
        OverlayView::Closed => dashboard_binding(key),
    }
}

/// What `key` asks for under `overlay`.
pub fn command_for(overlay: &Overlay, key: Key) -> (command: Command)
    ensures
        command == binding(overlay@, key),
{
    match overlay {
        Overlay::Help => Command::CloseHelp,
        Overlay::UnitsMenu => match key {
            Key::Esc => Command::CloseUnitsMenu,
            Key::Up => Command::UnitsMenuUp,
            Key::Down => Command::UnitsMenuDown,
            Key::Enter | Key::Left | Key::Right => Command::UnitsMenuToggle,
            Key::Char(c) => if c == 'u' || c == 'q' {
                Command::CloseUnitsMenu
            } else if c == 'k' {
                Command::UnitsMenuUp
            } else if c == 'j' {
                Command::UnitsMenuDown
            } else if c == ' ' {
                Command::UnitsMenuToggle
            } else {
                Command::Nothing
            },
            _ => Command::Nothing,
        },
        Overlay::LocationInput { .. } => match key {
            Key::Esc => Command::CloseLocationInput,
            Key::Enter => Command::SubmitLocation,
            Key::Backspace => Command::Backspace,
            Key::Char(c) => Command::Type(c),
            _ => Command::Nothing,
        },
        Overlay::Closed => match key {
            Key::Esc => Command::Quit,
            Key::Up => Command::ScrollUp,
            Key::Down => Command::ScrollDown,
            Key::Char(c) => if c == 'q' {
                Command::Quit
            } else if c == 'r' {
                Command::Refresh
            } else if c == 'u' {
                Command::ToggleUnitsMenu
            } else if c == 'l' {
                Command::OpenLocationInput
            } else if c == 'k' {
                Command::ScrollUp
            } else if c == 'j' {
                Command::ScrollDown
            } else if c == '?' {
                Command::ToggleHelp
            } else {
                Command::Nothing
            },
            _ => Command::Nothing,
        },
    }
}

impl App {
    /// What carrying out `command` leads to: what the command of that name
    /// leads to. A refresh changes nothing and asks for the weather to be
    /// loaded anew; quitting raises the flag that ends the program.
    pub open spec fn executed(
        pre: App,
        post: App,
        command: Command,
        window_height: nat,
        effect: Effect,
    ) -> bool {
        match command {
            Command::Nothing => post == pre && effect.nothing(),
            Command::CloseHelp => post.same_but_overlay(pre) && post.overlay@ == (if pre.overlay
                is Help {
                OverlayView::Closed
            } else {
                pre.overlay@
            }) && effect.nothing(),
            Command::CloseUnitsMenu => App::units_menu_closed(pre, post, effect),
            Command::UnitsMenuUp => App::focus_moved(pre, post, pre.units_menu_selection.above())
                && effect.nothing(),
            Command::UnitsMenuDown => App::focus_moved(
                pre,
                post,
                pre.units_menu_selection.below(),
            ) && effect.nothing(),
            Command::UnitsMenuToggle => App::unit_toggled(pre, post) && effect.nothing(),
            Command::CloseLocationInput => App::location_input_closed(pre, post)
                && effect.nothing(),
            Command::SubmitLocation => App::submitted(pre, post, SubmitEvent::Entered, effect),
            Command::Backspace => App::location_input_edited(
                pre,
                post,
                |text: Seq<char>|
                    if text.len() > 0 {
                        text.drop_last()
                    } else {
                        text
                    },
            ) && effect.nothing(),
            Command::Type(c) => App::location_input_edited(
                pre,
                post,
                |text: Seq<char>| text.push(c),
            ) && effect.nothing(),
            Command::Quit => {
                &&& post.should_quit
                &&& post.same_data(pre)
                &&& post.config == pre.config
                &&& post.hourly_scroll == pre.hourly_scroll
                &&& post.overlay == pre.overlay
                &&& post.units_menu_selection == pre.units_menu_selection
                &&& post.units_changed == pre.units_changed
                &&& effect.nothing()
            },
            Command::Refresh => post == pre && effect.reload && !effect.persist && effect.lookup
                is None,
            Command::ToggleUnitsMenu => App::units_menu_toggled(pre, post, effect),
            Command::OpenLocationInput => App::location_input_opened(pre, post)
                && effect.nothing(),
            Command::ScrollUp => App::scrolled(pre, post, Scroll::Up, 0) && effect.nothing(),
            Command::ScrollDown => App::scrolled_down(pre, post, window_height)
                && effect.nothing(),
            Command::ToggleHelp => App::help_toggled(pre, post) && effect.nothing(),
        }
    }

    /// Closes the help where it is open.
    pub fn close_help(&mut self)
        ensures
            final(self).same_but_overlay(*old(self)),
            final(self).overlay@ == (if old(self).overlay is Help {
                OverlayView::Closed
            } else {
                old(self).overlay@
            }),
    {
        match self.overlay {
            Overlay::Help => {
                self.overlay = Overlay::Closed;
            },
            _ => {},
        }
    }

    /// Carries out `command`, and says what the caller is to do. The hourly
    /// panel has `window_height` rows inside its border, which bounds the
    /// scrolling.
    pub fn execute(&mut self, command: Command, window_height: usize) -> (effect: Effect)
        ensures
            App::executed(*old(self), *final(self), command, window_height as nat, effect),
    {
        match command {
            Command::Nothing => Effect::none(),
            Command::CloseHelp => {
                self.close_help();
                Effect::none()
            },
            Command::CloseUnitsMenu => self.close_units_menu(),
            Command::UnitsMenuUp => {
                self.units_menu_up();
                Effect::none()
            },
            Command::UnitsMenuDown => {
                self.units_menu_down();
                Effect::none()
            },
            Command::UnitsMenuToggle => {
                self.units_menu_toggle_selected();
                Effect::none()
            },
            Command::CloseLocationInput => {
                self.close_location_input();
                Effect::none()
            },
            Command::SubmitLocation => self.submit_location(SubmitEvent::Entered),
            Command::Backspace => {
                self.location_input_backspace();
                Effect::none()
            },
            Command::Type(c) => {
                self.location_input_char(c);
                Effect::none()
            },
            Command::Quit => {
                self.should_quit = true;
                Effect::none()
            },
            Command::Refresh => Effect { persist: false, reload: true, lookup: None },
            Command::ToggleUnitsMenu => self.toggle_units_menu(),
            Command::OpenLocationInput => {
                self.open_location_input();
                Effect::none()
            },
            Command::ScrollUp => {
                self.scroll_hourly_up();
                Effect::none()
            },
            Command::ScrollDown => {
                self.scroll_hourly_down(window_height);
                Effect::none()
            },
            Command::ToggleHelp => {
                self.toggle_help();
                Effect::none()
            },
        }
    }

    /// Handles one press of a key: carries out what the key asks for under
    /// the overlay that is open, and says what the caller is to do before it
    /// handles the next. The hourly panel has `window_height` rows inside its
    /// border.
    pub fn handle_key(&mut self, key: Key, window_height: usize) -> (effect: Effect)
        ensures
            App::executed(
                *old(self),
                *final(self),
                binding(old(self).overlay@, key),
                window_height as nat,
                effect,
            ),
    {
        let command = command_for(&self.overlay, key);
        self.execute(command, window_height)
    }
}

/// The longest that the program waits for a key, in milliseconds.
pub const TICK_MILLIS: u64 = 250;

/// After how many seconds the weather is loaded anew without being asked.
pub const REFRESH_SECONDS: u64 = 15 * 60;

/// How long to wait for a key when `elapsed_millis` have passed since the
/// last tick: the rest of the tick, or not at all.
pub fn poll_timeout(elapsed_millis: u64) -> (millis: u64)
    ensures
        millis == (if elapsed_millis <= TICK_MILLIS {
            TICK_MILLIS - elapsed_millis
        } else {
            0
        }),
{
    if elapsed_millis <= TICK_MILLIS {
        TICK_MILLIS - elapsed_millis
    } else {
        0
    }
}

/// Whether the weather is due to be loaded anew, `elapsed_seconds` after the last load.
pub fn refresh_due(elapsed_seconds: u64) -> (due: bool)
    ensures
        due == (elapsed_seconds >= REFRESH_SECONDS),
{
    elapsed_seconds >= REFRESH_SECONDS
}

/// The four units are chosen independently, and each choice comes round: a
/// toggle changes the unit of its row and no other; two toggles bring back a
/// temperature, precipitation or pressure unit, four a wind speed unit. So a
/// reading is shown, after toggling away and back, exactly as before: what is
/// shown is the stored reading converted anew, never a converted figure
/// converted back.
pub proof fn toggles_are_independent_and_come_round(units: UnitsConfig, reading: int)
    ensures
        units.toggled(UnitMenuField::Temperature).wind_speed == units.wind_speed,
        units.toggled(UnitMenuField::Temperature).precipitation == units.precipitation,
        units.toggled(UnitMenuField::Temperature).pressure == units.pressure,
        units.toggled(UnitMenuField::WindSpeed).temperature == units.temperature,
        units.toggled(UnitMenuField::WindSpeed).precipitation == units.precipitation,
        units.toggled(UnitMenuField::WindSpeed).pressure == units.pressure,
        units.toggled(UnitMenuField::Precipitation).temperature == units.temperature,
        units.toggled(UnitMenuField::Precipitation).wind_speed == units.wind_speed,
        units.toggled(UnitMenuField::Precipitation).pressure == units.pressure,
        units.toggled(UnitMenuField::Pressure).temperature == units.temperature,
        units.toggled(UnitMenuField::Pressure).wind_speed == units.wind_speed,
        units.toggled(UnitMenuField::Pressure).precipitation == units.precipitation,
        units.toggled(UnitMenuField::Temperature).toggled(UnitMenuField::Temperature) == units,
        units.toggled(UnitMenuField::Precipitation).toggled(UnitMenuField::Precipitation) == units,
        units.toggled(UnitMenuField::Pressure).toggled(UnitMenuField::Pressure) == units,
        units.toggled(UnitMenuField::WindSpeed).toggled(UnitMenuField::WindSpeed).toggled(
            UnitMenuField::WindSpeed,
        ).toggled(UnitMenuField::WindSpeed) == units,
        units.toggled(UnitMenuField::Temperature).toggled(
            UnitMenuField::Temperature,
        ).temperature.converted(reading) == units.temperature.converted(reading),
{
}

/// No command makes a dashboard ill-formed.
pub proof fn commands_keep_the_dashboard_well_formed(
    pre: App,
    post: App,
    command: Command,
    window_height: nat,
    effect: Effect,
)
    requires
        pre.well_formed(),
        App::executed(pre, post, command, window_height, effect),
    ensures
        post.well_formed(),
{
}

/// No report on the submitting of a location makes a dashboard ill-formed.
pub proof fn submitting_keeps_the_dashboard_well_formed(
    pre: App,
    post: App,
    query: Seq<char>,
    event: SubmitEvent,
    effect: Effect,
)
    requires
        pre.well_formed(),
        App::submitted(pre, post, event, effect) || App::query_submitted(
            pre,
            post,
            query,
            event,
            effect,
        ),
    ensures
        post.well_formed(),
{
}

/// A load, at a time of the calendar, keeps the dashboard well-formed. It
/// touches neither the configuration nor the overlay and what is typed in
/// it, and where it fails, what was loaded before stays as it was, with the
/// scroll offset.
pub proof fn loading_keeps_what_it_does_not_replace(
    pre: App,
    post: App,
    event: LoadEvent,
    at: Clock,
    action: LoadAction,
)
    requires
        pre.well_formed(),
        at.well_formed(),
        App::load_stepped(pre, post, event, at, action),
    ensures
        post.well_formed(),
        post.config == pre.config,
        post.overlay == pre.overlay,
        post.state is Error ==> post.same_loaded(pre),
        !(event matches LoadEvent::Fetched(_, Ok(_))) ==> post.same_loaded(pre),
{
}

/// Where a text is configured, the place is looked up by it, whether or not
/// coordinates are configured beside it; coordinates count only without a
/// text, and the network only without both.
pub proof fn a_configured_text_wins(config: LocationConfig, request: LocationRequest)
    requires
        location_requested(config, request),
    ensures
        config.zipcode matches Some(text) ==> request == LocationRequest::Lookup(text),
        config.zipcode is None ==> !(request is Lookup),
        request is Fixed <==> config.zipcode is None && config.latitude is Some
            && config.longitude is Some,
        request is Network <==> config.zipcode is None && !(config.latitude is Some
            && config.longitude is Some),
{
}

/// Submitting an empty text clears the configured location, closes the input
/// and asks for a reload. A lookup that failed leaves the input open on what
/// was typed, with a message that is not empty, and asks for no reload and
/// changes no configuration.
pub proof fn submitting_clears_or_reports(
    pre: App,
    post: App,
    query: Seq<char>,
    event: SubmitEvent,
    effect: Effect,
)
    requires
        pre.overlay is LocationInput,
        App::query_submitted(pre, post, query, event, effect),
    ensures
        event is Entered && query.len() == 0 ==> {
            &&& post.config.location.is_unset()
            &&& post.overlay is Closed
            &&& effect.reload
        },
        event matches SubmitEvent::Resolved(Err(reason)) ==> {
            &&& post.overlay@ matches OverlayView::LocationInput { buffer, error: Some(message) }
            &&& buffer == pre.overlay@->LocationInput_buffer
            &&& message.len() > 0
            &&& !effect.reload
            &&& post.config == pre.config
        },
{
    reveal_strlit("Not found: ");
}

} // verus!
