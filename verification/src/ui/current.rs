//! The current conditions: the picture with the temperature, and the details.

use vstd::prelude::*;
use crate::config::UnitsConfig;
use crate::frame::{
    centered_widget, panel_block, placed, text_widget, Block, Frame, PlacedView, Widget, WidgetView,
};
use crate::layout::{divide, divides, minus, Direction, Rect, Sizing};
use crate::models::CurrentWeather;
use crate::style::{lines_view, push_line, styled, Color, Line, Span, SpanView, Style};
use crate::text::{int_digits, push_int, push_text, push_whole, truncated_units, whole_text};
use crate::ui::daily::{gale_cell, gale_text};
use crate::ui::icons::{
    celsius_color, compass_point, temperature_color_celsius, uv_color, uv_info, uv_word,
    wind_direction_str, WeatherCondition,
};

verus! {

/// The rows that the left part needs: picture, temperatures and description.
pub const CONTENT_HEIGHT: u16 = 11;

/// A temperature in the chosen unit: whole degrees, and the unit.
pub open spec fn temperature_text(celsius: int, units: UnitsConfig) -> Seq<char> {
    units.temperature.whole_text(celsius) + units.temperature.symbol_text()
}

/// What the temperature feels like.
pub open spec fn feels_text(celsius: int, units: UnitsConfig) -> Seq<char> {
    "Feels "@ + temperature_text(celsius, units)
}

/// A share in percent.
pub open spec fn percent_text(percent: int) -> Seq<char> {
    int_digits(percent) + "%"@
}

/// The wind: its speed in the chosen unit, and where it comes from.
pub open spec fn wind_from_text(kmh: int, degrees: int, units: UnitsConfig) -> Seq<char> {
    gale_text(kmh, units) + " "@ + compass_point(degrees % 360)
}

/// The pressure as its unit shows it, and the unit.
pub open spec fn pressure_text(hpa: int, units: UnitsConfig) -> Seq<char> {
    units.pressure.formatted(hpa) + " "@ + units.pressure.symbol_text()
}

/// The UV index to the nearest point, and the word for its whole points.
pub open spec fn uv_level_text(uv_index: int) -> Seq<char> {
    whole_text(uv_index) + " ("@ + uv_word(truncated_units(uv_index)) + ")"@
}

/// An amount of precipitation in the chosen unit, with two decimal places.
pub open spec fn precipitation_text(mm: int, units: UnitsConfig) -> Seq<char> {
    units.precipitation.hundredths_text(mm) + " "@ + units.precipitation.symbol_text()
}

/// One detail: what it is, dimmed, and its value in a color.
pub open spec fn detail_row(label: Seq<char>, value: Seq<char>, color: Color) -> Seq<SpanView> {
    seq![styled(label, Style::colored(Color::DarkGray)), styled(value, Style::colored(color))]
}

/// The rows of the picture of a condition.
pub open spec fn glyph_rows(condition: WeatherCondition) -> Seq<Seq<SpanView>> {
    Seq::new(5, |i: int| seq![styled(condition.icon_rows()[i], Style::colored(condition.tint()))])
}

/// Under the picture: the temperature in the color of its Celsius value and
/// bold, what it feels like, and the description of the condition.
pub open spec fn summary_rows(weather: CurrentWeather, units: UnitsConfig) -> Seq<Seq<SpanView>> {
    let condition = WeatherCondition::classified(weather.weather_code as int, weather.is_day);
    seq![
        Seq::<SpanView>::empty(),
        seq![
            styled(
                temperature_text(weather.temperature as int, units),
                Style::strong(celsius_color(weather.temperature as int)),
            ),
        ],
        seq![
            styled(
                feels_text(weather.apparent_temperature as int, units),
                Style::colored(Color::Gray),
            ),
        ],
        Seq::<SpanView>::empty(),
        seq![styled(condition.description_text(), Style::colored(condition.tint()))],
    ]
}

/// The left part: the picture of the condition, and the summary under it.
pub open spec fn reading_rows(weather: CurrentWeather, units: UnitsConfig) -> Seq<Seq<SpanView>> {
    glyph_rows(WeatherCondition::classified(weather.weather_code as int, weather.is_day))
        + summary_rows(weather, units)
}

/// The right part: the details, a blank row between the groups.
pub open spec fn detail_rows(weather: CurrentWeather, units: UnitsConfig) -> Seq<Seq<SpanView>> {
    let blank = Seq::<SpanView>::empty();
    seq![
        blank,
        detail_row("Humidity:    "@, percent_text(weather.humidity as int), Color::LightCyan),
        blank,
        detail_row(
            "Wind:        "@,
            wind_from_text(weather.wind_speed as int, weather.wind_direction as int, units),
            Color::LightGreen,
        ),
        detail_row("Gusts:       "@, gale_text(weather.wind_gusts as int, units), Color::LightGreen),
        blank,
        detail_row(
            "Pressure:    "@,
            pressure_text(weather.pressure as int, units),
            Color::LightMagenta,
        ),
        blank,
        detail_row("Cloud Cover: "@, percent_text(weather.cloud_cover as int), Color::Gray),
        blank,
        detail_row(
            "UV Index:    "@,
            uv_level_text(weather.uv_index as int),
            uv_color(truncated_units(weather.uv_index as int)),
        ),
        blank,
        detail_row(
            "Precip:      "@,
            precipitation_text(weather.precipitation as int, units),
            Color::LightBlue,
        ),
    ]
}

/// The panel of the current conditions on `area`: its block, the reading
/// centered on `left`, the details on `right`.
pub open spec fn current_panel(
    area: Rect,
    left: Rect,
    right: Rect,
    weather: CurrentWeather,
    units: UnitsConfig,
) -> Seq<PlacedView> {
    seq![
        placed(WidgetView::Block(panel_block(" Current Conditions "@, Color::Cyan)), area),
        placed(centered_widget(reading_rows(weather, units)), left),
        placed(text_widget(detail_rows(weather, units)), right),
    ]
}

fn temperature_cell(celsius: i32, units: &UnitsConfig) -> (r: String)
    ensures
        r@ == temperature_text(celsius as int, *units),
{
    let mut r = units.temperature.whole(celsius);
    push_text(&mut r, units.temperature.symbol());
    r
}

fn feels_cell(celsius: i32, units: &UnitsConfig) -> (r: String)
    ensures
        r@ == feels_text(celsius as int, *units),
{
    let mut r = String::from_str("Feels ");
    push_text(&mut r, temperature_cell(celsius, units).as_str());
    r
}

fn percent_cell(percent: i32) -> (r: String)
    ensures
        r@ == percent_text(percent as int),
{
    let mut r = String::new();
    push_int(&mut r, percent as i64);
    push_text(&mut r, "%");
    r
}

fn wind_from_cell(kmh: i32, degrees: i32, units: &UnitsConfig) -> (r: String)
    ensures
        r@ == wind_from_text(kmh as int, degrees as int, *units),
{
    let mut r = gale_cell(kmh, units);
    push_text(&mut r, " ");
    push_text(&mut r, wind_direction_str(degrees));
    r
}

fn pressure_cell(hpa: i32, units: &UnitsConfig) -> (r: String)
    ensures
        r@ == pressure_text(hpa as int, *units),
{
    let mut r = units.pressure.format(hpa);
    push_text(&mut r, " ");
    push_text(&mut r, units.pressure.symbol());
    r
}

fn uv_level_cell(uv_index: i32) -> (r: String)
    ensures
        r@ == uv_level_text(uv_index as int),
{
    let (word, _) = uv_info(uv_index);
    let mut r = String::new();
    push_whole(&mut r, uv_index as i64);
    push_text(&mut r, " (");
    push_text(&mut r, word);
    push_text(&mut r, ")");
    r
}

fn precipitation_cell(mm: i32, units: &UnitsConfig) -> (r: String)
    ensures
        r@ == precipitation_text(mm as int, *units),
{
    let mut r = units.precipitation.hundredths(mm);
    push_text(&mut r, " ");
    push_text(&mut r, units.precipitation.symbol());
    r
}

fn detail_line(label: &str, value: String, color: Color) -> (r: Line)
    ensures
        r@ == detail_row(label@, value@, color),
{
    let mut r = Line::new();
    r.push(Span::label(label, Style::new().fg(Color::DarkGray)));
    r.push(Span::styled(value, Style::new().fg(color)));
    r
}

/// Appends the rows of the picture of a condition.
fn push_glyph(lines: &mut Vec<Line>, condition: &WeatherCondition)
    ensures
        lines_view(final(lines)@) == lines_view(old(lines)@) + glyph_rows(*condition),
{
    let icon = condition.icon();
    let style = Style::new().fg(condition.color());
    let mut i: usize = 0;
    while i < 5
        invariant
            i <= 5,
            style == Style::colored(condition.tint()),
            condition.icon_rows().len() == 5,
            forall|k: int| 0 <= k < 5 ==> (#[trigger] icon[k])@ == condition.icon_rows()[k],
            lines_view(lines@) == lines_view(old(lines)@) + Seq::new(
                i as nat,
                |k: int| seq![styled(condition.icon_rows()[k], Style::colored(condition.tint()))],
            ),
        decreases 5 - i,
    {
        let row = icon[i];
        assert(row@ == condition.icon_rows()[i as int]);
        push_line(lines, Line::single(Span::label(row, style)));
        i += 1;
    }
}

/// The rows of the left part.
pub fn reading_lines(weather: &CurrentWeather, units: &UnitsConfig) -> (lines: Vec<Line>)
    ensures
        lines_view(lines@) == reading_rows(*weather, *units),
{
    let condition = WeatherCondition::from_wmo_code(weather.weather_code, weather.is_day);
    let tint = Style::new().fg(condition.color());
    let mut lines: Vec<Line> = Vec::new();
    push_glyph(&mut lines, &condition);
    let temperature = Line::single(
        Span::styled(
            temperature_cell(weather.temperature, units),
            Style::new().fg(temperature_color_celsius(weather.temperature)).bold(),
        ),
    );
    let feels = Line::single(
        Span::styled(
            feels_cell(weather.apparent_temperature, units),
            Style::new().fg(Color::Gray),
        ),
    );
    let description = Line::single(Span::label(condition.description(), tint));
    let ghost blank = Seq::<SpanView>::empty();
    let ghost under = seq![blank, temperature@, feels@, blank, description@];
    assert(under == summary_rows(*weather, *units));
    push_line(&mut lines, Line::new());
    push_line(&mut lines, temperature);
    push_line(&mut lines, feels);
    push_line(&mut lines, Line::new());
    push_line(&mut lines, description);
    assert(lines_view(lines@) == glyph_rows(condition) + under);
    lines
}

/// The rows of the right part.
pub fn detail_lines(weather: &CurrentWeather, units: &UnitsConfig) -> (lines: Vec<Line>)
    ensures
        lines_view(lines@) == detail_rows(*weather, *units),
{
    let (_, uv_tint) = uv_info(weather.uv_index);
    let mut lines: Vec<Line> = Vec::new();
    push_line(&mut lines, Line::new());
    push_line(
        &mut lines,
        detail_line("Humidity:    ", percent_cell(weather.humidity), Color::LightCyan),
    );
    push_line(&mut lines, Line::new());
    push_line(
        &mut lines,
        detail_line(
            "Wind:        ",
            wind_from_cell(weather.wind_speed, weather.wind_direction, units),
            Color::LightGreen,
        ),
    );
    push_line(
        &mut lines,
        detail_line("Gusts:       ", gale_cell(weather.wind_gusts, units), Color::LightGreen),
    );
    push_line(&mut lines, Line::new());
    push_line(
        &mut lines,
        detail_line("Pressure:    ", pressure_cell(weather.pressure, units), Color::LightMagenta),
    );
    push_line(&mut lines, Line::new());
    push_line(
        &mut lines,
        detail_line("Cloud Cover: ", percent_cell(weather.cloud_cover), Color::Gray),
    );
    push_line(&mut lines, Line::new());
    push_line(&mut lines, detail_line("UV Index:    ", uv_level_cell(weather.uv_index), uv_tint));
    push_line(&mut lines, Line::new());
    push_line(
        &mut lines,
        detail_line(
            "Precip:      ",
            precipitation_cell(weather.precipitation, units),
            Color::LightBlue,
        ),
    );
    lines
}

/// The blank rows above and below the content of an inside of the given
/// height, which put the content in the middle.
pub open spec fn vertical_padding(height: nat) -> nat {
    (minus(height as int, CONTENT_HEIGHT as int) / 2) as nat
}

/// What the three bands of the inside ask of the layout: the padding, the
/// content with its eleven rows at least, and the padding again.
pub open spec fn band_shares(padding: u16) -> Seq<Sizing> {
    seq![Sizing::Length(padding), Sizing::Min(CONTENT_HEIGHT), Sizing::Length(padding)]
}

/// What the two sides of the content ask of the layout: twenty columns for
/// the reading, and thirty at least for the details.
pub open spec fn side_shares() -> Seq<Sizing> {
    seq![Sizing::Length(20), Sizing::Min(30)]
}

/// What the three bands of the inside ask of the layout.
pub fn band_sizings(padding: u16) -> (r: Vec<Sizing>)
    ensures
        r@ == band_shares(padding),
{
    let mut r: Vec<Sizing> = Vec::new();
    r.push(Sizing::Length(padding));
    r.push(Sizing::Min(CONTENT_HEIGHT));
    r.push(Sizing::Length(padding));
    r
}

/// What the two sides of the content ask of the layout.
pub fn side_sizings() -> (r: Vec<Sizing>)
    ensures
        r@ == side_shares(),
{
    let mut r: Vec<Sizing> = Vec::new();
    r.push(Sizing::Length(20));
    r.push(Sizing::Min(30));
    r
}

/// How the inside of the panel is divided.
#[derive(Debug, Clone, Copy, PartialEq, Eq)]
pub struct CurrentLayout {
    /// The band that holds the content.
    pub middle: Rect,
    /// The left side of the band, for the reading.
    pub reading: Rect,
    /// The right side of the band, for the details.
    pub details: Rect,
}

/// Whether `middle` is the second of the three bands that the layout makes
/// of `inner`, between `above` and `below`.
pub open spec fn is_banding(inner: Rect, above: Rect, middle: Rect, below: Rect) -> bool {
    divides(
        inner,
        Direction::Vertical,
        band_shares(vertical_padding(inner.height as nat) as u16),
        seq![above, middle, below],
    )
}

impl CurrentLayout {
    /// Whether this is a division of `inner`: with padding, the middle is the
    /// second of the three bands that the layout makes of the inside;
    /// without, it is the inside. The two sides are what the layout makes of
    /// the middle.
    pub open spec fn is_of(self, inner: Rect) -> bool {
        &&& vertical_padding(inner.height as nat) > 0 ==> exists|above: Rect, below: Rect| #[trigger]
            is_banding(inner, above, self.middle, below)
        &&& vertical_padding(inner.height as nat) == 0 ==> self.middle == inner
        &&& divides(
            self.middle,
            Direction::Horizontal,
            side_shares(),
            seq![self.reading, self.details],
        )
    }
}

/// Divides the inside of the panel: the content in the middle of its height,
/// and of that the left twenty columns for the reading, the rest for the
/// details, as far as the layout grants them.
pub fn current_parts(inner: Rect) -> (parts: CurrentLayout)
    ensures
        parts.is_of(inner),
{
    let padding: u16 = (if inner.height >= CONTENT_HEIGHT {
        inner.height - CONTENT_HEIGHT
    } else {
        0
    }) / 2;
    let ghost mut above = inner;
    let ghost mut below = inner;
    let middle = if padding > 0 {
        let bands = divide(inner, Direction::Vertical, &band_sizings(padding));
        proof {
            above = bands@[0];
            below = bands@[2];
            assert(seq![above, bands@[1], below] == bands@);
        }
        bands[1]
    } else {
        inner
    };
    assert(padding == vertical_padding(inner.height as nat));
    let sides = divide(middle, Direction::Horizontal, &side_sizings());
    assert(seq![sides@[0], sides@[1]] == sides@);
    let parts = CurrentLayout { middle, reading: sides[0], details: sides[1] };
    proof {
        if padding > 0 {
            assert(is_banding(inner, above, parts.middle, below));
        }
    }
    parts
}

/// Draws the panel of the current conditions on `area`, the reading on `left`
/// and the details on `right`.
pub fn render_current_weather(
    frame: &mut Frame,
    area: Rect,
    left: Rect,
    right: Rect,
    weather: &CurrentWeather,
    units: &UnitsConfig,
)
    ensures
        final(frame).size == old(frame).size,
        final(frame)@ == old(frame)@ + current_panel(area, left, right, *weather, *units),
{
    frame.render_widget(Widget::Block(Block::panel(" Current Conditions ", Color::Cyan)), area);
    render_icon_and_temp(frame, left, weather, units);
    render_details(frame, right, weather, units);
}

/// Draws the reading, each row centered, on `area`.
pub fn render_icon_and_temp(
    frame: &mut Frame,
    area: Rect,
    weather: &CurrentWeather,
    units: &UnitsConfig,
)
    ensures
        final(frame).size == old(frame).size,
        final(frame)@ == old(frame)@.push(
            placed(centered_widget(reading_rows(*weather, *units)), area),
        ),
{
    frame.render_widget(Widget::centered(reading_lines(weather, units)), area);
}

/// Draws the details on `area`.
pub fn render_details(frame: &mut Frame, area: Rect, weather: &CurrentWeather, units: &UnitsConfig)
    ensures
        final(frame).size == old(frame).size,
        final(frame)@ == old(frame)@.push(placed(text_widget(detail_rows(*weather, *units)), area)),
{
    frame.render_widget(Widget::text(detail_lines(weather, units)), area);
}

} // verus!
