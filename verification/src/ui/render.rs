//! The whole picture: header, content and footer, and the overlay on top.

use vstd::prelude::*;
use crate::app::{App, AppState, Overlay, OverlayView, UnitMenuField};
use crate::config::UnitsConfig;
use crate::frame::{
    bare_block, boxed_widget, panel_block, placed, Block, BlockView, Frame, Paragraph,
    ParagraphView, PlacedView, Widget, WidgetView,
};
use crate::layout::{divide, divides, inner_area, Direction, Rect, Sizing};
use crate::models::Location;
use crate::style::{
    lines_view, push_line, raw, styled, Alignment, Color, Line, Span, SpanView, Style,
};
use crate::text::{align_left, left_aligned, push_text};
use crate::time::{clock_label, clock_text, now, Clock, ResolvedTime};
use crate::ui::chart::{chart_panel, render_today_chart};
use crate::ui::current::{current_panel, current_parts, render_current_weather, CurrentLayout};
use crate::ui::daily::{daily_panel, day_columns, day_shares, render_daily_forecast, shown_days};
use crate::ui::hourly::{
    hourly_panel, render_hourly_forecast, resolve_times, resolves, times_match,
};

verus! {

/// A row of one span in a color.
pub open spec fn note(text: Seq<char>, color: Color) -> Seq<SpanView> {
    seq![styled(text, Style::colored(color))]
}

/// A row of one span in a color, bold.
pub open spec fn headline(text: Seq<char>, color: Color) -> Seq<SpanView> {
    seq![styled(text, Style::strong(color))]
}

/// A row of the help: the key in yellow, and what it does.
pub open spec fn key_row(key: Seq<char>, does: Seq<char>) -> Seq<SpanView> {
    seq![styled(key, Style::colored(Color::Yellow)), raw(does)]
}

fn note_line(text: &str, color: Color) -> (r: Line)
    ensures
        r@ == note(text@, color),
{
    Line::single(Span::label(text, Style::new().fg(color)))
}

fn headline_line(text: &str, color: Color) -> (r: Line)
    ensures
        r@ == headline(text@, color),
{
    Line::single(Span::label(text, Style::new().fg(color).bold()))
}

fn key_line(key: &str, does: &str) -> (r: Line)
    ensures
        r@ == key_row(key@, does@),
{
    let mut r = Line::new();
    r.push(Span::label(key, Style::new().fg(Color::Yellow)));
    r.push(Span::raw(does));
    r
}

/// The name of the place in the header: that of the place, or a note that it
/// is being looked for.
pub open spec fn place_text(location: Option<Location>) -> Seq<char> {
    match location {
        Some(place) => place.display_text(),
        None => "Loading..."@,
    }
}

/// The title in the header.
pub open spec fn title_text(location: Option<Location>) -> Seq<char> {
    " WxMan - "@ + place_text(location) + " "@
}

/// The time of the last load in the header, or nothing before the first.
pub open spec fn updated_text(last_updated: Option<Clock>) -> Seq<char> {
    match last_updated {
        Some(at) => clock_text(at.local.hour as nat, at.local.minute as nat),
        None => Seq::<char>::empty(),
    }
}

/// The header: the title, and the time of the last load, in a cyan border.
pub open spec fn header_widget(location: Option<Location>, last_updated: Option<Clock>) -> WidgetView {
    boxed_widget(
        seq![
            seq![
                styled(title_text(location), Style::strong(Color::Cyan)),
                raw(" "@),
                styled(updated_text(last_updated), Style::colored(Color::DarkGray)),
            ],
        ],
        bare_block(Style::colored(Color::Cyan)),
        Alignment::Left,
    )
}

fn title_cell(location: &Option<Location>) -> (r: String)
    ensures
        r@ == title_text(*location),
{
    let mut r = String::from_str(" WxMan - ");
    match location {
        Some(place) => push_text(&mut r, place.display_name().as_str()),
        None => push_text(&mut r, "Loading..."),
    }
    push_text(&mut r, " ");
    r
}

fn updated_cell(last_updated: &Option<Clock>) -> (r: String)
    requires
        last_updated matches Some(at) ==> at.well_formed(),
    ensures
        r@ == updated_text(*last_updated),
{
    match last_updated {
        Some(at) => clock_label(at.local.hour, at.local.minute),
        None => String::new(),
    }
}

/// Draws the header on `area`.
pub fn render_header(frame: &mut Frame, area: Rect, app: &App)
    requires
        app.well_formed(),
    ensures
        final(frame).size == old(frame).size,
        final(frame)@ == old(frame)@.push(
            placed(header_widget(app.location, app.last_updated), area),
        ),
{
    let mut line = Line::new();
    line.push(Span::styled(title_cell(&app.location), Style::new().fg(Color::Cyan).bold()));
    line.push(Span::raw(" "));
    line.push(Span::styled(updated_cell(&app.last_updated), Style::new().fg(Color::DarkGray)));
    let ghost row = line@;
    assert(row == seq![
        styled(title_text(app.location), Style::strong(Color::Cyan)),
        raw(" "@),
        styled(updated_text(app.last_updated), Style::colored(Color::DarkGray)),
    ]);
    let mut lines: Vec<Line> = Vec::new();
    push_line(&mut lines, line);
    assert(lines_view(lines@) == seq![row]);
    frame.render_widget(
        Widget::boxed(lines, Block::bare(Style::new().fg(Color::Cyan)), Alignment::Left),
        area,
    );
}

/// What is shown while the weather is loading.
pub open spec fn loading_widget() -> WidgetView {
    boxed_widget(
        seq![
            Seq::<SpanView>::empty(),
            Seq::<SpanView>::empty(),
            headline("Loading weather data..."@, Color::Yellow),
        ],
        bare_block(Style::plain()),
        Alignment::Center,
    )
}

/// Draws the note that the weather is loading on `area`.
pub fn render_loading(frame: &mut Frame, area: Rect)
    ensures
        final(frame).size == old(frame).size,
        final(frame)@ == old(frame)@.push(placed(loading_widget(), area)),
{
    let mut lines: Vec<Line> = Vec::new();
    push_line(&mut lines, Line::new());
    push_line(&mut lines, Line::new());
    push_line(&mut lines, headline_line("Loading weather data...", Color::Yellow));
    assert(lines_view(lines@) == seq![
        Seq::<SpanView>::empty(),
        Seq::<SpanView>::empty(),
        headline("Loading weather data..."@, Color::Yellow),
    ]);
    frame.render_widget(Widget::boxed(lines, Block::bare(Style::new()), Alignment::Center), area);
}

/// What is shown of a load that failed: the message, and how to try again.
pub open spec fn error_widget(message: Seq<char>) -> WidgetView {
    boxed_widget(
        seq![
            Seq::<SpanView>::empty(),
            headline("Error"@, Color::Red),
            Seq::<SpanView>::empty(),
            note(message, Color::Red),
            Seq::<SpanView>::empty(),
            note("Press 'r' to retry"@, Color::Yellow),
        ],
        bare_block(Style::colored(Color::Red)),
        Alignment::Center,
    )
}

/// Draws the message of a failed load on `area`.
pub fn render_error(frame: &mut Frame, area: Rect, message: &str)
    ensures
        final(frame).size == old(frame).size,
        final(frame)@ == old(frame)@.push(placed(error_widget(message@), area)),
{
    let mut lines: Vec<Line> = Vec::new();
    push_line(&mut lines, Line::new());
    push_line(&mut lines, headline_line("Error", Color::Red));
    push_line(&mut lines, Line::new());
    push_line(&mut lines, note_line(message, Color::Red));
    push_line(&mut lines, Line::new());
    push_line(&mut lines, note_line("Press 'r' to retry", Color::Yellow));
    assert(lines_view(lines@) == seq![
        Seq::<SpanView>::empty(),
        headline("Error"@, Color::Red),
        Seq::<SpanView>::empty(),
        note(message@, Color::Red),
        Seq::<SpanView>::empty(),
        note("Press 'r' to retry"@, Color::Yellow),
    ]);
    frame.render_widget(
        Widget::boxed(lines, Block::bare(Style::new().fg(Color::Red)), Alignment::Center),
        area,
    );
}

/// The keys in the footer; the unit of the temperature tells the units apart.
pub open spec fn footer_row(units: UnitsConfig) -> Seq<SpanView> {
    let key = Style::colored(Color::Yellow);
    seq![
        styled(" q"@, key),
        raw(" Quit  "@),
        styled("r"@, key),
        raw(" Refresh  "@),
        styled("l"@, key),
        raw(" Location  "@),
        styled("u"@, key),
        raw(" Units ("@ + units.temperature.symbol_text() + ")  "@),
        styled("↑↓"@, key),
        raw(" Scroll  "@),
        styled("?"@, key),
        raw(" Help"@),
    ]
}

/// The footer: one dimmed row of keys.
pub open spec fn footer_widget(units: UnitsConfig) -> WidgetView {
    WidgetView::Paragraph(
        ParagraphView {
            lines: seq![footer_row(units)],
            block: None,
            style: Style::colored(Color::DarkGray),
            alignment: Alignment::Left,
        },
    )
}

/// Draws the footer on `area`.
pub fn render_footer(frame: &mut Frame, area: Rect, app: &App)
    ensures
        final(frame).size == old(frame).size,
        final(frame)@ == old(frame)@.push(placed(footer_widget(app.config.units), area)),
{
    let key = Style::new().fg(Color::Yellow);
    let mut units = String::from_str(" Units (");
    push_text(&mut units, app.config.units.temperature.symbol());
    push_text(&mut units, ")  ");
    let mut line = Line::new();
    line.push(Span::label(" q", key));
    line.push(Span::raw(" Quit  "));
    line.push(Span::label("r", key));
    line.push(Span::raw(" Refresh  "));
    line.push(Span::label("l", key));
    line.push(Span::raw(" Location  "));
    line.push(Span::label("u", key));
    line.push(Span::styled(units, Style::new()));
    line.push(Span::label("↑↓", key));
    line.push(Span::raw(" Scroll  "));
    line.push(Span::label("?", key));
    line.push(Span::raw(" Help"));
    assert(line@ == footer_row(app.config.units));
    let mut lines: Vec<Line> = Vec::new();
    push_line(&mut lines, line);
    assert(lines_view(lines@) == seq![footer_row(app.config.units)]);
    frame.render_widget(
        Widget::Paragraph(
            Paragraph {
                lines,
                block: None,
                style: Style::new().fg(Color::DarkGray),
                alignment: Alignment::Left,
            },
        ),
        area,
    );
}

/// A popup on `area`: the area wiped, then the rows in a green or yellow block.
pub open spec fn popup(area: Rect, rows: Seq<Seq<SpanView>>, block: BlockView) -> Seq<PlacedView> {
    seq![
        placed(WidgetView::Clear, area),
        placed(boxed_widget(rows, block, Alignment::Left), area),
    ]
}

/// Draws a popup on `area`.
fn render_popup(frame: &mut Frame, area: Rect, lines: Vec<Line>, block: Block)
    ensures
        final(frame).size == old(frame).size,
        final(frame)@ == old(frame)@ + popup(area, lines_view(lines@), block@),
{
    frame.render_widget(Widget::Clear, area);
    frame.render_widget(Widget::boxed(lines, block, Alignment::Left), area);
}

/// The rows of the help.
pub open spec fn help_rows() -> Seq<Seq<SpanView>> {
    seq![
        Seq::<SpanView>::empty(),
        key_row("  q / Esc"@, "     Quit application"@),
        key_row("  r"@, "           Refresh weather data"@),
        key_row("  l"@, "           Set location"@),
        key_row("  u"@, "           Configure units"@),
        key_row("  ↑ / k"@, "       Scroll hourly forecast up"@),
        key_row("  ↓ / j"@, "       Scroll hourly forecast down"@),
        key_row("  ?"@, "           Toggle this help"@),
        Seq::<SpanView>::empty(),
        note("  Press any key to close"@, Color::DarkGray),
    ]
}

/// The help: a popup of 50 by 16 in the middle of the terminal.
pub open spec fn help_overlay(size: Rect) -> Seq<PlacedView> {
    popup(size.popup(50, 16), help_rows(), panel_block(" Help "@, Color::Green))
}

/// Draws the help over a terminal of the size `area`.
pub fn render_help_overlay(frame: &mut Frame, area: Rect)
    ensures
        final(frame).size == old(frame).size,
        final(frame)@ == old(frame)@ + help_overlay(area),
{
    let mut lines: Vec<Line> = Vec::new();
    push_line(&mut lines, Line::new());
    push_line(&mut lines, key_line("  q / Esc", "     Quit application"));
    push_line(&mut lines, key_line("  r", "           Refresh weather data"));
    push_line(&mut lines, key_line("  l", "           Set location"));
    push_line(&mut lines, key_line("  u", "           Configure units"));
    push_line(&mut lines, key_line("  ↑ / k", "       Scroll hourly forecast up"));
    push_line(&mut lines, key_line("  ↓ / j", "       Scroll hourly forecast down"));
    push_line(&mut lines, key_line("  ?", "           Toggle this help"));
    push_line(&mut lines, Line::new());
    push_line(&mut lines, note_line("  Press any key to close", Color::DarkGray));
    assert(lines_view(lines@) == help_rows());
    render_popup(frame, area.centered_popup(50, 16), lines, Block::panel(" Help ", Color::Green));
}

/// One row of the units menu: the name of the quantity and the unit chosen
/// for it. The row in focus is marked and bright.
pub open spec fn menu_row(label: Seq<char>, value: Seq<char>, selected: bool) -> Seq<SpanView> {
    let style = if selected {
        Style::strong(Color::Yellow)
    } else {
        Style::colored(Color::White)
    };
    seq![
        styled(
            if selected {
                " > "@
            } else {
                "   "@
            },
            style,
        ),
        styled(left_aligned(label, 15), style),
        styled(
            value,
            if selected {
                Style::strong(Color::Cyan)
            } else {
                Style::colored(Color::Gray)
            },
        ),
    ]
}

fn menu_line(label: &str, value: &str, selected: bool) -> (r: Line)
    ensures
        r@ == menu_row(label@, value@, selected),
{
    let style = if selected {
        Style::new().fg(Color::Yellow).bold()
    } else {
        Style::new().fg(Color::White)
    };
    let value_style = if selected {
        Style::new().fg(Color::Cyan).bold()
    } else {
        Style::new().fg(Color::Gray)
    };
    let mut r = Line::new();
    r.push(
        Span::label(
            if selected {
                " > "
            } else {
                "   "
            },
            style,
        ),
    );
    r.push(Span::styled(align_left(label, 15), style));
    r.push(Span::label(value, value_style));
    r
}

/// The rows of the units menu: the four quantities in their order, each
/// with the unit chosen for it, the one in focus marked.
pub open spec fn units_menu_rows(units: UnitsConfig, selected: UnitMenuField) -> Seq<Seq<SpanView>> {
    let blank = Seq::<SpanView>::empty();
    seq![
        blank,
        note("  Use ↑↓ to navigate, Enter/Space to change"@, Color::DarkGray),
        blank,
        menu_row(
            "Temperature"@,
            units.temperature.symbol_text(),
            selected == UnitMenuField::Temperature,
        ),
        blank,
        menu_row(
            "Wind Speed"@,
            units.wind_speed.symbol_text(),
            selected == UnitMenuField::WindSpeed,
        ),
        blank,
        menu_row(
            "Precipitation"@,
            units.precipitation.symbol_text(),
            selected == UnitMenuField::Precipitation,
        ),
        blank,
        menu_row("Pressure"@, units.pressure.symbol_text(), selected == UnitMenuField::Pressure),
        blank,
        note("  Press u or Esc to close and apply"@, Color::DarkGray),
    ]
}

/// The units menu: a popup of 45 by 14 in the middle of the terminal.
pub open spec fn units_menu_overlay(size: Rect, units: UnitsConfig, selected: UnitMenuField) -> Seq<
    PlacedView,
> {
    popup(
        size.popup(45, 14),
        units_menu_rows(units, selected),
        panel_block(" Units "@, Color::Yellow),
    )
}

/// Draws the units menu over a terminal of the size `area`.
pub fn render_units_menu(frame: &mut Frame, area: Rect, app: &App)
    ensures
        final(frame).size == old(frame).size,
        final(frame)@ == old(frame)@ + units_menu_overlay(
            area,
            app.config.units,
            app.units_menu_selection,
        ),
{
    let units = &app.config.units;
    let (on_temperature, on_wind, on_precipitation, on_pressure) = match app.units_menu_selection {
        UnitMenuField::Temperature => (true, false, false, false),
        UnitMenuField::WindSpeed => (false, true, false, false),
        UnitMenuField::Precipitation => (false, false, true, false),
        UnitMenuField::Pressure => (false, false, false, true),
    };
    let mut lines: Vec<Line> = Vec::new();
    push_line(&mut lines, Line::new());
    push_line(
        &mut lines,
        note_line("  Use ↑↓ to navigate, Enter/Space to change", Color::DarkGray),
    );
    push_line(&mut lines, Line::new());
    push_line(&mut lines, menu_line("Temperature", units.temperature.symbol(), on_temperature));
    push_line(&mut lines, Line::new());
    push_line(&mut lines, menu_line("Wind Speed", units.wind_speed.symbol(), on_wind));
    push_line(&mut lines, Line::new());
    push_line(
        &mut lines,
        menu_line("Precipitation", units.precipitation.symbol(), on_precipitation),
    );
    push_line(&mut lines, Line::new());
    push_line(&mut lines, menu_line("Pressure", units.pressure.symbol(), on_pressure));
    push_line(&mut lines, Line::new());
    push_line(&mut lines, note_line("  Press u or Esc to close and apply", Color::DarkGray));
    assert(lines_view(lines@) == units_menu_rows(app.config.units, app.units_menu_selection));
    render_popup(frame, area.centered_popup(45, 14), lines, Block::panel(" Units ", Color::Yellow));
}

/// The name of the current place in the location input.
pub open spec fn current_place_text(location: Option<Location>) -> Seq<char> {
    match location {
        Some(place) => place.display_text(),
        None => "Unknown"@,
    }
}

/// The row under the text being typed: the message of a failed lookup in
/// red, or the hint on leaving the text empty.
pub open spec fn input_note(error: Option<Seq<char>>) -> Seq<SpanView> {
    match error {
        Some(message) => note("  "@ + message, Color::Red),
        None => note("  Leave empty for auto-detect (IP)"@, Color::DarkGray),
    }
}

/// The rows of the location input: the current place, the text being typed
/// with a cursor behind it, and the note under it.
pub open spec fn location_input_rows(
    location: Option<Location>,
    buffer: Seq<char>,
    error: Option<Seq<char>>,
) -> Seq<Seq<SpanView>> {
    let blank = Seq::<SpanView>::empty();
    seq![
        blank,
        seq![
            styled("  Current: "@, Style::colored(Color::DarkGray)),
            styled(current_place_text(location), Style::colored(Color::White)),
        ],
        blank,
        note("  Enter city or zip code:"@, Color::Gray),
        seq![raw("  "@), styled(buffer.push('_'), Style::strong(Color::Cyan))],
        blank,
        input_note(error),
        blank,
        note("  Enter to confirm, Esc to cancel"@, Color::DarkGray),
    ]
}

/// The location input: a popup of 50 by 10 in the middle of the terminal.
pub open spec fn location_input_overlay(
    size: Rect,
    location: Option<Location>,
    buffer: Seq<char>,
    error: Option<Seq<char>>,
) -> Seq<PlacedView> {
    popup(
        size.popup(50, 10),
        location_input_rows(location, buffer, error),
        panel_block(" Set Location "@, Color::Green),
    )
}

fn input_note_line(error: &Option<String>) -> (r: Line)
    ensures
        r@ == input_note(
            match error {
                Some(message) => Some(message@),
                None => None,
            },
        ),
{
    match error {
        Some(message) => {
            let mut text = String::from_str("  ");
            push_text(&mut text, message.as_str());
            Line::single(Span::styled(text, Style::new().fg(Color::Red)))
        },
        None => note_line("  Leave empty for auto-detect (IP)", Color::DarkGray),
    }
}

/// Draws the location input, with the text `buffer` and the message `error`,
/// over a terminal of the size `area`.
pub fn render_location_input(
    frame: &mut Frame,
    area: Rect,
    location: &Option<Location>,
    buffer: &str,
    error: &Option<String>,
)
    ensures
        final(frame).size == old(frame).size,
        final(frame)@ == old(frame)@ + location_input_overlay(
            area,
            *location,
            buffer@,
            match error {
                Some(message) => Some(message@),
                None => None,
            },
        ),
{
    let place = match location {
        Some(place) => place.display_name(),
        None => String::from_str("Unknown"),
    };
    let mut current = Line::new();
    current.push(Span::label("  Current: ", Style::new().fg(Color::DarkGray)));
    current.push(Span::styled(place, Style::new().fg(Color::White)));
    let mut typed = String::from_str(buffer);
    typed.push('_');
    let mut entry = Line::new();
    entry.push(Span::raw("  "));
    entry.push(Span::styled(typed, Style::new().fg(Color::Cyan).bold()));
    let ghost shown_error = match error {
        Some(message) => Some(message@),
        None => None,
    };
    let ghost rows = location_input_rows(*location, buffer@, shown_error);
    assert(current@ == rows[1]);
    assert(entry@ == rows[4]);
    let mut lines: Vec<Line> = Vec::new();
    push_line(&mut lines, Line::new());
    push_line(&mut lines, current);
    push_line(&mut lines, Line::new());
    push_line(&mut lines, note_line("  Enter city or zip code:", Color::Gray));
    push_line(&mut lines, entry);
    push_line(&mut lines, Line::new());
    push_line(&mut lines, input_note_line(error));
    push_line(&mut lines, Line::new());
    push_line(&mut lines, note_line("  Enter to confirm, Esc to cancel", Color::DarkGray));
    assert(lines_view(lines@) == rows);
    render_popup(
        frame,
        area.centered_popup(50, 10),
        lines,
        Block::panel(" Set Location ", Color::Green),
    );
}

/// The overlay that is open, over a terminal of the given size; nothing
/// where none is.
pub open spec fn overlay_view(size: Rect, app: App) -> Seq<PlacedView> {
    match app.overlay@ {
        OverlayView::Closed => Seq::<PlacedView>::empty(),
        OverlayView::Help => help_overlay(size),
        OverlayView::UnitsMenu => units_menu_overlay(
            size,
            app.config.units,
            app.units_menu_selection,
        ),
        OverlayView::LocationInput { buffer, error } => location_input_overlay(
            size,
            app.location,
            buffer,
            error,
        ),
    }
}

/// Draws the overlay that is open over a terminal of the size `area`.
pub fn render_overlay(frame: &mut Frame, area: Rect, app: &App)
    ensures
        final(frame).size == old(frame).size,
        final(frame)@ == old(frame)@ + overlay_view(area, *app),
{
    match &app.overlay {
        Overlay::Closed => {},
        Overlay::Help => render_help_overlay(frame, area),
        Overlay::UnitsMenu => render_units_menu(frame, area, app),
        Overlay::LocationInput { buffer, error } => render_location_input(
            frame,
            area,
            &app.location,
            buffer.as_str(),
            error,
        ),
    }
}

/// The three bands of the screen.
#[derive(Debug, Clone, Copy, PartialEq, Eq)]
pub struct ScreenLayout {
    pub header: Rect,
    pub main: Rect,
    pub footer: Rect,
}

/// What the bands of the screen ask of the layout: three rows for the
/// header, ten at least for the content, one for the footer.
pub open spec fn screen_shares() -> Seq<Sizing> {
    seq![Sizing::Length(3), Sizing::Min(10), Sizing::Length(1)]
}

/// What the two rows of the content ask: twenty rows at least for the upper
/// panels, sixteen for the daily panel.
pub open spec fn content_row_shares() -> Seq<Sizing> {
    seq![Sizing::Min(20), Sizing::Length(16)]
}

/// What the two columns of the upper row ask: 55 hundredths of the width
/// for the current conditions and the chart, 45 for the hourly list.
pub open spec fn content_column_shares() -> Seq<Sizing> {
    seq![Sizing::Percentage(55), Sizing::Percentage(45)]
}

/// What the two panels of the left column ask: fifteen rows at least for the
/// current conditions, twelve for the chart.
pub open spec fn left_shares() -> Seq<Sizing> {
    seq![Sizing::Min(15), Sizing::Length(12)]
}

/// What the bands of the screen ask of the layout.
pub fn screen_sizings() -> (r: Vec<Sizing>)
    ensures
        r@ == screen_shares(),
{
    let mut r: Vec<Sizing> = Vec::new();
    r.push(Sizing::Length(3));
    r.push(Sizing::Min(10));
    r.push(Sizing::Length(1));
    r
}

/// What the two rows of the content ask of the layout.
pub fn content_row_sizings() -> (r: Vec<Sizing>)
    ensures
        r@ == content_row_shares(),
{
    let mut r: Vec<Sizing> = Vec::new();
    r.push(Sizing::Min(20));
    r.push(Sizing::Length(16));
    r
}

/// What the two columns of the upper row ask of the layout.
pub fn content_column_sizings() -> (r: Vec<Sizing>)
    ensures
        r@ == content_column_shares(),
{
    let mut r: Vec<Sizing> = Vec::new();
    r.push(Sizing::Percentage(55));
    r.push(Sizing::Percentage(45));
    r
}

/// What the two panels of the left column ask of the layout.
pub fn left_sizings() -> (r: Vec<Sizing>)
    ensures
        r@ == left_shares(),
{
    let mut r: Vec<Sizing> = Vec::new();
    r.push(Sizing::Min(15));
    r.push(Sizing::Length(12));
    r
}

impl ScreenLayout {
    /// Whether the bands are what the layout makes of a screen of the given size.
    pub open spec fn is_of(self, size: Rect) -> bool {
        divides(size, Direction::Vertical, screen_shares(), seq![self.header, self.main, self.footer])
    }
}

/// Where the panels of the weather lie.
#[derive(Debug, Clone, PartialEq, Eq)]
pub struct ContentLayout {
    /// The upper row, above the daily panel.
    pub top: Rect,
    /// The left column of the upper row.
    pub left: Rect,
    pub current: Rect,
    /// The parts inside the panel of the current conditions.
    pub inside: CurrentLayout,
    pub chart: Rect,
    pub hourly: Rect,
    pub daily: Rect,
    /// The columns inside the daily panel, one for each day that is shown.
    pub days: Vec<Rect>,
}

impl ContentLayout {
    /// Whether the panels are what the layout makes of `area` for a forecast
    /// of `days` days: the daily panel under the upper row; in the upper row
    /// the hourly list right of the left column; in the left column the
    /// chart under the current conditions; and the insides of the current
    /// conditions and of the daily panel divided in their turn.
    pub open spec fn is_of(self, area: Rect, days: nat) -> bool {
        &&& divides(area, Direction::Vertical, content_row_shares(), seq![self.top, self.daily])
        &&& divides(
            self.top,
            Direction::Horizontal,
            content_column_shares(),
            seq![self.left, self.hourly],
        )
        &&& divides(self.left, Direction::Vertical, left_shares(), seq![self.current, self.chart])
        &&& self.inside.is_of(self.current.inside_border())
        &&& divides(
            self.daily.inside_border(),
            Direction::Horizontal,
            day_shares(days),
            self.days@,
        )
    }
}

/// Divides the screen into a header of three rows, a footer of one, and the
/// content between them, as far as the layout grants them.
pub fn screen_layout(size: Rect) -> (r: ScreenLayout)
    ensures
        r.is_of(size),
{
    let parts = divide(size, Direction::Vertical, &screen_sizings());
    assert(seq![parts@[0], parts@[1], parts@[2]] == parts@);
    ScreenLayout { header: parts[0], main: parts[1], footer: parts[2] }
}

/// Divides the content among the panels, with a column in the daily panel
/// for each of `days` days that is shown.
pub fn content_layout(area: Rect, days: usize) -> (r: ContentLayout)
    ensures
        r.is_of(area, days as nat),
{
    let main_rows = divide(area, Direction::Vertical, &content_row_sizings());
    assert(seq![main_rows@[0], main_rows@[1]] == main_rows@);
    let top = main_rows[0];
    let daily = main_rows[1];
    let top_columns = divide(top, Direction::Horizontal, &content_column_sizings());
    assert(seq![top_columns@[0], top_columns@[1]] == top_columns@);
    let left = top_columns[0];
    let left_chunks = divide(left, Direction::Vertical, &left_sizings());
    assert(seq![left_chunks@[0], left_chunks@[1]] == left_chunks@);
    let current = left_chunks[0];
    ContentLayout {
        top,
        left,
        current,
        inside: current_parts(inner_area(current)),
        chart: left_chunks[1],
        hourly: top_columns[1],
        daily,
        days: day_columns(inner_area(daily), days),
    }
}

/// Whether `rows` is the height inside the border of the hourly panel in
/// some layout of a terminal of the given size, for a forecast of `days` days.
pub open spec fn is_hourly_window(size: Rect, days: nat, rows: nat) -> bool {
    exists|screen: ScreenLayout, content: ContentLayout|
        screen.is_of(size) && #[trigger] content.is_of(screen.main, days) && rows
            == content.hourly.inside_border().height
}

/// The rows inside the border of the hourly panel, as the layout divides a
/// terminal of the given size for a forecast of `days` days. They bound the
/// scrolling of the list.
pub fn hourly_window_height(size: Rect, days: usize) -> (rows: usize)
    ensures
        is_hourly_window(size, days as nat, rows as nat),
{
    let screen = screen_layout(size);
    let content = content_layout(screen.main, days);
    inner_area(content.hourly).height as usize
}

/// What a picture depends on besides the state of the dashboard: the
/// reading of the clock, how the layout divided the screen, and the times of
/// the forecast as resolved in the machine's time zone.
#[derive(Debug, Clone)]
pub struct Surroundings {
    pub now: Clock,
    pub screen: ScreenLayout,
    pub content: Option<ContentLayout>,
    pub resolved: Vec<ResolvedTime>,
}

impl Surroundings {
    /// Whether the surroundings were read for `app`: the clock shows a time
    /// of the calendar, and where there is weather to show, the resolved
    /// times are what the timestamps of its hours say.
    pub open spec fn read_for(self, app: App) -> bool {
        &&& self.now.well_formed()
        &&& app.state is Ready ==> match app.weather {
            Some(weather) => resolves(self.resolved@, weather.hourly@),
            None => true,
        }
    }

    /// Whether the layout is what was made of a terminal of the given size
    /// for `app`: the bands of the screen, and where there is weather to show,
    /// the panels on the band of the content.
    pub open spec fn laid_out_for(self, size: Rect, app: App) -> bool {
        &&& self.screen.is_of(size)
        &&& app.state is Ready ==> match app.weather {
            Some(weather) => self.content matches Some(content) && content.is_of(
                self.screen.main,
                weather.daily@.len(),
            ),
            None => true,
        }
    }

    /// Whether the surroundings are those of a picture of `app`: where there
    /// is weather to show, the content is laid out with a column for each
    /// day that is shown, and every hour has its resolved time.
    pub open spec fn fits(self, app: App) -> bool {
        app.state is Ready ==> match app.weather {
            Some(weather) => {
                &&& self.content matches Some(content) && content.days@.len() == shown_days(
                    weather.daily@.len(),
                )
                &&& times_match(self.resolved@, weather.hourly@)
            },
            None => true,
        }
    }
}

/// Reads the clock, lays the screen out for a terminal of the given size,
/// and resolves the times of the forecast.
pub fn survey(size: Rect, app: &App) -> (around: Surroundings)
    ensures
        around.fits(*app),
        around.read_for(*app),
        around.laid_out_for(size, *app),
{
    let screen = screen_layout(size);
    let at = now();
    match (&app.state, &app.weather) {
        (AppState::Ready, Some(weather)) => Surroundings {
            now: at,
            screen,
            content: Some(content_layout(screen.main, weather.daily.len())),
            resolved: resolve_times(&weather.hourly),
        },
        _ => Surroundings { now: at, screen, content: None, resolved: Vec::new() },
    }
}

/// The content between header and footer: the note that the weather is
/// loading, the message of a failed load, or the four panels of the weather.
pub open spec fn main_content(area: Rect, app: App, around: Surroundings) -> Seq<PlacedView> {
    match app.state {
        AppState::Loading => seq![placed(loading_widget(), area)],
        AppState::Error(message) => seq![placed(error_widget(message@), area)],
        AppState::Ready => match (app.weather, around.content) {
            (Some(weather), Some(content)) => current_panel(
                content.current,
                content.inside.reading,
                content.inside.details,
                weather.current,
                app.config.units,
            ) + chart_panel(
                content.chart,
                weather.hourly@,
                around.resolved@,
                around.now,
                app.config.units,
            ) + hourly_panel(
                content.hourly,
                weather.hourly@,
                around.resolved@,
                around.now,
                app.config.units,
                app.hourly_scroll as nat,
            ) + daily_panel(content.daily, content.days@, weather.daily@, app.config.units),
            _ => Seq::<PlacedView>::empty(),
        },
    }
}

/// Draws the content on `area`.
pub fn render_main_content(frame: &mut Frame, area: Rect, app: &App, around: &Surroundings)
    requires
        around.fits(*app),
    ensures
        final(frame).size == old(frame).size,
        final(frame)@ == old(frame)@ + main_content(area, *app, *around),
{
    match &app.state {
        AppState::Loading => render_loading(frame, area),
        AppState::Error(message) => render_error(frame, area, message.as_str()),
        AppState::Ready => match (&app.weather, &around.content) {
            (Some(weather), Some(content)) => {
                let units = &app.config.units;
                render_current_weather(
                    frame,
                    content.current,
                    content.inside.reading,
                    content.inside.details,
                    &weather.current,
                    units,
                );
                render_today_chart(
                    frame,
                    content.chart,
                    &weather.hourly,
                    &around.resolved,
                    units,
                    &around.now,
                );
                render_hourly_forecast(
                    frame,
                    content.hourly,
                    &weather.hourly,
                    &around.resolved,
                    units,
                    app.hourly_scroll,
                    &around.now,
                );
                render_daily_forecast(frame, content.daily, &content.days, &weather.daily, units);
            },
            _ => {},
        },
    }
}

/// The whole picture of the dashboard in a terminal of the given size:
/// header, content and footer on their bands, and the open overlay on top.
pub open spec fn picture(size: Rect, app: App, around: Surroundings) -> Seq<PlacedView> {
    seq![placed(header_widget(app.location, app.last_updated), around.screen.header)]
        + main_content(around.screen.main, app, around) + seq![
        placed(footer_widget(app.config.units), around.screen.footer),
    ] + overlay_view(size, app)
}

/// Draws the whole picture in the given surroundings.
pub fn draw(frame: &mut Frame, app: &App, around: &Surroundings)
    requires
        app.well_formed(),
        around.fits(*app),
    ensures
        final(frame).size == old(frame).size,
        final(frame)@ == old(frame)@ + picture(old(frame).size, *app, *around),
{
    let size = frame.area();
    render_header(frame, around.screen.header, app);
    render_main_content(frame, around.screen.main, app, around);
    render_footer(frame, around.screen.footer, app);
    render_overlay(frame, size, app);
}

/// Draws the whole picture as it is right now: by this machine's clock and
/// time zone, and as the layout divides the terminal.
pub fn render(frame: &mut Frame, app: &App)
    requires
        app.well_formed(),
    ensures
        final(frame).size == old(frame).size,
        exists|around: Surroundings|
            around.fits(*app) && around.read_for(*app) && around.laid_out_for(
                old(frame).size,
                *app,
            ) && final(frame)@ == old(frame)@ + #[trigger] picture(old(frame).size, *app, around),
{
    let around = survey(frame.area(), app);
    draw(frame, app, &around);
}

} // verus!
