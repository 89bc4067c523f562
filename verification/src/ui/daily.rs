//! The daily columns: one column for each of the next days, five at most.

use vstd::prelude::*;
use vstd::utf8::encode_utf8;
use crate::config::UnitsConfig;
use crate::frame::{panel_block, placed, text_widget, Block, Frame, PlacedView, Widget, WidgetView};
use crate::layout::{divide, divides, minus, Direction, Rect, Sizing};
use crate::models::DailyForecast;
use crate::style::{lines_view, push_line, raw, styled, Color, Line, Span, SpanView, Style};
use crate::text::{
    center, centered, int_digits, push_int, push_repeated, push_text, repeated, truncate_units,
    truncated_units,
};
use crate::time::{day_label, day_text, parsed_date, resolve_date, Date};
use crate::ui::icons::{
    celsius_color, precipitation_band, precipitation_color, temperature_color_celsius, uv_color,
    uv_info, uv_word, WeatherCondition,
};

verus! {

/// The most days that are shown.
pub const MAX_DAYS: usize = 5;

/// How many of `days` days are shown.
pub open spec fn shown_days(days: nat) -> nat {
    if days <= MAX_DAYS {
        days
    } else {
        MAX_DAYS as nat
    }
}

/// How many bytes a text takes in UTF-8, which is what a column is centered by.
pub open spec fn byte_len(text: Seq<char>) -> nat {
    encode_utf8(text).len()
}

/// The blanks left of a text that is centered by its bytes in `width` columns.
pub open spec fn margin(text: Seq<char>, width: nat) -> Seq<char> {
    repeated(' ', (minus(width as int, byte_len(text) as int) / 2) as nat)
}

/// A text behind the blanks that center it.
pub open spec fn indented(text: Seq<char>, width: nat) -> Seq<char> {
    margin(text, width) + text
}

/// The blanks that center `text` in `width` columns.
pub fn margin_text(text: &str, width: u16) -> (r: String)
    ensures
        r@ == margin(text@, width as nat),
{
    let len = text.as_bytes().len();
    let room: usize = if width as usize >= len {
        width as usize - len
    } else {
        0
    };
    let mut r = String::new();
    push_repeated(&mut r, ' ', room / 2);
    r
}

/// `text` behind the blanks that center it in `width` columns.
pub fn indent(text: &str, width: u16) -> (r: String)
    ensures
        r@ == indented(text@, width as nat),
{
    let mut r = margin_text(text, width);
    push_text(&mut r, text);
    r
}

/// The name of a day at the head of its column: `Today` for the first, the
/// weekday and date for another, and the text as it came where that names no date.
pub open spec fn heading_text(date_text: Seq<char>, date: Option<Date>, is_today: bool) -> Seq<char> {
    if is_today {
        "Today"@
    } else {
        match date {
            Some(date) => day_text(date),
            None => date_text,
        }
    }
}

/// A temperature in whole degrees of the chosen unit, the fraction cut off,
/// with the degree sign.
pub open spec fn degree_text(celsius: int, units: UnitsConfig) -> Seq<char> {
    int_digits(units.temperature.cut(celsius)).push('°')
}

/// Low and high of a day as one text, by which the pair is centered.
pub open spec fn low_high_text(day: DailyForecast, units: UnitsConfig) -> Seq<char> {
    degree_text(day.temp_min as int, units) + " / "@ + degree_text(day.temp_max as int, units)
}

/// The chance of rain of a day.
pub open spec fn rain_text(percent: int) -> Seq<char> {
    int_digits(percent) + "% rain"@
}

/// The UV index of a day: whole points, and the word for them.
pub open spec fn uv_text(uv_index: int) -> Seq<char> {
    "UV: "@ + int_digits(truncated_units(uv_index)) + " "@ + uv_word(truncated_units(uv_index))
}

/// The strongest wind of a day in the chosen unit.
pub open spec fn gale_text(kmh: int, units: UnitsConfig) -> Seq<char> {
    units.wind_speed.whole_text(kmh) + " "@ + units.wind_speed.symbol_text()
}

/// The rows of the picture of a condition, each indented to the middle of `width`.
pub open spec fn picture_rows(condition: WeatherCondition, width: nat) -> Seq<Seq<SpanView>> {
    Seq::new(
        5,
        |i: int| seq![styled(indented(condition.icon_rows()[i], width), Style::colored(condition.tint()))],
    )
}

/// The head of a column: the name of the day, centered, and a blank row.
pub open spec fn day_head(
    day: DailyForecast,
    date: Option<Date>,
    is_today: bool,
    width: nat,
) -> Seq<Seq<SpanView>> {
    seq![
        seq![
            styled(
                centered(heading_text(day.date@, date, is_today), width),
                if is_today {
                    Style::strong(Color::White)
                } else {
                    Style::colored(Color::Gray)
                },
            ),
        ],
        Seq::<SpanView>::empty(),
    ]
}

/// The foot of a column: low and high, each in the color of its own
/// temperature, then the chance of rain, the UV index and the wind.
pub open spec fn day_foot(day: DailyForecast, units: UnitsConfig, width: nat) -> Seq<Seq<SpanView>> {
    seq![
        Seq::<SpanView>::empty(),
        seq![
            raw(margin(low_high_text(day, units), width)),
            styled(
                degree_text(day.temp_min as int, units),
                Style::colored(celsius_color(day.temp_min as int)),
            ),
            styled(" / "@, Style::colored(Color::DarkGray)),
            styled(
                degree_text(day.temp_max as int, units),
                Style::strong(celsius_color(day.temp_max as int)),
            ),
        ],
        Seq::<SpanView>::empty(),
        seq![
            styled(
                indented(rain_text(day.precipitation_probability as int), width),
                Style::colored(precipitation_band(day.precipitation_probability as int)),
            ),
        ],
        seq![
            styled(
                indented(uv_text(day.uv_index_max as int), width),
                Style::colored(uv_color(truncated_units(day.uv_index_max as int))),
            ),
        ],
        seq![
            styled(
                indented(gale_text(day.wind_speed_max as int, units), width),
                Style::colored(Color::LightGreen),
            ),
        ],
    ]
}

/// The column of one day, `width` columns wide: head, picture and foot.
/// `date` is what the date of the day was read as.
pub open spec fn day_rows(
    day: DailyForecast,
    date: Option<Date>,
    units: UnitsConfig,
    is_today: bool,
    width: nat,
) -> Seq<Seq<SpanView>> {
    day_head(day, date, is_today, width) + picture_rows(
        WeatherCondition::classified(day.weather_code as int, true),
        width,
    ) + day_foot(day, units, width)
}

fn degree_cell(celsius: i32, units: &UnitsConfig) -> (r: String)
    ensures
        r@ == degree_text(celsius as int, *units),
{
    let mut r = String::new();
    push_int(&mut r, units.temperature.truncated(celsius));
    r.push('°');
    r
}

fn low_high_cell(day: &DailyForecast, units: &UnitsConfig) -> (r: String)
    ensures
        r@ == low_high_text(*day, *units),
{
    let mut r = degree_cell(day.temp_min, units);
    push_text(&mut r, " / ");
    push_text(&mut r, degree_cell(day.temp_max, units).as_str());
    r
}

fn rain_cell(percent: i32) -> (r: String)
    ensures
        r@ == rain_text(percent as int),
{
    let mut r = String::new();
    push_int(&mut r, percent as i64);
    push_text(&mut r, "% rain");
    r
}

fn uv_cell(uv_index: i32) -> (r: String)
    ensures
        r@ == uv_text(uv_index as int),
{
    let (word, _) = uv_info(uv_index);
    let mut r = String::from_str("UV: ");
    push_int(&mut r, truncate_units(uv_index as i64));
    push_text(&mut r, " ");
    push_text(&mut r, word);
    r
}

pub(crate) fn gale_cell(kmh: i32, units: &UnitsConfig) -> (r: String)
    ensures
        r@ == gale_text(kmh as int, *units),
{
    let mut r = units.wind_speed.whole(kmh);
    push_text(&mut r, " ");
    push_text(&mut r, units.wind_speed.symbol());
    r
}

fn heading(date_text: &str, date: &Option<Date>, is_today: bool) -> (r: String)
    requires
        date matches Some(d) ==> d.well_formed(),
    ensures
        r@ == heading_text(date_text@, *date, is_today),
{
    if is_today {
        String::from_str("Today")
    } else {
        match date {
            Some(date) => day_label(date),
            None => String::from_str(date_text),
        }
    }
}

/// Appends the rows of the picture of a condition.
fn push_picture(lines: &mut Vec<Line>, condition: &WeatherCondition, width: u16)
    ensures
        lines_view(final(lines)@) == lines_view(old(lines)@) + picture_rows(
            *condition,
            width as nat,
        ),
{
    let icon = condition.icon();
    let style = Style::new().fg(condition.color());
    let mut i: usize = 0;
    while i < 5
        invariant
            i <= 5,
            style == Style::colored(condition.tint()),
            condition.icon_rows().len() == 5,
            forall|k: int| 0 <= k < 5 ==> (#[trigger] icon[k])@ == condition.icon_rows()[k],
            lines_view(lines@) == lines_view(old(lines)@) + Seq::new(
                i as nat,
                |k: int|
                    seq![
                        styled(
                            indented(condition.icon_rows()[k], width as nat),
                            Style::colored(condition.tint()),
                        ),
                    ],
            ),
        decreases 5 - i,
    {
        let row = icon[i];
        assert(row@ == condition.icon_rows()[i as int]);
        push_line(lines, Line::single(Span::styled(indent(row, width), style)));
        i += 1;
    }
}

/// The rows of the column of one day.
pub fn day_column_lines(
    day: &DailyForecast,
    date: &Option<Date>,
    units: &UnitsConfig,
    is_today: bool,
    width: u16,
) -> (lines: Vec<Line>)
    requires
        date matches Some(d) ==> d.well_formed(),
    ensures
        lines_view(lines@) == day_rows(*day, *date, *units, is_today, width as nat),
{
    let condition = WeatherCondition::from_wmo_code(day.weather_code, true);
    let head_style = if is_today {
        Style::new().fg(Color::White).bold()
    } else {
        Style::new().fg(Color::Gray)
    };
    let mut lines: Vec<Line> = Vec::new();
    let label = heading(day.date.as_str(), date, is_today);
    push_line(
        &mut lines,
        Line::single(Span::styled(center(label.as_str(), width as usize), head_style)),
    );
    push_line(&mut lines, Line::new());
    push_picture(&mut lines, &condition, width);
    let ghost blank = Seq::<SpanView>::empty();
    let ghost top = day_head(*day, *date, is_today, width as nat) + picture_rows(
        condition,
        width as nat,
    );
    assert(lines_view(lines@) == top);
    push_line(&mut lines, Line::new());

    let pair = low_high_cell(day, units);
    let mut temps = Line::new();
    temps.push(Span::styled(margin_text(pair.as_str(), width), Style::new()));
    temps.push(
        Span::styled(
            degree_cell(day.temp_min, units),
            Style::new().fg(temperature_color_celsius(day.temp_min)),
        ),
    );
    temps.push(Span::label(" / ", Style::new().fg(Color::DarkGray)));
    temps.push(
        Span::styled(
            degree_cell(day.temp_max, units),
            Style::new().fg(temperature_color_celsius(day.temp_max)).bold(),
        ),
    );
    let rain = Line::single(
        Span::styled(
            indent(rain_cell(day.precipitation_probability).as_str(), width),
            Style::new().fg(precipitation_color(day.precipitation_probability)),
        ),
    );
    let (_, uv_tint) = uv_info(day.uv_index_max);
    let uv = Line::single(
        Span::styled(indent(uv_cell(day.uv_index_max).as_str(), width), Style::new().fg(uv_tint)),
    );
    let gale = Line::single(
        Span::styled(
            indent(gale_cell(day.wind_speed_max, units).as_str(), width),
            Style::new().fg(Color::LightGreen),
        ),
    );
    let ghost bottom = seq![blank, temps@, blank, rain@, uv@, gale@];
    push_line(&mut lines, temps);
    push_line(&mut lines, Line::new());
    push_line(&mut lines, rain);
    push_line(&mut lines, uv);
    push_line(&mut lines, gale);
    assert(temps@ == day_foot(*day, *units, width as nat)[1]);
    assert(rain@ == day_foot(*day, *units, width as nat)[3]);
    assert(uv@ == day_foot(*day, *units, width as nat)[4]);
    assert(gale@ == day_foot(*day, *units, width as nat)[5]);
    assert(bottom == day_foot(*day, *units, width as nat));
    assert(lines_view(lines@) == top + bottom);
    lines
}

/// The column of one day on `area`: its rows as wide as the area, the date
/// read from the text of the day.
pub open spec fn day_column(area: Rect, day: DailyForecast, units: UnitsConfig, is_today: bool) -> PlacedView {
    placed(
        text_widget(day_rows(day, parsed_date(day.date@), units, is_today, area.width as nat)),
        area,
    )
}

/// The daily panel on `area`: its block, and a column on each of `columns`
/// for the first days of the forecast, the first of them being today.
pub open spec fn daily_panel(
    area: Rect,
    columns: Seq<Rect>,
    daily: Seq<DailyForecast>,
    units: UnitsConfig,
) -> Seq<PlacedView> {
    seq![placed(WidgetView::Block(panel_block(" 5-Day Forecast "@, Color::Magenta)), area)]
        + Seq::new(
        shown_days(daily.len()),
        |i: int| day_column(columns[i], daily[i], units, i == 0),
    )
}

/// Draws the column of one day on `area`.
pub fn render_day_column(
    frame: &mut Frame,
    area: Rect,
    day: &DailyForecast,
    units: &UnitsConfig,
    is_today: bool,
)
    ensures
        final(frame).size == old(frame).size,
        final(frame)@ == old(frame)@.push(day_column(area, *day, *units, is_today)),
{
    let date = resolve_date(day.date.as_str());
    let lines = day_column_lines(day, &date, units, is_today, area.width);
    frame.render_widget(Widget::text(lines), area);
}

/// How many days are shown of a forecast of `days` days.
pub fn days_shown(days: usize) -> (r: usize)
    ensures
        r == shown_days(days as nat),
{
    if days <= MAX_DAYS {
        days
    } else {
        MAX_DAYS
    }
}

/// What the columns of the days ask of the layout: each the same share of
/// the width, one for each day that is shown.
pub open spec fn day_shares(days: nat) -> Seq<Sizing> {
    Seq::new(shown_days(days), |i: int| Sizing::Ratio(1, shown_days(days) as u32))
}

/// What the columns of the days ask of the layout.
pub fn day_sizings(days: usize) -> (r: Vec<Sizing>)
    ensures
        r@ == day_shares(days as nat),
{
    let shown = days_shown(days);
    let mut r: Vec<Sizing> = Vec::new();
    let mut i: usize = 0;
    while i < shown
        invariant
            i <= shown,
            shown == shown_days(days as nat),
            r@ == Seq::new(i as nat, |k: int| Sizing::Ratio(1, shown as u32)),
        decreases shown - i,
    {
        r.push(Sizing::Ratio(1, shown as u32));
        i += 1;
    }
    r
}

/// Divides the inside of the daily panel evenly among the days that are
/// shown: one column for each, side by side and as high as the inside. No
/// day, no column.
pub fn day_columns(inner: Rect, days: usize) -> (columns: Vec<Rect>)
    ensures
        divides(inner, Direction::Horizontal, day_shares(days as nat), columns@),
{
    if days == 0 {
        return Vec::new();
    }
    let sizings = day_sizings(days);
    divide(inner, Direction::Horizontal, &sizings)
}

/// Draws the daily panel on `area`, the days on `columns`.
pub fn render_daily_forecast(
    frame: &mut Frame,
    area: Rect,
    columns: &Vec<Rect>,
    daily: &Vec<DailyForecast>,
    units: &UnitsConfig,
)
    requires
        columns@.len() == shown_days(daily@.len()),
    ensures
        final(frame).size == old(frame).size,
        final(frame)@ == old(frame)@ + daily_panel(area, columns@, daily@, *units),
{
    frame.render_widget(Widget::Block(Block::panel(" 5-Day Forecast ", Color::Magenta)), area);
    let ghost head = frame@;
    let shown = days_shown(daily.len());
    let mut i: usize = 0;
    while i < shown
        invariant
            i <= shown,
            shown == shown_days(daily@.len()),
            columns@.len() == shown,
            frame.size == old(frame).size,
            frame@ == head + Seq::new(
                i as nat,
                |k: int| day_column(columns@[k], daily@[k], *units, k == 0),
            ),
        decreases shown - i,
    {
        render_day_column(frame, columns[i], &daily[i], units, i == 0);
        i += 1;
    }
}

/// However many days a forecast has, the panel holds its block and at most
/// five columns, those of the first days in their order; and the column of the
/// first day is headed `Today`, whatever its date says.
pub proof fn daily_panel_shows_first_days(
    area: Rect,
    columns: Seq<Rect>,
    daily: Seq<DailyForecast>,
    units: UnitsConfig,
)
    requires
        columns.len() == shown_days(daily.len()),
    ensures
        daily_panel(area, columns, daily, units).len() == 1 + shown_days(daily.len()),
        shown_days(daily.len()) <= 5,
        daily.len() > 5 ==> shown_days(daily.len()) == 5,
        forall|i: int|
            0 <= i < shown_days(daily.len()) ==> #[trigger] daily_panel(area, columns, daily, units)[1 + i]
                == day_column(columns[i], daily[i], units, i == 0),
        forall|day: DailyForecast, date: Option<Date>, width: nat|
            (#[trigger] day_rows(day, date, units, true, width))[0][0].content == centered(
                "Today"@,
                width,
            ),
{
}

} // verus!
