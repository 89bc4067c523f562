//! The hourly list: the hours from the last one on, a window of them by the
//! scroll offset, and the rows that show them.

use vstd::prelude::*;
use crate::config::UnitsConfig;
use crate::frame::{panel_block, placed, text_widget, Block, Frame, PlacedView, Widget, WidgetView};
use crate::layout::{inner_area, minus, Rect};
use crate::models::HourlyForecast;
use crate::style::{lines_view, push_line, styled, Color, Line, Span, SpanView, Style};
use crate::text::{
    align_left, align_right, int_digits, int_to_string, left_aligned, push_repeated, push_text,
    repeated, right_aligned,
};
use crate::time::{
    day_label, day_text, hour_label, hour_text, now, parsed_hour_stamp, resolve_time, Clock,
    HourStamp, ResolvedTime,
};
use crate::ui::icons::{
    celsius_color, precipitation_band, precipitation_color, temperature_color_celsius,
    WeatherCondition,
};

verus! {

/// The positions below `upto` at which `flags` holds `true`, in ascending order.
pub open spec fn kept_below(flags: Seq<bool>, upto: nat) -> Seq<usize>
    decreases upto,
{
    if upto == 0 {
        Seq::<usize>::empty()
    } else if flags[upto - 1] {
        kept_below(flags, (upto - 1) as nat).push((upto - 1) as usize)
    } else {
        kept_below(flags, (upto - 1) as nat)
    }
}

/// The positions at which `flags` holds `true`, in ascending order.
pub open spec fn kept(flags: Seq<bool>) -> Seq<usize> {
    kept_below(flags, flags.len())
}

/// `kept_below` holds exactly the flagged positions below `upto`, each once
/// and in ascending order.
pub proof fn kept_below_is_selection(flags: Seq<bool>, upto: nat)
    requires
        upto <= flags.len(),
        flags.len() <= usize::MAX,
    ensures
        kept_below(flags, upto).len() <= upto,
        forall|k: int|
            0 <= k < kept_below(flags, upto).len() ==> (#[trigger] kept_below(flags, upto)[k])
                < upto && flags[kept_below(flags, upto)[k] as int],
        forall|j: int, k: int|
            0 <= j < k < kept_below(flags, upto).len() ==> kept_below(flags, upto)[j]
                < kept_below(flags, upto)[k],
        forall|i: int|
            0 <= i < upto && flags[i] ==> kept_below(flags, upto).contains(i as usize),
    decreases upto,
{
    if upto > 0 {
        let rest = kept_below(flags, (upto - 1) as nat);
        kept_below_is_selection(flags, (upto - 1) as nat);
        if flags[upto - 1] {
            let all = kept_below(flags, upto);
            assert(all == rest.push((upto - 1) as usize));
            assert(all[rest.len() as int] == (upto - 1) as usize);
            assert forall|i: int| 0 <= i < upto && flags[i] implies all.contains(i as usize) by {
                if i < upto - 1 {
                    let k = choose|k: int| 0 <= k < rest.len() && rest[k] == i as usize;
                    assert(all[k] == i as usize);
                } else {
                    assert(all[rest.len() as int] == i as usize);
                }
            }
        } else {
            assert forall|i: int| 0 <= i < upto && flags[i] implies kept_below(
                flags,
                upto,
            ).contains(i as usize) by {
                let k = choose|k: int| 0 <= k < rest.len() && rest[k] == i as usize;
                assert(rest[k] == i as usize);
            }
        }
    }
}

/// The positions at which `flags` holds `true`.
pub fn keep(flags: &Vec<bool>) -> (r: Vec<usize>)
    ensures
        r@ == kept(flags@),
        r@.len() <= flags@.len(),
        forall|k: int| 0 <= k < r@.len() ==> (#[trigger] r@[k]) < flags@.len() && flags@[r@[k] as int],
{
    let mut r: Vec<usize> = Vec::new();
    let mut i: usize = 0;
    while i < flags.len()
        invariant
            i <= flags@.len(),
            r@ == kept_below(flags@, i as nat),
        decreases flags@.len() - i,
    {
        if flags[i] {
            r.push(i);
        }
        i += 1;
    }
    proof {
        kept_below_is_selection(flags@, flags@.len());
    }
    r
}

/// For each timestamp, whether it lies no more than an hour before `now`.
pub open spec fn upcoming_flags(resolved: Seq<ResolvedTime>, now: Clock) -> Seq<bool> {
    Seq::new(resolved.len(), |i: int| resolved[i].is_upcoming(now))
}

/// The hours to list at `now`: those from the hour before `now` on, by their
/// position in the forecast. An hour whose time could not be resolved is left out.
pub open spec fn upcoming(resolved: Seq<ResolvedTime>, now: Clock) -> Seq<usize> {
    kept(upcoming_flags(resolved, now))
}

/// The hours to list at `now`, by their position in the forecast.
pub fn future_hours(resolved: &Vec<ResolvedTime>, now: &Clock) -> (r: Vec<usize>)
    ensures
        r@ == upcoming(resolved@, *now),
        r@.len() <= resolved@.len(),
        forall|k: int|
            0 <= k < r@.len() ==> (#[trigger] r@[k]) < resolved@.len() && resolved@[r@[k] as int].is_upcoming(
                *now,
            ),
{
    let mut flags: Vec<bool> = Vec::new();
    let mut i: usize = 0;
    while i < resolved.len()
        invariant
            i <= resolved@.len(),
            flags@ == Seq::new(i as nat, |k: int| resolved@[k].is_upcoming(*now)),
        decreases resolved@.len() - i,
    {
        flags.push(resolved[i].upcoming(now));
        i += 1;
    }
    keep(&flags)
}

/// Whether `resolved` holds, for every hour of the forecast, what its
/// timestamp says, with an instant only where the timestamp could be read.
pub open spec fn resolves(resolved: Seq<ResolvedTime>, hourly: Seq<HourlyForecast>) -> bool {
    &&& resolved.len() == hourly.len()
    &&& forall|i: int|
        0 <= i < resolved.len() ==> (#[trigger] resolved[i]).well_formed() && resolved[i].stamp
            == parsed_hour_stamp(hourly[i].time@)
}

/// The times of a forecast, each resolved on its own: what the timestamp
/// says, and its instant in this machine's time zone.
pub fn resolve_times(hourly: &Vec<HourlyForecast>) -> (r: Vec<ResolvedTime>)
    ensures
        resolves(r@, hourly@),
{
    let mut r: Vec<ResolvedTime> = Vec::new();
    let mut i: usize = 0;
    while i < hourly.len()
        invariant
            i <= hourly@.len(),
            r@.len() == i,
            forall|k: int|
                0 <= k < i ==> (#[trigger] r@[k]).well_formed() && r@[k].stamp
                    == parsed_hour_stamp(hourly@[k].time@),
        decreases hourly@.len() - i,
    {
        r.push(resolve_time(hourly[i].time.as_str()));
        i += 1;
    }
    r
}

/// The rows above the hours of the list: the column titles and the rule.
pub open spec fn header_rows() -> nat {
    2
}

/// How many hours a window of `height` rows shows at once.
pub open spec fn window_rows(height: nat) -> nat {
    minus(height as int, header_rows() as int) as nat
}

/// The largest scroll offset: as many hours as do not fit the window.
pub open spec fn max_scroll(listed: nat, height: nat) -> nat {
    minus(listed as int, window_rows(height) as int) as nat
}

/// The largest scroll offset for `listed` hours in a window of `visible_height` rows.
pub fn max_scroll_offset(listed: usize, visible_height: usize) -> (r: usize)
    ensures
        r == max_scroll(listed as nat, visible_height as nat),
        r <= listed,
{
    let rows = if visible_height >= 2 {
        visible_height - 2
    } else {
        0
    };
    if listed >= rows {
        listed - rows
    } else {
        0
    }
}

/// The largest scroll offset of the list at `now`.
pub fn max_hourly_scroll_at(resolved: &Vec<ResolvedTime>, now: &Clock, visible_height: usize) -> (r:
    usize)
    ensures
        r == max_scroll(upcoming(resolved@, *now).len(), visible_height as nat),
        r <= resolved@.len(),
{
    let listed = future_hours(resolved, now);
    max_scroll_offset(listed.len(), visible_height)
}

/// Whether `offset` is the largest scroll offset of the list at some reading
/// of the clock, with the times of the forecast resolved in some time zone.
pub open spec fn is_max_scroll_at_some_time(
    hourly: Seq<HourlyForecast>,
    visible_height: nat,
    offset: nat,
) -> bool {
    exists|resolved: Seq<ResolvedTime>, now: Clock|
        resolves(resolved, hourly) && now.well_formed() && offset == max_scroll(
            (#[trigger] upcoming(resolved, now)).len(),
            visible_height,
        )
}

/// The largest scroll offset of the list right now, by this machine's clock
/// and time zone. Whatever they say, it is no more than the forecast has hours.
pub fn get_max_hourly_scroll(hourly: &Vec<HourlyForecast>, visible_height: usize) -> (r: usize)
    ensures
        r <= hourly@.len(),
        is_max_scroll_at_some_time(hourly@, visible_height as nat, r as nat),
{
    let at = now();
    let resolved = resolve_times(hourly);
    let r = max_hourly_scroll_at(&resolved, &at, visible_height);
    assert(resolves(resolved@, hourly@) && at.well_formed() && r == max_scroll(
        upcoming(resolved@, at).len(),
        visible_height as nat,
    ));
    r
}

/// Whether every hour has its resolved time, and each is a time of the calendar.
pub open spec fn times_match(resolved: Seq<ResolvedTime>, hourly: Seq<HourlyForecast>) -> bool {
    &&& resolved.len() == hourly.len()
    &&& forall|i: int| 0 <= i < resolved.len() ==> (#[trigger] resolved[i]).well_formed()
}

/// A temperature in the chosen unit in a column of five, whole degrees with
/// the fraction cut off, and the degree sign.
pub open spec fn degrees_text(celsius: int, units: UnitsConfig) -> Seq<char> {
    right_aligned(int_digits(units.temperature.cut(celsius)), 5).push('°')
}

/// A chance of precipitation as ` 40%`, in a column of six.
pub open spec fn chance_text(percent: int) -> Seq<char> {
    right_aligned(right_aligned(int_digits(percent), 3).push('%'), 6)
}

/// An amount of precipitation in the chosen unit, shown only where some falls.
pub open spec fn amount_text(amount: Option<i32>, units: UnitsConfig) -> Seq<char> {
    match amount {
        Some(mm) if mm > 0 => right_aligned(
            right_aligned(units.precipitation.hundredths_text(mm as int), 6) + seq![' ']
                + units.precipitation.symbol_text(),
            6,
        ),
        _ => repeated(' ', 6),
    }
}

/// A wind speed in the chosen unit: whole figures in a column of seven, and the unit.
pub open spec fn wind_text(kmh: int, units: UnitsConfig) -> Seq<char> {
    right_aligned(units.wind_speed.whole_text(kmh), 7) + seq![' ']
        + units.wind_speed.symbol_text()
}

/// The small picture of a condition with its margins.
pub open spec fn glyph_text(condition: WeatherCondition) -> Seq<char> {
    "  "@ + condition.small_icon_text() + " "@
}

/// Whether an hour of the day counts as daytime for its picture: 6 to 20 o'clock.
pub open spec fn is_daytime(hour: nat) -> bool {
    6 <= hour <= 20
}

/// The titles of the columns.
pub open spec fn title_row() -> Seq<SpanView> {
    let style = Style::strong(Color::Cyan);
    seq![
        styled(left_aligned("Date"@, 10), style),
        styled(right_aligned("Time"@, 6), style),
        styled(right_aligned("Temp"@, 6), style),
        styled(right_aligned("Feels"@, 8), style),
        styled(right_aligned(""@, 4), style),
        styled(right_aligned("Wind"@, 8), style),
        styled(right_aligned("Precip"@, 12), style),
    ]
}

/// The rule under the titles, as wide as the panel.
pub open spec fn rule_row(width: nat) -> Seq<SpanView> {
    seq![styled(repeated('─', width), Style::colored(Color::DarkGray))]
}

/// The note that more hours follow below the window.
pub open spec fn more_row() -> Seq<SpanView> {
    seq![styled("          ↓ more"@, Style::colored(Color::DarkGray))]
}

/// The row of one hour. `dated` says whether it names its day, `current`
/// whether it is the first row of the unscrolled list.
pub open spec fn hour_row(
    sample: HourlyForecast,
    stamp: HourStamp,
    units: UnitsConfig,
    dated: bool,
    current: bool,
) -> Seq<SpanView> {
    let condition = WeatherCondition::classified(
        sample.weather_code as int,
        is_daytime(stamp.hour as nat),
    );
    let chance = precipitation_band(sample.precipitation_probability as int);
    seq![
        styled(
            left_aligned(
                if dated {
                    day_text(stamp.date)
                } else {
                    Seq::<char>::empty()
                },
                10,
            ),
            Style::strong(Color::Magenta),
        ),
        styled(
            right_aligned(hour_text(stamp.hour as nat), 6),
            if current {
                Style::strong(Color::White)
            } else {
                Style::colored(Color::Gray)
            },
        ),
        styled(
            degrees_text(sample.temperature as int, units),
            Style::colored(celsius_color(sample.temperature as int)),
        ),
        styled(
            degrees_text(sample.apparent_temperature as int, units),
            Style::colored(Color::Gray),
        ),
        styled(glyph_text(condition), Style::colored(condition.tint())),
        styled(wind_text(sample.wind_speed as int, units), Style::colored(Color::LightGreen)),
        styled(chance_text(sample.precipitation_probability as int), Style::colored(chance)),
        styled(amount_text(sample.precipitation, units), Style::colored(chance)),
    ]
}

fn degrees_cell(celsius: i32, units: &UnitsConfig) -> (r: String)
    ensures
        r@ == degrees_text(celsius as int, *units),
{
    let mut r = align_right(int_to_string(units.temperature.truncated(celsius)).as_str(), 5);
    r.push('°');
    r
}

fn chance_cell(percent: i32) -> (r: String)
    ensures
        r@ == chance_text(percent as int),
{
    let mut inner = align_right(int_to_string(percent as i64).as_str(), 3);
    inner.push('%');
    align_right(inner.as_str(), 6)
}

fn amount_cell(amount: Option<i32>, units: &UnitsConfig) -> (r: String)
    ensures
        r@ == amount_text(amount, *units),
{
    match amount {
        Some(mm) if mm > 0 => {
            let mut inner = align_right(units.precipitation.hundredths(mm).as_str(), 6);
            inner.push(' ');
            push_text(&mut inner, units.precipitation.symbol());
            align_right(inner.as_str(), 6)
        },
        _ => {
            let mut r = String::new();
            push_repeated(&mut r, ' ', 6);
            r
        },
    }
}

fn wind_cell(kmh: i32, units: &UnitsConfig) -> (r: String)
    ensures
        r@ == wind_text(kmh as int, *units),
{
    let mut r = align_right(units.wind_speed.whole(kmh).as_str(), 7);
    r.push(' ');
    push_text(&mut r, units.wind_speed.symbol());
    r
}

fn glyph_cell(condition: &WeatherCondition) -> (r: String)
    ensures
        r@ == glyph_text(*condition),
{
    let mut r = String::from_str("  ");
    push_text(&mut r, condition.small_icon());
    push_text(&mut r, " ");
    r
}

fn title_line() -> (r: Line)
    ensures
        r@ == title_row(),
{
    let style = Style::new().fg(Color::Cyan).bold();
    let mut r = Line::new();
    r.push(Span::styled(align_left("Date", 10), style));
    r.push(Span::styled(align_right("Time", 6), style));
    r.push(Span::styled(align_right("Temp", 6), style));
    r.push(Span::styled(align_right("Feels", 8), style));
    r.push(Span::styled(align_right("", 4), style));
    r.push(Span::styled(align_right("Wind", 8), style));
    r.push(Span::styled(align_right("Precip", 12), style));
    r
}

fn rule_line(width: u16) -> (r: Line)
    ensures
        r@ == rule_row(width as nat),
{
    let mut text = String::new();
    push_repeated(&mut text, '─', width as usize);
    Line::single(Span::styled(text, Style::new().fg(Color::DarkGray)))
}

/// The row of one hour.
pub fn hour_line(
    sample: &HourlyForecast,
    stamp: &HourStamp,
    units: &UnitsConfig,
    dated: bool,
    current: bool,
) -> (r: Line)
    requires
        stamp.well_formed(),
    ensures
        r@ == hour_row(*sample, *stamp, *units, dated, current),
{
    let is_day = 6 <= stamp.hour && stamp.hour <= 20;
    let condition = WeatherCondition::from_wmo_code(sample.weather_code, is_day);
    let chance = precipitation_color(sample.precipitation_probability);
    let date_text = if dated {
        day_label(&stamp.date)
    } else {
        String::new()
    };
    let time_style = if current {
        Style::new().fg(Color::White).bold()
    } else {
        Style::new().fg(Color::Gray)
    };
    let mut r = Line::new();
    r.push(Span::styled(align_left(date_text.as_str(), 10), Style::new().fg(Color::Magenta).bold()));
    r.push(Span::styled(align_right(hour_label(stamp.hour).as_str(), 6), time_style));
    r.push(
        Span::styled(
            degrees_cell(sample.temperature, units),
            Style::new().fg(temperature_color_celsius(sample.temperature)),
        ),
    );
    r.push(
        Span::styled(
            degrees_cell(sample.apparent_temperature, units),
            Style::new().fg(Color::Gray),
        ),
    );
    r.push(Span::styled(glyph_cell(&condition), Style::new().fg(condition.color())));
    r.push(Span::styled(wind_cell(sample.wind_speed, units), Style::new().fg(Color::LightGreen)));
    r.push(Span::styled(chance_cell(sample.precipitation_probability), Style::new().fg(chance)));
    r.push(Span::styled(amount_cell(sample.precipitation, units), Style::new().fg(chance)));
    r
}

/// What the listed hour at position `k` says of its time.
pub open spec fn listed_stamp(resolved: Seq<ResolvedTime>, listed: Seq<usize>, k: int) -> HourStamp {
    resolved[listed[k] as int].stamp->Some_0
}

/// Whether the listed hour at position `k` is a midnight at which the date
/// changes from the hour listed before it.
pub open spec fn opens_day(resolved: Seq<ResolvedTime>, listed: Seq<usize>, k: int) -> bool {
    listed_stamp(resolved, listed, k).hour == 0 && !listed_stamp(resolved, listed, k).date.same_day(
        listed_stamp(resolved, listed, k - 1).date,
    )
}

/// How many hours the window shows: those from the scroll offset on, as far
/// as the window has rows.
pub open spec fn shown_rows(listed: nat, scroll: nat, height: nat) -> nat {
    let left = minus(listed as int, scroll as int);
    if left <= window_rows(height) {
        left as nat
    } else {
        window_rows(height)
    }
}

/// Whether hours are listed beyond the window.
pub open spec fn more_below(listed: nat, scroll: nat, height: nat) -> bool {
    scroll + window_rows(height) < listed
}

/// The row `i` of the window. The first row names its day, and so does a
/// midnight at which the date changes; the first row of the unscrolled list
/// is the current hour.
pub open spec fn window_row(
    hourly: Seq<HourlyForecast>,
    resolved: Seq<ResolvedTime>,
    listed: Seq<usize>,
    units: UnitsConfig,
    scroll: nat,
    i: int,
) -> Seq<SpanView> {
    hour_row(
        hourly[listed[scroll + i] as int],
        listed_stamp(resolved, listed, scroll + i),
        units,
        i == 0 || opens_day(resolved, listed, scroll + i),
        i == 0 && scroll == 0,
    )
}

/// The rows of the list in an area of the given size: titles, rule, the
/// window of hours, and the note where more follow.
pub open spec fn hourly_rows(
    hourly: Seq<HourlyForecast>,
    resolved: Seq<ResolvedTime>,
    now: Clock,
    units: UnitsConfig,
    scroll: nat,
    inner: Rect,
) -> Seq<Seq<SpanView>> {
    let listed = upcoming(resolved, now);
    let shown = shown_rows(listed.len(), scroll, inner.height as nat);
    seq![title_row(), rule_row(inner.width as nat)] + Seq::new(
        shown,
        |i: int| window_row(hourly, resolved, listed, units, scroll, i),
    ) + (if more_below(listed.len(), scroll, inner.height as nat) {
        seq![more_row()]
    } else {
        Seq::<Seq<SpanView>>::empty()
    })
}

/// The hourly panel on `area`: its block, and the rows inside the border.
pub open spec fn hourly_panel(
    area: Rect,
    hourly: Seq<HourlyForecast>,
    resolved: Seq<ResolvedTime>,
    now: Clock,
    units: UnitsConfig,
    scroll: nat,
) -> Seq<PlacedView> {
    seq![
        placed(WidgetView::Block(panel_block(" Hourly Forecast "@, Color::Yellow)), area),
        placed(
            text_widget(hourly_rows(hourly, resolved, now, units, scroll, area.inside_border())),
            area.inside_border(),
        ),
    ]
}

fn more_line() -> (r: Line)
    ensures
        r@ == more_row(),
{
    Line::single(Span::label("          ↓ more", Style::new().fg(Color::DarkGray)))
}

/// The rows of the list for an area of the size of `inner`.
pub fn hourly_lines(
    hourly: &Vec<HourlyForecast>,
    resolved: &Vec<ResolvedTime>,
    now: &Clock,
    units: &UnitsConfig,
    scroll_offset: usize,
    inner: Rect,
) -> (lines: Vec<Line>)
    requires
        times_match(resolved@, hourly@),
    ensures
        lines_view(lines@) == hourly_rows(
            hourly@,
            resolved@,
            *now,
            *units,
            scroll_offset as nat,
            inner,
        ),
{
    let listed = future_hours(resolved, now);
    let rows: usize = if inner.height >= 2 {
        (inner.height - 2) as usize
    } else {
        0
    };
    let left: usize = if listed.len() >= scroll_offset {
        listed.len() - scroll_offset
    } else {
        0
    };
    let shown: usize = if left <= rows {
        left
    } else {
        rows
    };
    let mut lines: Vec<Line> = Vec::new();
    push_line(&mut lines, title_line());
    push_line(&mut lines, rule_line(inner.width));
    let ghost head = seq![title_row(), rule_row(inner.width as nat)];
    let mut i: usize = 0;
    while i < shown
        invariant
            i <= shown,
            shown == shown_rows(listed@.len(), scroll_offset as nat, inner.height as nat),
            shown > 0 ==> scroll_offset + shown <= listed@.len() <= usize::MAX,
            times_match(resolved@, hourly@),
            listed@ == upcoming(resolved@, *now),
            forall|k: int|
                0 <= k < listed@.len() ==> (#[trigger] listed@[k]) < resolved@.len()
                    && resolved@[listed@[k] as int].is_upcoming(*now),
            lines_view(lines@) == head + Seq::new(
                i as nat,
                |j: int| window_row(hourly@, resolved@, listed@, *units, scroll_offset as nat, j),
            ),
        decreases shown - i,
    {
        let k = scroll_offset + i;
        let at = listed[k];
        assert(resolved@[at as int].well_formed());
        let stamp = match resolved[at].stamp {
            Some(stamp) => stamp,
            None => HourStamp { date: now.local.date, hour: 0, minute: 0 },
        };
        let dated = if i == 0 {
            true
        } else {
            let before = listed[k - 1];
            assert(resolved@[before as int].well_formed());
            match resolved[before].stamp {
                Some(previous) => stamp.hour == 0 && !stamp.date.is_same_day(&previous.date),
                None => true,
            }
        };
        let line = hour_line(&hourly[at], &stamp, units, dated, i == 0 && scroll_offset == 0);
        push_line(&mut lines, line);
        i += 1;
        assert(lines_view(lines@) == head + Seq::new(
            i as nat,
            |j: int| window_row(hourly@, resolved@, listed@, *units, scroll_offset as nat, j),
        ));
    }
    if listed.len() > scroll_offset && listed.len() - scroll_offset > rows {
        push_line(&mut lines, more_line());
    }
    lines
}

/// Draws the hourly panel on `area`: the hours from the one before `now` on,
/// a window of them from `scroll_offset`.
pub fn render_hourly_forecast(
    frame: &mut Frame,
    area: Rect,
    hourly: &Vec<HourlyForecast>,
    resolved: &Vec<ResolvedTime>,
    units: &UnitsConfig,
    scroll_offset: usize,
    now: &Clock,
)
    requires
        times_match(resolved@, hourly@),
    ensures
        final(frame).size == old(frame).size,
        final(frame)@ == old(frame)@ + hourly_panel(
            area,
            hourly@,
            resolved@,
            *now,
            *units,
            scroll_offset as nat,
        ),
{
    let inner = inner_area(area);
    frame.render_widget(Widget::Block(Block::panel(" Hourly Forecast ", Color::Yellow)), area);
    let lines = hourly_lines(hourly, resolved, now, units, scroll_offset, inner);
    frame.render_widget(Widget::text(lines), inner);
}

/// The list takes the hours from one hour before now on, all of them and no
/// other, in the order of the forecast.
pub proof fn list_takes_the_upcoming_hours(resolved: Seq<ResolvedTime>, now: Clock)
    requires
        resolved.len() <= usize::MAX,
    ensures
        forall|k: int|
            0 <= k < upcoming(resolved, now).len() ==> (#[trigger] upcoming(resolved, now)[k])
                < resolved.len() && resolved[upcoming(resolved, now)[k] as int].is_upcoming(now),
        forall|i: int|
            0 <= i < resolved.len() && (#[trigger] resolved[i]).is_upcoming(now) ==> upcoming(
                resolved,
                now,
            ).contains(i as usize),
        forall|j: int, k: int|
            0 <= j < k < upcoming(resolved, now).len() ==> upcoming(resolved, now)[j] < upcoming(
                resolved,
                now,
            )[k],
{
    let flags = upcoming_flags(resolved, now);
    kept_below_is_selection(flags, flags.len());
    assert forall|i: int|
        0 <= i < resolved.len() && (#[trigger] resolved[i]).is_upcoming(now) implies upcoming(
        resolved,
        now,
    ).contains(i as usize) by {
        assert(flags[i]);
    }
}

/// The window never shows more hours than it has rows or than are listed
/// from the scroll offset on, and with the offset at its largest or beyond
/// no hour is left below the window.
pub proof fn window_fits(listed: nat, scroll: nat, height: nat)
    ensures
        shown_rows(listed, scroll, height) <= window_rows(height),
        scroll + shown_rows(listed, scroll, height) <= listed || shown_rows(listed, scroll, height)
            == 0,
        scroll >= max_scroll(listed, height) ==> !more_below(listed, scroll, height),
        scroll < max_scroll(listed, height) ==> more_below(listed, scroll, height),
{
}

} // verus!
