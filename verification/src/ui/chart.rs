//! Today's chart: temperature and chance of rain, one column for each hour of
//! the day that the clock shows.

use vstd::prelude::*;
use crate::config::UnitsConfig;
use crate::frame::{panel_block, placed, text_widget, Block, Frame, PlacedView, Widget, WidgetView};
use crate::layout::{inner_area, minus, Rect};
use crate::models::HourlyForecast;
use crate::style::{lines_view, push_line, raw, styled, Color, Line, Span, SpanView, Style};
use crate::text::{
    align_right, int_digits, int_to_string, nat_digits, push_nat, push_repeated, repeated,
    right_aligned,
};
use crate::time::{Clock, ResolvedTime};
use crate::ui::hourly::{keep, kept, times_match};
use crate::ui::icons::{celsius_color, orange, temperature_color_celsius};

verus! {

/// The rows of the plot.
pub const CHART_HEIGHT: usize = 8;

/// The columns left of the plot, for the figures of the temperature axis.
pub const LABEL_WIDTH: usize = 6;

/// For each timestamp, whether it names the day that `now` shows.
pub open spec fn today_flags(resolved: Seq<ResolvedTime>, now: Clock) -> Seq<bool> {
    Seq::new(resolved.len(), |i: int| resolved[i].is_on_day_of(now))
}

/// The hours of the day that `now` shows, early or late, by their position in
/// the forecast.
pub open spec fn todays(resolved: Seq<ResolvedTime>, now: Clock) -> Seq<usize> {
    kept(today_flags(resolved, now))
}

/// The hours of the day that `now` shows, by their position in the forecast.
pub fn today_hours(resolved: &Vec<ResolvedTime>, now: &Clock) -> (r: Vec<usize>)
    ensures
        r@ == todays(resolved@, *now),
        r@.len() <= resolved@.len(),
        forall|k: int|
            0 <= k < r@.len() ==> (#[trigger] r@[k]) < resolved@.len() && resolved@[r@[k] as int].is_on_day_of(
                *now,
            ),
{
    let mut flags: Vec<bool> = Vec::new();
    let mut i: usize = 0;
    while i < resolved.len()
        invariant
            i <= resolved@.len(),
            flags@ == Seq::new(i as nat, |k: int| resolved@[k].is_on_day_of(*now)),
        decreases resolved@.len() - i,
    {
        flags.push(resolved[i].on_day_of(now));
        i += 1;
    }
    keep(&flags)
}

/// The lowest temperature among the first `upto` of the picked hours.
pub open spec fn coldest(hourly: Seq<HourlyForecast>, picked: Seq<usize>, upto: nat) -> int
    decreases upto,
{
    if upto <= 1 {
        hourly[picked[0] as int].temperature as int
    } else {
        let rest = coldest(hourly, picked, (upto - 1) as nat);
        let last = hourly[picked[upto - 1] as int].temperature as int;
        if last < rest {
            last
        } else {
            rest
        }
    }
}

/// The highest temperature among the first `upto` of the picked hours.
pub open spec fn warmest(hourly: Seq<HourlyForecast>, picked: Seq<usize>, upto: nat) -> int
    decreases upto,
{
    if upto <= 1 {
        hourly[picked[0] as int].temperature as int
    } else {
        let rest = warmest(hourly, picked, (upto - 1) as nat);
        let last = hourly[picked[upto - 1] as int].temperature as int;
        if last > rest {
            last
        } else {
            rest
        }
    }
}

/// The span of temperatures that the plot is scaled to: from the coldest to
/// the warmest of the picked hours, and at least one degree.
pub open spec fn plot_range(hourly: Seq<HourlyForecast>, picked: Seq<usize>) -> int {
    let span = warmest(hourly, picked, picked.len()) - coldest(hourly, picked, picked.len());
    if span < 1000 {
        1000
    } else {
        span
    }
}

/// The coldest and the warmest of the picked hours bound the temperature of
/// each, and each is the temperature of one of them: no other hour of the
/// forecast has a part in them.
pub proof fn extremes_are_of_picked(hourly: Seq<HourlyForecast>, picked: Seq<usize>, upto: nat)
    requires
        1 <= upto <= picked.len(),
    ensures
        forall|k: int|
            0 <= k < upto ==> coldest(hourly, picked, upto) <= (#[trigger] hourly[picked[k] as int]).temperature
                <= warmest(hourly, picked, upto),
        exists|k: int|
            0 <= k < upto && coldest(hourly, picked, upto) == (#[trigger] hourly[picked[k] as int]).temperature,
        exists|k: int|
            0 <= k < upto && warmest(hourly, picked, upto) == (#[trigger] hourly[picked[k] as int]).temperature,
    decreases upto,
{
    if upto > 1 {
        extremes_are_of_picked(hourly, picked, (upto - 1) as nat);
        let low = choose|k: int|
            0 <= k < upto - 1 && coldest(hourly, picked, (upto - 1) as nat) == (
            #[trigger] hourly[picked[k] as int]).temperature;
        let high = choose|k: int|
            0 <= k < upto - 1 && warmest(hourly, picked, (upto - 1) as nat) == (
            #[trigger] hourly[picked[k] as int]).temperature;
        let last = upto - 1;
        if hourly[picked[last] as int].temperature < coldest(hourly, picked, (upto - 1) as nat) {
            assert(coldest(hourly, picked, upto) == hourly[picked[last] as int].temperature);
        } else {
            assert(coldest(hourly, picked, upto) == hourly[picked[low] as int].temperature);
        }
        if hourly[picked[last] as int].temperature > warmest(hourly, picked, (upto - 1) as nat) {
            assert(warmest(hourly, picked, upto) == hourly[picked[last] as int].temperature);
        } else {
            assert(warmest(hourly, picked, upto) == hourly[picked[high] as int].temperature);
        }
    } else {
        assert(coldest(hourly, picked, upto) == hourly[picked[0] as int].temperature);
        assert(warmest(hourly, picked, upto) == hourly[picked[0] as int].temperature);
    }
}

/// The coldest and warmest temperature among the picked hours.
pub fn extremes(hourly: &Vec<HourlyForecast>, picked: &Vec<usize>) -> (r: (i32, i32))
    requires
        picked@.len() > 0,
        forall|k: int| 0 <= k < picked@.len() ==> (#[trigger] picked@[k]) < hourly@.len(),
    ensures
        r.0 == coldest(hourly@, picked@, picked@.len()),
        r.1 == warmest(hourly@, picked@, picked@.len()),
        r.0 <= r.1,
{
    let mut low = hourly[picked[0]].temperature;
    let mut high = low;
    let mut i: usize = 1;
    while i < picked.len()
        invariant
            1 <= i <= picked@.len(),
            forall|k: int| 0 <= k < picked@.len() ==> (#[trigger] picked@[k]) < hourly@.len(),
            low == coldest(hourly@, picked@, i as nat),
            high == warmest(hourly@, picked@, i as nat),
            low <= high,
        decreases picked@.len() - i,
    {
        let t = hourly[picked[i]].temperature;
        if t < low {
            low = t;
        }
        if t > high {
            high = t;
        }
        i += 1;
    }
    (low, high)
}

/// The row of the plot, counted from the top, on which a temperature lies:
/// the warmest on row 0, the coldest on the last row, in between to the
/// nearest row.
pub open spec fn temperature_row(temperature: int, low: int, range: int) -> int {
    (2 * (7 * (range - (temperature - low))) + range) / (2 * range)
}

/// The row of the plot, counted from the top, on which a chance of rain lies:
/// 100 percent on row 0, none on the last row, in between to the nearest row.
pub open spec fn rain_row(percent: int) -> int {
    if percent >= 100 {
        0
    } else {
        (2 * (7 * (100 - percent)) + 100) / 200
    }
}

/// The row of the plot on which a temperature lies, for a plot from `low`
/// over `range`.
pub fn row_of_temperature(temperature: i32, low: i32, range: i64) -> (r: i64)
    requires
        low <= temperature,
        temperature - low <= range,
        1000 <= range <= 0x1_0000_0000,
    ensures
        r == temperature_row(temperature as int, low as int, range as int),
        0 <= r <= 7,
{
    let above: i64 = temperature as i64 - low as i64;
    let n: i64 = 2 * (7 * (range - above)) + range;
    let r = n / (2 * range);
    assert(0 <= r <= 7) by (nonlinear_arith)
        requires
            r == n as int / (2 * range as int),
            0 <= n <= 15 * range,
            range > 0,
    ;
    r
}

/// The row of the plot on which a chance of rain lies.
pub fn row_of_rain(percent: i32) -> (r: i64)
    ensures
        r == rain_row(percent as int),
        0 <= r,
{
    if percent >= 100 {
        0
    } else {
        (2 * (7 * (100 - percent as i64)) + 100) / 200
    }
}

/// The color of a chance of rain in the plot.
pub open spec fn rain_color(percent: int) -> Color {
    if 0 <= percent <= 20 {
        Color::Green
    } else if 21 <= percent <= 50 {
        Color::Yellow
    } else if 51 <= percent <= 70 {
        orange()
    } else {
        Color::Cyan
    }
}

/// The color of a chance of rain in the plot.
pub fn rain_to_color(rain: i32) -> (r: Color)
    ensures
        r == rain_color(rain as int),
{
    if 0 <= rain && rain <= 20 {
        Color::Green
    } else if 21 <= rain && rain <= 50 {
        Color::Yellow
    } else if 51 <= rain && rain <= 70 {
        Color::Rgb(255, 165, 0)
    } else {
        Color::Cyan
    }
}

/// How many characters an hour gets: the width right of the labels, shared
/// evenly, and at least one.
pub open spec fn slot_width(width: nat, hours: nat) -> nat {
    let each = minus(width as int, 6) / (hours as int);
    if each < 1 {
        1
    } else {
        each as nat
    }
}

/// The padding left of the mark of an hour.
pub open spec fn gap_before(slot: nat) -> nat {
    ((slot - 1) / 2) as nat
}

/// The padding right of the mark of an hour.
pub open spec fn gap_after(slot: nat) -> nat {
    (slot - 1 - gap_before(slot)) as nat
}

/// A mark with its padding: `before` and `after` characters of `fill`, each
/// a span of its own where there are any.
pub open spec fn padded(
    mark: SpanView,
    before: nat,
    after: nat,
    fill: char,
    fill_style: Style,
) -> Seq<SpanView> {
    (if before > 0 {
        seq![styled(repeated(fill, before), fill_style)]
    } else {
        Seq::<SpanView>::empty()
    }) + seq![mark] + (if after > 0 {
        seq![styled(repeated(fill, after), fill_style)]
    } else {
        Seq::<SpanView>::empty()
    })
}

/// Appends a mark with its padding.
fn push_padded(
    line: &mut Line,
    mark: Span,
    before: usize,
    after: usize,
    fill: char,
    fill_style: Style,
)
    ensures
        final(line)@ == old(line)@ + padded(mark@, before as nat, after as nat, fill, fill_style),
{
    if before > 0 {
        let mut text = String::new();
        push_repeated(&mut text, fill, before);
        line.push(Span::styled(text, fill_style));
    }
    line.push(mark);
    if after > 0 {
        let mut text = String::new();
        push_repeated(&mut text, fill, after);
        line.push(Span::styled(text, fill_style));
    }
}

/// The mark of one hour on one row of the plot: a diamond where temperature
/// and rain meet, a disc for the temperature, a ring for the rain, else a
/// blank. The current hour is white and bold.
pub open spec fn plot_mark(
    row: int,
    sample: HourlyForecast,
    low: int,
    range: int,
    current: bool,
) -> SpanView {
    let on_temperature = row == temperature_row(sample.temperature as int, low, range);
    let on_rain = row == rain_row(sample.precipitation_probability as int);
    let glyph = if on_temperature && on_rain {
        '◆'
    } else if on_temperature {
        '●'
    } else if on_rain {
        '○'
    } else {
        ' '
    };
    let color = if on_temperature && on_rain {
        if current {
            Color::White
        } else {
            Color::Yellow
        }
    } else if on_temperature {
        if current {
            Color::White
        } else {
            celsius_color(sample.temperature as int)
        }
    } else if on_rain {
        if current {
            Color::White
        } else {
            rain_color(sample.precipitation_probability as int)
        }
    } else {
        Color::DarkGray
    };
    styled(seq![glyph], Style { fg: Some(color), bold: current })
}

fn plot_mark_span(row: usize, sample: &HourlyForecast, low: i32, range: i64, current: bool) -> (r:
    Span)
    requires
        row < CHART_HEIGHT,
        low <= sample.temperature,
        sample.temperature - low <= range,
        1000 <= range <= 0x1_0000_0000,
    ensures
        r@ == plot_mark(row as int, *sample, low as int, range as int, current),
{
    let on_temperature = row as i64 == row_of_temperature(sample.temperature, low, range);
    let on_rain = row as i64 == row_of_rain(sample.precipitation_probability);
    let glyph = if on_temperature && on_rain {
        '◆'
    } else if on_temperature {
        '●'
    } else if on_rain {
        '○'
    } else {
        ' '
    };
    let color = if on_temperature && on_rain {
        if current {
            Color::White
        } else {
            Color::Yellow
        }
    } else if on_temperature {
        if current {
            Color::White
        } else {
            temperature_color_celsius(sample.temperature)
        }
    } else if on_rain {
        if current {
            Color::White
        } else {
            rain_to_color(sample.precipitation_probability)
        }
    } else {
        Color::DarkGray
    };
    let mut text = String::new();
    text.push(glyph);
    assert(text@ == seq![glyph]);
    Span::styled(text, Style { fg: Some(color), bold: current })
}

/// What a plot is drawn from: the forecast with its resolved times, the hours
/// picked for today, the hour that the clock shows, the units, and the width
/// of the area.
pub struct Plot {
    pub hourly: Seq<HourlyForecast>,
    pub resolved: Seq<ResolvedTime>,
    pub picked: Seq<usize>,
    pub hour_now: nat,
    pub units: UnitsConfig,
    pub width: nat,
}

impl Plot {
    /// Some hour is picked, every picked hour is one of the forecast, and its
    /// time could be read.
    pub open spec fn well_formed(self) -> bool {
        &&& self.picked.len() > 0
        &&& self.resolved.len() == self.hourly.len()
        &&& forall|k: int|
            0 <= k < self.picked.len() ==> (#[trigger] self.picked[k]) < self.hourly.len()
                && self.resolved[self.picked[k] as int].stamp is Some
    }

    /// The coldest of the picked hours.
    pub open spec fn low(self) -> int {
        coldest(self.hourly, self.picked, self.picked.len())
    }

    /// The warmest of the picked hours.
    pub open spec fn high(self) -> int {
        warmest(self.hourly, self.picked, self.picked.len())
    }

    /// The span of temperatures that the plot is scaled to.
    pub open spec fn range(self) -> int {
        plot_range(self.hourly, self.picked)
    }

    /// How many characters an hour gets.
    pub open spec fn slot(self) -> nat {
        slot_width(self.width, self.picked.len())
    }

    /// The `i`-th hour of the plot.
    pub open spec fn sample(self, i: int) -> HourlyForecast {
        self.hourly[self.picked[i] as int]
    }

    /// The hour of the day of the `i`-th hour of the plot.
    pub open spec fn hour(self, i: int) -> nat {
        self.resolved[self.picked[i] as int].stamp->Some_0.hour as nat
    }

    /// The padding right of the `i`-th mark: none after the last.
    pub open spec fn after(self, i: int) -> nat {
        if i < self.picked.len() - 1 {
            gap_after(self.slot())
        } else {
            0
        }
    }

    /// The mark of the `i`-th hour on `row`, with its padding of blanks.
    pub open spec fn cell(self, row: int, i: int) -> Seq<SpanView> {
        padded(
            plot_mark(row, self.sample(i), self.low(), self.range(), self.hour(i) == self.hour_now),
            gap_before(self.slot()),
            self.after(i),
            ' ',
            Style::plain(),
        )
    }

    /// The marks of the first `upto` hours on `row`.
    pub open spec fn cells(self, row: int, upto: nat) -> Seq<SpanView>
        decreases upto,
    {
        if upto == 0 {
            Seq::<SpanView>::empty()
        } else {
            self.cells(row, (upto - 1) as nat) + self.cell(row, upto - 1)
        }
    }

    /// The figure left of `row`: the warmest temperature on the top row, the
    /// coldest on the bottom row, in the chosen unit and whole degrees.
    pub open spec fn figure(self, row: int) -> SpanView {
        if row == 0 {
            styled(
                right_aligned(int_digits(self.units.temperature.cut(self.high())), 5),
                Style::colored(Color::DarkGray),
            )
        } else if row == CHART_HEIGHT - 1 {
            styled(
                right_aligned(int_digits(self.units.temperature.cut(self.low())), 5),
                Style::colored(Color::DarkGray),
            )
        } else {
            raw("     "@)
        }
    }

    /// One row of the plot: figure, axis, and the mark of every hour.
    pub open spec fn row(self, row: int) -> Seq<SpanView> {
        seq![self.figure(row), styled("│"@, Style::colored(Color::DarkGray))] + self.cells(
            row,
            self.picked.len(),
        )
    }

    /// The label of the `i`-th hour below the plot, with its padding of rule.
    pub open spec fn tick(self, i: int) -> Seq<SpanView> {
        padded(
            hour_tick(self.hour(i), self.hour(i) == self.hour_now),
            gap_before(self.slot()),
            self.after(i),
            '─',
            Style::colored(Color::DarkGray),
        )
    }

    /// The labels of the first `upto` hours.
    pub open spec fn ticks(self, upto: nat) -> Seq<SpanView>
        decreases upto,
    {
        if upto == 0 {
            Seq::<SpanView>::empty()
        } else {
            self.ticks((upto - 1) as nat) + self.tick(upto - 1)
        }
    }

    /// The row of hour labels below the plot.
    pub open spec fn axis(self) -> Seq<SpanView> {
        seq![raw("     "@), styled("└"@, Style::colored(Color::DarkGray))] + self.ticks(
            self.picked.len(),
        )
    }

    /// All rows of the chart: the plot from the top, the hour labels, the legend.
    pub open spec fn rows(self) -> Seq<Seq<SpanView>> {
        Seq::new(CHART_HEIGHT as nat, |row: int| self.row(row)).push(self.axis()).push(
            legend_row(),
        )
    }
}

/// The label of an hour below the plot: `0`, `6`, `N` for noon and `6` at the
/// quarters of the day, the hour on the dial for the current hour, a piece of
/// rule for any other. The current hour is white and bold.
pub open spec fn hour_tick(hour: nat, current: bool) -> SpanView {
    let labelled = hour % 6 == 0 || current;
    let text = if !labelled {
        "─"@
    } else if hour == 0 {
        "0"@
    } else if hour == 6 {
        "6"@
    } else if hour == 12 {
        "N"@
    } else if hour == 18 {
        "6"@
    } else {
        nat_digits(hour % 12)
    };
    let style = if current {
        Style::strong(Color::White)
    } else if labelled {
        Style::colored(Color::Gray)
    } else {
        Style::colored(Color::DarkGray)
    };
    styled(text, style)
}

/// The legend under the chart.
pub open spec fn legend_row() -> Seq<SpanView> {
    seq![
        raw("      "@),
        styled("●"@, Style::colored(Color::Yellow)),
        styled(" Temp  "@, Style::colored(Color::DarkGray)),
        styled("○"@, Style::colored(Color::Cyan)),
        styled(" Rain  "@, Style::colored(Color::DarkGray)),
        styled("0"@, Style::colored(Color::Gray)),
        styled("=12am "@, Style::colored(Color::DarkGray)),
        styled("N"@, Style::colored(Color::Gray)),
        styled("=Noon "@, Style::colored(Color::DarkGray)),
        styled("6"@, Style::colored(Color::Gray)),
        styled("=6am/pm"@, Style::colored(Color::DarkGray)),
    ]
}

/// The label of an hour below the plot.
pub fn hour_tick_span(hour: u32, current: bool) -> (r: Span)
    ensures
        r@ == hour_tick(hour as nat, current),
{
    let labelled = hour % 6 == 0 || current;
    let style = if current {
        Style::new().fg(Color::White).bold()
    } else if labelled {
        Style::new().fg(Color::Gray)
    } else {
        Style::new().fg(Color::DarkGray)
    };
    if !labelled {
        Span::label("─", style)
    } else if hour == 0 {
        Span::label("0", style)
    } else if hour == 6 {
        Span::label("6", style)
    } else if hour == 12 {
        Span::label("N", style)
    } else if hour == 18 {
        Span::label("6", style)
    } else {
        let mut text = String::new();
        push_nat(&mut text, (hour % 12) as u128);
        assert(text@ == nat_digits((hour % 12) as nat));
        Span::styled(text, style)
    }
}

fn legend_line() -> (r: Line)
    ensures
        r@ == legend_row(),
{
    let dim = Style::new().fg(Color::DarkGray);
    let gray = Style::new().fg(Color::Gray);
    let mut r = Line::new();
    r.push(Span::raw("      "));
    r.push(Span::label("●", Style::new().fg(Color::Yellow)));
    r.push(Span::label(" Temp  ", dim));
    r.push(Span::label("○", Style::new().fg(Color::Cyan)));
    r.push(Span::label(" Rain  ", dim));
    r.push(Span::label("0", gray));
    r.push(Span::label("=12am ", dim));
    r.push(Span::label("N", gray));
    r.push(Span::label("=Noon ", dim));
    r.push(Span::label("6", gray));
    r.push(Span::label("=6am/pm", dim));
    r
}

/// A plot made ready for drawing: what it is drawn from, and its scale.
pub struct PlotData<'a> {
    pub hourly: &'a Vec<HourlyForecast>,
    pub resolved: &'a Vec<ResolvedTime>,
    pub picked: Vec<usize>,
    pub hour_now: u32,
    pub units: UnitsConfig,
    pub width: u16,
    pub low: i32,
    pub high: i32,
    pub range: i64,
    pub slot: usize,
}

impl<'a> View for PlotData<'a> {
    type V = Plot;

    open spec fn view(&self) -> Plot {
        Plot {
            hourly: self.hourly@,
            resolved: self.resolved@,
            picked: self.picked@,
            hour_now: self.hour_now as nat,
            units: self.units,
            width: self.width as nat,
        }
    }
}

impl<'a> PlotData<'a> {
    /// The scale is that of the picked hours.
    pub open spec fn well_formed(&self) -> bool {
        &&& self@.well_formed()
        &&& self.low == self@.low()
        &&& self.high == self@.high()
        &&& self.range == self@.range()
        &&& self.slot == self@.slot()
    }

    /// Makes the plot of the picked hours ready, for an area `width` wide.
    pub fn new(
        hourly: &'a Vec<HourlyForecast>,
        resolved: &'a Vec<ResolvedTime>,
        picked: Vec<usize>,
        now: &Clock,
        units: &UnitsConfig,
        width: u16,
    ) -> (r: PlotData<'a>)
        requires
            picked@.len() > 0,
            resolved@.len() == hourly@.len(),
            forall|k: int|
                0 <= k < picked@.len() ==> (#[trigger] picked@[k]) < hourly@.len()
                    && resolved@[picked@[k] as int].stamp is Some,
        ensures
            r.well_formed(),
            r@ == (Plot {
                hourly: hourly@,
                resolved: resolved@,
                picked: picked@,
                hour_now: now.local.hour as nat,
                units: *units,
                width: width as nat,
            }),
    {
        let (low, high) = extremes(hourly, &picked);
        let span: i64 = high as i64 - low as i64;
        let range: i64 = if span < 1000 {
            1000
        } else {
            span
        };
        let room: usize = if width as usize >= LABEL_WIDTH {
            width as usize - LABEL_WIDTH
        } else {
            0
        };
        let each = room / picked.len();
        let slot: usize = if each < 1 {
            1
        } else {
            each
        };
        PlotData {
            hourly,
            resolved,
            picked,
            hour_now: now.local.hour,
            units: *units,
            width,
            low,
            high,
            range,
            slot,
        }
    }

    /// The hour of the day of the `i`-th hour of the plot.
    fn hour_at(&self, i: usize) -> (r: u32)
        requires
            self.well_formed(),
            i < self.picked@.len(),
        ensures
            r == self@.hour(i as int),
    {
        match self.resolved[self.picked[i]].stamp {
            Some(stamp) => stamp.hour,
            None => 0,
        }
    }

    /// The padding right of the `i`-th mark.
    fn after_at(&self, i: usize) -> (r: usize)
        requires
            self.well_formed(),
            i < self.picked@.len(),
        ensures
            r == self@.after(i as int),
    {
        if i < self.picked.len() - 1 {
            self.slot - 1 - (self.slot - 1) / 2
        } else {
            0
        }
    }

    /// The figure left of `row`.
    fn figure_span(&self, row: usize) -> (r: Span)
        requires
            self.well_formed(),
        ensures
            r@ == self@.figure(row as int),
    {
        let dim = Style::new().fg(Color::DarkGray);
        if row == 0 {
            let shown = self.units.temperature.truncated(self.high);
            Span::styled(align_right(int_to_string(shown).as_str(), 5), dim)
        } else if row == CHART_HEIGHT - 1 {
            let shown = self.units.temperature.truncated(self.low);
            Span::styled(align_right(int_to_string(shown).as_str(), 5), dim)
        } else {
            Span::raw("     ")
        }
    }

    /// One row of the plot.
    fn row_line(&self, row: usize) -> (r: Line)
        requires
            self.well_formed(),
            row < CHART_HEIGHT,
        ensures
            r@ == self@.row(row as int),
    {
        let mut line = Line::new();
        line.push(self.figure_span(row));
        line.push(Span::label("│", Style::new().fg(Color::DarkGray)));
        let ghost head = line@;
        let mut i: usize = 0;
        while i < self.picked.len()
            invariant
                i <= self.picked@.len(),
                self.well_formed(),
                row < CHART_HEIGHT,
                line@ == head + self@.cells(row as int, i as nat),
            decreases self.picked@.len() - i,
        {
            let sample = &self.hourly[self.picked[i]];
            proof {
                extremes_are_of_picked(self.hourly@, self.picked@, self.picked@.len());
                assert(self@.low() <= self.hourly@[self.picked@[i as int] as int].temperature
                    <= self@.high());
            }
            let current = self.hour_at(i) == self.hour_now;
            let mark = plot_mark_span(row, sample, self.low, self.range, current);
            push_padded(
                &mut line,
                mark,
                (self.slot - 1) / 2,
                self.after_at(i),
                ' ',
                Style::new(),
            );
            i += 1;
            assert(line@ == head + self@.cells(row as int, i as nat));
        }
        line
    }

    /// The row of hour labels below the plot.
    fn axis_line(&self) -> (r: Line)
        requires
            self.well_formed(),
        ensures
            r@ == self@.axis(),
    {
        let mut line = Line::new();
        line.push(Span::raw("     "));
        line.push(Span::label("└", Style::new().fg(Color::DarkGray)));
        let ghost head = line@;
        let mut i: usize = 0;
        while i < self.picked.len()
            invariant
                i <= self.picked@.len(),
                self.well_formed(),
                line@ == head + self@.ticks(i as nat),
            decreases self.picked@.len() - i,
        {
            let hour = self.hour_at(i);
            let mark = hour_tick_span(hour, hour == self.hour_now);
            push_padded(
                &mut line,
                mark,
                (self.slot - 1) / 2,
                self.after_at(i),
                '─',
                Style::new().fg(Color::DarkGray),
            );
            i += 1;
            assert(line@ == head + self@.ticks(i as nat));
        }
        line
    }

    /// All rows of the chart.
    pub fn lines(&self) -> (r: Vec<Line>)
        requires
            self.well_formed(),
        ensures
            lines_view(r@) == self@.rows(),
    {
        let mut lines: Vec<Line> = Vec::new();
        let mut row: usize = 0;
        while row < CHART_HEIGHT
            invariant
                row <= CHART_HEIGHT,
                self.well_formed(),
                lines_view(lines@) == Seq::new(row as nat, |k: int| self@.row(k)),
            decreases CHART_HEIGHT - row,
        {
            push_line(&mut lines, self.row_line(row));
            row += 1;
            assert(lines_view(lines@) == Seq::new(row as nat, |k: int| self@.row(k)));
        }
        push_line(&mut lines, self.axis_line());
        push_line(&mut lines, legend_line());
        lines
    }
}

/// Whether an area is too small for the chart: under 20 columns or 6 rows.
pub open spec fn too_small(inner: Rect) -> bool {
    inner.width < 20 || inner.height < 6
}

/// What the chart shows inside its border: the rows of the plot of today's
/// hours, or a note where the day has no hour or the area is too small.
pub open spec fn chart_rows(
    hourly: Seq<HourlyForecast>,
    resolved: Seq<ResolvedTime>,
    now: Clock,
    units: UnitsConfig,
    inner: Rect,
) -> Seq<Seq<SpanView>> {
    let picked = todays(resolved, now);
    if picked.len() == 0 || too_small(inner) {
        seq![seq![raw("Not enough data"@)]]
    } else {
        (Plot {
            hourly,
            resolved,
            picked,
            hour_now: now.local.hour as nat,
            units,
            width: inner.width as nat,
        }).rows()
    }
}

/// The chart panel on `area`: its block, and the chart inside the border.
pub open spec fn chart_panel(
    area: Rect,
    hourly: Seq<HourlyForecast>,
    resolved: Seq<ResolvedTime>,
    now: Clock,
    units: UnitsConfig,
) -> Seq<PlacedView> {
    seq![
        placed(WidgetView::Block(panel_block(" Today's Forecast "@, Color::Green)), area),
        placed(
            text_widget(chart_rows(hourly, resolved, now, units, area.inside_border())),
            area.inside_border(),
        ),
    ]
}

/// The rows of the chart for an area of the size of `inner`.
pub fn chart_lines(
    hourly: &Vec<HourlyForecast>,
    resolved: &Vec<ResolvedTime>,
    now: &Clock,
    units: &UnitsConfig,
    inner: Rect,
) -> (lines: Vec<Line>)
    requires
        times_match(resolved@, hourly@),
    ensures
        lines_view(lines@) == chart_rows(hourly@, resolved@, *now, *units, inner),
{
    let picked = today_hours(resolved, now);
    if picked.len() == 0 || inner.width < 20 || inner.height < 6 {
        let mut lines: Vec<Line> = Vec::new();
        push_line(&mut lines, Line::single(Span::raw("Not enough data")));
        lines
    } else {
        let plot = PlotData::new(hourly, resolved, picked, now, units, inner.width);
        plot.lines()
    }
}

/// Draws the chart of the day that `now` shows on `area`.
pub fn render_today_chart(
    frame: &mut Frame,
    area: Rect,
    hourly: &Vec<HourlyForecast>,
    resolved: &Vec<ResolvedTime>,
    units: &UnitsConfig,
    now: &Clock,
)
    requires
        times_match(resolved@, hourly@),
    ensures
        final(frame).size == old(frame).size,
        final(frame)@ == old(frame)@ + chart_panel(area, hourly@, resolved@, *now, *units),
{
    let inner = inner_area(area);
    frame.render_widget(Widget::Block(Block::panel(" Today's Forecast ", Color::Green)), area);
    let lines = chart_lines(hourly, resolved, now, units, inner);
    frame.render_widget(Widget::text(lines), inner);
}

/// The chart takes the hours of the day that the clock shows, all of them
/// and no other, in the order of the forecast.
pub proof fn chart_takes_the_hours_of_today(resolved: Seq<ResolvedTime>, now: Clock)
    requires
        resolved.len() <= usize::MAX,
    ensures
        forall|k: int|
            0 <= k < todays(resolved, now).len() ==> (#[trigger] todays(resolved, now)[k])
                < resolved.len() && resolved[todays(resolved, now)[k] as int].is_on_day_of(now),
        forall|i: int|
            0 <= i < resolved.len() && (#[trigger] resolved[i]).is_on_day_of(now) ==> todays(
                resolved,
                now,
            ).contains(i as usize),
        forall|j: int, k: int|
            0 <= j < k < todays(resolved, now).len() ==> todays(resolved, now)[j] < todays(
                resolved,
                now,
            )[k],
{
    let flags = today_flags(resolved, now);
    crate::ui::hourly::kept_below_is_selection(flags, flags.len());
    assert forall|i: int|
        0 <= i < resolved.len() && (#[trigger] resolved[i]).is_on_day_of(now) implies todays(
        resolved,
        now,
    ).contains(i as usize) by {
        assert(flags[i]);
    }
}

/// The scale of the plot is that of the picked hours alone: two forecasts
/// that agree on the temperatures of the picked hours have the same coldest
/// and warmest, whatever their other hours hold.
pub proof fn scale_is_of_the_picked_hours_alone(
    a: Seq<HourlyForecast>,
    b: Seq<HourlyForecast>,
    picked: Seq<usize>,
    upto: nat,
)
    requires
        1 <= upto <= picked.len(),
        forall|k: int|
            0 <= k < upto ==> (#[trigger] a[picked[k] as int]).temperature
                == b[picked[k] as int].temperature,
    ensures
        coldest(a, picked, upto) == coldest(b, picked, upto),
        warmest(a, picked, upto) == warmest(b, picked, upto),
    decreases upto,
{
    assert(a[picked[0] as int].temperature == b[picked[0] as int].temperature);
    if upto > 1 {
        scale_is_of_the_picked_hours_alone(a, b, picked, (upto - 1) as nat);
        assert(a[picked[upto - 1] as int].temperature == b[picked[upto - 1] as int].temperature);
    }
}

} // verus!
