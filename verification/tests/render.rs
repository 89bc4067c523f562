use wxman::app::{App, LoadEvent, Overlay};
use wxman::config::Config;
use wxman::frame::{Block, Frame, Paragraph, Widget};
use wxman::layout::Rect;
use wxman::models::weather::{CurrentWeather, DailyForecast, HourlyForecast, WeatherData};
use wxman::models::Location;
use wxman::style::{Alignment, Color, Line, Span, Style};
use wxman::time::{Clock, Date, HourStamp, ResolvedTime};
use wxman::layout::Sizing;
use wxman::ui::current::CurrentLayout;
use wxman::ui::render::{
    content_column_sizings, content_layout, content_row_sizings, draw, hourly_window_height,
    left_sizings, render, render_error, render_footer, render_header, render_help_overlay,
    render_loading, render_location_input, render_main_content, render_overlay,
    render_units_menu, screen_layout, screen_sizings, survey, ContentLayout, ScreenLayout,
    Surroundings,
};

fn rect(x: u16, y: u16, width: u16, height: u16) -> Rect {
    Rect { x, y, width, height }
}

fn text(line: &Line) -> String {
    line.spans.iter().map(|s| s.content.as_str()).collect()
}

fn texts(lines: &[Line]) -> Vec<String> {
    lines.iter().map(text).collect()
}

fn paragraph(widget: &Widget) -> &Paragraph {
    match widget {
        Widget::Paragraph(paragraph) => paragraph,
        other => panic!("{other:?}"),
    }
}

fn block(widget: &Widget) -> &Block {
    match widget {
        Widget::Paragraph(Paragraph { block: Some(block), .. }) => block,
        Widget::Block(block) => block,
        other => panic!("{other:?}"),
    }
}

fn berlin() -> Location {
    Location {
        latitude: 52_520_000,
        longitude: 13_405_000,
        city: "Berlin".to_string(),
        region: None,
        country: "Germany".to_string(),
        timezone: "Europe/Berlin".to_string(),
    }
}

fn afternoon() -> Clock {
    Clock {
        epoch_seconds: 1_704_121_500,
        subsec_nanos: 0,
        local: HourStamp {
            date: Date { year: 2024, month: 1, day: 1, weekday: 0 },
            hour: 15,
            minute: 5,
        },
    }
}

fn weather(hours: u32, days: u32) -> WeatherData {
    WeatherData {
        current: CurrentWeather {
            temperature: 20_500,
            apparent_temperature: 19_000,
            humidity: 65,
            weather_code: 3,
            wind_speed: 15_000,
            wind_direction: 180,
            wind_gusts: 25_000,
            cloud_cover: 75,
            pressure: 1_013_250,
            precipitation: 500,
            uv_index: 5_000,
            is_day: true,
        },
        hourly: (0..hours)
            .map(|h| HourlyForecast {
                time: format!("2024-01-{:02}T{:02}:00", 1 + h / 24, h % 24),
                temperature: 10_000 + 500 * (h % 24) as i32,
                apparent_temperature: 9_000,
                precipitation_probability: 30,
                weather_code: 61,
                wind_speed: 5_000,
                precipitation: Some(1_000),
            })
            .collect(),
        daily: (0..days)
            .map(|d| DailyForecast {
                date: format!("2024-01-{:02}", 1 + d),
                weather_code: 3,
                temp_max: 22_000,
                temp_min: 15_000,
                apparent_temp_max: 21_000,
                apparent_temp_min: 14_000,
                sunrise: String::new(),
                sunset: String::new(),
                precipitation_sum: 0,
                precipitation_probability: 10,
                wind_speed_max: 20_000,
                uv_index_max: 4_000,
            })
            .collect(),
    }
}

fn ready(hours: u32, days: u32) -> App {
    let mut app = App::new(Config::default());
    app.load_weather_at(LoadEvent::Fetched(berlin(), Ok(weather(hours, days))), afternoon());
    app
}

/// Surroundings made by hand: the clock at 15:05, the hours resolved as if
/// the local clock were at UTC, and a fixed layout.
fn surroundings(app: &App) -> Surroundings {
    let hours = app.weather.as_ref().map_or(0, |w| w.hourly.len() as u32);
    let days = app.weather.as_ref().map_or(0, |w| w.daily.len().min(5) as u16);
    Surroundings {
        now: afternoon(),
        screen: ScreenLayout {
            header: rect(0, 0, 100, 3),
            main: rect(0, 3, 100, 46),
            footer: rect(0, 49, 100, 1),
        },
        content: app.weather.as_ref().map(|_| ContentLayout {
            top: rect(0, 3, 100, 30),
            left: rect(0, 3, 55, 30),
            current: rect(0, 3, 55, 18),
            inside: CurrentLayout {
                middle: rect(1, 7, 53, 11),
                reading: rect(1, 7, 20, 11),
                details: rect(21, 7, 33, 11),
            },
            chart: rect(0, 21, 55, 12),
            hourly: rect(55, 3, 45, 30),
            daily: rect(0, 33, 100, 16),
            days: (0..days).map(|d| rect(1 + 19 * d, 34, 19, 14)).collect(),
        }),
        resolved: (0..hours)
            .map(|h| ResolvedTime {
                stamp: Some(HourStamp {
                    date: Date { year: 2024, month: 1, day: 1 + h / 24, weekday: (h / 24) % 7 },
                    hour: h % 24,
                    minute: 0,
                }),
                epoch_seconds: Some(1_704_067_200 + 3600 * h as i64),
            })
            .collect(),
    }
}

#[test]
fn the_header_names_the_place_and_the_time_of_the_load() {
    let mut frame = Frame::new(rect(0, 0, 80, 24));
    render_header(&mut frame, rect(0, 0, 80, 3), &App::new(Config::default()));
    let header = paragraph(&frame.widgets[0].widget);
    let cells: Vec<&str> = header.lines[0].spans.iter().map(|s| s.content.as_str()).collect();
    assert_eq!(cells, [" WxMan - Loading... ", " ", ""]);
    assert_eq!(block(&frame.widgets[0].widget).title, "");
    assert_eq!(block(&frame.widgets[0].widget).border_style.fg, Some(Color::Cyan));

    render_header(&mut frame, rect(0, 0, 80, 3), &ready(1, 1));
    let header = paragraph(&frame.widgets[1].widget);
    assert_eq!(header.lines.len(), 1);
    let cells: Vec<&str> = header.lines[0].spans.iter().map(|s| s.content.as_str()).collect();
    assert_eq!(cells, [" WxMan - Berlin, Germany ", " ", " 3:05 PM"]);
    assert_eq!(header.lines[0].spans[0].style, Style { fg: Some(Color::Cyan), bold: true });
    assert_eq!(header.lines[0].spans[2].style, Style { fg: Some(Color::DarkGray), bold: false });
    assert_eq!(frame.widgets[1].area, rect(0, 0, 80, 3));
}

#[test]
fn loading_and_error_are_centered_notes() {
    let mut frame = Frame::new(rect(0, 0, 80, 24));
    render_loading(&mut frame, rect(0, 3, 80, 20));
    render_error(&mut frame, rect(0, 3, 80, 20), "no network");
    let loading = paragraph(&frame.widgets[0].widget);
    assert_eq!(texts(&loading.lines), ["", "", "Loading weather data..."]);
    assert_eq!(loading.alignment, Alignment::Center);
    assert_eq!(loading.lines[2].spans[0].style, Style { fg: Some(Color::Yellow), bold: true });
    assert_eq!(block(&frame.widgets[0].widget).border_style, Style { fg: None, bold: false });
    let error = paragraph(&frame.widgets[1].widget);
    assert_eq!(texts(&error.lines), ["", "Error", "", "no network", "", "Press 'r' to retry"]);
    assert_eq!(error.alignment, Alignment::Center);
    assert_eq!(error.lines[1].spans[0].style, Style { fg: Some(Color::Red), bold: true });
    assert_eq!(error.lines[3].spans[0].style, Style { fg: Some(Color::Red), bold: false });
    assert_eq!(block(&frame.widgets[1].widget).border_style.fg, Some(Color::Red));
}

#[test]
fn the_footer_lists_the_keys_and_the_unit() {
    let mut app = App::new(Config::default());
    let mut frame = Frame::new(rect(0, 0, 80, 24));
    render_footer(&mut frame, rect(0, 23, 80, 1), &app);
    app.units_menu_toggle_selected();
    render_footer(&mut frame, rect(0, 23, 80, 1), &app);
    let footer = paragraph(&frame.widgets[0].widget);
    assert_eq!(
        text(&footer.lines[0]),
        " q Quit  r Refresh  l Location  u Units (°F)  ↑↓ Scroll  ? Help"
    );
    assert_eq!(footer.style, Style { fg: Some(Color::DarkGray), bold: false });
    assert!(footer.block.is_none());
    assert_eq!(
        footer.lines[0].spans[0],
        Span { content: " q".to_string(), style: Style { fg: Some(Color::Yellow), bold: false } }
    );
    assert!(text(&paragraph(&frame.widgets[1].widget).lines[0]).contains("Units (°C)"));
}

#[test]
fn the_help_is_a_popup_in_the_middle() {
    let mut frame = Frame::new(rect(0, 0, 100, 40));
    render_help_overlay(&mut frame, rect(0, 0, 100, 40));
    assert_eq!(frame.widgets.len(), 2);
    assert!(matches!(frame.widgets[0].widget, Widget::Clear));
    assert_eq!(frame.widgets[0].area, rect(25, 12, 50, 16));
    assert_eq!(frame.widgets[1].area, rect(25, 12, 50, 16));
    assert_eq!(block(&frame.widgets[1].widget).title, " Help ");
    assert_eq!(block(&frame.widgets[1].widget).border_style.fg, Some(Color::Green));
    assert_eq!(
        texts(&paragraph(&frame.widgets[1].widget).lines),
        [
            "",
            "  q / Esc     Quit application",
            "  r           Refresh weather data",
            "  l           Set location",
            "  u           Configure units",
            "  ↑ / k       Scroll hourly forecast up",
            "  ↓ / j       Scroll hourly forecast down",
            "  ?           Toggle this help",
            "",
            "  Press any key to close",
        ]
    );
}

#[test]
fn the_units_menu_marks_the_row_in_focus() {
    let mut app = App::new(Config::default());
    app.units_menu_down();
    let mut frame = Frame::new(rect(0, 0, 100, 40));
    render_units_menu(&mut frame, rect(0, 0, 100, 40), &app);
    assert_eq!(frame.widgets[0].area, rect(27, 13, 45, 14));
    assert!(matches!(frame.widgets[0].widget, Widget::Clear));
    assert_eq!(block(&frame.widgets[1].widget).title, " Units ");
    assert_eq!(block(&frame.widgets[1].widget).border_style.fg, Some(Color::Yellow));
    let menu = paragraph(&frame.widgets[1].widget);
    assert_eq!(
        texts(&menu.lines),
        [
            "",
            "  Use ↑↓ to navigate, Enter/Space to change",
            "",
            "   Temperature    °F",
            "",
            " > Wind Speed     mph",
            "",
            "   Precipitation  cm",
            "",
            "   Pressure       inHg",
            "",
            "  Press u or Esc to close and apply",
        ]
    );
    let focused = &menu.lines[5];
    assert_eq!(focused.spans[0].style, Style { fg: Some(Color::Yellow), bold: true });
    assert_eq!(focused.spans[1].style, Style { fg: Some(Color::Yellow), bold: true });
    assert_eq!(focused.spans[2].style, Style { fg: Some(Color::Cyan), bold: true });
    let other = &menu.lines[3];
    assert_eq!(other.spans[0].style, Style { fg: Some(Color::White), bold: false });
    assert_eq!(other.spans[2].style, Style { fg: Some(Color::Gray), bold: false });
}

#[test]
fn the_location_input_shows_the_text_and_the_note() {
    let mut frame = Frame::new(rect(0, 0, 100, 40));
    render_location_input(&mut frame, rect(0, 0, 100, 40), &None, "1000", &None);
    assert_eq!(frame.widgets[0].area, rect(25, 15, 50, 10));
    assert_eq!(block(&frame.widgets[1].widget).title, " Set Location ");
    assert_eq!(
        texts(&paragraph(&frame.widgets[1].widget).lines),
        [
            "",
            "  Current: Unknown",
            "",
            "  Enter city or zip code:",
            "  1000_",
            "",
            "  Leave empty for auto-detect (IP)",
            "",
            "  Enter to confirm, Esc to cancel",
        ]
    );
    render_location_input(
        &mut frame,
        rect(0, 0, 100, 40),
        &Some(berlin()),
        "",
        &Some("Not found: nothing".to_string()),
    );
    let failed = paragraph(&frame.widgets[3].widget);
    assert_eq!(text(&failed.lines[1]), "  Current: Berlin, Germany");
    assert_eq!(text(&failed.lines[4]), "  _");
    assert_eq!(text(&failed.lines[6]), "  Not found: nothing");
    assert_eq!(failed.lines[6].spans[0].style.fg, Some(Color::Red));
    assert_eq!(failed.lines[4].spans[1].style, Style { fg: Some(Color::Cyan), bold: true });
}

#[test]
fn the_open_overlay_is_drawn_and_no_other() {
    let size = rect(0, 0, 100, 40);
    let mut app = App::new(Config::default());
    let mut frame = Frame::new(size);
    render_overlay(&mut frame, size, &app);
    assert!(frame.widgets.is_empty());
    app.toggle_help();
    render_overlay(&mut frame, size, &app);
    assert_eq!(block(&frame.widgets[1].widget).title, " Help ");
    app.toggle_units_menu();
    render_overlay(&mut frame, size, &app);
    assert_eq!(frame.widgets.len(), 4);
    assert_eq!(block(&frame.widgets[3].widget).title, " Units ");
    app.open_location_input();
    app.location_input_char('x');
    render_overlay(&mut frame, size, &app);
    assert_eq!(frame.widgets.len(), 6);
    assert_eq!(block(&frame.widgets[5].widget).title, " Set Location ");
    assert_eq!(text(&paragraph(&frame.widgets[5].widget).lines[4]), "  x_");
    assert!(matches!(app.overlay, Overlay::LocationInput { .. }));
}

#[test]
fn the_screen_has_three_bands() {
    let screen = screen_layout(rect(0, 0, 100, 50));
    assert_eq!(screen.header, rect(0, 0, 100, 3));
    assert_eq!(screen.main, rect(0, 3, 100, 46));
    assert_eq!(screen.footer, rect(0, 49, 100, 1));
}

#[test]
fn the_content_is_divided_among_the_panels() {
    let content = content_layout(rect(0, 3, 100, 46), 7);
    assert_eq!(content.daily, rect(0, 33, 100, 16));
    assert_eq!(content.hourly, rect(55, 3, 45, 30));
    assert_eq!(content.current, rect(0, 3, 55, 18));
    assert_eq!(content.chart, rect(0, 21, 55, 12));
    assert_eq!(content.top, rect(0, 3, 100, 30));
    assert_eq!(content.left, rect(0, 3, 55, 30));
    assert_eq!(content.inside.middle, rect(1, 6, 53, 12));
    assert_eq!(content.inside.reading, rect(1, 6, 20, 12));
    assert_eq!(content.inside.details, rect(21, 6, 33, 12));
    assert_eq!(content.days.len(), 5);
    assert!(content.days.iter().all(|c| c.y == 34 && c.height == 14));
    assert_eq!(content.days.iter().map(|c| c.width as u32).sum::<u32>(), 98);
    assert_eq!(content_layout(rect(0, 3, 100, 46), 2).days.len(), 2);
    assert!(content_layout(rect(0, 3, 100, 46), 0).days.is_empty());
}

#[test]
fn the_survey_fits_the_dashboard() {
    let size = rect(0, 0, 100, 50);
    let loading = survey(size, &App::new(Config::default()));
    assert!(loading.content.is_none());
    assert!(loading.resolved.is_empty());
    assert_eq!(loading.screen.header, rect(0, 0, 100, 3));
    let around = survey(size, &ready(30, 9));
    assert_eq!(around.resolved.len(), 30);
    assert_eq!(around.resolved[25].stamp.unwrap().hour, 1);
    assert_eq!(around.content.as_ref().unwrap().days.len(), 5);
    assert!(around.now.epoch_seconds > 1_700_000_000);

    let mut failed = ready(30, 9);
    failed.set_error("gone".to_string());
    assert!(survey(size, &failed).content.is_none());
}

#[test]
fn the_content_is_what_the_state_calls_for() {
    let area = rect(0, 3, 100, 46);
    let mut app = App::new(Config::default());
    let mut frame = Frame::new(rect(0, 0, 100, 50));
    render_main_content(&mut frame, area, &app, &surroundings(&app));
    assert_eq!(frame.widgets.len(), 1);
    assert_eq!(text(&paragraph(&frame.widgets[0].widget).lines[2]), "Loading weather data...");
    assert_eq!(frame.widgets[0].area, area);

    app.set_error("it broke".to_string());
    render_main_content(&mut frame, area, &app, &surroundings(&app));
    assert_eq!(frame.widgets.len(), 2);
    assert_eq!(text(&paragraph(&frame.widgets[1].widget).lines[3]), "it broke");

    let app = ready(48, 7);
    let mut frame = Frame::new(rect(0, 0, 100, 50));
    render_main_content(&mut frame, area, &app, &surroundings(&app));
    let titles: Vec<&str> = frame
        .widgets
        .iter()
        .filter_map(|placed| match &placed.widget {
            Widget::Block(block) => Some(block.title.as_str()),
            _ => None,
        })
        .collect();
    assert_eq!(
        titles,
        [" Current Conditions ", " Today's Forecast ", " Hourly Forecast ", " 5-Day Forecast "]
    );
    assert_eq!(frame.widgets.len(), 3 + 2 + 2 + 6);
    let hourly = paragraph(&frame.widgets[6].widget);
    assert_eq!(frame.widgets[6].area, rect(56, 4, 43, 28));
    assert_eq!(hourly.lines.len(), 2 + 26 + 1);
    assert_eq!(hourly.lines[2].spans[1].content, "   3PM");
    assert_eq!(hourly.lines[2].spans[7].content, "  0.10 cm");
    let chart = paragraph(&frame.widgets[4].widget);
    assert_eq!(chart.lines.len(), 10);
    assert!(text(&chart.lines[0]).starts_with("   70│"));
    assert!(text(&chart.lines[7]).starts_with("   50│"));
    let today = paragraph(&frame.widgets[8].widget);
    assert_eq!(text(&today.lines[0]).trim(), "Today");
}

#[test]
fn the_picture_is_header_content_footer_and_overlay() {
    let mut app = ready(48, 3);
    app.hourly_scroll = 5;
    app.toggle_help();
    let around = surroundings(&app);
    let mut frame = Frame::new(rect(0, 0, 100, 50));
    draw(&mut frame, &app, &around);
    assert_eq!(frame.widgets.len(), 1 + (3 + 2 + 2 + 4) + 1 + 2);
    assert_eq!(frame.widgets[0].area, rect(0, 0, 100, 3));
    assert!(text(&paragraph(&frame.widgets[0].widget).lines[0]).starts_with(" WxMan - Berlin"));
    let hourly = paragraph(&frame.widgets[7].widget);
    assert_eq!(hourly.lines[2].spans[1].content, "   8PM");
    assert!(!hourly.lines[2].spans[1].style.bold);
    let footer = &frame.widgets[12];
    assert_eq!(footer.area, rect(0, 49, 100, 1));
    assert!(text(&paragraph(&footer.widget).lines[0]).starts_with(" q Quit"));
    assert!(matches!(frame.widgets[13].widget, Widget::Clear));
    assert_eq!(frame.widgets[13].area, rect(25, 17, 50, 16));
    assert_eq!(block(&frame.widgets[14].widget).title, " Help ");
    assert_eq!(frame.size, rect(0, 0, 100, 50));
}

#[test]
fn render_draws_by_the_clock_of_this_machine() {
    let mut frame = Frame::new(rect(0, 0, 100, 50));
    let mut app = App::new(Config::default());
    render(&mut frame, &app);
    assert_eq!(frame.widgets.len(), 3);
    assert_eq!(frame.area(), rect(0, 0, 100, 50));

    app = ready(48, 7);
    app.open_location_input();
    let mut frame = Frame::new(rect(0, 0, 100, 50));
    render(&mut frame, &app);
    assert_eq!(frame.widgets.len(), 1 + (3 + 2 + 2 + 6) + 1 + 2);
    let hourly = paragraph(&frame.widgets[7].widget);
    assert_eq!(hourly.lines.len(), 2);
    let chart = paragraph(&frame.widgets[5].widget);
    assert_eq!(text(&chart.lines[0]), "Not enough data");
    assert_eq!(block(&frame.widgets[16].widget).title, " Set Location ");
}

#[test]
fn the_screen_is_asked_for_fixed_shares() {
    assert_eq!(screen_sizings(), [Sizing::Length(3), Sizing::Min(10), Sizing::Length(1)]);
    assert_eq!(content_row_sizings(), [Sizing::Min(20), Sizing::Length(16)]);
    assert_eq!(content_column_sizings(), [Sizing::Percentage(55), Sizing::Percentage(45)]);
    assert_eq!(left_sizings(), [Sizing::Min(15), Sizing::Length(12)]);
}

#[test]
fn the_hourly_window_is_the_inside_of_its_panel() {
    assert_eq!(hourly_window_height(rect(0, 0, 100, 50), 5), 28);
    assert_eq!(hourly_window_height(rect(0, 0, 100, 50), 0), 28);
    assert_eq!(hourly_window_height(rect(0, 0, 80, 40), 3), 18);
    assert_eq!(hourly_window_height(rect(0, 0, 0, 0), 3), 0);
}
