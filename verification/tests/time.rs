use wxman::time::{
    clock_label, day_label, hour_label, now, resolve_date, resolve_time, weekday_name, Clock, Date,
    HourStamp, ResolvedTime,
};

fn clock(epoch_seconds: i64, subsec_nanos: u32) -> Clock {
    Clock {
        epoch_seconds,
        subsec_nanos,
        local: HourStamp {
            date: Date { year: 2024, month: 1, day: 1, weekday: 0 },
            hour: 12,
            minute: 0,
        },
    }
}

fn at(epoch_seconds: i64) -> ResolvedTime {
    ResolvedTime {
        stamp: Some(HourStamp {
            date: Date { year: 2024, month: 1, day: 1, weekday: 0 },
            hour: 11,
            minute: 0,
        }),
        epoch_seconds: Some(epoch_seconds),
    }
}

#[test]
fn a_timestamp_is_read_by_its_fields() {
    let resolved = resolve_time("2024-01-01T00:00");
    let stamp = resolved.stamp.unwrap();
    assert_eq!(stamp.date, Date { year: 2024, month: 1, day: 1, weekday: 0 });
    assert_eq!(stamp.hour, 0);
    assert_eq!(stamp.minute, 0);

    let stamp = resolve_time("2025-03-16T17:45").stamp.unwrap();
    assert_eq!(stamp.date, Date { year: 2025, month: 3, day: 16, weekday: 6 });
    assert_eq!(stamp.hour, 17);
    assert_eq!(stamp.minute, 45);
}

#[test]
fn a_text_that_is_no_timestamp_resolves_to_nothing() {
    for text in ["", "yesterday", "2024-01-01", "2024-13-01T00:00", "2024-01-01T24:00", "2024-02-30T10:00"] {
        let resolved = resolve_time(text);
        assert_eq!(resolved.stamp, None, "{text}");
        assert_eq!(resolved.epoch_seconds, None, "{text}");
    }
}

#[test]
fn instants_follow_the_local_clock() {
    let noon = resolve_time("2024-01-10T12:00").epoch_seconds.unwrap();
    let one = resolve_time("2024-01-10T13:00").epoch_seconds.unwrap();
    assert_eq!(one - noon, 3600);
    let next_day = resolve_time("2024-01-11T12:00").epoch_seconds.unwrap();
    assert_eq!(next_day - noon, 86_400);
}

#[test]
fn a_date_is_read_by_its_fields() {
    assert_eq!(
        resolve_date("2024-01-02"),
        Some(Date { year: 2024, month: 1, day: 2, weekday: 1 })
    );
    assert_eq!(
        resolve_date("2024-02-29"),
        Some(Date { year: 2024, month: 2, day: 29, weekday: 3 })
    );
    assert_eq!(resolve_date("2023-02-29"), None);
    assert_eq!(resolve_date("tomorrow"), None);
    assert_eq!(resolve_date("2024-01-02T00:00"), None);
}

#[test]
fn the_clock_reads_a_time_of_the_calendar() {
    let reading = now();
    assert!((1..=12).contains(&reading.local.date.month));
    assert!((1..=31).contains(&reading.local.date.day));
    assert!(reading.local.date.weekday < 7);
    assert!(reading.local.hour < 24);
    assert!(reading.local.minute < 60);
    assert!(reading.epoch_seconds > 1_700_000_000);
    let later = now();
    assert!(later.epoch_seconds >= reading.epoch_seconds);
}

#[test]
fn upcoming_is_from_one_hour_back() {
    let now = clock(1_000_000, 0);
    assert!(at(1_000_000).upcoming(&now));
    assert!(at(1_000_000 - 3599).upcoming(&now));
    assert!(at(1_000_000 - 3600).upcoming(&now));
    assert!(!at(1_000_000 - 3601).upcoming(&now));
    assert!(at(2_000_000).upcoming(&now));

    let a_moment_later = clock(1_000_000, 1);
    assert!(!at(1_000_000 - 3600).upcoming(&a_moment_later));
    assert!(at(1_000_000 - 3599).upcoming(&a_moment_later));

    let unresolved = ResolvedTime { stamp: None, epoch_seconds: None };
    assert!(!unresolved.upcoming(&now));
}

#[test]
fn same_day_is_by_the_calendar() {
    let now = clock(0, 0);
    assert!(at(5).on_day_of(&now));
    let mut other = at(5);
    other.stamp = Some(HourStamp {
        date: Date { year: 2024, month: 1, day: 2, weekday: 1 },
        hour: 0,
        minute: 0,
    });
    assert!(!other.on_day_of(&now));
    assert!(!ResolvedTime { stamp: None, epoch_seconds: None }.on_day_of(&now));
    let a = Date { year: 2024, month: 1, day: 1, weekday: 0 };
    assert!(a.is_same_day(&Date { year: 2024, month: 1, day: 1, weekday: 3 }));
    assert!(!a.is_same_day(&Date { year: 2023, month: 1, day: 1, weekday: 0 }));
    assert!(!a.is_same_day(&Date { year: 2024, month: 2, day: 1, weekday: 0 }));
}

#[test]
fn hours_are_labelled_on_the_dial() {
    assert_eq!(hour_label(0), "12AM");
    assert_eq!(hour_label(1), "1AM");
    assert_eq!(hour_label(11), "11AM");
    assert_eq!(hour_label(12), "12PM");
    assert_eq!(hour_label(15), "3PM");
    assert_eq!(hour_label(23), "11PM");
}

#[test]
fn the_time_of_day_has_two_columns_for_the_hour() {
    assert_eq!(clock_label(15, 5), " 3:05 PM");
    assert_eq!(clock_label(0, 0), "12:00 AM");
    assert_eq!(clock_label(12, 59), "12:59 PM");
    assert_eq!(clock_label(9, 30), " 9:30 AM");
}

#[test]
fn days_are_labelled_by_weekday_month_and_day() {
    assert_eq!(day_label(&Date { year: 2024, month: 1, day: 1, weekday: 0 }), "Mon 01/01");
    assert_eq!(day_label(&Date { year: 2024, month: 12, day: 31, weekday: 1 }), "Tue 12/31");
    assert_eq!(day_label(&Date { year: 2025, month: 3, day: 16, weekday: 6 }), "Sun 03/16");
    let names: Vec<&str> = (0..7).map(weekday_name).collect();
    assert_eq!(names, ["Mon", "Tue", "Wed", "Thu", "Fri", "Sat", "Sun"]);
}
