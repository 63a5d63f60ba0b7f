use chrono::Datelike;
use chrono::NaiveDate;
use mesh::client::TimelineMessage;
use mesh::clock::clock_label;
use mesh::clock::day_label;
use mesh::clock::local_time;
use mesh::clock::LocalTime;
use mesh::clock::EPOCH_DAY;
use mesh::clock::FIRST_DAY;
use mesh::clock::LAST_DAY;
use mesh::ids::UserId;
use mesh::timeline::timeline_rows;
use mesh::timeline::timeline_view;
use mesh::timeline::TimelineRow;

fn day(y: i32, m: u32, d: u32) -> i32 {
    NaiveDate::from_ymd_opt(y, m, d).unwrap().num_days_from_ce()
}

fn message(name: &str, body: &str, timestamp_ms: u64) -> TimelineMessage {
    TimelineMessage {
        sender: UserId::parse(&format!("@{name}:example.org")).unwrap(),
        sender_name: name.to_owned(),
        body: body.to_owned(),
        timestamp_ms,
    }
}

fn at(day: i32, hour: u32, minute: u32) -> Option<LocalTime> {
    Some(LocalTime { day, hour, minute })
}

fn outline(rows: &[TimelineRow]) -> Vec<String> {
    rows.iter()
        .map(|row| match row {
            TimelineRow::Day(day) => format!("-- {}", day.content),
            TimelineRow::First { avatar, sender, time, message } => format!(
                "{} {} {}: {}",
                avatar.initial, sender.content, time.content, message.content
            ),
            TimelineRow::Next { message } => format!(".. {}", message.content),
        })
        .collect()
}

#[test]
fn the_calendar_has_these_ends() {
    assert_eq!(NaiveDate::MIN.num_days_from_ce(), FIRST_DAY);
    assert_eq!(NaiveDate::MAX.num_days_from_ce(), LAST_DAY);
    assert_eq!(day(1970, 1, 1), EPOCH_DAY);
}

#[test]
fn days_are_labelled_from_today() {
    let today = day(2026, 8, 2);
    assert_eq!(day_label(today, today), "Today");
    assert_eq!(day_label(today - 1, today), "Yesterday");
    assert_eq!(day_label(day(2026, 7, 31), today), "Friday, 31 July 2026");
    assert_eq!(day_label(day(2026, 8, 3), today), "Monday, 3 August 2026");
    assert_eq!(day_label(FIRST_DAY, FIRST_DAY), "Today");
}

#[test]
fn times_are_written_with_two_digits() {
    assert_eq!(clock_label(LocalTime { day: 1, hour: 7, minute: 5 }), "07:05");
    assert_eq!(clock_label(LocalTime { day: 1, hour: 23, minute: 59 }), "23:59");
    assert_eq!(clock_label(LocalTime { day: 1, hour: 0, minute: 0 }), "00:00");
}

#[test]
fn a_timestamp_has_a_local_time() {
    let noon = 1_785_585_600_000u64;
    let local = local_time(noon).unwrap();
    let utc_day = (noon / 86_400_000) as i32 + EPOCH_DAY;
    assert!((local.day - utc_day).abs() <= 1);
    assert!(local.hour < 24 && local.minute < 60);
    let later = local_time(noon + 60_000).unwrap();
    let minutes = |t: LocalTime| (t.day as i64 * 24 + t.hour as i64) * 60 + t.minute as i64;
    assert_eq!(minutes(later) - minutes(local), 1);
}

#[test]
fn a_timestamp_off_the_calendar_has_none() {
    assert_eq!(local_time(i64::MAX as u64), None);
    assert_eq!(local_time(8_210_266_876_800_000), None);
    assert_eq!(local_time(1 << 63), None);
    assert!(local_time(u64::MAX).is_some());
}

#[test]
fn messages_are_grouped_by_day_and_author() {
    let messages = vec![
        message("ann", "one", 0),
        message("ann", "two", 0),
        message("bob", "three", 0),
        message("ann", "four", 0),
        message("ann", "five", 0),
        message("ann", "six", 0),
    ];
    let today = day(2026, 8, 2);
    let times = vec![
        at(today - 1, 9, 0),
        at(today - 1, 9, 1),
        at(today - 1, 9, 2),
        at(today - 1, 23, 59),
        at(today, 0, 5),
        at(today, 0, 6),
    ];
    let rows = timeline_rows(&messages, &times, today);
    assert_eq!(
        outline(&rows),
        vec![
            "-- Yesterday",
            "A ann 09:00: one",
            ".. two",
            "B bob 09:02: three",
            "A ann 23:59: four",
            "-- Today",
            "A ann 00:05: five",
            ".. six",
        ]
    );
}

#[test]
fn a_message_of_unknown_time_has_no_separator() {
    let messages = vec![message("ann", "one", 0), message("ann", "two", 0), message("ann", "three", 0)];
    let today = day(2026, 8, 2);
    let times = vec![None, at(today, 1, 2), None];
    let rows = timeline_rows(&messages, &times, today);
    assert_eq!(
        outline(&rows),
        vec!["A ann : one", "-- Today", "A ann 01:02: two", ".. three"]
    );
}

#[test]
fn every_message_is_on_screen() {
    let messages = vec![
        message("ann", "one", 1_785_585_600_000),
        message("ann", "two", 1_785_585_601_000),
        message("bob", "three", 1_785_585_602_000),
    ];
    let rows = timeline_view(&messages);
    let lines = outline(&rows);
    assert_eq!(lines.len(), 4);
    assert!(lines[0].starts_with("-- "));
    assert!(lines[1].ends_with(": one"));
    assert_eq!(lines[2], ".. two");
    assert!(lines[3].ends_with(": three"));
    assert!(timeline_view(&vec![]).is_empty());
}

#[test]
fn what_was_just_sent_is_from_today() {
    let now = chrono::Utc::now().timestamp_millis() as u64;
    let lines = outline(&timeline_view(&vec![message("ann", "now", now)]));
    // The day may end between sending and showing.
    assert!(lines[0] == "-- Today" || lines[0] == "-- Yesterday");
    let later = outline(&timeline_view(&vec![message("ann", "then", 0)]));
    assert!(later[0].ends_with("1970") || later[0].ends_with("1969"));
}
