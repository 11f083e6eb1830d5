use chrono::{Datelike, Timelike};
use sysrecorder::timestamp::Timestamp;

fn stamp(y: i32, mo: u32, d: u32, h: u32, mi: u32, s: u32) -> Timestamp {
    Timestamp::new(y, mo, d, h, mi, s).expect("valid timestamp")
}

#[test]
fn text_is_zero_padded_fixed_width() {
    assert_eq!(stamp(2024, 3, 5, 7, 8, 9).to_text(), "2024-03-05 07:08:09");
    assert_eq!(stamp(999, 12, 31, 23, 59, 59).to_text(), "0999-12-31 23:59:59");
    assert_eq!(stamp(0, 1, 1, 0, 0, 0).to_text(), "0000-01-01 00:00:00");
    assert_eq!(stamp(9999, 11, 30, 12, 0, 1).to_text().len(), 19);
}

#[test]
fn fields_read_back() {
    let t = stamp(2023, 7, 14, 18, 30, 45);
    assert_eq!(
        (t.year(), t.month(), t.day(), t.hour(), t.minute(), t.second()),
        (2023, 7, 14, 18, 30, 45)
    );
}

#[test]
fn invalid_fields_are_refused() {
    assert!(Timestamp::new(2023, 2, 29, 0, 0, 0).is_none());
    assert!(Timestamp::new(2024, 2, 29, 0, 0, 0).is_some());
    assert!(Timestamp::new(1900, 2, 29, 0, 0, 0).is_none());
    assert!(Timestamp::new(2000, 2, 29, 0, 0, 0).is_some());
    assert!(Timestamp::new(2024, 4, 31, 0, 0, 0).is_none());
    assert!(Timestamp::new(2024, 13, 1, 0, 0, 0).is_none());
    assert!(Timestamp::new(2024, 0, 1, 0, 0, 0).is_none());
    assert!(Timestamp::new(2024, 1, 0, 0, 0, 0).is_none());
    assert!(Timestamp::new(2024, 1, 1, 24, 0, 0).is_none());
    assert!(Timestamp::new(2024, 1, 1, 0, 60, 0).is_none());
    assert!(Timestamp::new(2024, 1, 1, 0, 0, 60).is_none());
    assert!(Timestamp::new(10000, 1, 1, 0, 0, 0).is_none());
    assert!(Timestamp::new(-1, 1, 1, 0, 0, 0).is_none());
}

#[test]
fn text_order_follows_time_order() {
    let times = [
        stamp(999, 12, 31, 23, 59, 59),
        stamp(2023, 12, 31, 23, 59, 59),
        stamp(2024, 1, 1, 0, 0, 0),
        stamp(2024, 1, 1, 0, 0, 1),
        stamp(2024, 1, 1, 0, 1, 0),
        stamp(2024, 1, 1, 9, 0, 0),
        stamp(2024, 1, 1, 10, 0, 0),
        stamp(2024, 1, 9, 0, 0, 0),
        stamp(2024, 1, 10, 0, 0, 0),
        stamp(2024, 9, 1, 0, 0, 0),
        stamp(2024, 10, 1, 0, 0, 0),
    ];
    for i in 0..times.len() {
        for j in 0..times.len() {
            let a = times[i].to_text();
            let b = times[j].to_text();
            assert_eq!(a < b, i < j, "{} vs {}", a, b);
        }
    }
}

#[test]
fn local_clock_fields_make_a_timestamp() {
    let now = chrono::Local::now();
    let t = Timestamp::new(now.year(), now.month(), now.day(), now.hour(), now.minute(), now.second())
        .expect("the clock is within years 0 to 9999");
    assert_eq!(t.to_text(), now.format("%Y-%m-%d %H:%M:%S").to_string());
}
