use dispatch::text::{char_prefix, decimal_text, is_blank, signed_decimal_text};
use dispatch::timefmt::{
    format_timestamp, format_timestamp_relative, relative_time_label, supports_relative_time,
    EARLIEST_MILLIS, LATEST_MILLIS,
};

const MINUTE: i64 = 60_000;
const HOUR: i64 = 60 * MINUTE;
const DAY: i64 = 24 * HOUR;

#[test]
fn decimal_numerals() {
    assert_eq!(decimal_text(0), "0");
    assert_eq!(decimal_text(7), "7");
    assert_eq!(decimal_text(1234), "1234");
    assert_eq!(decimal_text(u64::MAX), u64::MAX.to_string());
    assert_eq!(signed_decimal_text(-42), "-42");
    assert_eq!(signed_decimal_text(0), "0");
    assert_eq!(signed_decimal_text(i64::MIN), i64::MIN.to_string());
    assert_eq!(signed_decimal_text(i64::MAX), i64::MAX.to_string());
}

#[test]
fn blank_texts() {
    assert!(is_blank(""));
    assert!(is_blank(" \t\n\r"));
    assert!(is_blank("\u{3000}\u{a0}\u{2028}"));
    assert!(!is_blank(" a "));
    assert!(!is_blank("\u{200b}"));
}

#[test]
fn char_prefixes() {
    assert_eq!(char_prefix("héllo", 2), "hé");
    assert_eq!(char_prefix("abc", 10), "abc");
    assert_eq!(char_prefix("abc", 0), "");
}

#[test]
fn relative_labels_by_bucket() {
    let now = 10_000 * DAY;
    assert_eq!(relative_time_label(now, now), "just now");
    assert_eq!(relative_time_label(now, now - 59_999), "just now");
    assert_eq!(relative_time_label(now, now + DAY), "just now");
    assert_eq!(relative_time_label(now, now - MINUTE), "1 min ago");
    assert_eq!(relative_time_label(now, now - 2 * MINUTE), "2 mins ago");
    assert_eq!(relative_time_label(now, now - 59 * MINUTE - 59_999), "59 mins ago");
    assert_eq!(relative_time_label(now, now - HOUR), "1 hr ago");
    assert_eq!(relative_time_label(now, now - 5 * HOUR), "5 hrs ago");
    assert_eq!(relative_time_label(now, now - DAY), "1 day ago");
    assert_eq!(relative_time_label(now, now - 6 * DAY), "6 days ago");
    assert_eq!(relative_time_label(now, now - 7 * DAY), "1 week ago");
    assert_eq!(relative_time_label(now, now - 27 * DAY), "3 weeks ago");
    assert_eq!(relative_time_label(now, now - 30 * DAY), "1 month ago");
    assert_eq!(relative_time_label(now, now - 300 * DAY), "10 months ago");
    assert_eq!(relative_time_label(now, now - 365 * DAY), "1 year ago");
    assert_eq!(relative_time_label(now, now - 800 * DAY), "2 years ago");
}

#[test]
fn relative_label_between_four_weeks_and_a_month() {
    // Four weeks are past but a 30-day month is not: the count is zero.
    let now = 10_000 * DAY;
    assert_eq!(relative_time_label(now, now - 28 * DAY), "0 months ago");
    assert_eq!(relative_time_label(now, now - 29 * DAY), "0 months ago");
}

#[test]
fn relative_label_between_twelve_months_and_a_year() {
    // Twelve 30-day months are past but a 365-day year is not: the count is zero.
    let now = 10_000 * DAY;
    assert_eq!(relative_time_label(now, now - 360 * DAY), "0 years ago");
    assert_eq!(relative_time_label(now, now - 364 * DAY), "0 years ago");
}

#[test]
fn calendar_rendering() {
    assert_eq!(format_timestamp(947638923004), "Jan 12, 2000, 01:02 AM");
    assert_eq!(format_timestamp(0), "Jan 01, 1970, 00:00 AM");
    assert_eq!(format_timestamp(1_700_000_000_000), "Nov 14, 2023, 22:13 PM");
}

#[test]
fn calendar_range_edges() {
    assert_ne!(format_timestamp(LATEST_MILLIS), "Unknown");
    assert_ne!(format_timestamp(EARLIEST_MILLIS), "Unknown");
    assert_eq!(format_timestamp(LATEST_MILLIS + 1), "Unknown");
    assert_eq!(format_timestamp(EARLIEST_MILLIS - 1), "Unknown");
    assert_eq!(format_timestamp(i64::MAX), "Unknown");
    assert_eq!(format_timestamp(i64::MIN), "Unknown");
}

#[test]
fn clock_reading_and_relative_now() {
    let now = chrono::Utc::now().timestamp_millis();
    assert!(now > 1_600_000_000_000 && now <= LATEST_MILLIS);
    assert!(supports_relative_time(now));
    assert!(supports_relative_time(LATEST_MILLIS - i64::MAX));
    assert!(!supports_relative_time(LATEST_MILLIS - i64::MAX - 1));
    assert_eq!(format_timestamp_relative(now), "just now");
    assert_eq!(format_timestamp_relative(now - 3 * DAY - HOUR), "3 days ago");
}
