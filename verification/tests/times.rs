use vinyl::span::Span;
use vinyl::status::{display_millis, display_time};
use vinyl::text::format_time;

fn span(secs: i64, nanos: i32) -> Span {
    Span::new(secs, nanos).unwrap()
}

#[test]
fn short_times_show_minutes_and_seconds() {
    assert_eq!(format_time(span(0, 0)), "00:00");
    assert_eq!(format_time(span(5, 0)), "00:05");
    assert_eq!(format_time(span(65, 0)), "01:05");
    assert_eq!(format_time(span(600, 0)), "10:00");
    assert_eq!(format_time(span(3599, 999_999_999)), "59:59");
}

#[test]
fn long_times_show_hours() {
    assert_eq!(format_time(span(3600, 0)), "1:00:00");
    assert_eq!(format_time(span(3661, 0)), "1:01:01");
    assert_eq!(format_time(span(36_000 + 59 * 60 + 9, 0)), "10:59:09");
    assert_eq!(format_time(span(360_000, 0)), "100:00:00");
}

#[test]
fn times_backwards_show_negative_fields() {
    assert_eq!(format_time(span(-5, 0)), "00:-5");
    assert_eq!(format_time(span(-65, 0)), "-1:-5");
    assert_eq!(format_time(span(-90, -500_000_000)), "-1:-30");
    assert_eq!(format_time(span(-3600, 0)), "-60:00");
    assert_eq!(format_time(span(0, -999_999_999)), "00:00");
}

#[test]
fn the_longest_spans_are_shown() {
    let longest = span(i64::MAX / 1000, 807_000_000);
    assert_eq!(format_time(longest), "2562047788015:12:55");
    assert_eq!(display_millis(Some(longest)), i64::MAX);
    let furthest_back = span(i64::MIN / 1000, -808_000_000);
    assert_eq!(display_millis(Some(furthest_back)), i64::MIN);
}

#[test]
fn equal_texts_mean_equal_seconds() {
    assert_eq!(format_time(span(65, 1)), format_time(span(65, 999_999_999)));
    assert_ne!(format_time(span(65, 0)), format_time(span(66, 0)));
    assert_ne!(format_time(span(3600, 0)), format_time(span(60, 0)));
}

#[test]
fn displayed_fields_are_those_of_a_clock() {
    for secs in [0, 59, 60, 3599, 3600, 7325, 86_399, 86_400] {
        let text = format_time(span(secs, 0));
        let fields: Vec<i64> = text.split(':').map(|field| field.parse().unwrap()).collect();
        let total = fields.iter().fold(0, |sum, field| sum * 60 + field);
        assert_eq!(total, secs);
        assert!(fields[1..].iter().all(|field| *field < 60));
    }
}

#[test]
fn spans_are_checked() {
    assert!(Span::new(1, 999_999_999).is_some());
    assert!(Span::new(-1, -999_999_999).is_some());
    assert!(Span::new(0, -1).is_some());
    assert!(Span::new(1, 1_000_000_000).is_none());
    assert!(Span::new(1, -1).is_none());
    assert!(Span::new(-1, 1).is_none());
    assert!(Span::new(i64::MAX / 1000, 807_000_001).is_none());
    assert!(Span::new(i64::MIN / 1000, -808_000_001).is_none());
    assert!(Span::new(i64::MAX, 0).is_none());
}

#[test]
fn milliseconds_are_rounded_towards_zero() {
    assert_eq!(display_millis(Some(span(1, 999_999))), 1000);
    assert_eq!(display_millis(Some(span(61, 500_000_000))), 61_500);
    assert_eq!(display_millis(Some(span(-1, -1_999_999))), -1001);
    assert_eq!(display_millis(None), 0);
}

#[test]
fn no_time_is_shown_as_nothing() {
    assert_eq!(display_time(None), "");
    assert_eq!(display_time(Some(span(61, 0))), "01:01");
}
