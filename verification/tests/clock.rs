use meeting_detector::clock::{minute_stamp, second_stamp, LocalTime};
use meeting_detector::monitor::ClockReading;
use meeting_detector::time::Moment;

#[test]
fn stamps_pad_with_zeros() {
    let t = LocalTime { year: 987, month: 1, day: 2, hour: 3, minute: 4, second: 5 };
    assert_eq!(minute_stamp(t), "0987-01-02 03-04");
    assert_eq!(second_stamp(t), "0987-01-02T03-04-05");
}

#[test]
fn years_out_of_four_digits_have_a_sign() {
    let late = LocalTime { year: 12_026, month: 11, day: 30, hour: 0, minute: 0, second: 0 };
    assert_eq!(minute_stamp(late), "+12026-11-30 00-00");
    let early = LocalTime { year: -5, month: 2, day: 28, hour: 23, minute: 59, second: 59 };
    assert_eq!(second_stamp(early), "-0005-02-28T23-59-59");
}

#[test]
fn leap_days_and_the_last_years_are_dates() {
    let leap = LocalTime { year: 2000, month: 2, day: 29, hour: 12, minute: 0, second: 0 };
    assert_eq!(minute_stamp(leap), "2000-02-29 12-00");
    let last = LocalTime { year: 262_142, month: 12, day: 31, hour: 23, minute: 59, second: 59 };
    assert_eq!(minute_stamp(last), "+262142-12-31 23-59");
    let first = LocalTime { year: -262_143, month: 1, day: 1, hour: 0, minute: 0, second: 0 };
    assert_eq!(minute_stamp(first), "-262143-01-01 00-00");
}

#[test]
fn a_reading_is_a_time_in_rfc_3339_and_in_parts() {
    let r = ClockReading::take();
    let re = regex::Regex::new(
        r"^\d{4}-\d{2}-\d{2}T\d{2}:\d{2}:\d{2}(\.\d{3}|\.\d{6}|\.\d{9})?[+-]\d{2}:\d{2}$",
    )
    .unwrap();
    assert!(re.is_match(&r.at), "unexpected time: {}", r.at);
    assert!(r.local.year >= 1970);
    assert!((1..=12).contains(&r.local.month));
    assert!((1..=31).contains(&r.local.day));
    assert!(r.local.hour < 24 && r.local.minute < 60 && r.local.second < 60);
}

#[test]
fn moments_count_whole_seconds() {
    let t0 = Moment { nanos: 500_000_000 };
    let t1 = Moment { nanos: 3_499_999_999 };
    assert_eq!(t1.secs_since(t0), 2);
    assert_eq!(t0.secs_since(t1), 0);
    assert!(t1.is_past(t0, 2));
    assert!(!t1.is_past(t0, 3));
    assert!(t0.is_past(t1, 0));
}
