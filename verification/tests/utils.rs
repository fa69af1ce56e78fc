use john_reed_booker::datetime::DateTime;
use john_reed_booker::datetime::MAX_TIMESTAMP;
use john_reed_booker::datetime::MIN_TIMESTAMP;
use john_reed_booker::utils::datetime_to_instant;
use john_reed_booker::utils::instant_to_datetime;
use john_reed_booker::utils::Instant;

const NOW: i64 = 1_704_067_200;

fn at(secs: i64, nanos: u32, offset: i32) -> DateTime {
    DateTime::new(secs, nanos, offset).unwrap()
}

fn reading(secs: u64, nanos: u32) -> Instant {
    Instant::new(secs, nanos).unwrap()
}

fn parts(instant: &Instant) -> (u64, u32) {
    (instant.as_secs(), instant.subsec_nanos())
}

fn civil(dt: &DateTime) -> (i64, u32, i32) {
    (dt.timestamp(), dt.timestamp_subsec_nanos(), dt.offset())
}

#[test]
fn instant_keeps_seconds_and_nanoseconds() {
    let instant = reading(5, 999_999_999);
    assert_eq!(parts(&instant), (5, 999_999_999));
    assert_eq!(parts(&reading(0, 0)), (0, 0));
    assert_eq!(parts(&reading(u64::MAX, 999_999_999)), (u64::MAX, 999_999_999));
}

#[test]
fn instant_wants_less_than_a_second_of_nanoseconds() {
    assert!(Instant::new(0, 999_999_999).is_some());
    assert!(Instant::new(0, 1_000_000_000).is_none());
    assert!(Instant::new(0, u32::MAX).is_none());
}

#[test]
fn deadline_is_as_far_ahead_as_the_timestamp() {
    let deadline = datetime_to_instant(&at(NOW + 90, 0, 0), &at(NOW, 0, 0), &reading(1_000, 0));
    assert_eq!(parts(&deadline.unwrap()), (1_090, 0));
}

#[test]
fn deadline_counts_nanoseconds() {
    let mono = reading(1_000, 900_000_000);
    let deadline = datetime_to_instant(&at(NOW + 1, 300_000_000, 0), &at(NOW, 100_000_000, 0), &mono);
    assert_eq!(parts(&deadline.unwrap()), (1_002, 100_000_000));
    let deadline = datetime_to_instant(&at(NOW + 2, 100_000_000, 0), &at(NOW, 300_000_000, 0), &mono);
    assert_eq!(parts(&deadline.unwrap()), (1_002, 700_000_000));
    let deadline = datetime_to_instant(&at(NOW, 1, 0), &at(NOW, 0, 0), &reading(0, 999_999_999));
    assert_eq!(parts(&deadline.unwrap()), (1, 0));
}

#[test]
fn past_timestamp_is_not_waited_for() {
    let mono = reading(1_000, 5);
    for past in [at(NOW - 3_600, 0, 0), at(NOW - 1, 999_999_999, 0), at(MIN_TIMESTAMP, 0, 0), at(0, 0, 0)] {
        let deadline = datetime_to_instant(&past, &at(NOW, 0, 0), &mono);
        assert_eq!(parts(&deadline.unwrap()), (1_000, 5));
    }
}

#[test]
fn present_timestamp_is_not_waited_for() {
    let mono = reading(1_000, 5);
    let deadline = datetime_to_instant(&at(NOW, 7, 0), &at(NOW, 7, 0), &mono);
    assert_eq!(parts(&deadline.unwrap()), (1_000, 5));
    let deadline = datetime_to_instant(&at(NOW, 7, 0), &at(NOW, 8, 0), &mono);
    assert_eq!(parts(&deadline.unwrap()), (1_000, 5));
    let deadline = datetime_to_instant(&at(NOW, 8, 0), &at(NOW, 7, 0), &mono);
    assert_eq!(parts(&deadline.unwrap()), (1_000, 6));
}

#[test]
fn offset_of_the_timestamp_does_not_move_the_deadline() {
    let mono = reading(0, 0);
    for offset in [-86_399, -3_600, 0, 3_600, 86_399] {
        for clock_offset in [-7_200, 0, 7_200] {
            let deadline =
                datetime_to_instant(&at(NOW + 60, 0, offset), &at(NOW, 0, clock_offset), &mono);
            assert_eq!(parts(&deadline.unwrap()), (60, 0));
        }
    }
}

#[test]
fn leap_second_counts_as_the_second_after() {
    let mono = reading(0, 0);
    let leap = at(NOW + 59, 1_500_000_000, 0);
    let deadline = datetime_to_instant(&leap, &at(NOW, 0, 0), &mono);
    assert_eq!(parts(&deadline.unwrap()), (60, 500_000_000));
}

#[test]
fn longest_wait_fits() {
    let deadline =
        datetime_to_instant(&at(MAX_TIMESTAMP, 999_999_999, 0), &at(MIN_TIMESTAMP, 0, 0), &reading(0, 0));
    let span = (MAX_TIMESTAMP - MIN_TIMESTAMP) as u64;
    assert_eq!(parts(&deadline.unwrap()), (span, 999_999_999));
}

#[test]
fn deadline_past_the_end_of_the_clock_is_none() {
    let mono = reading(u64::MAX, 0);
    assert!(datetime_to_instant(&at(NOW + 1, 0, 0), &at(NOW, 0, 0), &mono).is_none());
    assert!(datetime_to_instant(&at(NOW, 999_999_999, 0), &at(NOW, 0, 0), &mono).is_some());
    let mono = reading(u64::MAX, 1);
    assert!(datetime_to_instant(&at(NOW, 999_999_999, 0), &at(NOW, 0, 0), &mono).is_none());
    assert!(datetime_to_instant(&at(NOW, 999_999_998, 0), &at(NOW, 0, 0), &mono).is_some());
    assert!(datetime_to_instant(&at(NOW - 1, 0, 0), &at(NOW, 0, 0), &mono).is_some());
    let mono = reading(u64::MAX - 10, 0);
    assert!(datetime_to_instant(&at(NOW + 10, 0, 0), &at(NOW, 0, 0), &mono).is_some());
    assert!(datetime_to_instant(&at(NOW + 11, 0, 0), &at(NOW, 0, 0), &mono).is_none());
}

#[test]
fn instant_ahead_is_as_far_ahead_on_the_wall_clock() {
    let dt = instant_to_datetime(&reading(1_090, 0), &at(NOW, 0, 3_600), &reading(1_000, 0)).unwrap();
    assert_eq!(civil(&dt), (NOW + 90, 0, 0));
    let dt = instant_to_datetime(&reading(11, 200_000_000), &at(NOW, 900_000_000, 0), &reading(10, 0));
    assert_eq!(civil(&dt.unwrap()), (NOW + 2, 100_000_000, 0));
    let dt = instant_to_datetime(&reading(11, 0), &at(NOW, 0, 0), &reading(10, 500_000_000));
    assert_eq!(civil(&dt.unwrap()), (NOW, 500_000_000, 0));
}

#[test]
fn instant_that_has_passed_is_now_on_the_wall_clock() {
    let dt = instant_to_datetime(&reading(5, 0), &at(NOW, 42, -3_600), &reading(1_000, 0)).unwrap();
    assert_eq!(civil(&dt), (NOW, 42, 0));
    let dt = instant_to_datetime(&reading(1_000, 0), &at(NOW, 42, 0), &reading(1_000, 0)).unwrap();
    assert_eq!(civil(&dt), (NOW, 42, 0));
    let dt = instant_to_datetime(&reading(1_000, 0), &at(NOW, 42, 0), &reading(1_000, 1)).unwrap();
    assert_eq!(civil(&dt), (NOW, 42, 0));
}

#[test]
fn wall_clock_before_the_epoch_counts_down_properly() {
    let dt = instant_to_datetime(&reading(0, 500_000_000), &at(-1, 750_000_000, 0), &reading(0, 0));
    assert_eq!(civil(&dt.unwrap()), (0, 250_000_000, 0));
    let dt = instant_to_datetime(&reading(0, 0), &at(-5, 1, 0), &reading(0, 0));
    assert_eq!(civil(&dt.unwrap()), (-5, 1, 0));
    let dt = instant_to_datetime(&reading(0, 0), &at(MIN_TIMESTAMP, 0, 0), &reading(0, 0));
    assert_eq!(civil(&dt.unwrap()), (MIN_TIMESTAMP, 0, 0));
}

#[test]
fn leap_second_on_the_wall_clock_is_carried_over() {
    let dt = instant_to_datetime(&reading(0, 0), &at(59, 1_250_000_000, 0), &reading(0, 0)).unwrap();
    assert_eq!(civil(&dt), (60, 250_000_000, 0));
}

#[test]
fn wall_clock_time_past_the_last_second_is_none() {
    let last = at(MAX_TIMESTAMP, 0, 0);
    assert!(instant_to_datetime(&reading(0, 999_999_999), &last, &reading(0, 0)).is_some());
    assert!(instant_to_datetime(&reading(1, 0), &last, &reading(0, 0)).is_none());
    assert!(instant_to_datetime(&reading(u64::MAX, 0), &at(NOW, 0, 0), &reading(0, 0)).is_none());
    assert!(instant_to_datetime(&reading(0, 0), &last, &reading(u64::MAX, 0)).is_some());
}

#[test]
fn deadline_and_back_is_the_timestamp_in_utc() {
    let wall = at(NOW, 123, 7_200);
    let mono = reading(77, 999_999_999);
    let target = at(NOW + 3_600, 456, -3_600);
    let deadline = datetime_to_instant(&target, &wall, &mono).unwrap();
    let back = instant_to_datetime(&deadline, &wall, &mono).unwrap();
    assert_eq!(civil(&back), (NOW + 3_600, 456, 0));
}
