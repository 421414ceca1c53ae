use certo::clock::{UnixTime, NANOS_PER_DAY, NANOS_PER_SECOND};

const DAY: i64 = 86_400;

fn at(seconds: i64) -> UnixTime {
    UnixTime { seconds, nanoseconds: 0 }
}

#[test]
fn a_day_has_86400_seconds_of_a_billion_nanoseconds() {
    assert_eq!(NANOS_PER_SECOND, 1_000_000_000);
    assert_eq!(NANOS_PER_DAY, 86_400 * NANOS_PER_SECOND);
}

#[test]
fn whole_days_between_instants() {
    let now = at(1_700_000_000);
    assert_eq!(at(1_700_000_000 + 45 * DAY).days_after(&now), 45);
    assert_eq!(at(1_700_000_000).days_after(&now), 0);
    assert_eq!(at(1_700_000_000 - 10 * DAY).days_after(&now), -10);
}

#[test]
fn fractions_of_a_day_are_dropped_toward_zero() {
    let now = at(0);
    // 29.9 days ahead
    assert_eq!(at(29 * DAY + 77_760).days_after(&now), 29);
    assert_eq!(at(DAY - 1).days_after(&now), 0);
    // half a day, and a day and a half, in the past
    assert_eq!(at(-DAY / 2).days_after(&now), 0);
    assert_eq!(at(-DAY - DAY / 2).days_after(&now), -1);
    assert_eq!(at(-DAY + 1).days_after(&now), 0);
    assert_eq!(at(-DAY).days_after(&now), -1);
}

#[test]
fn nanoseconds_count() {
    let end = UnixTime { seconds: DAY, nanoseconds: 0 };
    assert_eq!(end.days_after(&UnixTime { seconds: 0, nanoseconds: 0 }), 1);
    assert_eq!(end.days_after(&UnixTime { seconds: 0, nanoseconds: 1 }), 0);
    let end = UnixTime { seconds: -DAY, nanoseconds: 1 };
    assert_eq!(end.days_after(&UnixTime { seconds: 0, nanoseconds: 0 }), 0);
    assert_eq!(end.days_after(&UnixTime { seconds: 0, nanoseconds: 1 }), -1);
}

#[test]
fn the_widest_spans_fit() {
    let first = UnixTime { seconds: i64::MIN, nanoseconds: 0 };
    let last = UnixTime { seconds: i64::MAX, nanoseconds: 999_999_999 };
    assert_eq!(last.days_after(&first), 213_503_982_334_601);
    assert_eq!(first.days_after(&last), -213_503_982_334_601);
    assert_eq!(last.days_after(&last), 0);
}
