use chrono::{DateTime, NaiveDate, TimeDelta, Utc};
use datemath::instant::{MAX_DAY, MAX_TIMESTAMP, MIN_DAY, MIN_TIMESTAMP};
use datemath::{Instant, TimeOfDay, TimeSpan};

fn to_chrono(instant: Instant) -> DateTime<Utc> {
    DateTime::from_timestamp(instant.seconds, instant.nanos).unwrap()
}

fn from_chrono(datetime: DateTime<Utc>) -> Instant {
    Instant { seconds: datetime.timestamp(), nanos: datetime.timestamp_subsec_nanos() }
}

fn span(seconds: i128) -> TimeSpan {
    TimeSpan { seconds }
}

const LEAP: Instant = Instant { seconds: 1_483_228_799, nanos: 1_500_000_000 };

#[test]
fn the_days_that_can_be_told_are_those_of_chrono() {
    assert_eq!(NaiveDate::MIN.to_epoch_days(), MIN_DAY);
    assert_eq!(NaiveDate::MAX.to_epoch_days(), MAX_DAY);
    assert_eq!(DateTime::<Utc>::MIN_UTC.timestamp(), MIN_TIMESTAMP);
    assert_eq!(DateTime::<Utc>::MAX_UTC.timestamp(), MAX_TIMESTAMP);
    assert_eq!(MIN_TIMESTAMP, MIN_DAY as i64 * 86_400);
    assert_eq!(MAX_TIMESTAMP, MAX_DAY as i64 * 86_400 + 86_399);
    assert!(DateTime::from_timestamp(MIN_TIMESTAMP - 1, 0).is_none());
    assert!(DateTime::from_timestamp(MAX_TIMESTAMP + 1, 0).is_none());
}

#[test]
fn an_instant_is_made_within_the_limits() {
    assert_eq!(Instant::new(0, 0), Some(Instant { seconds: 0, nanos: 0 }));
    assert_eq!(
        Instant::new(1_699_619_696, 123_000_000),
        Some(Instant { seconds: 1_699_619_696, nanos: 123_000_000 })
    );
    assert_eq!(
        Instant::new(MIN_TIMESTAMP, 0),
        Some(Instant { seconds: MIN_TIMESTAMP, nanos: 0 })
    );
    assert_eq!(
        Instant::new(MAX_TIMESTAMP, 1_999_999_999),
        Some(Instant { seconds: MAX_TIMESTAMP, nanos: 1_999_999_999 })
    );
}

#[test]
fn no_instant_is_made_beyond_the_limits() {
    assert_eq!(Instant::new(MIN_TIMESTAMP - 1, 0), None);
    assert_eq!(Instant::new(MAX_TIMESTAMP + 1, 0), None);
    assert_eq!(Instant::new(i64::MIN, 0), None);
    assert_eq!(Instant::new(i64::MAX, 0), None);
    assert_eq!(Instant::new(0, 2_000_000_000), None);
    assert_eq!(Instant::new(0, u32::MAX), None);
}

#[test]
fn the_epoch_day_is_counted_from_1970() {
    assert_eq!(Instant { seconds: 0, nanos: 0 }.epoch_day(), 0);
    assert_eq!(Instant { seconds: 86_399, nanos: 999_999_999 }.epoch_day(), 0);
    assert_eq!(Instant { seconds: 86_400, nanos: 0 }.epoch_day(), 1);
    assert_eq!(Instant { seconds: -1, nanos: 0 }.epoch_day(), -1);
    assert_eq!(Instant { seconds: -86_400, nanos: 0 }.epoch_day(), -1);
    assert_eq!(Instant { seconds: -86_401, nanos: 0 }.epoch_day(), -2);
    assert_eq!(Instant { seconds: 1_699_619_696, nanos: 0 }.epoch_day(), 19_671);
    assert_eq!(Instant { seconds: MIN_TIMESTAMP, nanos: 0 }.epoch_day(), MIN_DAY);
    assert_eq!(Instant { seconds: MAX_TIMESTAMP, nanos: 0 }.epoch_day(), MAX_DAY);
}

#[test]
fn the_epoch_day_is_the_date_that_chrono_shows() {
    for seconds in [MIN_TIMESTAMP, -86_401, -86_400, -1, 0, 1, 951_782_400, 1_699_619_696, MAX_TIMESTAMP] {
        let instant = Instant { seconds, nanos: 0 };
        assert_eq!(instant.epoch_day(), to_chrono(instant).date_naive().to_epoch_days());
    }
}

#[test]
fn midnight_is_the_first_instant_of_a_day() {
    assert_eq!(Instant::at_midnight(0), Instant { seconds: 0, nanos: 0 });
    assert_eq!(Instant::at_midnight(19_671), Instant { seconds: 1_699_574_400, nanos: 0 });
    assert_eq!(Instant::at_midnight(-1), Instant { seconds: -86_400, nanos: 0 });
    assert_eq!(Instant::at_midnight(MIN_DAY), Instant { seconds: MIN_TIMESTAMP, nanos: 0 });
    assert_eq!(Instant::at_midnight(MAX_DAY), Instant { seconds: MAX_TIMESTAMP - 86_399, nanos: 0 });
}

#[test]
fn a_time_of_day_is_put_on_the_day_of_an_instant() {
    let now = Instant { seconds: 1_699_619_696, nanos: 777 };
    let time = TimeOfDay { second: 45_240, nanos: 0 };
    assert_eq!(now.same_day_at(time), Instant { seconds: 1_699_619_640, nanos: 0 });
    let late = TimeOfDay { second: 86_399, nanos: 1_250_000_000 };
    assert_eq!(now.same_day_at(late), Instant { seconds: 1_699_660_799, nanos: 1_250_000_000 });
    let before_epoch = Instant { seconds: -1, nanos: 0 };
    assert_eq!(
        before_epoch.same_day_at(TimeOfDay { second: 0, nanos: 5 }),
        Instant { seconds: -86_400, nanos: 5 }
    );
}

#[test]
fn adding_three_days_moves_an_instant_259200_seconds() {
    let base = Instant { seconds: 1_699_619_696, nanos: 0 };
    assert_eq!(base.checked_add(span(259_200)), Some(Instant { seconds: 1_699_878_896, nanos: 0 }));
    assert_eq!(base.checked_sub(span(259_200)), Some(Instant { seconds: 1_699_360_496, nanos: 0 }));
}

#[test]
fn the_fraction_of_a_second_stays_as_it_is() {
    let base = Instant { seconds: 1_699_619_696, nanos: 123_000_000 };
    assert_eq!(
        base.checked_sub(span(7_200)),
        Some(Instant { seconds: 1_699_612_496, nanos: 123_000_000 })
    );
    assert_eq!(
        base.checked_add(span(-7_200)),
        Some(Instant { seconds: 1_699_612_496, nanos: 123_000_000 })
    );
}

#[test]
fn an_empty_span_moves_nothing() {
    for instant in [Instant { seconds: 0, nanos: 0 }, LEAP, Instant { seconds: MAX_TIMESTAMP, nanos: 1 }] {
        assert_eq!(instant.checked_add(span(0)), Some(instant));
        assert_eq!(instant.checked_sub(span(0)), Some(instant));
    }
}

#[test]
fn no_instant_lies_beyond_the_limits() {
    let last = Instant { seconds: MAX_TIMESTAMP, nanos: 0 };
    let first = Instant { seconds: MIN_TIMESTAMP, nanos: 0 };
    assert_eq!(last.checked_add(span(1)), None);
    assert_eq!(first.checked_sub(span(1)), None);
    assert_eq!(first.checked_add(span(-1)), None);
    assert_eq!(last.checked_sub(span(-1)), None);
    assert_eq!(
        first.checked_add(span(MAX_TIMESTAMP as i128 - MIN_TIMESTAMP as i128)),
        Some(last)
    );
    assert_eq!(
        last.checked_sub(span(MAX_TIMESTAMP as i128 - MIN_TIMESTAMP as i128)),
        Some(first)
    );
    assert_eq!(first.checked_add(span(MAX_TIMESTAMP as i128 - MIN_TIMESTAMP as i128 + 1)), None);
}

#[test]
fn spans_of_any_size_are_taken() {
    let base = Instant { seconds: 0, nanos: 0 };
    for seconds in [
        i64::MAX as i128,
        i64::MIN as i128,
        i64::MAX as i128 * 604_800,
        i64::MIN as i128 * 604_800,
        1i128 << 64,
        (1i128 << 64) + 1,
        -(1i128 << 64),
        -(1i128 << 64) - 1,
        i128::MAX,
        i128::MIN,
    ] {
        assert_eq!(base.checked_add(span(seconds)), None);
        assert_eq!(base.checked_sub(span(seconds)), None);
    }
}

#[test]
fn a_leap_second_is_left_when_the_instant_moves() {
    assert_eq!(LEAP.checked_add(span(1)), Some(Instant { seconds: 1_483_228_800, nanos: 500_000_000 }));
    assert_eq!(LEAP.checked_add(span(60)), Some(Instant { seconds: 1_483_228_859, nanos: 500_000_000 }));
    assert_eq!(LEAP.checked_sub(span(1)), Some(Instant { seconds: 1_483_228_799, nanos: 500_000_000 }));
    assert_eq!(LEAP.checked_add(span(-1)), Some(Instant { seconds: 1_483_228_799, nanos: 500_000_000 }));
    assert_eq!(LEAP.checked_sub(span(60)), Some(Instant { seconds: 1_483_228_740, nanos: 500_000_000 }));
}

#[test]
fn moving_forth_and_back_does_not_return_into_a_leap_second() {
    let later = LEAP.checked_add(span(1)).unwrap();
    assert_eq!(later.checked_sub(span(1)), Some(Instant { seconds: 1_483_228_799, nanos: 500_000_000 }));
    assert_ne!(later.checked_sub(span(1)), Some(LEAP));
}

#[test]
fn adding_and_subtracting_are_inverse() {
    let instants = [
        Instant { seconds: 0, nanos: 0 },
        Instant { seconds: -1, nanos: 999_999_999 },
        Instant { seconds: 1_699_619_696, nanos: 123_000_000 },
        Instant { seconds: MIN_TIMESTAMP, nanos: 0 },
        Instant { seconds: MAX_TIMESTAMP, nanos: 999_999_999 },
    ];
    let spans = [0i128, 1, -1, 59, 60, 3_600, 86_400, 604_800, -259_200, 31_556_952_000, 1i128 << 43, -(1i128 << 43)];
    for instant in instants {
        for seconds in spans {
            if let Some(later) = instant.checked_add(span(seconds)) {
                assert_eq!(later.checked_sub(span(seconds)), Some(instant));
            }
            if let Some(earlier) = instant.checked_sub(span(seconds)) {
                assert_eq!(earlier.checked_add(span(seconds)), Some(instant));
            }
        }
    }
}

#[test]
fn instants_move_as_datetimes_of_chrono_move() {
    let instants = [
        Instant { seconds: MIN_TIMESTAMP, nanos: 0 },
        Instant { seconds: MIN_TIMESTAMP + 59, nanos: 1_000_000_000 },
        Instant { seconds: -86_401, nanos: 5 },
        Instant { seconds: -1, nanos: 999_999_999 },
        Instant { seconds: -1, nanos: 1_999_999_999 },
        Instant { seconds: 0, nanos: 0 },
        Instant { seconds: 59, nanos: 1_000_000_000 },
        Instant { seconds: 1_699_619_696, nanos: 123_000_000 },
        LEAP,
        Instant { seconds: MAX_TIMESTAMP - 86_400, nanos: 0 },
        Instant { seconds: MAX_TIMESTAMP, nanos: 999_999_999 },
        Instant { seconds: MAX_TIMESTAMP, nanos: 1_999_999_999 },
    ];
    let spans: [i64; 21] = [
        0, 1, -1, 2, -2, 59, 60, -60, 61, 86_399, 86_400, -86_400, 86_401, 604_800, -604_800,
        MAX_TIMESTAMP, -MAX_TIMESTAMP, MAX_TIMESTAMP - MIN_TIMESTAMP, MIN_TIMESTAMP - MAX_TIMESTAMP,
        9_223_372_036_854_775, -9_223_372_036_854_775,
    ];
    for instant in instants {
        for seconds in spans {
            let delta = TimeDelta::try_seconds(seconds).unwrap();
            let there = to_chrono(instant);
            assert_eq!(
                instant.checked_add(span(seconds as i128)),
                there.checked_add_signed(delta).map(from_chrono),
                "{:?} + {}",
                instant,
                seconds
            );
            assert_eq!(
                instant.checked_sub(span(seconds as i128)),
                there.checked_sub_signed(delta).map(from_chrono),
                "{:?} - {}",
                instant,
                seconds
            );
        }
    }
}
