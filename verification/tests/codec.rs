use pg_temporal::CodecError;
use pg_temporal::WireTemporalKind;
use pg_temporal::date::CivilDate;
use pg_temporal::date::decode_date;
use pg_temporal::date::encode_date;
use pg_temporal::time::TimeOfDay;
use pg_temporal::time::decode_time;
use pg_temporal::time::encode_time;
use pg_temporal::timestamp::NaiveTimestamp;
use pg_temporal::timestamp::base;
use pg_temporal::timestamp::decode_timestamp;
use pg_temporal::timestamp::encode_timestamp;

fn date(year: i32, month: u8, day: u8) -> CivilDate {
    CivilDate { year, month, day }
}

fn time(hour: u8, minute: u8, second: u8, microsecond: u32) -> TimeOfDay {
    TimeOfDay { hour, minute, second, microsecond }
}

#[test]
fn encode_date_day_after_epoch() {
    assert_eq!(encode_date(&date(2000, 1, 2)), Ok(1));
}

#[test]
fn encode_date_day_before_epoch() {
    assert_eq!(encode_date(&date(1999, 12, 31)), Ok(-1));
}

#[test]
fn encode_date_epoch_is_zero() {
    assert_eq!(encode_date(&date(2000, 1, 1)), Ok(0));
}

#[test]
fn encode_date_known_offsets() {
    // 2000 is a leap year: the next year starts 366 days after the epoch.
    assert_eq!(encode_date(&date(2001, 1, 1)), Ok(366));
    assert_eq!(encode_date(&date(1999, 1, 1)), Ok(-365));
    // 31 days of January plus 29 days of a leap February.
    assert_eq!(encode_date(&date(2000, 3, 1)), Ok(60));
    // The unix epoch lies 10957 days before the wire epoch.
    assert_eq!(encode_date(&date(1970, 1, 1)), Ok(-10957));
    // 1900 is not a leap year (century rule).
    assert_eq!(encode_date(&date(1900, 3, 1)), Ok(-36465));
    assert_eq!(encode_date(&date(1900, 2, 28)), Ok(-36466));
}

#[test]
fn decode_date_concrete_values() {
    assert_eq!(decode_date(0), date(2000, 1, 1));
    assert_eq!(decode_date(1), date(2000, 1, 2));
    assert_eq!(decode_date(-1), date(1999, 12, 31));
    assert_eq!(decode_date(59), date(2000, 2, 29));
    assert_eq!(decode_date(60), date(2000, 3, 1));
}

#[test]
fn date_round_trip_samples() {
    let samples: Vec<CivilDate> = vec![
        date(2000, 1, 1),
        date(2000, 2, 29),
        date(1600, 2, 29),
        date(2024, 12, 31),
        date(1, 1, 1),
        date(0, 2, 29),
        date(-4712, 1, 1),
        date(275760, 9, 13),
        date(-1000000, 6, 15),
    ];
    for d in samples {
        let n: i32 = encode_date(&d).expect("in range");
        assert_eq!(decode_date(n), d);
    }
}

#[test]
fn date_round_trip_wire_width_extremes() {
    let far_future: CivilDate = decode_date(i32::MAX);
    assert_eq!(encode_date(&far_future), Ok(i32::MAX));
    let far_past: CivilDate = decode_date(i32::MIN);
    assert_eq!(encode_date(&far_past), Ok(i32::MIN));
}

#[test]
fn encode_date_overflow_reported() {
    assert_eq!(encode_date(&date(6_000_000, 1, 1)), Err(CodecError::Overflow));
    assert_eq!(encode_date(&date(-6_000_000, 1, 1)), Err(CodecError::Overflow));
}

#[test]
fn encode_time_one_second() {
    assert_eq!(encode_time(&time(0, 0, 1, 0)), Ok(1_000_000));
}

#[test]
fn encode_time_concrete_values() {
    assert_eq!(encode_time(&time(0, 0, 0, 0)), Ok(0));
    assert_eq!(encode_time(&time(0, 0, 0, 1)), Ok(1));
    assert_eq!(
        encode_time(&time(12, 34, 56, 789_012)),
        Ok(((12 * 3600 + 34 * 60 + 56) as i64) * 1_000_000 + 789_012)
    );
    assert_eq!(encode_time(&time(23, 59, 59, 999_999)), Ok(86_399_999_999));
}

#[test]
fn decode_time_concrete_values() {
    assert_eq!(decode_time(0), time(0, 0, 0, 0));
    assert_eq!(decode_time(1_000_000), time(0, 0, 1, 0));
    assert_eq!(decode_time(86_399_999_999), time(23, 59, 59, 999_999));
}

#[test]
fn time_round_trip_samples() {
    let samples: Vec<TimeOfDay> = vec![
        time(0, 0, 0, 0),
        time(1, 2, 3, 4),
        time(12, 0, 0, 500_000),
        time(23, 59, 59, 999_999),
    ];
    for t in samples {
        let n: i64 = encode_time(&t).expect("always encodes");
        assert_eq!(decode_time(n), t);
    }
}

#[test]
fn base_is_epoch_instant() {
    let b: NaiveTimestamp = base();
    assert_eq!(b.date, date(2000, 1, 1));
    assert_eq!(b.time, time(0, 0, 0, 0));
    assert_eq!(encode_timestamp(&b), Ok(0));
}

#[test]
fn decode_timestamp_zero_is_epoch() {
    assert_eq!(decode_timestamp(0), base());
}

#[test]
fn decode_timestamp_one_day_before_epoch() {
    let t: NaiveTimestamp = decode_timestamp(-86_400_000_000);
    assert_eq!(t.date, date(1999, 12, 31));
    assert_eq!(t.time, time(0, 0, 0, 0));
}

#[test]
fn timestamp_round_trip_samples() {
    let samples: Vec<i64> = vec![
        0,
        1,
        -1,
        86_400_000_000,
        -86_400_000_000,
        1_234_567_890_123_456,
        -1_234_567_890_123_456,
        i64::MAX,
        i64::MIN,
    ];
    for n in samples {
        let t: NaiveTimestamp = decode_timestamp(n);
        assert_eq!(encode_timestamp(&t), Ok(n));
    }
}

#[test]
fn timestamp_overflow_boundary() {
    // Exactly i64::MAX microseconds from the epoch still encodes.
    let limit: NaiveTimestamp = decode_timestamp(i64::MAX);
    assert_eq!(encode_timestamp(&limit), Ok(i64::MAX));
    // One microsecond beyond fails with an overflow error.
    let beyond: NaiveTimestamp = NaiveTimestamp {
        date: limit.date,
        time: decode_time(encode_time(&limit.time).unwrap() + 1),
    };
    assert_eq!(encode_timestamp(&beyond), Err(CodecError::Overflow));
}

#[test]
fn timestamp_underflow_boundary() {
    let limit: NaiveTimestamp = decode_timestamp(i64::MIN);
    assert_eq!(encode_timestamp(&limit), Ok(i64::MIN));
    let beyond: NaiveTimestamp = NaiveTimestamp {
        date: limit.date,
        time: decode_time(encode_time(&limit.time).unwrap() - 1),
    };
    assert_eq!(encode_timestamp(&beyond), Err(CodecError::Overflow));
}

#[test]
fn kind_enum_distinguishes_variants() {
    assert_ne!(WireTemporalKind::Date, WireTemporalKind::Time);
    assert_ne!(WireTemporalKind::Timestamp, WireTemporalKind::TimestampWithZone);
}
