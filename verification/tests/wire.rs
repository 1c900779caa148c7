use pg_temporal::CodecError;
use pg_temporal::WireTemporalKind;
use pg_temporal::date::CivilDate;
use pg_temporal::time::TimeOfDay;
use pg_temporal::timestamp::NaiveTimestamp;
use pg_temporal::timestamp::decode_timestamp;
use pg_temporal::wire::date_from_wire;
use pg_temporal::wire::date_to_wire;
use pg_temporal::wire::time_from_wire;
use pg_temporal::wire::time_to_wire;
use pg_temporal::wire::timestamp_from_wire;
use pg_temporal::wire::timestamp_to_wire;
use pg_temporal::wire::zoned_from_wire_fixed;
use pg_temporal::wire::zoned_from_wire_local;
use pg_temporal::wire::zoned_from_wire_utc;
use pg_temporal::wire::zoned_to_wire;
use pg_temporal::zoned::ZonePolicy;
use pg_temporal::zoned::ZonedTimestamp;

fn date(year: i32, month: u8, day: u8) -> CivilDate {
    CivilDate { year, month, day }
}

#[test]
fn date_wire_bytes_are_big_endian() {
    let mut buf: Vec<u8> = vec![0xaa];
    assert_eq!(date_to_wire(&date(2000, 1, 2), WireTemporalKind::Date, &mut buf), Ok(()));
    assert_eq!(buf, vec![0xaa, 0, 0, 0, 1]);
    let mut neg: Vec<u8> = Vec::new();
    assert_eq!(date_to_wire(&date(1999, 12, 31), WireTemporalKind::Date, &mut neg), Ok(()));
    assert_eq!(neg, vec![0xff, 0xff, 0xff, 0xff]);
}

#[test]
fn date_wire_round_trip() {
    let d: CivilDate = date(2024, 2, 29);
    let mut buf: Vec<u8> = Vec::new();
    assert_eq!(date_to_wire(&d, WireTemporalKind::Date, &mut buf), Ok(()));
    assert_eq!(date_from_wire(WireTemporalKind::Date, &buf), Ok(d));
}

#[test]
fn date_from_wire_rejects_bad_lengths() {
    assert_eq!(
        date_from_wire(WireTemporalKind::Date, &[0, 0, 1]),
        Err(CodecError::MalformedWireData)
    );
    assert_eq!(
        date_from_wire(WireTemporalKind::Date, &[0, 0, 0, 0, 1]),
        Err(CodecError::MalformedWireData)
    );
}

#[test]
fn date_wire_rejects_wrong_tag() {
    let mut buf: Vec<u8> = vec![7];
    assert_eq!(
        date_to_wire(&date(2000, 1, 1), WireTemporalKind::Time, &mut buf),
        Err(CodecError::TypeMismatch)
    );
    assert_eq!(buf, vec![7]);
    assert_eq!(
        date_from_wire(WireTemporalKind::Timestamp, &[0, 0, 0, 0]),
        Err(CodecError::TypeMismatch)
    );
}

#[test]
fn date_to_wire_overflow_leaves_buffer_untouched() {
    let mut buf: Vec<u8> = vec![1, 2];
    assert_eq!(
        date_to_wire(&date(6_000_000, 1, 1), WireTemporalKind::Date, &mut buf),
        Err(CodecError::Overflow)
    );
    assert_eq!(buf, vec![1, 2]);
}

#[test]
fn time_wire_round_trip() {
    let t = TimeOfDay { hour: 12, minute: 34, second: 56, microsecond: 789_012 };
    let mut buf: Vec<u8> = Vec::new();
    assert_eq!(time_to_wire(&t, WireTemporalKind::Time, &mut buf), Ok(()));
    assert_eq!(buf, 45_296_789_012i64.to_be_bytes().to_vec());
    assert_eq!(time_from_wire(WireTemporalKind::Time, &buf), Ok(t));
}

#[test]
fn time_from_wire_rejects_out_of_range_counts() {
    let full_day: Vec<u8> = 86_400_000_000i64.to_be_bytes().to_vec();
    assert_eq!(
        time_from_wire(WireTemporalKind::Time, &full_day),
        Err(CodecError::MalformedWireData)
    );
    let negative: Vec<u8> = (-1i64).to_be_bytes().to_vec();
    assert_eq!(
        time_from_wire(WireTemporalKind::Time, &negative),
        Err(CodecError::MalformedWireData)
    );
}

#[test]
fn time_wire_rejects_wrong_tag() {
    let mut buf: Vec<u8> = Vec::new();
    let t = TimeOfDay { hour: 0, minute: 0, second: 0, microsecond: 0 };
    assert_eq!(
        time_to_wire(&t, WireTemporalKind::Date, &mut buf),
        Err(CodecError::TypeMismatch)
    );
    assert!(buf.is_empty());
    assert_eq!(
        time_from_wire(WireTemporalKind::TimestampWithZone, &[0; 8]),
        Err(CodecError::TypeMismatch)
    );
}

#[test]
fn timestamp_wire_round_trip() {
    let t: NaiveTimestamp = decode_timestamp(1_234_567_890_123_456);
    let mut buf: Vec<u8> = Vec::new();
    assert_eq!(timestamp_to_wire(&t, WireTemporalKind::Timestamp, &mut buf), Ok(()));
    assert_eq!(buf, 1_234_567_890_123_456i64.to_be_bytes().to_vec());
    assert_eq!(timestamp_from_wire(WireTemporalKind::Timestamp, &buf), Ok(t));
}

#[test]
fn timestamp_from_wire_rejects_bad_length() {
    assert_eq!(
        timestamp_from_wire(WireTemporalKind::Timestamp, &[0; 7]),
        Err(CodecError::MalformedWireData)
    );
}

#[test]
fn zoned_wire_is_utc_naive_encoding_for_every_policy() {
    let instant: NaiveTimestamp = decode_timestamp(987_654_321);
    let policies: Vec<ZonePolicy> = vec![
        ZonePolicy::Utc,
        ZonePolicy::Local { offset_seconds: 3600 },
        ZonePolicy::Fixed { offset_seconds: -7200 },
    ];
    let expected: Vec<u8> = 987_654_321i64.to_be_bytes().to_vec();
    for zone in policies {
        let z = ZonedTimestamp { instant, zone };
        let mut buf: Vec<u8> = Vec::new();
        assert_eq!(zoned_to_wire(&z, WireTemporalKind::TimestampWithZone, &mut buf), Ok(()));
        assert_eq!(buf, expected);
    }
}

#[test]
fn local_encode_then_utc_decode_preserves_instant() {
    let z = ZonedTimestamp {
        instant: decode_timestamp(55_555_555_555),
        zone: ZonePolicy::Local { offset_seconds: -18_000 },
    };
    let mut buf: Vec<u8> = Vec::new();
    assert_eq!(zoned_to_wire(&z, WireTemporalKind::TimestampWithZone, &mut buf), Ok(()));
    let u: ZonedTimestamp = zoned_from_wire_utc(WireTemporalKind::TimestampWithZone, &buf)
        .expect("well-formed bytes");
    assert_eq!(u.instant, z.instant);
    assert_eq!(u.zone, ZonePolicy::Utc);
}

#[test]
fn fixed_offset_decode_always_reports_offset_zero() {
    let raw: Vec<u8> = 424_242i64.to_be_bytes().to_vec();
    let z: ZonedTimestamp = zoned_from_wire_fixed(WireTemporalKind::TimestampWithZone, &raw)
        .expect("well-formed bytes");
    assert_eq!(z.zone, ZonePolicy::Fixed { offset_seconds: 0 });
    assert_eq!(z.offset_seconds(), 0);
    assert_eq!(z.instant, decode_timestamp(424_242));
}

#[test]
fn local_decode_attaches_a_bounded_offset() {
    let raw: Vec<u8> = 0i64.to_be_bytes().to_vec();
    let z: ZonedTimestamp = zoned_from_wire_local(WireTemporalKind::TimestampWithZone, &raw)
        .expect("epoch is resolvable");
    assert_eq!(z.instant, decode_timestamp(0));
    match z.zone {
        ZonePolicy::Local { offset_seconds } => {
            assert!(-86_400 < offset_seconds && offset_seconds < 86_400);
        }
        other => panic!("expected a local zone attachment, got {:?}", other),
    }
}

#[test]
fn local_decode_far_future_reports_unresolved_zone() {
    let raw: Vec<u8> = i64::MAX.to_be_bytes().to_vec();
    assert_eq!(
        zoned_from_wire_local(WireTemporalKind::TimestampWithZone, &raw),
        Err(CodecError::LocalZoneUnresolved)
    );
}

#[test]
fn zoned_wire_rejects_wrong_tag() {
    assert_eq!(
        zoned_from_wire_utc(WireTemporalKind::Timestamp, &[0; 8]),
        Err(CodecError::TypeMismatch)
    );
    assert_eq!(
        zoned_from_wire_local(WireTemporalKind::Date, &[0; 8]),
        Err(CodecError::TypeMismatch)
    );
    assert_eq!(
        zoned_from_wire_fixed(WireTemporalKind::Time, &[0; 8]),
        Err(CodecError::TypeMismatch)
    );
    let z = ZonedTimestamp { instant: decode_timestamp(0), zone: ZonePolicy::Utc };
    let mut buf: Vec<u8> = Vec::new();
    assert_eq!(
        zoned_to_wire(&z, WireTemporalKind::Timestamp, &mut buf),
        Err(CodecError::TypeMismatch)
    );
    assert!(buf.is_empty());
}

#[test]
fn zoned_from_wire_rejects_bad_length() {
    assert_eq!(
        zoned_from_wire_utc(WireTemporalKind::TimestampWithZone, &[1, 2, 3]),
        Err(CodecError::MalformedWireData)
    );
    assert_eq!(
        zoned_from_wire_local(WireTemporalKind::TimestampWithZone, &[]),
        Err(CodecError::MalformedWireData)
    );
    assert_eq!(
        zoned_from_wire_fixed(WireTemporalKind::TimestampWithZone, &[0; 9]),
        Err(CodecError::MalformedWireData)
    );
}
