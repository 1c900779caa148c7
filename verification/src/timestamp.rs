//! Naive timestamp codec: civil date plus time of day <-> signed count of
//! microseconds elapsed since the epoch instant 2000-01-01 00:00:00.

use vstd::prelude::*;
use vstd::arithmetic::div_mod::*;

use crate::CodecError;
use crate::date::CivilDate;
use crate::date::date_day_number;
use crate::date::date_to_days;
use crate::date::decode_date;
use crate::date::lemma_date_round_trip;
use crate::time::TimeOfDay;
use crate::time::USECS_PER_DAY;
use crate::time::decode_time;
use crate::time::lemma_time_round_trip;
use crate::time::time_micros;
use crate::time::time_to_micros;

verus! {

/// A wall-clock reading with no attached zone.
#[derive(Clone, Copy, PartialEq, Eq, Structural, Debug)]
pub struct NaiveTimestamp {
    pub date: CivilDate,
    pub time: TimeOfDay,
}

impl NaiveTimestamp {
    pub open spec fn valid(self) -> bool {
        self.date.valid() && self.time.valid()
    }
}

/// The mathematical model of the timestamp codec: signed microseconds from
/// the epoch instant to `t`.
pub open spec fn timestamp_to_micros(t: NaiveTimestamp) -> int {
    date_to_days(t.date) * (USECS_PER_DAY as int) + time_to_micros(t.time)
}

/// Whether the microsecond offset of `t` from the epoch fits the signed
/// 64-bit wire width.
pub open spec fn micros_representable(t: NaiveTimestamp) -> bool {
    -9_223_372_036_854_775_808 <= timestamp_to_micros(t) <= 9_223_372_036_854_775_807
}

/// The epoch instant all wire offsets are measured from: 2000-01-01 00:00:00.
pub fn base() -> (r: NaiveTimestamp)
    ensures
        r.valid(),
        r.date == (CivilDate { year: 2000, month: 1, day: 1 }),
        r.time == (TimeOfDay { hour: 0, minute: 0, second: 0, microsecond: 0 }),
        timestamp_to_micros(r) == 0,
{
    NaiveTimestamp {
        date: CivilDate { year: 2000, month: 1, day: 1 },
        time: TimeOfDay { hour: 0, minute: 0, second: 0, microsecond: 0 },
    }
}

/// Microseconds elapsed between `t` and the epoch instant. Fails with
/// `Overflow` ("value too large to transmit") exactly when that count does
/// not fit a signed 64-bit integer; the failure is reported, never truncated
/// or saturated.
pub fn encode_timestamp(t: &NaiveTimestamp) -> (r: Result<i64, CodecError>)
    requires
        t.valid(),
    ensures
        r matches Ok(v) ==> v == timestamp_to_micros(*t),
        r is Ok <==> micros_representable(*t),
        r is Err ==> r == Err::<i64, CodecError>(CodecError::Overflow),
{
    let days: i64 = date_day_number(&t.date);
    let tod: i64 = time_micros(&t.time);
    if -106_751_991 <= days && days <= 106_751_990 {
        Ok(days * USECS_PER_DAY + tod)
    } else if days == 106_751_991 {
        if tod <= 14_454_775_807 {
            Ok(days * USECS_PER_DAY + tod)
        } else {
            Err(CodecError::Overflow)
        }
    } else if days == -106_751_992 {
        if tod >= 71_945_224_192 {
            Ok(-9_223_372_022_400_000_000 + (tod - USECS_PER_DAY))
        } else {
            Err(CodecError::Overflow)
        }
    } else {
        Err(CodecError::Overflow)
    }
}

/// The epoch instant plus `raw_microseconds` microseconds; negative counts
/// are instants before 2000-01-01. Every 64-bit input maps to a valid, if
/// far-future or far-past, calendar timestamp, so decoding never fails.
pub fn decode_timestamp(raw_microseconds: i64) -> (t: NaiveTimestamp)
    ensures
        t.valid(),
        timestamp_to_micros(t) == raw_microseconds,
{
    let (q, tod): (i64, i64) = if raw_microseconds >= 0 {
        let u: u64 = raw_microseconds as u64;
        let q0: u64 = u / 86_400_000_000;
        let r0: u64 = u % 86_400_000_000;
        proof {
            lemma_fundamental_div_mod(u as int, 86_400_000_000);
            lemma_mod_division_less_than_divisor(u as int, 86_400_000_000);
            lemma_multiply_divide_lt(u as int, 86_400_000_000, 106_751_992);
        }
        (q0 as i64, r0 as i64)
    } else {
        let u: u64 = (-(raw_microseconds + 1)) as u64;
        let q0: u64 = u / 86_400_000_000;
        let r0: u64 = u % 86_400_000_000;
        proof {
            lemma_fundamental_div_mod(u as int, 86_400_000_000);
            lemma_mod_division_less_than_divisor(u as int, 86_400_000_000);
            lemma_multiply_divide_lt(u as int, 86_400_000_000, 106_751_992);
        }
        (-(q0 as i64) - 1, 86_400_000_000 - 1 - (r0 as i64))
    };
    let date: CivilDate = decode_date(q as i32);
    let time: TimeOfDay = decode_time(tod);
    NaiveTimestamp { date, time }
}

/// Round-trip law of the timestamp codec: a microsecond offset determines at
/// most one valid naive timestamp, so decoding what a timestamp encodes to
/// yields that timestamp back.
pub proof fn lemma_timestamp_round_trip(t1: NaiveTimestamp, t2: NaiveTimestamp)
    requires
        t1.valid(),
        t2.valid(),
        timestamp_to_micros(t1) == timestamp_to_micros(t2),
    ensures
        t1 == t2,
{
    let x = timestamp_to_micros(t1);
    lemma_fundamental_div_mod_converse(
        x,
        USECS_PER_DAY as int,
        date_to_days(t1.date),
        time_to_micros(t1.time),
    );
    lemma_fundamental_div_mod_converse(
        x,
        USECS_PER_DAY as int,
        date_to_days(t2.date),
        time_to_micros(t2.time),
    );
    lemma_date_round_trip(t1.date, t2.date);
    lemma_time_round_trip(t1.time, t2.time);
}

} // verus!
