//! Time-of-day codec: wall-clock time <-> signed count of microseconds
//! elapsed since midnight.

use vstd::prelude::*;
use vstd::arithmetic::div_mod::*;

use crate::CodecError;

verus! {

/// Microseconds in one civil day.
pub const USECS_PER_DAY: i64 = 86_400_000_000;

/// A time of day; never represents 24:00:00 or later.
#[derive(Clone, Copy, PartialEq, Eq, Structural, Debug)]
pub struct TimeOfDay {
    pub hour: u8,
    pub minute: u8,
    pub second: u8,
    pub microsecond: u32,
}

impl TimeOfDay {
    pub open spec fn valid(self) -> bool {
        &&& self.hour < 24
        &&& self.minute < 60
        &&& self.second < 60
        &&& self.microsecond < 1_000_000
    }
}

/// The mathematical model of the time codec: microseconds elapsed from
/// midnight to `t`, in `[0, 86_400_000_000)` for any valid time.
pub open spec fn time_to_micros(t: TimeOfDay) -> int {
    ((t.hour * 60 + t.minute) * 60 + t.second) * 1_000_000 + t.microsecond
}

pub(crate) fn time_micros(t: &TimeOfDay) -> (r: i64)
    requires
        t.valid(),
    ensures
        r == time_to_micros(*t),
        0 <= r < USECS_PER_DAY,
{
    let secs: i64 = (t.hour as i64) * 3600 + (t.minute as i64) * 60 + (t.second as i64);
    secs * 1_000_000 + (t.microsecond as i64)
}

/// Microseconds elapsed since midnight. The 64-bit microsecond count exists
/// for every valid time of day, so encoding always succeeds; the `Result`
/// keeps overflow reporting structural, as for the wider codecs.
pub fn encode_time(t: &TimeOfDay) -> (r: Result<i64, CodecError>)
    requires
        t.valid(),
    ensures
        r == Ok::<i64, CodecError>(time_to_micros(*t) as i64),
        0 <= time_to_micros(*t) < USECS_PER_DAY,
{
    Ok(time_micros(t))
}

/// Midnight plus `raw_microseconds` microseconds. The wire source guarantees
/// a count inside one day; a count outside that range is rejected at the
/// wire boundary rather than wrapped (see `time_from_wire`).
pub fn decode_time(raw_microseconds: i64) -> (t: TimeOfDay)
    requires
        0 <= raw_microseconds < USECS_PER_DAY,
    ensures
        t.valid(),
        time_to_micros(t) == raw_microseconds,
{
    let u: u64 = raw_microseconds as u64;
    let micro: u64 = u % 1_000_000;
    let s: u64 = u / 1_000_000;
    proof {
        lemma_fundamental_div_mod(u as int, 1_000_000);
        lemma_mod_division_less_than_divisor(u as int, 1_000_000);
        lemma_multiply_divide_lt(u as int, 1_000_000, 86_400);
    }
    let second: u64 = s % 60;
    let mi: u64 = s / 60;
    proof {
        lemma_fundamental_div_mod(s as int, 60);
        lemma_mod_division_less_than_divisor(s as int, 60);
        lemma_multiply_divide_lt(s as int, 60, 1440);
    }
    let minute: u64 = mi % 60;
    let hour: u64 = mi / 60;
    proof {
        lemma_fundamental_div_mod(mi as int, 60);
        lemma_mod_division_less_than_divisor(mi as int, 60);
        lemma_multiply_divide_lt(mi as int, 60, 24);
    }
    TimeOfDay {
        hour: hour as u8,
        minute: minute as u8,
        second: second as u8,
        microsecond: micro as u32,
    }
}

/// Round-trip law of the time codec: a microsecond count determines at most
/// one valid time of day, so decoding what a time encodes to yields that
/// time back.
pub proof fn lemma_time_round_trip(t1: TimeOfDay, t2: TimeOfDay)
    requires
        t1.valid(),
        t2.valid(),
        time_to_micros(t1) == time_to_micros(t2),
    ensures
        t1 == t2,
{
    let x = time_to_micros(t1);
    let s1 = (t1.hour * 60 + t1.minute) * 60 + t1.second;
    let s2 = (t2.hour * 60 + t2.minute) * 60 + t2.second;
    lemma_fundamental_div_mod_converse(x, 1_000_000, s1 as int, t1.microsecond as int);
    lemma_fundamental_div_mod_converse(x, 1_000_000, s2 as int, t2.microsecond as int);
    let m1 = t1.hour * 60 + t1.minute;
    let m2 = t2.hour * 60 + t2.minute;
    lemma_fundamental_div_mod_converse(s1 as int, 60, m1 as int, t1.second as int);
    lemma_fundamental_div_mod_converse(s2 as int, 60, m2 as int, t2.second as int);
    lemma_fundamental_div_mod_converse(m1 as int, 60, t1.hour as int, t1.minute as int);
    lemma_fundamental_div_mod_converse(m2 as int, 60, t2.hour as int, t2.minute as int);
}

} // verus!
