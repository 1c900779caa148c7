//! Civil date codec: proleptic-Gregorian calendar date <-> signed count of
//! days elapsed since the epoch date 2000-01-01.

use vstd::prelude::*;
use vstd::arithmetic::div_mod::*;

use crate::CodecError;

verus! {

/// A year is a leap year in the proleptic Gregorian calendar when it is
/// divisible by 4 but not by 100, unless it is also divisible by 400.
pub open spec fn is_leap_year(y: int) -> bool {
    y % 4 == 0 && (y % 100 != 0 || y % 400 == 0)
}

pub open spec fn days_in_year(y: int) -> int {
    if is_leap_year(y) {
        366
    } else {
        365
    }
}

/// Number of leap years strictly before year `y`, counted from year 1 and
/// extended to all integers by Euclidean (floor) division.
pub open spec fn leap_years_before(y: int) -> int {
    (y - 1) / 4 - (y - 1) / 100 + (y - 1) / 400
}

/// Signed count of days from 2000-01-01 to the first day of year `y`.
pub open spec fn days_to_year(y: int) -> int {
    365 * (y - 2000) + leap_years_before(y) - leap_years_before(2000)
}

/// Days of year `y` that precede the first day of month `m`.
pub open spec fn days_before_month(y: int, m: int) -> int {
    let l: int = if is_leap_year(y) {
        1
    } else {
        0
    };
    if m == 1 {
        0
    } else if m == 2 {
        31
    } else if m == 3 {
        59 + l
    } else if m == 4 {
        90 + l
    } else if m == 5 {
        120 + l
    } else if m == 6 {
        151 + l
    } else if m == 7 {
        181 + l
    } else if m == 8 {
        212 + l
    } else if m == 9 {
        243 + l
    } else if m == 10 {
        273 + l
    } else if m == 11 {
        304 + l
    } else {
        334 + l
    }
}

pub open spec fn days_in_month(y: int, m: int) -> int {
    let l: int = if is_leap_year(y) {
        1
    } else {
        0
    };
    if m == 2 {
        28 + l
    } else if m == 4 || m == 6 || m == 9 || m == 11 {
        30
    } else {
        31
    }
}

/// A proleptic-Gregorian calendar date with no time-of-day or zone component.
#[derive(Clone, Copy, PartialEq, Eq, Structural, Debug)]
pub struct CivilDate {
    pub year: i32,
    pub month: u8,
    pub day: u8,
}

impl CivilDate {
    /// The invariant of a civil date: an existing day of an existing month.
    pub open spec fn valid(self) -> bool {
        &&& 1 <= self.month <= 12
        &&& 1 <= self.day <= days_in_month(self.year as int, self.month as int)
    }
}

/// The mathematical model of the date codec: the signed day count from
/// 2000-01-01 to the date `d`.
pub open spec fn date_to_days(d: CivilDate) -> int {
    days_to_year(d.year as int) + days_before_month(d.year as int, d.month as int) + d.day - 1
}

/// For a positive divisor, the quotient grows by one exactly at multiples.
proof fn lemma_div_step(a: int, b: int)
    requires
        b > 0,
    ensures
        a / b - (a - 1) / b == if a % b == 0 {
            1int
        } else {
            0int
        },
{
    let q = a / b;
    let r = a % b;
    lemma_fundamental_div_mod(a, b);
    lemma_mod_division_less_than_divisor(a, b);
    if r == 0 {
        assert((q - 1) * b + (b - 1) == b * q - 1) by (nonlinear_arith);
        lemma_fundamental_div_mod_converse(a - 1, b, q - 1, b - 1);
    } else {
        assert(q * b + (r - 1) == b * q + r - 1) by (nonlinear_arith);
        lemma_fundamental_div_mod_converse(a - 1, b, q, r - 1);
    }
}

/// Divisibility by 400 implies divisibility by 100, and by 100 implies by 4.
proof fn lemma_leap_divisors(y: int)
    ensures
        y % 400 == 0 ==> y % 100 == 0,
        y % 100 == 0 ==> y % 4 == 0,
{
    if y % 400 == 0 {
        lemma_fundamental_div_mod(y, 400);
        lemma_fundamental_div_mod_converse(y, 100, 4 * (y / 400), 0);
    }
    if y % 100 == 0 {
        lemma_fundamental_div_mod(y, 100);
        lemma_fundamental_div_mod_converse(y, 4, 25 * (y / 100), 0);
    }
}

/// Crossing from year `y` to `y + 1` adds one leap year exactly when `y`
/// itself is a leap year.
proof fn lemma_leap_years_before_step(y: int)
    ensures
        leap_years_before(y + 1) == leap_years_before(y) + if is_leap_year(y) {
            1int
        } else {
            0int
        },
{
    lemma_div_step(y, 4);
    lemma_div_step(y, 100);
    lemma_div_step(y, 400);
    lemma_leap_divisors(y);
}

pub proof fn lemma_days_to_year_step(y: int)
    ensures
        days_to_year(y + 1) == days_to_year(y) + days_in_year(y),
{
    lemma_leap_years_before_step(y);
}

/// Each elapsed year contributes between 365 and 366 days.
pub proof fn lemma_days_to_year_bounds(y1: int, y2: int)
    requires
        y1 <= y2,
    ensures
        days_to_year(y1) + 365 * (y2 - y1) <= days_to_year(y2),
        days_to_year(y2) <= days_to_year(y1) + 366 * (y2 - y1),
    decreases y2 - y1,
{
    if y1 < y2 {
        lemma_days_to_year_bounds(y1, y2 - 1);
        lemma_days_to_year_step(y2 - 1);
    }
}

/// A valid date's day number lies within its own year.
pub proof fn lemma_date_to_days_bounds(d: CivilDate)
    requires
        d.valid(),
    ensures
        days_to_year(d.year as int) <= date_to_days(d) < days_to_year(d.year as int + 1),
{
    lemma_days_to_year_step(d.year as int);
}

/// Round-trip law of the date codec: a day count determines at most one valid
/// civil date, so decoding what a date encodes to yields that date back.
pub proof fn lemma_date_round_trip(d1: CivilDate, d2: CivilDate)
    requires
        d1.valid(),
        d2.valid(),
        date_to_days(d1) == date_to_days(d2),
    ensures
        d1 == d2,
{
    lemma_date_to_days_bounds(d1);
    lemma_date_to_days_bounds(d2);
    if d1.year < d2.year {
        lemma_days_to_year_bounds(d1.year as int + 1, d2.year as int);
        assert(false);
    }
    if d2.year < d1.year {
        lemma_days_to_year_bounds(d2.year as int + 1, d1.year as int);
        assert(false);
    }
    let y = d1.year as int;
    let m1 = d1.month as int;
    let m2 = d2.month as int;
    if m1 < m2 {
        assert(days_before_month(y, m1) + days_in_month(y, m1) <= days_before_month(y, m2));
        assert(false);
    }
    if m2 < m1 {
        assert(days_before_month(y, m2) + days_in_month(y, m2) <= days_before_month(y, m1));
        assert(false);
    }
    assert(d1.day == d2.day);
}

/// Whether year `y` is a leap year, decided over a nonnegative shift of `y`
/// so that all executable divisions act on unsigned values.
pub(crate) fn is_leap_exec(y: i64) -> (b: bool)
    requires
        -2_147_483_648 <= y <= 2_147_483_647,
    ensures
        b == is_leap_year(y as int),
{
    let z: u64 = (y + 2_400_000_000) as u64;
    proof {
        lemma_mod_multiples_vanish(600_000_000, y as int, 4);
        lemma_mod_multiples_vanish(24_000_000, y as int, 100);
        lemma_mod_multiples_vanish(6_000_000, y as int, 400);
    }
    (z % 4 == 0) && (z % 100 != 0 || z % 400 == 0)
}

pub(crate) fn days_in_year_exec(y: i64) -> (r: i64)
    requires
        -2_147_483_648 <= y <= 2_147_483_647,
    ensures
        r == days_in_year(y as int),
{
    if is_leap_exec(y) {
        366
    } else {
        365
    }
}

pub(crate) fn days_to_year_exec(y: i64) -> (r: i64)
    requires
        -2_147_483_648 <= y <= 2_147_483_647,
    ensures
        r == days_to_year(y as int),
{
    let z: u64 = (y - 1 + 2_400_000_000) as u64;
    proof {
        lemma_hoist_over_denominator(y - 1, 600_000_000, 4);
        lemma_hoist_over_denominator(y - 1, 24_000_000, 100);
        lemma_hoist_over_denominator(y - 1, 6_000_000, 400);
    }
    let leaps: i64 = ((z / 4) as i64 - 600_000_000) - ((z / 100) as i64 - 24_000_000) + ((z
        / 400) as i64 - 6_000_000);
    365 * (y - 2000) + leaps - 484
}

pub(crate) fn days_before_month_exec(y: i64, m: u8) -> (r: i64)
    requires
        -2_147_483_648 <= y <= 2_147_483_647,
        1 <= m <= 12,
    ensures
        r == days_before_month(y as int, m as int),
{
    let l: i64 = if is_leap_exec(y) {
        1
    } else {
        0
    };
    if m == 1 {
        0
    } else if m == 2 {
        31
    } else if m == 3 {
        59 + l
    } else if m == 4 {
        90 + l
    } else if m == 5 {
        120 + l
    } else if m == 6 {
        151 + l
    } else if m == 7 {
        181 + l
    } else if m == 8 {
        212 + l
    } else if m == 9 {
        243 + l
    } else if m == 10 {
        273 + l
    } else if m == 11 {
        304 + l
    } else {
        334 + l
    }
}

/// The signed day count from the epoch date to `d`; exact, never overflows
/// 64 bits for any valid date.
pub(crate) fn date_day_number(d: &CivilDate) -> (r: i64)
    requires
        d.valid(),
    ensures
        r == date_to_days(*d),
{
    let ytd: i64 = days_to_year_exec(d.year as i64);
    proof {
        if d.year >= 0 {
            lemma_days_to_year_bounds(0, d.year as int);
        } else {
            lemma_days_to_year_bounds(d.year as int, 0);
        }
    }
    let dbm: i64 = days_before_month_exec(d.year as i64, d.month);
    ytd + dbm + (d.day as i64) - 1
}

/// Computes the signed day difference between `d` and the epoch date
/// 2000-01-01. Fails with `Overflow` exactly when that difference does not
/// fit the 32-bit wire width.
pub fn encode_date(d: &CivilDate) -> (r: Result<i32, CodecError>)
    requires
        d.valid(),
    ensures
        r matches Ok(n) ==> n == date_to_days(*d),
        r is Ok <==> -2_147_483_648 <= date_to_days(*d) <= 2_147_483_647,
        r is Err ==> r == Err::<i32, CodecError>(CodecError::Overflow),
{
    let jd: i64 = date_day_number(d);
    if -2_147_483_648 <= jd && jd <= 2_147_483_647 {
        Ok(jd as i32)
    } else {
        Err(CodecError::Overflow)
    }
}

/// The epoch date plus `raw_day_count` days, by signed proleptic-Gregorian
/// calendar arithmetic. Succeeds for every 32-bit input.
pub fn decode_date(raw_day_count: i32) -> (d: CivilDate)
    ensures
        d.valid(),
        date_to_days(d) == raw_day_count as int,
{
    let n: i64 = raw_day_count as i64;
    let mut y: i64 = 2000;
    let mut days: i64 = 0;
    while days > n
        invariant
            -2_147_483_648 <= n <= 2_147_483_647,
            days == days_to_year(y as int),
            -6_000_000 <= y <= 2000,
            days <= 0,
        decreases days - n + 366,
    {
        proof {
            if y <= -5_900_000 {
                lemma_days_to_year_bounds(y as int, 2000);
                assert(false);
            }
            lemma_days_to_year_step(y as int - 1);
        }
        let diy: i64 = days_in_year_exec(y - 1);
        y = y - 1;
        days = days - diy;
        proof {
            lemma_days_to_year_bounds(y as int, 2000);
        }
    }
    let mut diy: i64 = days_in_year_exec(y);
    while days + diy <= n
        invariant
            -2_147_483_648 <= n <= 2_147_483_647,
            days == days_to_year(y as int),
            diy == days_in_year(y as int),
            -6_000_000 <= y <= 6_000_000,
            days <= n,
        decreases n - days,
    {
        proof {
            if y >= 5_900_000 {
                lemma_days_to_year_bounds(2000, y as int);
                assert(false);
            }
            lemma_days_to_year_step(y as int);
        }
        days = days + diy;
        y = y + 1;
        diy = days_in_year_exec(y);
    }
    let doy: i64 = n - days;
    let l: i64 = if is_leap_exec(y) {
        1
    } else {
        0
    };
    let (m, before): (u8, i64) = if doy < 31 {
        (1, 0)
    } else if doy < 59 + l {
        (2, 31)
    } else if doy < 90 + l {
        (3, 59 + l)
    } else if doy < 120 + l {
        (4, 90 + l)
    } else if doy < 151 + l {
        (5, 120 + l)
    } else if doy < 181 + l {
        (6, 151 + l)
    } else if doy < 212 + l {
        (7, 181 + l)
    } else if doy < 243 + l {
        (8, 212 + l)
    } else if doy < 273 + l {
        (9, 243 + l)
    } else if doy < 304 + l {
        (10, 273 + l)
    } else if doy < 334 + l {
        (11, 304 + l)
    } else {
        (12, 334 + l)
    };
    let day: i64 = doy - before + 1;
    CivilDate { year: y as i32, month: m, day: day as u8 }
}

} // verus!
