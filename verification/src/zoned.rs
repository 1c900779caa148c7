//! Timezone-aware timestamp codec: wraps the naive codec, adding UTC
//! normalization and the zone-attachment policies UTC, system-local and
//! fixed-offset. The canonical wire form of every zoned value is the naive
//! UTC encoding of its instant; the zone attribute is display information
//! reconstructed after decode, never part of the bytes.

use vstd::prelude::*;
use vstd::arithmetic::div_mod::*;

use crate::CodecError;
use crate::timestamp::NaiveTimestamp;
use crate::timestamp::decode_timestamp;
use crate::timestamp::encode_timestamp;
use crate::timestamp::lemma_timestamp_round_trip;
use crate::timestamp::micros_representable;
use crate::timestamp::timestamp_to_micros;

verus! {

/// The zone-attachment policy of a zoned timestamp, used only for display
/// and reconstruction.
#[derive(Clone, Copy, PartialEq, Eq, Structural, Debug)]
pub enum ZonePolicy {
    /// The instant is read as UTC itself.
    Utc,
    /// The system's local zone, resolved at conversion time; carries the
    /// offset that the zone service reported for the instant.
    Local { offset_seconds: i32 },
    /// A constant offset; the wire carries no offset, so decode always
    /// materializes zero here.
    Fixed { offset_seconds: i32 },
}

impl ZonePolicy {
    /// Seconds to add to the UTC reading to obtain the displayed wall clock.
    pub open spec fn spec_offset_seconds(self) -> int {
        match self {
            ZonePolicy::Utc => 0,
            ZonePolicy::Local { offset_seconds } => offset_seconds as int,
            ZonePolicy::Fixed { offset_seconds } => offset_seconds as int,
        }
    }

    /// A legal UTC offset is strictly smaller than one day in magnitude.
    pub open spec fn wf(self) -> bool {
        -86_400 < self.spec_offset_seconds() < 86_400
    }
}

/// An absolute instant in time (its UTC wall-clock reading) together with a
/// zone-attachment policy.
#[derive(Clone, Copy, PartialEq, Eq, Structural, Debug)]
pub struct ZonedTimestamp {
    pub instant: NaiveTimestamp,
    pub zone: ZonePolicy,
}

impl ZonedTimestamp {
    pub open spec fn valid(self) -> bool {
        self.instant.valid() && self.zone.wf()
    }

    /// The attached zone's offset from UTC, in seconds.
    pub fn offset_seconds(&self) -> (r: i32)
        ensures
            r == self.zone.spec_offset_seconds(),
    {
        match self.zone {
            ZonePolicy::Utc => 0,
            ZonePolicy::Local { offset_seconds } => offset_seconds,
            ZonePolicy::Fixed { offset_seconds } => offset_seconds,
        }
    }
}

/// Relies on chrono: `DateTime::from_timestamp` builds the UTC instant for a
/// unix-epoch second count within chrono's representable range, and
/// `Local::offset_from_utc_datetime` resolves the system zone's offset for
/// that instant. A resolved `chrono::FixedOffset` is strictly smaller than
/// one day in magnitude by construction. The lookup trusts the system zone
/// database; chrono aborts on a corrupt one.
#[verifier::external_body]
fn system_local_offset_seconds(unix_seconds: i64) -> (r: Option<i32>)
    ensures
        r matches Some(off) ==> -86_400 < off < 86_400,
{
    chrono::DateTime::from_timestamp(unix_seconds, 0).map(
        |dt| chrono::TimeZone::offset_from_utc_datetime(
            &chrono::Local,
            &dt.naive_utc(),
        ).local_minus_utc(),
    )
}

/// The unix-epoch second count (rounded toward minus infinity) of an
/// instant given as microseconds since 2000-01-01 00:00:00 UTC.
fn unix_seconds_of_micros(micros: i64) -> (r: i64)
    ensures
        r == micros / 1_000_000 + 946_684_800,
{
    let s: i64 = if micros >= 0 {
        let u: u64 = micros as u64;
        (u / 1_000_000) as i64
    } else {
        let u: u64 = (-(micros + 1)) as u64;
        let q0: u64 = u / 1_000_000;
        let r0: u64 = u % 1_000_000;
        proof {
            lemma_fundamental_div_mod(u as int, 1_000_000);
            lemma_mod_division_less_than_divisor(u as int, 1_000_000);
            lemma_fundamental_div_mod_converse(
                micros as int,
                1_000_000,
                -(q0 as int) - 1,
                1_000_000 - (r0 as int) - 1,
            );
        }
        -(q0 as i64) - 1
    };
    s + 946_684_800
}

/// Decodes a microsecond offset as a UTC instant: the zone attachment is the
/// identity.
pub fn decode_zoned_utc(raw_microseconds: i64) -> (z: ZonedTimestamp)
    ensures
        z.valid(),
        timestamp_to_micros(z.instant) == raw_microseconds,
        z.zone == ZonePolicy::Utc,
{
    ZonedTimestamp { instant: decode_timestamp(raw_microseconds), zone: ZonePolicy::Utc }
}

/// Decodes a microsecond offset as a UTC instant and attaches the offset
/// that the system zone service resolves for it; an unresolvable zone is
/// reported, never swallowed. Whatever offset the service returns, the
/// instant itself is exact.
pub fn attach_local_zone(raw_microseconds: i64) -> (r: Result<ZonedTimestamp, CodecError>)
    ensures
        r matches Ok(z) ==> z.valid() && timestamp_to_micros(z.instant) == raw_microseconds
            && z.zone matches ZonePolicy::Local { .. },
        r is Err ==> r == Err::<ZonedTimestamp, CodecError>(CodecError::LocalZoneUnresolved),
{
    let instant: NaiveTimestamp = decode_timestamp(raw_microseconds);
    let secs: i64 = unix_seconds_of_micros(raw_microseconds);
    match system_local_offset_seconds(secs) {
        Some(off) => Ok(
            ZonedTimestamp { instant, zone: ZonePolicy::Local { offset_seconds: off } },
        ),
        None => Err(CodecError::LocalZoneUnresolved),
    }
}

/// Decodes a microsecond offset as a UTC instant and attaches a fixed
/// offset of zero, the only offset the wire can justify.
pub fn decode_zoned_fixed(raw_microseconds: i64) -> (z: ZonedTimestamp)
    ensures
        z.valid(),
        timestamp_to_micros(z.instant) == raw_microseconds,
        z.zone == (ZonePolicy::Fixed { offset_seconds: 0 }),
        z.zone.spec_offset_seconds() == 0,
{
    ZonedTimestamp {
        instant: decode_timestamp(raw_microseconds),
        zone: ZonePolicy::Fixed { offset_seconds: 0 },
    }
}

/// Encodes the canonical wire form of a zoned timestamp: the microsecond
/// offset of its UTC instant. The zone policy never reaches the wire —
/// Local and Fixed values encode exactly as their UTC instant does.
pub fn encode_zoned(z: &ZonedTimestamp) -> (r: Result<i64, CodecError>)
    requires
        z.valid(),
    ensures
        r matches Ok(v) ==> v == timestamp_to_micros(z.instant),
        r is Ok <==> micros_representable(z.instant),
        r is Err ==> r == Err::<i64, CodecError>(CodecError::Overflow),
{
    encode_timestamp(&z.instant)
}

/// Zone-normalization law: the wire value of a Local-tagged timestamp is a
/// function of its absolute instant alone, and only one valid instant
/// yields a given wire value — so encoding a Local value and decoding the
/// bytes as UTC preserves the absolute instant, even though the local
/// wall-clock fields may differ from UTC's.
pub proof fn lemma_local_encode_utc_decode(z: ZonedTimestamp, u: NaiveTimestamp)
    requires
        z.valid(),
        z.zone matches ZonePolicy::Local { .. },
        u.valid(),
        timestamp_to_micros(u) == timestamp_to_micros(z.instant),
    ensures
        u == z.instant,
{
    lemma_timestamp_round_trip(u, z.instant);
}

} // verus!
