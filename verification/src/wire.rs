//! The byte-level wire boundary: fixed-width big-endian integers read and
//! written by `postgres_protocol`, and the caller-facing conversion
//! functions that pair a type tag with each codec family.

use vstd::prelude::*;

use crate::CodecError;
use crate::WireTemporalKind;
use crate::date::CivilDate;
use crate::date::date_to_days;
use crate::date::decode_date;
use crate::date::encode_date;
use crate::time::TimeOfDay;
use crate::time::USECS_PER_DAY;
use crate::time::decode_time;
use crate::time::encode_time;
use crate::time::time_to_micros;
use crate::timestamp::NaiveTimestamp;
use crate::timestamp::decode_timestamp;
use crate::timestamp::encode_timestamp;
use crate::timestamp::micros_representable;
use crate::timestamp::timestamp_to_micros;
use crate::zoned::ZonePolicy;
use crate::zoned::ZonedTimestamp;
use crate::zoned::attach_local_zone;
use crate::zoned::decode_zoned_fixed;
use crate::zoned::decode_zoned_utc;
use crate::zoned::encode_zoned;

verus! {

/// The value of a byte string read as an unsigned big-endian integer.
pub open spec fn be_unsigned_val(s: Seq<u8>) -> int
    decreases s.len(),
{
    if s.len() == 0 {
        0
    } else {
        256 * be_unsigned_val(s.drop_last()) + s.last()
    }
}

/// The value of an 8-byte string read as a big-endian two's-complement
/// signed 64-bit integer.
pub open spec fn be_i64_val(s: Seq<u8>) -> int {
    if be_unsigned_val(s) >= 0x8000_0000_0000_0000 {
        be_unsigned_val(s) - 0x1_0000_0000_0000_0000
    } else {
        be_unsigned_val(s)
    }
}

/// The value of a 4-byte string read as a big-endian two's-complement
/// signed 32-bit integer.
pub open spec fn be_i32_val(s: Seq<u8>) -> int {
    if be_unsigned_val(s) >= 0x8000_0000 {
        be_unsigned_val(s) - 0x1_0000_0000
    } else {
        be_unsigned_val(s)
    }
}

/// Relies on `postgres_protocol::types::timestamp_from_sql`: it reads exactly
/// one big-endian signed 64-bit integer and rejects a buffer of any other
/// length.
#[verifier::external_body]
pub(crate) fn read_timestamp_i64(raw: &[u8]) -> (r: Result<i64, CodecError>)
    ensures
        r is Ok <==> raw@.len() == 8,
        r matches Ok(v) ==> v == be_i64_val(raw@),
        r matches Err(e) ==> e == CodecError::MalformedWireData,
{
    match postgres_protocol::types::timestamp_from_sql(raw) {
        Ok(v) => Ok(v),
        Err(_) => Err(CodecError::MalformedWireData),
    }
}

/// Relies on `postgres_protocol::types::time_from_sql`: it reads exactly one
/// big-endian signed 64-bit integer and rejects a buffer of any other length.
#[verifier::external_body]
pub(crate) fn read_time_i64(raw: &[u8]) -> (r: Result<i64, CodecError>)
    ensures
        r is Ok <==> raw@.len() == 8,
        r matches Ok(v) ==> v == be_i64_val(raw@),
        r matches Err(e) ==> e == CodecError::MalformedWireData,
{
    match postgres_protocol::types::time_from_sql(raw) {
        Ok(v) => Ok(v),
        Err(_) => Err(CodecError::MalformedWireData),
    }
}

/// Relies on `postgres_protocol::types::date_from_sql`: it reads exactly one
/// big-endian signed 32-bit integer and rejects a buffer of any other length.
#[verifier::external_body]
pub(crate) fn read_date_i32(raw: &[u8]) -> (r: Result<i32, CodecError>)
    ensures
        r is Ok <==> raw@.len() == 4,
        r matches Ok(v) ==> v == be_i32_val(raw@),
        r matches Err(e) ==> e == CodecError::MalformedWireData,
{
    match postgres_protocol::types::date_from_sql(raw) {
        Ok(v) => Ok(v),
        Err(_) => Err(CodecError::MalformedWireData),
    }
}

/// Relies on `postgres_protocol::types::timestamp_to_sql`: it appends the
/// eight big-endian bytes of the value to the buffer.
#[verifier::external_body]
pub(crate) fn write_timestamp_i64(v: i64, out: &mut Vec<u8>)
    ensures
        final(out)@.len() == old(out)@.len() + 8,
        final(out)@.subrange(0, old(out)@.len() as int) == old(out)@,
        be_i64_val(final(out)@.subrange(old(out)@.len() as int, final(out)@.len() as int)) == v,
{
    let mut buf = bytes::BytesMut::new();
    postgres_protocol::types::timestamp_to_sql(v, &mut buf);
    out.extend_from_slice(&buf);
}

/// Relies on `postgres_protocol::types::time_to_sql`: it appends the eight
/// big-endian bytes of the value to the buffer.
#[verifier::external_body]
pub(crate) fn write_time_i64(v: i64, out: &mut Vec<u8>)
    ensures
        final(out)@.len() == old(out)@.len() + 8,
        final(out)@.subrange(0, old(out)@.len() as int) == old(out)@,
        be_i64_val(final(out)@.subrange(old(out)@.len() as int, final(out)@.len() as int)) == v,
{
    let mut buf = bytes::BytesMut::new();
    postgres_protocol::types::time_to_sql(v, &mut buf);
    out.extend_from_slice(&buf);
}

/// Relies on `postgres_protocol::types::date_to_sql`: it appends the four
/// big-endian bytes of the value to the buffer.
#[verifier::external_body]
pub(crate) fn write_date_i32(v: i32, out: &mut Vec<u8>)
    ensures
        final(out)@.len() == old(out)@.len() + 4,
        final(out)@.subrange(0, old(out)@.len() as int) == old(out)@,
        be_i32_val(final(out)@.subrange(old(out)@.len() as int, final(out)@.len() as int)) == v,
{
    let mut buf = bytes::BytesMut::new();
    postgres_protocol::types::date_to_sql(v, &mut buf);
    out.extend_from_slice(&buf);
}

/// Decodes a `Date` column's wire bytes into a civil date.
pub fn date_from_wire(kind: WireTemporalKind, raw: &[u8]) -> (r: Result<CivilDate, CodecError>)
    ensures
        !(kind is Date) ==> r == Err::<CivilDate, CodecError>(CodecError::TypeMismatch),
        kind is Date && raw@.len() != 4 ==> r == Err::<CivilDate, CodecError>(
            CodecError::MalformedWireData,
        ),
        kind is Date && raw@.len() == 4 ==> (r matches Ok(d) && d.valid() && date_to_days(d)
            == be_i32_val(raw@)),
{
    if kind != WireTemporalKind::Date {
        return Err(CodecError::TypeMismatch);
    }
    match read_date_i32(raw) {
        Ok(v) => Ok(decode_date(v)),
        Err(e) => Err(e),
    }
}

/// Encodes a civil date onto the wire as its signed day count since the
/// epoch date; the buffer is left untouched on any failure.
pub fn date_to_wire(d: &CivilDate, kind: WireTemporalKind, out: &mut Vec<u8>) -> (r: Result<
    (),
    CodecError,
>)
    requires
        d.valid(),
    ensures
        !(kind is Date) ==> r == Err::<(), CodecError>(CodecError::TypeMismatch) && final(out)@ == old(out)@,
        kind is Date && !(-2_147_483_648 <= date_to_days(*d) <= 2_147_483_647) ==> r == Err::<
            (),
            CodecError,
        >(CodecError::Overflow) && final(out)@ == old(out)@,
        kind is Date && -2_147_483_648 <= date_to_days(*d) <= 2_147_483_647 ==> {
            &&& r == Ok::<(), CodecError>(())
            &&& final(out)@.len() == old(out)@.len() + 4
            &&& final(out)@.subrange(0, old(out)@.len() as int) == old(out)@
            &&& be_i32_val(final(out)@.subrange(old(out)@.len() as int, final(out)@.len() as int))
                == date_to_days(*d)
        },
{
    if kind != WireTemporalKind::Date {
        return Err(CodecError::TypeMismatch);
    }
    match encode_date(d) {
        Ok(v) => {
            write_date_i32(v, out);
            Ok(())
        },
        Err(e) => Err(e),
    }
}

/// Decodes a `Time` column's wire bytes into a time of day. A microsecond
/// count outside one day is rejected as malformed rather than wrapped: the
/// wire source guarantees the range, and this codec validates it instead of
/// denormalizing.
pub fn time_from_wire(kind: WireTemporalKind, raw: &[u8]) -> (r: Result<TimeOfDay, CodecError>)
    ensures
        !(kind is Time) ==> r == Err::<TimeOfDay, CodecError>(CodecError::TypeMismatch),
        kind is Time && raw@.len() != 8 ==> r == Err::<TimeOfDay, CodecError>(
            CodecError::MalformedWireData,
        ),
        kind is Time && raw@.len() == 8 && !(0 <= be_i64_val(raw@) < USECS_PER_DAY) ==> r == Err::<
            TimeOfDay,
            CodecError,
        >(CodecError::MalformedWireData),
        kind is Time && raw@.len() == 8 && 0 <= be_i64_val(raw@) < USECS_PER_DAY ==> (r matches Ok(
        t) && t.valid() && time_to_micros(t) == be_i64_val(raw@)),
{
    if kind != WireTemporalKind::Time {
        return Err(CodecError::TypeMismatch);
    }
    match read_time_i64(raw) {
        Ok(v) => {
            if 0 <= v && v < USECS_PER_DAY {
                Ok(decode_time(v))
            } else {
                Err(CodecError::MalformedWireData)
            }
        },
        Err(e) => Err(e),
    }
}

/// Encodes a time of day onto the wire as its microsecond count since
/// midnight; the buffer is left untouched on any failure.
pub fn time_to_wire(t: &TimeOfDay, kind: WireTemporalKind, out: &mut Vec<u8>) -> (r: Result<
    (),
    CodecError,
>)
    requires
        t.valid(),
    ensures
        !(kind is Time) ==> r == Err::<(), CodecError>(CodecError::TypeMismatch) && final(out)@ == old(out)@,
        kind is Time ==> {
            &&& r == Ok::<(), CodecError>(())
            &&& final(out)@.len() == old(out)@.len() + 8
            &&& final(out)@.subrange(0, old(out)@.len() as int) == old(out)@
            &&& be_i64_val(final(out)@.subrange(old(out)@.len() as int, final(out)@.len() as int))
                == time_to_micros(*t)
        },
{
    if kind != WireTemporalKind::Time {
        return Err(CodecError::TypeMismatch);
    }
    match encode_time(t) {
        Ok(v) => {
            write_time_i64(v, out);
            Ok(())
        },
        Err(e) => Err(e),
    }
}

/// Decodes a `Timestamp` column's wire bytes into a naive timestamp; every
/// well-formed buffer decodes successfully.
pub fn timestamp_from_wire(kind: WireTemporalKind, raw: &[u8]) -> (r: Result<
    NaiveTimestamp,
    CodecError,
>)
    ensures
        !(kind is Timestamp) ==> r == Err::<NaiveTimestamp, CodecError>(CodecError::TypeMismatch),
        kind is Timestamp && raw@.len() != 8 ==> r == Err::<NaiveTimestamp, CodecError>(
            CodecError::MalformedWireData,
        ),
        kind is Timestamp && raw@.len() == 8 ==> (r matches Ok(t) && t.valid()
            && timestamp_to_micros(t) == be_i64_val(raw@)),
{
    if kind != WireTemporalKind::Timestamp {
        return Err(CodecError::TypeMismatch);
    }
    match read_timestamp_i64(raw) {
        Ok(v) => Ok(decode_timestamp(v)),
        Err(e) => Err(e),
    }
}

/// Encodes a naive timestamp onto the wire as its microsecond count since
/// the epoch instant; the buffer is left untouched on any failure.
pub fn timestamp_to_wire(t: &NaiveTimestamp, kind: WireTemporalKind, out: &mut Vec<u8>) -> (r:
    Result<(), CodecError>)
    requires
        t.valid(),
    ensures
        !(kind is Timestamp) ==> r == Err::<(), CodecError>(CodecError::TypeMismatch) && final(out)@
            == old(out)@,
        kind is Timestamp && !micros_representable(*t) ==> r == Err::<(), CodecError>(
            CodecError::Overflow,
        ) && final(out)@ == old(out)@,
        kind is Timestamp && micros_representable(*t) ==> {
            &&& r == Ok::<(), CodecError>(())
            &&& final(out)@.len() == old(out)@.len() + 8
            &&& final(out)@.subrange(0, old(out)@.len() as int) == old(out)@
            &&& be_i64_val(final(out)@.subrange(old(out)@.len() as int, final(out)@.len() as int))
                == timestamp_to_micros(*t)
        },
{
    if kind != WireTemporalKind::Timestamp {
        return Err(CodecError::TypeMismatch);
    }
    match encode_timestamp(t) {
        Ok(v) => {
            write_timestamp_i64(v, out);
            Ok(())
        },
        Err(e) => Err(e),
    }
}

/// Decodes a `TimestampWithZone` column's wire bytes as a UTC instant.
pub fn zoned_from_wire_utc(kind: WireTemporalKind, raw: &[u8]) -> (r: Result<
    ZonedTimestamp,
    CodecError,
>)
    ensures
        !(kind is TimestampWithZone) ==> r == Err::<ZonedTimestamp, CodecError>(
            CodecError::TypeMismatch,
        ),
        kind is TimestampWithZone && raw@.len() != 8 ==> r == Err::<ZonedTimestamp, CodecError>(
            CodecError::MalformedWireData,
        ),
        kind is TimestampWithZone && raw@.len() == 8 ==> (r matches Ok(z) && z.valid()
            && timestamp_to_micros(z.instant) == be_i64_val(raw@) && z.zone == ZonePolicy::Utc),
{
    if kind != WireTemporalKind::TimestampWithZone {
        return Err(CodecError::TypeMismatch);
    }
    match read_timestamp_i64(raw) {
        Ok(v) => Ok(decode_zoned_utc(v)),
        Err(e) => Err(e),
    }
}

/// Decodes a `TimestampWithZone` column's wire bytes and attaches the system
/// local zone's offset for the decoded instant. Failure of the zone service
/// propagates as a conversion error, never silently.
pub fn zoned_from_wire_local(kind: WireTemporalKind, raw: &[u8]) -> (r: Result<
    ZonedTimestamp,
    CodecError,
>)
    ensures
        !(kind is TimestampWithZone) ==> r == Err::<ZonedTimestamp, CodecError>(
            CodecError::TypeMismatch,
        ),
        kind is TimestampWithZone && raw@.len() != 8 ==> r == Err::<ZonedTimestamp, CodecError>(
            CodecError::MalformedWireData,
        ),
        kind is TimestampWithZone && raw@.len() == 8 ==> (r matches Ok(z) ==> z.valid()
            && timestamp_to_micros(z.instant) == be_i64_val(raw@) && (z.zone matches ZonePolicy::Local { .. })),
        kind is TimestampWithZone && raw@.len() == 8 && r is Err ==> r == Err::<
            ZonedTimestamp,
            CodecError,
        >(CodecError::LocalZoneUnresolved),
{
    if kind != WireTemporalKind::TimestampWithZone {
        return Err(CodecError::TypeMismatch);
    }
    match read_timestamp_i64(raw) {
        Ok(v) => attach_local_zone(v),
        Err(e) => Err(e),
    }
}

/// Decodes a `TimestampWithZone` column's wire bytes and attaches a fixed
/// offset of zero. The wire format carries no offset, only an absolute
/// instant, so a fixed-offset value materialized on decode always reports
/// offset zero; a caller needing another target offset must shift explicitly
/// after decode.
pub fn zoned_from_wire_fixed(kind: WireTemporalKind, raw: &[u8]) -> (r: Result<
    ZonedTimestamp,
    CodecError,
>)
    ensures
        !(kind is TimestampWithZone) ==> r == Err::<ZonedTimestamp, CodecError>(
            CodecError::TypeMismatch,
        ),
        kind is TimestampWithZone && raw@.len() != 8 ==> r == Err::<ZonedTimestamp, CodecError>(
            CodecError::MalformedWireData,
        ),
        kind is TimestampWithZone && raw@.len() == 8 ==> (r matches Ok(z) && z.valid()
            && timestamp_to_micros(z.instant) == be_i64_val(raw@) && z.zone == (
        ZonePolicy::Fixed { offset_seconds: 0 }) && z.zone.spec_offset_seconds() == 0),
{
    if kind != WireTemporalKind::TimestampWithZone {
        return Err(CodecError::TypeMismatch);
    }
    match read_timestamp_i64(raw) {
        Ok(v) => Ok(decode_zoned_fixed(v)),
        Err(e) => Err(e),
    }
}

/// Encodes a zoned timestamp onto the wire: always the UTC naive-timestamp
/// encoding of its instant, whatever the zone policy; the buffer is left
/// untouched on any failure.
pub fn zoned_to_wire(z: &ZonedTimestamp, kind: WireTemporalKind, out: &mut Vec<u8>) -> (r: Result<
    (),
    CodecError,
>)
    requires
        z.valid(),
    ensures
        !(kind is TimestampWithZone) ==> r == Err::<(), CodecError>(CodecError::TypeMismatch)
            && final(out)@ == old(out)@,
        kind is TimestampWithZone && !micros_representable(z.instant) ==> r == Err::<
            (),
            CodecError,
        >(CodecError::Overflow) && final(out)@ == old(out)@,
        kind is TimestampWithZone && micros_representable(z.instant) ==> {
            &&& r == Ok::<(), CodecError>(())
            &&& final(out)@.len() == old(out)@.len() + 8
            &&& final(out)@.subrange(0, old(out)@.len() as int) == old(out)@
            &&& be_i64_val(final(out)@.subrange(old(out)@.len() as int, final(out)@.len() as int))
                == timestamp_to_micros(z.instant)
        },
{
    if kind != WireTemporalKind::TimestampWithZone {
        return Err(CodecError::TypeMismatch);
    }
    match encode_zoned(z) {
        Ok(v) => {
            write_timestamp_i64(v, out);
            Ok(())
        },
        Err(e) => Err(e),
    }
}

} // verus!
