//! Codec between in-memory calendar/time values and the fixed-width binary
//! wire representation used by PostgreSQL's temporal column types.
//!
//! All wire encodings are integer counts of elapsed days or microseconds from
//! a fixed epoch (civil date 2000-01-01, time 00:00:00), laid out as
//! fixed-width big-endian signed integers by the byte-level reader/writer of
//! the `postgres_protocol` crate.

use vstd::prelude::*;

pub mod date;
pub mod time;
pub mod timestamp;
pub mod wire;
pub mod zoned;

verus! {

/// The logical wire type of a temporal column; supplied by the caller to
/// select which codec family applies, never inferred from the bytes.
#[derive(Clone, Copy, PartialEq, Eq, Structural, Debug)]
pub enum WireTemporalKind {
    Date,
    Time,
    Timestamp,
    TimestampWithZone,
}

/// The failures a conversion can report; no conversion panics.
#[derive(Clone, Copy, PartialEq, Eq, Structural, Debug)]
pub enum CodecError {
    /// Raised on encode: the value's offset from the epoch does not fit the
    /// wire integer's width ("value too large to transmit").
    Overflow,
    /// Raised on decode: the byte-level reader could not extract the expected
    /// fixed-width integer, or a time-of-day count lay outside one day.
    MalformedWireData,
    /// The supplied type tag is not one the called codec accepts.
    TypeMismatch,
    /// The system time zone service could not resolve an offset for the
    /// decoded instant.
    LocalZoneUnresolved,
}

} // verus!
