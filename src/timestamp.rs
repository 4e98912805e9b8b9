use vstd::prelude::*;

verus! {

pub const NANOS_PER_SECOND: u64 = 1_000_000_000;

/// A point in time as nanoseconds since the Unix epoch.
#[derive(Debug, Clone, Copy, PartialEq, Eq)]
pub struct Timestamp {
    pub nanos: u64,
}

/// The protobuf form of a point in time: whole seconds since the epoch and
/// the nanoseconds past the last whole second.
#[derive(Debug, Clone, Copy, PartialEq, Eq)]
pub struct ProtoTimestamp {
    pub seconds: i64,
    pub nanos: i32,
}

impl Timestamp {
    /// Whole seconds since the epoch.
    pub fn seconds(&self) -> (r: u64)
        ensures
            r == self.nanos / NANOS_PER_SECOND,
    {
        self.nanos / NANOS_PER_SECOND
    }

    /// Nanoseconds past the last whole second.
    pub fn subsec_nanos(&self) -> (r: u64)
        ensures
            r == self.nanos % NANOS_PER_SECOND,
    {
        self.nanos % NANOS_PER_SECOND
    }
}

/// Converts a timestamp to its protobuf form. The seconds of a `u64` count of
/// nanoseconds always fit in an `i64` and the sub-second part in an `i32`, so
/// the conversion is total.
pub fn convert_timestamp(timestamp: Timestamp) -> (r: ProtoTimestamp)
    ensures
        r.seconds == timestamp.nanos / NANOS_PER_SECOND,
        r.nanos == timestamp.nanos % NANOS_PER_SECOND,
        r.seconds * NANOS_PER_SECOND + r.nanos == timestamp.nanos,
{
    let seconds = timestamp.seconds();
    let nanos = timestamp.subsec_nanos();
    assert(seconds * NANOS_PER_SECOND + nanos == timestamp.nanos) by (nonlinear_arith)
        requires
            seconds == timestamp.nanos / NANOS_PER_SECOND,
            nanos == timestamp.nanos % NANOS_PER_SECOND,
            NANOS_PER_SECOND > 0,
    ;
    assert(seconds <= u64::MAX / NANOS_PER_SECOND) by (nonlinear_arith)
        requires
            seconds == timestamp.nanos / NANOS_PER_SECOND,
            NANOS_PER_SECOND > 0,
    ;
    ProtoTimestamp { seconds: seconds as i64, nanos: nanos as i32 }
}

} // verus!
